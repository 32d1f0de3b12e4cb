use vstd::prelude::*;

use crate::element::{
    choice_operands, is_choice_combination, is_default_annotated, is_sequence_combination,
    sequence_operands, Element, LookaheadKind,
};
use crate::loop_range::lemma_once_renders_empty;
use crate::render::{choice_sep, joined_text, render_text, sequence_sep};

verus! {

/// A default-annotated element — any element straight out of a leaf
/// constructor or a combinator — carries no lookahead, and its loop suffix
/// renders as the empty text.
pub proof fn lemma_default_annotations_render_invisibly(e: Element)
    requires
        is_default_annotated(e),
    ensures
        e.lookahead_kind == LookaheadKind::Normal,
        e.loop_count.spec_suffix() == Seq::<char>::empty(),
{
    lemma_once_renders_empty(e.loop_count);
}

/// Flattening associativity for the sequence combinator: whether the first
/// two or the last two of three elements are combined first, the final node
/// has the same flat operand list and renders to the identical text.
pub proof fn lemma_sequence_associative(
    a: Element,
    b: Element,
    c: Element,
    ab: Element,
    bc: Element,
    l: Element,
    r: Element,
)
    requires
        is_sequence_combination(ab, a, b),
        is_sequence_combination(bc, b, c),
        is_sequence_combination(l, ab, c),
        is_sequence_combination(r, a, bc),
    ensures
        l.kind->Sequence_0@ == r.kind->Sequence_0@,
        render_text(l) == render_text(r),
{
    assert(l.kind->Sequence_0@ =~= r.kind->Sequence_0@);
    lemma_once_renders_empty(l.loop_count);
    lemma_once_renders_empty(r.loop_count);
    assert(render_text(l) == render_text(r));
}

/// Flattening associativity for the choice combinator, stated as for the
/// sequence combinator.
pub proof fn lemma_choice_associative(
    a: Element,
    b: Element,
    c: Element,
    ab: Element,
    bc: Element,
    l: Element,
    r: Element,
)
    requires
        is_choice_combination(ab, a, b),
        is_choice_combination(bc, b, c),
        is_choice_combination(l, ab, c),
        is_choice_combination(r, a, bc),
    ensures
        l.kind->Choice_0@ == r.kind->Choice_0@,
        render_text(l) == render_text(r),
{
    assert(l.kind->Choice_0@ =~= r.kind->Choice_0@);
    lemma_once_renders_empty(l.loop_count);
    lemma_once_renders_empty(r.loop_count);
    assert(render_text(l) == render_text(r));
}

/// When none of three operands itself dissolves into children, two chained
/// sequence combinations render as the flat form `(A + B + C)`: one pair of
/// parentheses, the three operands' own texts in order.
pub proof fn lemma_sequence_flat_render(a: Element, b: Element, c: Element, ab: Element, l: Element)
    requires
        is_sequence_combination(ab, a, b),
        is_sequence_combination(l, ab, c),
        sequence_operands(a) == seq![a],
        sequence_operands(b) == seq![b],
        sequence_operands(c) == seq![c],
    ensures
        render_text(l) == seq!['('] + render_text(a) + sequence_sep() + render_text(b)
            + sequence_sep() + render_text(c) + seq![')'],
{
    let cs = l.kind->Sequence_0@;
    assert(cs =~= seq![a, b, c]);
    assert(cs.drop_first() =~= seq![b, c]);
    assert(seq![b, c].drop_first() =~= seq![c]);
    assert(joined_text(seq![c], sequence_sep()) == render_text(c));
    assert(joined_text(seq![b, c], sequence_sep()) == render_text(b) + sequence_sep()
        + render_text(c));
    assert(joined_text(cs, sequence_sep()) == render_text(a) + sequence_sep() + (render_text(b)
        + sequence_sep() + render_text(c)));
    lemma_once_renders_empty(l.loop_count);
    assert(render_text(l) =~= seq!['('] + render_text(a) + sequence_sep() + render_text(b)
        + sequence_sep() + render_text(c) + seq![')']);
}

/// Order preservation: combining `a` with `b` by choice keeps `a`'s text
/// before `b`'s. When neither operand dissolves, the node renders as
/// `(A | B)` — never `(B | A)`.
pub proof fn lemma_choice_order(a: Element, b: Element, r: Element)
    requires
        is_choice_combination(r, a, b),
        choice_operands(a) == seq![a],
        choice_operands(b) == seq![b],
    ensures
        render_text(r) == seq!['('] + render_text(a) + choice_sep() + render_text(b) + seq![')'],
{
    let cs = r.kind->Choice_0@;
    assert(cs =~= seq![a, b]);
    assert(cs.drop_first() =~= seq![b]);
    assert(joined_text(seq![b], choice_sep()) == render_text(b));
    assert(joined_text(cs, choice_sep()) == render_text(a) + choice_sep() + render_text(b));
    lemma_once_renders_empty(r.loop_count);
    assert(render_text(r) =~= seq!['('] + render_text(a) + choice_sep() + render_text(b) + seq![
        ')',
    ]);
}

} // verus!
