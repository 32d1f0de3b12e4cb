use vstd::prelude::*;
use vstd::string::{StrSliceExecFns, StringExecFns};

use crate::element::{Element, ElementKind, LookaheadKind};

verus! {

/// The lookahead prefix: nothing for a normal match, `&` for a positive
/// lookahead, `!` for a negative one.
pub open spec fn lookahead_text(k: LookaheadKind) -> Seq<char> {
    match k {
        LookaheadKind::Normal => Seq::<char>::empty(),
        LookaheadKind::Positive => seq!['&'],
        LookaheadKind::Negative => seq!['!'],
    }
}

/// The separator between the children of a choice node.
pub open spec fn choice_sep() -> Seq<char> {
    seq![' ', '|', ' ']
}

/// The separator between the children of a sequence node.
pub open spec fn sequence_sep() -> Seq<char> {
    seq![' ', '+', ' ']
}

/// The canonical text of an element: lookahead prefix, then the kind's own
/// text, then the loop suffix.
pub open spec fn render_text(e: Element) -> Seq<char>
    decreases e, 2int, 0int,
{
    lookahead_text(e.lookahead_kind) + kind_text(e.kind) + e.loop_count.spec_suffix()
}

/// The text of a kind: the literal itself, the bracket expression itself,
/// `_` for the wildcard, and for a composite its fully rendered children
/// joined by the kind's separator inside one pair of parentheses.
pub open spec fn kind_text(k: ElementKind) -> Seq<char>
    decreases k, 1int, 0int,
{
    match k {
        ElementKind::Choice(cs) => seq!['('] + joined_text(cs@, choice_sep()) + seq![')'],
        ElementKind::Sequence(cs) => seq!['('] + joined_text(cs@, sequence_sep()) + seq![')'],
        ElementKind::Str(t) => t@,
        ElementKind::CharacterClass(t) => t@,
        ElementKind::Wildcard => seq!['_'],
    }
}

/// The elements' texts joined by `sep`.
pub open spec fn joined_text(elems: Seq<Element>, sep: Seq<char>) -> Seq<char>
    decreases elems, 0int, 0int,
{
    if elems.len() == 0 {
        Seq::<char>::empty()
    } else if elems.len() == 1 {
        render_text(elems[0])
    } else {
        render_text(elems[0]) + sep + joined_text(elems.drop_first(), sep)
    }
}

impl Element {
    /// Renders the element to its canonical text. Rendering is pure: it
    /// reads the tree and never changes it.
    pub fn render(&self) -> (s: String)
        ensures
            s@ == render_text(*self),
    {
        render_element(self)
    }
}

fn render_element(e: &Element) -> (s: String)
    ensures
        s@ == render_text(*e),
    decreases e, 2int, 0int,
{
    let mut out = String::new();
    match e.lookahead_kind {
        LookaheadKind::Normal => {},
        LookaheadKind::Positive => out.append("&"),
        LookaheadKind::Negative => out.append("!"),
    }
    proof {
        reveal_strlit("&");
        reveal_strlit("!");
        assert(out@ =~= lookahead_text(e.lookahead_kind));
    }
    let ghost prefix = out@;
    match &e.kind {
        ElementKind::Str(t) => {
            out.append(t.as_str());
            proof {
                assert(out@ =~= prefix + kind_text(e.kind));
            }
        },
        ElementKind::CharacterClass(t) => {
            out.append(t.as_str());
            proof {
                assert(out@ =~= prefix + kind_text(e.kind));
            }
        },
        ElementKind::Wildcard => {
            out.append("_");
            proof {
                reveal_strlit("_");
                assert(out@ =~= prefix + kind_text(e.kind));
            }
        },
        ElementKind::Choice(cs) => {
            out.append("(");
            if cs.len() > 0 {
                append_joined(&mut out, cs, 0, " | ");
            }
            out.append(")");
            proof {
                reveal_strlit("(");
                reveal_strlit(")");
                reveal_strlit(" | ");
                assert(" | "@ =~= choice_sep());
                assert(cs@.skip(0) =~= cs@);
                assert(out@ =~= prefix + kind_text(e.kind));
            }
        },
        ElementKind::Sequence(cs) => {
            out.append("(");
            if cs.len() > 0 {
                append_joined(&mut out, cs, 0, " + ");
            }
            out.append(")");
            proof {
                reveal_strlit("(");
                reveal_strlit(")");
                reveal_strlit(" + ");
                assert(" + "@ =~= sequence_sep());
                assert(cs@.skip(0) =~= cs@);
                assert(out@ =~= prefix + kind_text(e.kind));
            }
        },
    }
    let suffix = e.loop_count.render();
    out.append(suffix.as_str());
    proof {
        assert(out@ =~= render_text(*e));
    }
    out
}

fn append_joined(out: &mut String, cs: &Vec<Element>, from: usize, sep: &str)
    requires
        from < cs.len(),
    ensures
        final(out)@ == old(out)@ + joined_text(cs@.skip(from as int), sep@),
    decreases cs, 0int, cs.len() - from,
{
    let rendered = render_element(&cs[from]);
    out.append(rendered.as_str());
    if from + 1 < cs.len() {
        out.append(sep);
        append_joined(out, cs, from + 1, sep);
    }
    proof {
        let s = cs@.skip(from as int);
        assert(s[0] == cs@[from as int]);
        assert(s.drop_first() =~= cs@.skip(from as int + 1));
        assert(out@ =~= old(out)@ + joined_text(cs@.skip(from as int), sep@));
    }
}

} // verus!
