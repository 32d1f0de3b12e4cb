use vstd::prelude::*;
use vstd::string::StrSliceExecFns;

use crate::error::BuildError;
use crate::loop_range::{LoopRange, Maxable};
use crate::text::push_char;

verus! {

/// Whether an element is matched normally or only asserted as a zero-width
/// lookahead.
#[derive(Clone, Copy, Debug, PartialEq, Eq, Structural)]
pub enum LookaheadKind {
    /// An ordinary consuming match.
    Normal,
    /// A zero-width assertion that the element matches here.
    Positive,
    /// A zero-width assertion that the element does not match here.
    Negative,
}

/// The semantic content of one grammar-expression node.
#[derive(Debug, PartialEq)]
pub enum ElementKind {
    /// Ordered alternatives; the first one that matches wins.
    Choice(Vec<Element>),
    /// Elements that must all match consecutively, in order.
    Sequence(Vec<Element>),
    /// A literal string, matched verbatim.
    Str(String),
    /// One input character out of a bracket character class; the field holds
    /// the full compiled bracket expression, brackets included.
    CharacterClass(String),
    /// Any one input character.
    Wildcard,
}

/// One node of a grammar-expression tree: its content plus the lookahead and
/// repetition annotations applied to the node as a whole.
#[derive(Debug, PartialEq)]
pub struct Element {
    pub kind: ElementKind,
    pub lookahead_kind: LookaheadKind,
    pub loop_count: LoopRange,
}

/// Whether an element still carries the annotations every fresh element
/// starts with: no lookahead, repeated exactly once.
pub open spec fn is_default_annotated(e: Element) -> bool {
    e.lookahead_kind == LookaheadKind::Normal && e.loop_count.is_once()
}

/// The escape of one character for use inside a bracket expression: a literal
/// `[` or `]` gets a backslash, every other character stands as itself.
pub open spec fn escaped_char(c: char) -> Seq<char> {
    if c == '[' || c == ']' {
        seq!['\\', c]
    } else {
        seq![c]
    }
}

/// The pattern text with every literal bracket escaped.
pub open spec fn escape_brackets(s: Seq<char>) -> Seq<char>
    decreases s.len(),
{
    if s.len() == 0 {
        Seq::<char>::empty()
    } else {
        escaped_char(s[0]) + escape_brackets(s.drop_first())
    }
}

/// The full bracket expression built from a class pattern: the escaped
/// pattern wrapped in one pair of brackets.
pub open spec fn class_pattern(pat: Seq<char>) -> Seq<char> {
    seq!['['] + escape_brackets(pat) + seq![']']
}

/// Whether the regex engine accepts a pattern. Named, not spelled out: the
/// exact set of accepted patterns is the engine's, and it depends on the
/// pattern text alone.
pub uninterp spec fn regex_accepts(pattern: Seq<char>) -> bool;

/// Relies on `regex::Regex::new`: it returns `Ok` exactly when the pattern is
/// valid regex syntax within the default configuration, a fact of the pattern
/// text alone.
#[verifier::external_body]
fn regex_pattern_compiles(pattern: &str) -> (r: bool)
    ensures
        r == regex_accepts(pattern@),
{
    regex::Regex::new(pattern).is_ok()
}

proof fn lemma_escape_snoc(s: Seq<char>, c: char)
    ensures
        escape_brackets(s.push(c)) == escape_brackets(s) + escaped_char(c),
    decreases s.len(),
{
    if s.len() == 0 {
        assert(s.push(c)[0] == c);
        assert(s.push(c).drop_first() =~= Seq::<char>::empty());
        assert(escape_brackets(Seq::<char>::empty()) == Seq::<char>::empty());
        assert(escape_brackets(s.push(c)) == escaped_char(c) + escape_brackets(
            s.push(c).drop_first(),
        ));
        assert(escape_brackets(s.push(c)) =~= escape_brackets(s) + escaped_char(c));
    } else {
        lemma_escape_snoc(s.drop_first(), c);
        assert(s.push(c)[0] == s[0]);
        assert(s.push(c).drop_first() =~= s.drop_first().push(c));
        assert(escaped_char(s[0]) + (escape_brackets(s.drop_first()) + escaped_char(c)) =~= (
        escaped_char(s[0]) + escape_brackets(s.drop_first())) + escaped_char(c));
    }
}

/// Appends the pattern to `out` with every literal bracket escaped.
fn append_escaped(out: &mut String, pat: &str)
    ensures
        final(out)@ == old(out)@ + escape_brackets(pat@),
{
    let ghost prefix = out@;
    let n = pat.unicode_len();
    let mut i: usize = 0;
    while i < n
        invariant
            n == pat@.len(),
            i <= n,
            out@ == prefix + escape_brackets(pat@.take(i as int)),
        decreases n - i,
    {
        let c = pat.get_char(i);
        proof {
            lemma_escape_snoc(pat@.take(i as int), pat@[i as int]);
            assert(pat@.take(i as int).push(pat@[i as int]) =~= pat@.take(i + 1));
        }
        if c == '[' || c == ']' {
            push_char(out, '\\');
        }
        push_char(out, c);
        proof {
            assert(out@ =~= prefix + escape_brackets(pat@.take(i + 1)));
        }
        i = i + 1;
    }
    proof {
        assert(pat@.take(n as int) =~= pat@);
    }
}

/// Builds a literal-string leaf that matches `s` verbatim. Total: any string
/// is accepted as a literal.
pub fn str(s: &str) -> (e: Element)
    ensures
        e.kind matches ElementKind::Str(t) && t@ == s@,
        is_default_annotated(e),
{
    Element::new(ElementKind::Str(s.to_owned()))
}

/// Builds a character-class leaf from the inner contents of a bracket
/// expression. Literal brackets in `pat` are escaped, the result is wrapped
/// as `[...]`, and the wrapped pattern is handed to the regex engine; a
/// pattern the engine rejects fails with `InvalidCharacterClass` and yields
/// no element.
pub fn char(pat: &str) -> (r: Result<Element, BuildError>)
    ensures
        match r {
            Ok(e) => {
                &&& regex_accepts(class_pattern(pat@))
                &&& e.kind matches ElementKind::CharacterClass(t) && t@ == class_pattern(pat@)
                &&& is_default_annotated(e)
            },
            Err(e) => e == BuildError::InvalidCharacterClass && !regex_accepts(
                class_pattern(pat@),
            ),
        },
{
    let mut full = String::new();
    push_char(&mut full, '[');
    append_escaped(&mut full, pat);
    push_char(&mut full, ']');
    proof {
        assert(full@ =~= class_pattern(pat@));
    }
    if regex_pattern_compiles(full.as_str()) {
        Ok(Element::new(ElementKind::CharacterClass(full)))
    } else {
        Err(BuildError::InvalidCharacterClass)
    }
}

/// The list an element contributes to a choice node built by the `choice`
/// combinator: its own children when it is itself a choice node still
/// carrying the default annotations, else the element alone. A composite
/// that was given a lookahead or a loop range stays whole — annotating it
/// before recombining is the mechanism for grouping.
pub open spec fn choice_operands(e: Element) -> Seq<Element> {
    match e.kind {
        ElementKind::Choice(cs) => if is_default_annotated(e) {
            cs@
        } else {
            seq![e]
        },
        _ => seq![e],
    }
}

/// The list an element contributes to a sequence node built by the
/// `sequence` combinator; the counterpart of `choice_operands`.
pub open spec fn sequence_operands(e: Element) -> Seq<Element> {
    match e.kind {
        ElementKind::Sequence(cs) => if is_default_annotated(e) {
            cs@
        } else {
            seq![e]
        },
        _ => seq![e],
    }
}

/// What the `choice` combinator builds from `a` and `b`: a fresh
/// default-annotated choice node whose children are `a`'s contribution
/// followed by `b`'s, in that order.
pub open spec fn is_choice_combination(r: Element, a: Element, b: Element) -> bool {
    &&& r.kind matches ElementKind::Choice(cs) && cs@ == choice_operands(a) + choice_operands(b)
    &&& is_default_annotated(r)
}

/// What the `sequence` combinator builds; the counterpart of
/// `is_choice_combination`.
pub open spec fn is_sequence_combination(r: Element, a: Element, b: Element) -> bool {
    &&& r.kind matches ElementKind::Sequence(cs) && cs@ == sequence_operands(a)
        + sequence_operands(b)
    &&& is_default_annotated(r)
}

impl Element {
    /// Wraps a kind in a fresh element: no lookahead, repeated exactly once.
    pub fn new(kind: ElementKind) -> (e: Element)
        ensures
            e.kind == kind,
            is_default_annotated(e),
    {
        Element {
            kind,
            lookahead_kind: LookaheadKind::Normal,
            loop_count: LoopRange::once(),
        }
    }

    fn set_lookahead_kind(self, kind: LookaheadKind) -> (r: Result<Element, BuildError>)
        ensures
            match r {
                Ok(e) => {
                    &&& self.lookahead_kind == LookaheadKind::Normal
                    &&& e.kind == self.kind
                    &&& e.lookahead_kind == kind
                    &&& e.loop_count == self.loop_count
                },
                Err(e) => {
                    &&& e == BuildError::LookaheadAlreadySet
                    &&& self.lookahead_kind != LookaheadKind::Normal
                },
            },
    {
        if self.lookahead_kind == LookaheadKind::Normal {
            Ok(Element { lookahead_kind: kind, ..self })
        } else {
            Err(BuildError::LookaheadAlreadySet)
        }
    }

    /// Marks the element as a positive lookahead. Fails with
    /// `LookaheadAlreadySet`, keeping nothing, if a lookahead kind was
    /// already applied.
    pub fn pos(self) -> (r: Result<Element, BuildError>)
        ensures
            match r {
                Ok(e) => {
                    &&& self.lookahead_kind == LookaheadKind::Normal
                    &&& e.kind == self.kind
                    &&& e.lookahead_kind == LookaheadKind::Positive
                    &&& e.loop_count == self.loop_count
                },
                Err(e) => {
                    &&& e == BuildError::LookaheadAlreadySet
                    &&& self.lookahead_kind != LookaheadKind::Normal
                },
            },
    {
        self.set_lookahead_kind(LookaheadKind::Positive)
    }

    /// Marks the element as a negative lookahead. Fails with
    /// `LookaheadAlreadySet` under the same condition as `pos`.
    pub fn neg(self) -> (r: Result<Element, BuildError>)
        ensures
            match r {
                Ok(e) => {
                    &&& self.lookahead_kind == LookaheadKind::Normal
                    &&& e.kind == self.kind
                    &&& e.lookahead_kind == LookaheadKind::Negative
                    &&& e.loop_count == self.loop_count
                },
                Err(e) => {
                    &&& e == BuildError::LookaheadAlreadySet
                    &&& self.lookahead_kind != LookaheadKind::Normal
                },
            },
    {
        self.set_lookahead_kind(LookaheadKind::Negative)
    }

    /// Sets the loop range to exactly `times` repetitions, replacing any
    /// range set before.
    pub fn times(self, times: usize) -> (e: Element)
        ensures
            e.kind == self.kind,
            e.lookahead_kind == self.lookahead_kind,
            e.loop_count.spec_min() == times,
            e.loop_count.spec_max() == Maxable::Specified(times),
    {
        Element { loop_count: LoopRange::exactly(times), ..self }
    }

    /// Sets the loop range to `min` or more repetitions, unbounded above,
    /// replacing any range set before.
    pub fn min(self, min: usize) -> (e: Element)
        ensures
            e.kind == self.kind,
            e.lookahead_kind == self.lookahead_kind,
            e.loop_count.spec_min() == min,
            e.loop_count.spec_max() == Maxable::<usize>::Max,
    {
        Element { loop_count: LoopRange::at_least(min), ..self }
    }

    /// Sets the loop range to `[min, max]`, replacing any range set before.
    /// Fails with `InvalidLoopRange`, changing nothing, if `min > max`.
    pub fn min_to_max(self, min: usize, max: usize) -> (r: Result<Element, BuildError>)
        ensures
            match r {
                Ok(e) => {
                    &&& min <= max
                    &&& e.kind == self.kind
                    &&& e.lookahead_kind == self.lookahead_kind
                    &&& e.loop_count.spec_min() == min
                    &&& e.loop_count.spec_max() == Maxable::Specified(max)
                },
                Err(e) => e == BuildError::InvalidLoopRange && min > max,
            },
    {
        match LoopRange::validate_new(min, Maxable::Specified(max)) {
            Ok(lc) => Ok(Element { loop_count: lc, ..self }),
            Err(e) => Err(e),
        }
    }

    fn is_choice(&self) -> (b: bool)
        ensures
            b == (self.kind matches ElementKind::Choice(_)),
    {
        match self.kind {
            ElementKind::Choice(_) => true,
            _ => false,
        }
    }

    fn is_sequence(&self) -> (b: bool)
        ensures
            b == (self.kind matches ElementKind::Sequence(_)),
    {
        match self.kind {
            ElementKind::Sequence(_) => true,
            _ => false,
        }
    }

    fn to_choice_elements(self) -> (r: Vec<Element>)
        ensures
            r@ == choice_operands(self),
    {
        if self.is_choice() && self.lookahead_kind == LookaheadKind::Normal
            && self.loop_count.matches_once() {
            match self.kind {
                ElementKind::Choice(cs) => cs,
                _ => Vec::new(),
            }
        } else {
            vec![self]
        }
    }

    fn to_sequence_elements(self) -> (r: Vec<Element>)
        ensures
            r@ == sequence_operands(self),
    {
        if self.is_sequence() && self.lookahead_kind == LookaheadKind::Normal
            && self.loop_count.matches_once() {
            match self.kind {
                ElementKind::Sequence(cs) => cs,
                _ => Vec::new(),
            }
        } else {
            vec![self]
        }
    }

    /// Combines two elements into one flat ordered-choice node: each operand
    /// that is itself a default-annotated choice node dissolves into its
    /// children, so chained applications yield one n-ary node, never nested
    /// binary ones. The first operand's contribution always precedes the
    /// second's.
    pub fn choice(self, rhs: Element) -> (r: Element)
        ensures
            is_choice_combination(r, self, rhs),
    {
        let mut first = self.to_choice_elements();
        let mut second = rhs.to_choice_elements();
        first.append(&mut second);
        Element::new(ElementKind::Choice(first))
    }

    /// Combines two elements into one flat sequence node, under the same
    /// flattening and ordering rule as `choice`.
    pub fn sequence(self, rhs: Element) -> (r: Element)
        ensures
            is_sequence_combination(r, self, rhs),
    {
        let mut first = self.to_sequence_elements();
        let mut second = rhs.to_sequence_elements();
        first.append(&mut second);
        Element::new(ElementKind::Sequence(first))
    }
}

} // verus!
