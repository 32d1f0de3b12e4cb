use vstd::prelude::*;
use vstd::string::StringExecFns;

use crate::error::BuildError;
use crate::text::{decimal_text, push_char, render_decimal};

verus! {

/// An upper repetition bound that may be left unbounded.
#[derive(Clone, Copy, Debug, PartialEq, Eq, Structural)]
pub enum Maxable<T> {
    /// No upper bound.
    Max,
    /// The inclusive upper bound `T`.
    Specified(T),
}

/// The inclusive repetition bound `[min, max]` attached to a grammar element,
/// where `max` may be unbounded.
///
/// Invariant: when `max` is `Specified(n)`, then `min <= n`. Every constructor
/// establishes this, so a `LoopRange` held by an `Element` is always valid.
#[derive(Clone, Copy, Debug, PartialEq, Eq, Structural)]
pub struct LoopRange {
    min: usize,
    max: Maxable<usize>,
}

impl LoopRange {
    /// The lower repetition bound.
    pub closed spec fn spec_min(&self) -> usize {
        self.min
    }

    /// The upper repetition bound.
    pub closed spec fn spec_max(&self) -> Maxable<usize> {
        self.max
    }

    /// A bounded range never puts its minimum above its maximum.
    pub open spec fn wf(&self) -> bool {
        match self.spec_max() {
            Maxable::Max => true,
            Maxable::Specified(n) => self.spec_min() <= n,
        }
    }

    /// The range `[1, 1]`: exactly once, the default of a fresh element.
    pub open spec fn is_once(&self) -> bool {
        self.spec_min() == 1 && self.spec_max() == Maxable::Specified(1usize)
    }

    /// The canonical text of the range, appended to an element's own text:
    /// `{min-}` when unbounded, nothing when exactly once, `{n}` when
    /// `min == max == n != 1`, and `{min-max}` otherwise.
    pub open spec fn spec_suffix(&self) -> Seq<char> {
        match self.spec_max() {
            Maxable::Max => seq!['{'] + decimal_text(self.spec_min() as nat) + seq!['-', '}'],
            Maxable::Specified(n) => if self.spec_min() == n {
                if n == 1 {
                    Seq::<char>::empty()
                } else {
                    seq!['{'] + decimal_text(n as nat) + seq!['}']
                }
            } else {
                seq!['{'] + decimal_text(self.spec_min() as nat) + seq!['-']
                    + decimal_text(n as nat) + seq!['}']
            },
        }
    }

    /// The default range of a fresh element: exactly once.
    pub fn once() -> (r: LoopRange)
        ensures
            r.is_once(),
            r.wf(),
    {
        LoopRange { min: 1, max: Maxable::Specified(1) }
    }

    /// The range `[n, n]`: exactly `n` repetitions.
    pub fn exactly(n: usize) -> (r: LoopRange)
        ensures
            r.spec_min() == n,
            r.spec_max() == Maxable::Specified(n),
            r.wf(),
    {
        LoopRange { min: n, max: Maxable::Specified(n) }
    }

    /// The range `[min, unbounded]`: `min` or more repetitions.
    pub fn at_least(min: usize) -> (r: LoopRange)
        ensures
            r.spec_min() == min,
            r.spec_max() == Maxable::<usize>::Max,
            r.wf(),
    {
        LoopRange { min, max: Maxable::Max }
    }

    /// Builds the range `[min, max]`, rejecting a bounded maximum below the
    /// minimum with `InvalidLoopRange` instead of clamping it.
    pub fn validate_new(min: usize, max: Maxable<usize>) -> (r: Result<LoopRange, BuildError>)
        ensures
            match r {
                Ok(lr) => lr.spec_min() == min && lr.spec_max() == max && lr.wf(),
                Err(e) => {
                    &&& e == BuildError::InvalidLoopRange
                    &&& max matches Maxable::Specified(n) && min > n
                },
            },
    {
        match max {
            Maxable::Specified(n) if min > n => Err(BuildError::InvalidLoopRange),
            _ => Ok(LoopRange { min, max }),
        }
    }

    /// Whether this range is the default `[1, 1]`.
    pub fn matches_once(&self) -> (b: bool)
        ensures
            b == self.is_once(),
    {
        self.min == 1 && match self.max {
            Maxable::Specified(n) => n == 1,
            Maxable::Max => false,
        }
    }

    /// Renders the canonical loop suffix.
    pub fn render(&self) -> (s: String)
        ensures
            s@ == self.spec_suffix(),
    {
        match self.max {
            Maxable::Max => {
                let mut s = String::new();
                push_char(&mut s, '{');
                let d = render_decimal(self.min);
                s.append(d.as_str());
                push_char(&mut s, '-');
                push_char(&mut s, '}');
                proof {
                    assert(s@ =~= self.spec_suffix());
                }
                s
            },
            Maxable::Specified(n) => {
                if self.min == n {
                    if n == 1 {
                        String::new()
                    } else {
                        let mut s = String::new();
                        push_char(&mut s, '{');
                        let d = render_decimal(n);
                        s.append(d.as_str());
                        push_char(&mut s, '}');
                        proof {
                            assert(s@ =~= self.spec_suffix());
                        }
                        s
                    }
                } else {
                    let mut s = String::new();
                    push_char(&mut s, '{');
                    let d = render_decimal(self.min);
                    s.append(d.as_str());
                    push_char(&mut s, '-');
                    let d2 = render_decimal(n);
                    s.append(d2.as_str());
                    push_char(&mut s, '}');
                    proof {
                        assert(s@ =~= self.spec_suffix());
                    }
                    s
                }
            },
        }
    }
}

/// The range "exactly once" is the one loop range that renders invisibly:
/// its canonical suffix is the empty text.
pub proof fn lemma_once_renders_empty(r: LoopRange)
    requires
        r.is_once(),
    ensures
        r.spec_suffix() == Seq::<char>::empty(),
{
}

} // verus!
