//! A combinator algebra for building parsing-expression-grammar fragments as
//! an in-memory expression tree, with a canonical textual rendering.

mod element;
mod error;
mod laws;
mod loop_range;
mod render;
mod rules;
mod text;

pub use crate::element::{char, str, Element, ElementKind, LookaheadKind};
pub use crate::error::BuildError;
pub use crate::loop_range::{LoopRange, Maxable};
pub use crate::rules::{InternalRuleIdSet, Module, ModuleId, Rule, RuleId};
