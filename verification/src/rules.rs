use vstd::prelude::*;

verus! {

// Placeholders for a rule-resolution layer that is expected to consume
// `Element` trees keyed by rule within a module hierarchy. They expose no
// behavior here; this crate covers the expression-building algebra only.

/// Identifies a module within a rule hierarchy.
pub struct ModuleId(pub String);

/// Identifies a named rule within a module.
pub struct RuleId(pub String);

/// A set of internal rule identifiers.
pub struct InternalRuleIdSet {
    pub rule_ids: Vec<String>,
}

/// A named grammar rule. No content is defined at this layer.
pub struct Rule {}

/// A module of rules with its submodules, keyed by their identifiers.
pub struct Module {
    pub submodules: Vec<(ModuleId, Module)>,
    pub rules: Vec<(RuleId, Rule)>,
}

} // verus!
