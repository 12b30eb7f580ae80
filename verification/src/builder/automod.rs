//! The auto-moderation rule payload.
use vstd::prelude::*;

verus! {

/// Payload for an auto-moderation rule: its name.
#[derive(Debug, Clone, Default)]
pub struct AutoModRuleBuilder {
    pub name: String,
}

} // verus!
