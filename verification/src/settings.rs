//! The policy configuration of the embedded form: a protected taint
//! matched by key and value, plus the two allow-lists.

use vstd::prelude::*;
use crate::policy::ProtectedToleration;
use crate::taint::Taint;

verus! {

/// Configuration of the permissive policy variant. Both allow-lists
/// default to empty; the configuration never changes once loaded.
pub struct Settings {
    pub taint: Taint,
    pub allowed_groups: Vec<String>,
    pub allowed_users: Vec<String>,
}

impl Settings {
    /// The match predicate that this configuration stands for: its
    /// taint's key and value, guarded against broad `Exists` matching.
    pub open spec fn protected_spec(self) -> ProtectedToleration {
        ProtectedToleration::KeyValue { key: self.taint.key, value: self.taint.value }
    }

    /// Builds the match predicate that this configuration stands for.
    pub fn protected(&self) -> (r: ProtectedToleration)
        ensures
            r == self.protected_spec(),
    {
        ProtectedToleration::KeyValue {
            key: self.taint.key.clone(),
            value: self.taint.value.clone(),
        }
    }
}

} // verus!
