//! The protected toleration of the strict configuration shape: a full
//! key/operator/effect triple that a workload's toleration has to equal.

use vstd::prelude::*;
use vstd::string::StringExecFns;

verus! {

/// The toleration triple that the strict policy variant guards.
pub struct Toleration {
    pub effect: String,
    pub key: String,
    pub operator: String,
}

/// The text that names a toleration triple inside a rejection reason.
pub open spec fn toleration_text_spec(t: Toleration) -> Seq<char> {
    "key: "@ + t.key@ + ", operator: "@ + t.operator@ + ", effect: "@ + t.effect@ + ")"@
}

impl Toleration {
    /// Renders the toleration triple for a rejection reason.
    pub fn display_string(&self) -> (r: String)
        ensures
            r@ == toleration_text_spec(*self),
    {
        let mut s = String::from_str("key: ");
        s.append(self.key.as_str());
        s.append(", operator: ");
        s.append(self.operator.as_str());
        s.append(", effect: ");
        s.append(self.effect.as_str());
        s.append(")");
        s
    }
}

} // verus!
