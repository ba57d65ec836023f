//! The protected taint of the permissive configuration shape: a key that
//! must match exactly, and the value that a toleration has to equal.

use vstd::prelude::*;
use vstd::string::StringExecFns;

verus! {

/// The taint that the policy guards, matched by key and value.
pub struct Taint {
    pub key: String,
    pub value: String,
}

/// The text that names a taint inside a rejection reason.
pub open spec fn taint_text_spec(t: Taint) -> Seq<char> {
    "key: "@ + t.key@ + ", value : "@ + t.value@
}

impl Taint {
    /// Renders the taint for a rejection reason.
    pub fn display_string(&self) -> (r: String)
        ensures
            r@ == taint_text_spec(*self),
    {
        let mut s = String::from_str("key: ");
        s.append(self.key.as_str());
        s.append(", value : ");
        s.append(self.value.as_str());
        s
    }
}

} // verus!
