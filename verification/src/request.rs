//! The introspected shape of an admission request: the operation, the
//! workload's toleration list when the object is a recognizable workload,
//! and the identity of the requester.

use vstd::prelude::*;

verus! {

/// One entry of a workload's toleration list. Every field is optional in
/// the upstream schema.
pub struct TolerationEntry {
    pub key: Option<String>,
    pub operator: Option<String>,
    pub value: Option<String>,
    pub effect: Option<String>,
}

/// The part of a workload's spec that the policy inspects.
pub struct Workload {
    pub tolerations: Option<Vec<TolerationEntry>>,
}

/// A document that parsed as a pod. The spec is optional in the upstream
/// schema; a pod without one declares no tolerations.
pub struct PodDocument {
    pub spec: Option<Workload>,
}

/// The identity block of the request. The host contract promises a
/// username; the group list may be absent.
pub struct UserInfo {
    pub username: Option<String>,
    pub groups: Option<Vec<String>>,
}

/// An admission request reduced to the values the policy reads. A workload
/// of `None` stands for an object that is absent or does not parse as a
/// pod; such requests are never blocked.
pub struct AdmissionRequest {
    pub operation: Option<String>,
    pub workload: Option<PodDocument>,
    pub user_info: UserInfo,
}

/// The toleration entries that a request declares: empty whenever the
/// object is not a recognizable workload or carries no toleration list.
pub open spec fn tolerations_of(workload: Option<PodDocument>) -> Seq<TolerationEntry> {
    match workload {
        Some(doc) => match doc.spec {
            Some(wl) => match wl.tolerations {
                Some(ts) => ts@,
                None => Seq::empty(),
            },
            None => Seq::empty(),
        },
        None => Seq::empty(),
    }
}

/// An operation is subject to the policy only when it creates or updates
/// an object.
pub open spec fn policed_operation(operation: Option<String>) -> bool {
    match operation {
        Some(op) => op@ == "CREATE"@ || op@ == "UPDATE"@,
        None => false,
    }
}

/// The views of a list of strings.
pub open spec fn views_of(v: Seq<String>) -> Seq<Seq<char>> {
    v.map_values(|s: String| s@)
}

/// The groups the requester belongs to; an absent list counts as empty.
pub open spec fn groups_of(user: UserInfo) -> Seq<Seq<char>> {
    match user.groups {
        Some(gs) => views_of(gs@),
        None => Seq::empty(),
    }
}

/// The group list of an identity block as a sequence, keeping absence
/// distinct from emptiness.
pub open spec fn groups_seq(user: UserInfo) -> Option<Seq<String>> {
    match user.groups {
        Some(gs) => Some(gs@),
        None => None,
    }
}

} // verus!
