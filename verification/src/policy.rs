//! The decision core: whether a workload declares use of the protected
//! toleration, whether the requester is allow-listed, and the verdict
//! that both together produce.

use vstd::prelude::*;
use vstd::string::StringExecFns;
use crate::request::{
    AdmissionRequest, PodDocument, TolerationEntry, UserInfo, groups_of, groups_seq,
    policed_operation, tolerations_of, views_of,
};
use crate::taint::{Taint, taint_text_spec};
use crate::toleration::{Toleration, toleration_text_spec};
use crate::verdict::ValidationResponse;

verus! {

/// The toleration that the policy guards, in one of the two configured
/// shapes: a key with the value it must equal (with an absolute veto on
/// `Exists` matching of that key), or a full triple matched literally.
pub enum ProtectedToleration {
    KeyValue { key: String, value: String },
    Triple { key: String, operator: String, effect: String },
}

/// Whether an entry names the given protected key.
pub open spec fn entry_key_matches(t: TolerationEntry, key: String) -> bool {
    match t.key {
        Some(k) => k@ == key@,
        None => false,
    }
}

/// Whether an entry uses the `Exists` operator.
pub open spec fn entry_is_exists(t: TolerationEntry) -> bool {
    match t.operator {
        Some(op) => op@ == "Exists"@,
        None => false,
    }
}

/// Whether an entry falls under the absolute prohibition: it names the
/// protected key with the `Exists` operator. Only the key/value shape
/// prohibits this; the triple shape matches `Exists` literally.
pub open spec fn entry_vetoed(t: TolerationEntry, p: ProtectedToleration) -> bool {
    match p {
        ProtectedToleration::KeyValue { key, .. } => entry_key_matches(t, key)
            && entry_is_exists(t),
        ProtectedToleration::Triple { .. } => false,
    }
}

/// Whether an entry declares use of the protected toleration.
pub open spec fn entry_matches(t: TolerationEntry, p: ProtectedToleration) -> bool {
    match p {
        ProtectedToleration::KeyValue { key, value } => entry_key_matches(t, key) && (match t
            .value {
            Some(v) => v@ == value@,
            None => false,
        }),
        ProtectedToleration::Triple { key, operator, effect } => (match t.key {
            Some(k) => k@ == key@,
            None => false,
        }) && (match t.operator {
            Some(o) => o@ == operator@,
            None => false,
        }) && (match t.effect {
            Some(e) => e@ == effect@,
            None => false,
        }),
    }
}

/// What a scan of the toleration list finds.
pub enum ScanOutcome {
    /// An entry uses the protected key with `Exists`: rejected outright.
    ExistsVeto,
    /// The protected toleration is in use; the identity gate decides.
    Found,
    /// The protected toleration is not in use.
    NotFound,
}

/// The first decision that the toleration list forces, scanning in order:
/// the first entry that is vetoed or matches settles the outcome.
pub open spec fn scan_spec(ts: Seq<TolerationEntry>, p: ProtectedToleration) -> ScanOutcome
    decreases ts.len(),
{
    if ts.len() == 0 {
        ScanOutcome::NotFound
    } else if entry_vetoed(ts[0], p) {
        ScanOutcome::ExistsVeto
    } else if entry_matches(ts[0], p) {
        ScanOutcome::Found
    } else {
        scan_spec(ts.drop_first(), p)
    }
}

/// Membership of a string in a list of strings.
pub open spec fn contains_str(set: Seq<Seq<char>>, x: Seq<char>) -> bool {
    exists|i: int| 0 <= i < set.len() && set[i] == x
}

/// Whether two lists of strings share an element.
pub open spec fn have_common(a: Seq<Seq<char>>, b: Seq<Seq<char>>) -> bool {
    exists|i: int| 0 <= i < a.len() && contains_str(b, a[i])
}

/// Whether the requester's name is on the user allow-list.
pub open spec fn username_in(user: UserInfo, allowed_users: Seq<Seq<char>>) -> bool {
    match user.username {
        Some(name) => contains_str(allowed_users, name@),
        None => false,
    }
}

/// The identity gate over the extracted identity parts: a non-empty
/// group allow-list sharing a group with the requester accepts, and so
/// does a non-empty user allow-list naming the requester. Group
/// membership is consulted first, but either one suffices.
pub open spec fn gate_allows_parts(
    username: Option<String>,
    groups: Option<Seq<String>>,
    allowed_groups: Seq<Seq<char>>,
    allowed_users: Seq<Seq<char>>,
) -> bool {
    ||| (allowed_groups.len() > 0 && (match groups {
        Some(gs) => have_common(views_of(gs), allowed_groups),
        None => false,
    }))
    ||| (allowed_users.len() > 0 && (match username {
        Some(name) => contains_str(allowed_users, name@),
        None => false,
    }))
}

/// The identity gate on a whole identity block.
pub open spec fn gate_allows(
    user: UserInfo,
    allowed_groups: Seq<Seq<char>>,
    allowed_users: Seq<Seq<char>>,
) -> bool {
    gate_allows_parts(user.username, groups_seq(user), allowed_groups, allowed_users)
}

/// The accept/reject outcome over the extracted parts of a request: the
/// operation, the workload the object reduced to, and the requester's
/// name and groups.
pub open spec fn decision_accepts_parts(
    operation: Option<String>,
    workload: Option<PodDocument>,
    username: Option<String>,
    groups: Option<Seq<String>>,
    p: ProtectedToleration,
    allowed_groups: Seq<Seq<char>>,
    allowed_users: Seq<Seq<char>>,
) -> bool {
    if !policed_operation(operation) {
        true
    } else {
        match scan_spec(tolerations_of(workload), p) {
            ScanOutcome::ExistsVeto => false,
            ScanOutcome::Found => gate_allows_parts(
                username,
                groups,
                allowed_groups,
                allowed_users,
            ),
            ScanOutcome::NotFound => true,
        }
    }
}

/// The accept/reject outcome for a request under a protected toleration
/// and the two allow-lists.
pub open spec fn decision_accepts(
    req: AdmissionRequest,
    p: ProtectedToleration,
    allowed_groups: Seq<Seq<char>>,
    allowed_users: Seq<Seq<char>>,
) -> bool {
    decision_accepts_parts(
        req.operation,
        req.workload,
        req.user_info.username,
        groups_seq(req.user_info),
        p,
        allowed_groups,
        allowed_users,
    )
}

/// The key that the protected toleration names.
pub open spec fn protected_key(p: ProtectedToleration) -> Seq<char> {
    match p {
        ProtectedToleration::KeyValue { key, .. } => key@,
        ProtectedToleration::Triple { key, .. } => key@,
    }
}

/// The reason given when an entry tolerates the protected key with
/// `Exists`.
pub open spec fn veto_message_spec(key: Seq<char>) -> Seq<char> {
    "Nobody can use the protected taint '"@ + key + "' with the operation 'Exists'"@
}

/// The reason given when the protected toleration is in use and the
/// requester is not allow-listed.
pub open spec fn denied_message_spec(p: ProtectedToleration) -> Seq<char> {
    match p {
        ProtectedToleration::KeyValue { key, value } => "User not allowed to create Pods that tolerate the taint "@
            + taint_text_spec(Taint { key, value }),
        ProtectedToleration::Triple { key, operator, effect } => "User not allowed to create Pod objects with toleration: "@
            + toleration_text_spec(Toleration { effect, key, operator }),
    }
}

/// The reason that a rejected workload is given: the veto message when
/// the scan hit the prohibition, the allow-list message otherwise.
pub open spec fn rejection_message_parts(
    workload: Option<PodDocument>,
    p: ProtectedToleration,
) -> Seq<char> {
    if scan_spec(tolerations_of(workload), p) == ScanOutcome::ExistsVeto {
        veto_message_spec(protected_key(p))
    } else {
        denied_message_spec(p)
    }
}

/// The reason that a rejected request is given.
pub open spec fn rejection_message(req: AdmissionRequest, p: ProtectedToleration) -> Seq<char> {
    rejection_message_parts(req.workload, p)
}

fn opt_eq(a: &Option<String>, b: &String) -> (r: bool)
    ensures
        r == (match *a {
            Some(s) => s@ == b@,
            None => false,
        }),
{
    match a {
        Some(s) => *s == *b,
        None => false,
    }
}

fn opt_is_exists(a: &Option<String>) -> (r: bool)
    ensures
        r == (match *a {
            Some(s) => s@ == "Exists"@,
            None => false,
        }),
{
    match a {
        Some(s) => {
            let lit = String::from_str("Exists");
            *s == lit
        },
        None => false,
    }
}

fn entry_vetoed_exec(t: &TolerationEntry, p: &ProtectedToleration) -> (r: bool)
    ensures
        r == entry_vetoed(*t, *p),
{
    match p {
        ProtectedToleration::KeyValue { key, .. } => opt_eq(&t.key, key) && opt_is_exists(
            &t.operator,
        ),
        ProtectedToleration::Triple { .. } => false,
    }
}

fn entry_matches_exec(t: &TolerationEntry, p: &ProtectedToleration) -> (r: bool)
    ensures
        r == entry_matches(*t, *p),
{
    match p {
        ProtectedToleration::KeyValue { key, value } => opt_eq(&t.key, key) && opt_eq(
            &t.value,
            value,
        ),
        ProtectedToleration::Triple { key, operator, effect } => opt_eq(&t.key, key) && opt_eq(
            &t.operator,
            operator,
        ) && opt_eq(&t.effect, effect),
    }
}

fn scan_tolerations(ts: &Vec<TolerationEntry>, p: &ProtectedToleration) -> (r: ScanOutcome)
    ensures
        r == scan_spec(ts@, *p),
{
    let n = ts.len();
    let mut i: usize = 0;
    proof {
        assert(ts@.skip(0) =~= ts@);
    }
    while i < n
        invariant
            i <= n,
            n == ts@.len(),
            scan_spec(ts@, *p) == scan_spec(ts@.skip(i as int), *p),
        decreases n - i,
    {
        proof {
            assert(ts@.skip(i as int)[0] == ts@[i as int]);
        }
        if entry_vetoed_exec(&ts[i], p) {
            return ScanOutcome::ExistsVeto;
        }
        if entry_matches_exec(&ts[i], p) {
            return ScanOutcome::Found;
        }
        proof {
            assert(ts@.skip(i as int).drop_first() =~= ts@.skip(i as int + 1));
        }
        i += 1;
    }
    proof {
        assert(ts@.skip(n as int) =~= Seq::<TolerationEntry>::empty());
    }
    ScanOutcome::NotFound
}

fn contains_string(v: &Vec<String>, x: &String) -> (r: bool)
    ensures
        r == contains_str(views_of(v@), x@),
{
    let n = v.len();
    let mut i: usize = 0;
    while i < n
        invariant
            i <= n,
            n == v@.len(),
            forall|j: int| 0 <= j < i ==> views_of(v@)[j] != x@,
        decreases n - i,
    {
        let e = &v[i];
        if *e == *x {
            proof {
                assert(views_of(v@)[i as int] == v@[i as int]@);
            }
            return true;
        }
        proof {
            assert(views_of(v@)[i as int] == v@[i as int]@);
        }
        i += 1;
    }
    false
}

fn have_common_exec(a: &Vec<String>, b: &Vec<String>) -> (r: bool)
    ensures
        r == have_common(views_of(a@), views_of(b@)),
{
    let n = a.len();
    let mut i: usize = 0;
    while i < n
        invariant
            i <= n,
            n == a@.len(),
            forall|j: int| 0 <= j < i ==> !contains_str(views_of(b@), views_of(a@)[j]),
        decreases n - i,
    {
        let e = &a[i];
        if contains_string(b, e) {
            proof {
                assert(views_of(a@)[i as int] == a@[i as int]@);
            }
            return true;
        }
        proof {
            assert(views_of(a@)[i as int] == a@[i as int]@);
        }
        i += 1;
    }
    false
}

fn gate(user: &UserInfo, allowed_groups: &Vec<String>, allowed_users: &Vec<String>) -> (r: bool)
    ensures
        r == gate_allows(*user, views_of(allowed_groups@), views_of(allowed_users@)),
{
    if allowed_groups.len() > 0 {
        if let Some(gs) = &user.groups {
            if have_common_exec(gs, allowed_groups) {
                return true;
            }
        }
    }
    if allowed_users.len() > 0 {
        if let Some(name) = &user.username {
            if contains_string(allowed_users, name) {
                return true;
            }
        }
    }
    false
}

pub(crate) fn is_policed_operation(operation: &Option<String>) -> (r: bool)
    ensures
        r == policed_operation(*operation),
{
    match operation {
        Some(op) => {
            let create = String::from_str("CREATE");
            if *op == create {
                return true;
            }
            let update = String::from_str("UPDATE");
            *op == update
        },
        None => false,
    }
}

fn veto_message(p: &ProtectedToleration) -> (r: String)
    ensures
        r@ == veto_message_spec(protected_key(*p)),
{
    let key: &String = match p {
        ProtectedToleration::KeyValue { key, .. } => key,
        ProtectedToleration::Triple { key, .. } => key,
    };
    let mut s = String::from_str("Nobody can use the protected taint '");
    s.append(key.as_str());
    s.append("' with the operation 'Exists'");
    s
}

fn denied_message(p: &ProtectedToleration) -> (r: String)
    ensures
        r@ == denied_message_spec(*p),
{
    match p {
        ProtectedToleration::KeyValue { key, value } => {
            let t = Taint { key: key.clone(), value: value.clone() };
            let text = t.display_string();
            let mut s = String::from_str(
                "User not allowed to create Pods that tolerate the taint ",
            );
            s.append(text.as_str());
            s
        },
        ProtectedToleration::Triple { key, operator, effect } => {
            let t = Toleration {
                effect: effect.clone(),
                key: key.clone(),
                operator: operator.clone(),
            };
            let text = t.display_string();
            let mut s = String::from_str(
                "User not allowed to create Pod objects with toleration: ",
            );
            s.append(text.as_str());
            s
        },
    }
}

proof fn lemma_scan_veto(ts: Seq<TolerationEntry>, p: ProtectedToleration, i: int)
    requires
        0 <= i < ts.len(),
        entry_vetoed(ts[i], p),
        forall|j: int| 0 <= j < i ==> !entry_matches(ts[j], p),
    ensures
        scan_spec(ts, p) == ScanOutcome::ExistsVeto,
    decreases i,
{
    if entry_vetoed(ts[0], p) {
    } else {
        assert(!entry_matches(ts[0], p));
        let tail = ts.drop_first();
        assert forall|j: int| 0 <= j < i - 1 implies !entry_matches(tail[j], p) by {
            assert(tail[j] == ts[j + 1]);
        }
        assert(tail[i - 1] == ts[i]);
        lemma_scan_veto(tail, p, i - 1);
    }
}

proof fn lemma_scan_found(ts: Seq<TolerationEntry>, p: ProtectedToleration, i: int)
    requires
        0 <= i < ts.len(),
        entry_matches(ts[i], p),
        forall|j: int| 0 <= j <= i ==> !entry_vetoed(ts[j], p),
    ensures
        scan_spec(ts, p) == ScanOutcome::Found,
    decreases i,
{
    assert(!entry_vetoed(ts[0], p));
    if entry_matches(ts[0], p) {
    } else {
        let tail = ts.drop_first();
        assert forall|j: int| 0 <= j <= i - 1 implies !entry_vetoed(tail[j], p) by {
            assert(tail[j] == ts[j + 1]);
        }
        assert(tail[i - 1] == ts[i]);
        lemma_scan_found(tail, p, i - 1);
    }
}

/// The strict triple shape never prohibits an entry outright: a scan
/// under it ends in found or not found, never in the veto.
pub proof fn lemma_triple_no_veto(ts: Seq<TolerationEntry>, p: ProtectedToleration)
    requires
        p is Triple,
    ensures
        scan_spec(ts, p) != ScanOutcome::ExistsVeto,
    decreases ts.len(),
{
    if ts.len() == 0 {
    } else if entry_vetoed(ts[0], p) {
        assert(false);
    } else if entry_matches(ts[0], p) {
    } else {
        lemma_triple_no_veto(ts.drop_first(), p);
    }
}

/// A request whose operation is neither CREATE nor UPDATE is accepted,
/// whatever its object, its identity and the configuration hold.
pub proof fn lemma_foreign_operation_accepted(
    req: AdmissionRequest,
    p: ProtectedToleration,
    allowed_groups: Seq<Seq<char>>,
    allowed_users: Seq<Seq<char>>,
)
    requires
        !policed_operation(req.operation),
    ensures
        decision_accepts(req, p, allowed_groups, allowed_users),
{
}

/// A request whose object is not a recognizable workload is accepted:
/// the policy fails open on shapes it cannot introspect.
pub proof fn lemma_foreign_object_accepted(
    req: AdmissionRequest,
    p: ProtectedToleration,
    allowed_groups: Seq<Seq<char>>,
    allowed_users: Seq<Seq<char>>,
)
    requires
        req.workload is None,
    ensures
        decision_accepts(req, p, allowed_groups, allowed_users),
{
    assert(tolerations_of(req.workload) =~= Seq::<TolerationEntry>::empty());
}

/// A workload with an empty or absent toleration list is accepted, and
/// the identity gate is never consulted for it.
pub proof fn lemma_no_tolerations_accepted(
    req: AdmissionRequest,
    p: ProtectedToleration,
    allowed_groups: Seq<Seq<char>>,
    allowed_users: Seq<Seq<char>>,
)
    requires
        tolerations_of(req.workload).len() == 0,
    ensures
        decision_accepts(req, p, allowed_groups, allowed_users),
{
}

/// Under the key/value shape, an entry that tolerates the protected key
/// with the `Exists` operator is rejected with the fixed veto reason,
/// whatever the allow-lists hold — provided no entry before it already
/// matches the protected toleration (an earlier match settles the scan
/// first).
pub proof fn lemma_protected_exists_rejected(
    req: AdmissionRequest,
    p: ProtectedToleration,
    allowed_groups: Seq<Seq<char>>,
    allowed_users: Seq<Seq<char>>,
    i: int,
)
    requires
        policed_operation(req.operation),
        p is KeyValue,
        0 <= i < tolerations_of(req.workload).len(),
        entry_vetoed(tolerations_of(req.workload)[i], p),
        forall|j: int| 0 <= j < i ==> !entry_matches(tolerations_of(req.workload)[j], p),
    ensures
        !decision_accepts(req, p, allowed_groups, allowed_users),
        rejection_message(req, p) == veto_message_spec(protected_key(p)),
{
    lemma_scan_veto(tolerations_of(req.workload), p, i);
}

/// A workload using the protected toleration is accepted when the
/// requester shares a group with the group allow-list.
pub proof fn lemma_allowed_group_accepted(
    req: AdmissionRequest,
    p: ProtectedToleration,
    allowed_groups: Seq<Seq<char>>,
    allowed_users: Seq<Seq<char>>,
    i: int,
)
    requires
        policed_operation(req.operation),
        0 <= i < tolerations_of(req.workload).len(),
        entry_matches(tolerations_of(req.workload)[i], p),
        forall|j: int| 0 <= j <= i ==> !entry_vetoed(tolerations_of(req.workload)[j], p),
        have_common(groups_of(req.user_info), allowed_groups),
    ensures
        decision_accepts(req, p, allowed_groups, allowed_users),
{
    lemma_scan_found(tolerations_of(req.workload), p, i);
    let a = groups_of(req.user_info);
    let k = choose|k: int| 0 <= k < a.len() && contains_str(allowed_groups, a[k]);
    assert(contains_str(allowed_groups, a[k]));
    let l = choose|l: int| 0 <= l < allowed_groups.len() && allowed_groups[l] == a[k];
    assert(allowed_groups.len() > 0);
}

/// A workload using the protected toleration is accepted when the
/// requester's name is on the user allow-list, whether or not the group
/// check already accepted.
pub proof fn lemma_allowed_user_accepted(
    req: AdmissionRequest,
    p: ProtectedToleration,
    allowed_groups: Seq<Seq<char>>,
    allowed_users: Seq<Seq<char>>,
    i: int,
)
    requires
        policed_operation(req.operation),
        0 <= i < tolerations_of(req.workload).len(),
        entry_matches(tolerations_of(req.workload)[i], p),
        forall|j: int| 0 <= j <= i ==> !entry_vetoed(tolerations_of(req.workload)[j], p),
        username_in(req.user_info, allowed_users),
    ensures
        decision_accepts(req, p, allowed_groups, allowed_users),
{
    lemma_scan_found(tolerations_of(req.workload), p, i);
    match req.user_info.username {
        Some(name) => {
            let l = choose|l: int|
                0 <= l < allowed_users.len() && allowed_users[l] == name@;
            assert(allowed_users.len() > 0);
        },
        None => {
            assert(false);
        },
    }
}

/// A workload using the protected toleration is rejected, with a reason
/// naming that toleration, when neither allow-list clears the requester.
pub proof fn lemma_unauthorized_rejected(
    req: AdmissionRequest,
    p: ProtectedToleration,
    allowed_groups: Seq<Seq<char>>,
    allowed_users: Seq<Seq<char>>,
    i: int,
)
    requires
        policed_operation(req.operation),
        0 <= i < tolerations_of(req.workload).len(),
        entry_matches(tolerations_of(req.workload)[i], p),
        forall|j: int| 0 <= j <= i ==> !entry_vetoed(tolerations_of(req.workload)[j], p),
        !gate_allows(req.user_info, allowed_groups, allowed_users),
    ensures
        !decision_accepts(req, p, allowed_groups, allowed_users),
        rejection_message(req, p) == denied_message_spec(p),
{
    lemma_scan_found(tolerations_of(req.workload), p, i);
}

/// The whole decision for one request: outside CREATE and UPDATE the
/// request passes; otherwise the toleration list is scanned, and when the
/// protected toleration is in use the identity gate decides. A rejection
/// always carries the reason.
pub fn decide(
    req: &AdmissionRequest,
    p: &ProtectedToleration,
    allowed_groups: &Vec<String>,
    allowed_users: &Vec<String>,
) -> (r: ValidationResponse)
    ensures
        r.wf(),
        r.accepted == decision_accepts(*req, *p, views_of(allowed_groups@), views_of(
            allowed_users@,
        )),
        r.message matches Some(m) ==> m@ == rejection_message(*req, *p),
{
    if !is_policed_operation(&req.operation) {
        return ValidationResponse::accept();
    }
    let outcome = match &req.workload {
        Some(doc) => match &doc.spec {
            Some(wl) => match &wl.tolerations {
                Some(ts) => scan_tolerations(ts, p),
                None => ScanOutcome::NotFound,
            },
            None => ScanOutcome::NotFound,
        },
        None => ScanOutcome::NotFound,
    };
    proof {
        assert(scan_spec(Seq::<TolerationEntry>::empty(), *p) == ScanOutcome::NotFound);
        assert(outcome == scan_spec(tolerations_of(req.workload), *p));
    }
    match outcome {
        ScanOutcome::ExistsVeto => ValidationResponse::reject(veto_message(p)),
        ScanOutcome::NotFound => ValidationResponse::accept(),
        ScanOutcome::Found => {
            if gate(&req.user_info, allowed_groups, allowed_users) {
                ValidationResponse::accept()
            } else {
                ValidationResponse::reject(denied_message(p))
            }
        },
    }
}

} // verus!
