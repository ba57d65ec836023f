//! The trusted boundary around the JSON document: the few calls into
//! serde_json and the pod schema, and the verified walk that reduces a
//! request document to the plain values the decision core reads.
//!
//! A JSON value is opaque here. Every call into the outside crates is a
//! deterministic function of its arguments, so each result carries a
//! name (`json_doc_of`, `field_of`, `string_of`, `array_of`, `rendered`,
//! `pod_doc_of`); the extraction models below are written over those
//! names, and the verified walk is proved to compute exactly them.

use vstd::prelude::*;
use crate::request::{PodDocument, TolerationEntry, UserInfo, Workload};

verus! {

#[verifier::external_type_specification]
#[verifier::external_body]
pub struct ExValue(serde_json::Value);

/// What parsing a text as one JSON document yields, when the parser
/// accepts it.
pub uninterp spec fn json_doc_of(s: Seq<char>) -> Option<serde_json::Value>;

/// Whether the JSON parser accepts the text as one document.
pub open spec fn json_well_formed(s: Seq<char>) -> bool {
    json_doc_of(s) is Some
}

/// Relies on serde_json::from_str::<Value>: the outcome depends on the
/// text alone; a text the parser accepts (one document, within its
/// nesting limit) yields the parsed value, any other text yields None.
#[verifier::external_body]
pub(crate) fn json_from_str(raw: &str) -> (r: Option<serde_json::Value>)
    ensures
        r == json_doc_of(raw@),
{
    serde_json::from_str(raw).ok()
}

/// What field lookup by name on a JSON value yields.
pub uninterp spec fn field_of(v: serde_json::Value, key: Seq<char>) -> Option<serde_json::Value>;

/// Relies on serde_json::Value::get: looks a field up by name when the
/// value is a JSON object; the outcome depends on the value and the
/// name alone.
#[verifier::external_body]
fn json_get<'a>(v: &'a serde_json::Value, key: &str) -> (r: Option<&'a serde_json::Value>)
    ensures
        r is Some <==> field_of(*v, key@) is Some,
        r matches Some(f) ==> field_of(*v, key@) == Some(*f),
{
    v.get(key)
}

/// What reading a JSON value as a string yields.
pub uninterp spec fn string_of(v: serde_json::Value) -> Option<String>;

/// Relies on serde_json::Value::as_str: hands a string value out as
/// owned text, and None for every other kind of value.
#[verifier::external_body]
fn json_as_string(v: &serde_json::Value) -> (r: Option<String>)
    ensures
        r == string_of(*v),
{
    v.as_str().map(String::from)
}

/// What reading a JSON value as an array yields.
pub uninterp spec fn array_of(v: serde_json::Value) -> Option<Seq<serde_json::Value>>;

/// Relies on serde_json::Value::as_array: hands an array value out as
/// the vector of its elements, and None for every other kind of value.
#[verifier::external_body]
fn json_as_array<'a>(v: &'a serde_json::Value) -> (r: Option<&'a Vec<serde_json::Value>>)
    ensures
        r is Some <==> array_of(*v) is Some,
        r matches Some(a) ==> array_of(*v) == Some(a@),
{
    v.as_array()
}

/// The text that a JSON value renders back to.
pub uninterp spec fn rendered(v: serde_json::Value) -> Seq<char>;

/// Relies on serde_json::to_string: rendering a JSON value back to text
/// never fails (its maps can only hold string keys), an absent value
/// renders as JSON null, and the text depends on the value alone.
#[verifier::external_body]
fn json_to_text(v: Option<&serde_json::Value>) -> (r: Option<String>)
    ensures
        r is Some,
        r matches Some(s) ==> s@ == (match v {
            Some(x) => rendered(*x),
            None => "null"@,
        }),
{
    serde_json::to_string(&v).ok()
}

/// What reading a text as a pod document yields, reduced to the parts
/// the policy inspects.
pub uninterp spec fn pod_doc_of(s: Seq<char>) -> Option<PodDocument>;

/// Relies on serde_json::from_str with k8s_openapi's pod type: a text
/// that parses as a pod is reduced, field for field, to the parts the
/// policy reads; any other text gives None. The outcome depends on the
/// text alone.
#[verifier::external_body]
fn parse_pod_document(raw: &str) -> (r: Option<PodDocument>)
    ensures
        r == pod_doc_of(raw@),
{
    let pod: k8s_openapi::api::core::v1::Pod = match serde_json::from_str(raw) {
        Ok(p) => p,
        Err(_) => return None,
    };
    let spec = pod.spec.map(|s| Workload {
        tolerations: s.tolerations.map(|ts| ts.into_iter().map(|t| TolerationEntry {
            key: t.key, operator: t.operator, value: t.value, effect: t.effect,
        }).collect()),
    });
    Some(PodDocument { spec })
}

/// The operation field of a request document, when it is a string.
pub open spec fn operation_model(doc: serde_json::Value) -> Option<String> {
    match field_of(doc, "operation"@) {
        Some(v) => string_of(v),
        None => None,
    }
}

/// The workload that a request document's object reduces to: the object
/// field rendered back to text (JSON null when absent) and read as a
/// pod.
pub open spec fn workload_model(doc: serde_json::Value) -> Option<PodDocument> {
    match field_of(doc, "object"@) {
        Some(v) => pod_doc_of(rendered(v)),
        None => pod_doc_of("null"@),
    }
}

/// The requester's name in a request document.
pub open spec fn username_model(doc: serde_json::Value) -> Option<String> {
    match field_of(doc, "userInfo"@) {
        Some(ui) => match field_of(ui, "username"@) {
            Some(u) => string_of(u),
            None => None,
        },
        None => None,
    }
}

/// The string elements of a JSON array, in order; elements that are no
/// strings are passed over.
pub open spec fn strings_in(items: Seq<serde_json::Value>) -> Seq<String>
    decreases items.len(),
{
    if items.len() == 0 {
        Seq::empty()
    } else {
        let rest = strings_in(items.drop_first());
        match string_of(items[0]) {
            Some(s) => seq![s] + rest,
            None => rest,
        }
    }
}

/// The requester's group list in a request document, when the field is
/// an array.
pub open spec fn groups_model(doc: serde_json::Value) -> Option<Seq<String>> {
    match field_of(doc, "userInfo"@) {
        Some(ui) => match field_of(ui, "groups"@) {
            Some(g) => match array_of(g) {
                Some(items) => Some(strings_in(items)),
                None => None,
            },
            None => None,
        },
        None => None,
    }
}

/// The operation field of the request document, when it is a string.
pub(crate) fn extract_operation(request: &serde_json::Value) -> (r: Option<String>)
    ensures
        r == operation_model(*request),
{
    match json_get(request, "operation") {
        Some(v) => json_as_string(v),
        None => None,
    }
}

/// The object under admission, rendered back to text and read as a pod.
/// An object that is absent or no pod gives None: the policy cannot
/// introspect it and must fail open.
pub(crate) fn extract_workload(request: &serde_json::Value) -> (r: Option<PodDocument>)
    ensures
        r == workload_model(*request),
{
    let object = json_get(request, "object");
    match json_to_text(object) {
        Some(raw) => parse_pod_document(raw.as_str()),
        None => None,
    }
}

/// The identity block of the request document. Absent fields stay
/// absent; array elements that are no strings are passed over, since
/// they can never equal an allow-list entry.
pub(crate) fn extract_user_info(request: &serde_json::Value) -> (r: UserInfo)
    ensures
        r.username == username_model(*request),
        crate::request::groups_seq(r) == groups_model(*request),
{
    match json_get(request, "userInfo") {
        None => UserInfo { username: None, groups: None },
        Some(ui) => {
            let username = match json_get(ui, "username") {
                Some(u) => json_as_string(u),
                None => None,
            };
            let groups = match json_get(ui, "groups") {
                Some(g) => match json_as_array(g) {
                    Some(items) => Some(collect_strings(items)),
                    None => None,
                },
                None => None,
            };
            UserInfo { username, groups }
        },
    }
}

fn collect_strings(items: &Vec<serde_json::Value>) -> (r: Vec<String>)
    ensures
        r@ == strings_in(items@),
{
    let mut out: Vec<String> = Vec::new();
    let n = items.len();
    let mut i: usize = 0;
    proof {
        assert(items@.skip(0) =~= items@);
        assert(out@ + strings_in(items@) =~= strings_in(items@));
    }
    while i < n
        invariant
            i <= n,
            n == items@.len(),
            strings_in(items@) == out@ + strings_in(items@.skip(i as int)),
        decreases n - i,
    {
        proof {
            assert(items@.skip(i as int)[0] == items@[i as int]);
            assert(items@.skip(i as int).drop_first() =~= items@.skip(i as int + 1));
        }
        let ghost old_out = out@;
        if let Some(s) = json_as_string(&items[i]) {
            out.push(s);
            proof {
                assert(old_out + (seq![s] + strings_in(items@.skip(i as int + 1)))
                    =~= out@ + strings_in(items@.skip(i as int + 1)));
            }
        }
        i += 1;
    }
    proof {
        assert(items@.skip(n as int) =~= Seq::<serde_json::Value>::empty());
        assert(out@ + strings_in(items@.skip(n as int)) =~= out@);
    }
    out
}

} // verus!
