//! Admission-control policy for workload tolerations.
//!
//! Given a Kubernetes-style admission request and a policy configuration,
//! the library decides whether the request may proceed, and, when it is
//! rejected, produces the reason. The decision core works on plain values;
//! the JSON document handling sits behind a small trusted boundary.

use vstd::prelude::*;

mod config;
mod decode;
mod policy;
mod request;
mod settings;
mod taint;
mod toleration;
mod verdict;

pub use config::Config;
pub use config::first_comma;
pub use config::split_commas;
pub use config::split_commas_exec;
pub use config::split_opt;
pub use decode::array_of;
pub use decode::field_of;
pub use decode::groups_model;
pub use decode::json_doc_of;
pub use decode::json_well_formed;
pub use decode::operation_model;
pub use decode::pod_doc_of;
pub use decode::rendered;
pub use decode::string_of;
pub use decode::strings_in;
pub use decode::username_model;
pub use decode::workload_model;
pub use policy::ProtectedToleration;
pub use policy::ScanOutcome;
pub use policy::contains_str;
pub use policy::decide;
pub use policy::decision_accepts;
pub use policy::decision_accepts_parts;
pub use policy::denied_message_spec;
pub use policy::entry_is_exists;
pub use policy::entry_key_matches;
pub use policy::entry_matches;
pub use policy::entry_vetoed;
pub use policy::gate_allows;
pub use policy::gate_allows_parts;
pub use policy::have_common;
pub use policy::lemma_allowed_group_accepted;
pub use policy::lemma_allowed_user_accepted;
pub use policy::lemma_foreign_object_accepted;
pub use policy::lemma_foreign_operation_accepted;
pub use policy::lemma_no_tolerations_accepted;
pub use policy::lemma_protected_exists_rejected;
pub use policy::lemma_triple_no_veto;
pub use policy::lemma_unauthorized_rejected;
pub use policy::protected_key;
pub use policy::rejection_message;
pub use policy::rejection_message_parts;
pub use policy::scan_spec;
pub use policy::username_in;
pub use policy::veto_message_spec;
pub use request::AdmissionRequest;
pub use request::PodDocument;
pub use request::TolerationEntry;
pub use request::UserInfo;
pub use request::Workload;
pub use request::groups_of;
pub use request::groups_seq;
pub use request::policed_operation;
pub use request::tolerations_of;
pub use request::views_of;
pub use settings::Settings;
pub use taint::Taint;
pub use taint::taint_text_spec;
pub use toleration::Toleration;
pub use toleration::toleration_text_spec;
pub use verdict::PayloadError;
pub use verdict::ValidationResponse;

use decode::{extract_operation, extract_user_info, extract_workload, json_from_str};
use policy::is_policed_operation;

verus! {

/// Decides one request document against a protected toleration and the
/// two allow-lists. The operation is read first: outside CREATE and
/// UPDATE nothing else is looked at. The verdict is fixed as a function
/// of the document and the configuration, through the extraction models
/// of the trusted boundary.
fn evaluate_document(
    request: &serde_json::Value,
    p: &ProtectedToleration,
    allowed_groups: &Vec<String>,
    allowed_users: &Vec<String>,
) -> (r: ValidationResponse)
    ensures
        r.wf(),
        r.accepted == decision_accepts_parts(
            operation_model(*request),
            workload_model(*request),
            username_model(*request),
            groups_model(*request),
            *p,
            views_of(allowed_groups@),
            views_of(allowed_users@),
        ),
        r.message matches Some(m) ==> m@ == rejection_message_parts(workload_model(*request), *p),
{
    let operation = extract_operation(request);
    if !is_policed_operation(&operation) {
        return ValidationResponse::accept();
    }
    let workload = extract_workload(request);
    let user_info = extract_user_info(request);
    let req = AdmissionRequest { operation, workload, user_info };
    policy::decide(&req, p, allowed_groups, allowed_users)
}

/// The decision core of the embedded form, on an already-reduced
/// request: the configured taint guards its key against `Exists` and
/// otherwise matches by value, and the allow-lists come straight from
/// the settings.
pub fn validate_request(req: &AdmissionRequest, settings: &Settings) -> (r: ValidationResponse)
    ensures
        r.wf(),
        r.accepted == decision_accepts(
            *req,
            settings.protected_spec(),
            views_of(settings.allowed_groups@),
            views_of(settings.allowed_users@),
        ),
        r.message matches Some(m) ==> m@ == rejection_message(
            *req,
            settings.protected_spec(),
        ),
{
    let p = settings.protected();
    policy::decide(req, &p, &settings.allowed_groups, &settings.allowed_users)
}

/// The decision core of the standalone form, on an already-reduced
/// request: the configured triple is matched literally, and the
/// allow-lists are the comma-split of the configured strings.
pub fn eval_request(req: &AdmissionRequest, config: &Config) -> (r: ValidationResponse)
    ensures
        r.wf(),
        r.accepted == decision_accepts(
            *req,
            config.protected_spec(),
            split_opt(config.allowed_groups),
            split_opt(config.allowed_users),
        ),
        r.message matches Some(m) ==> m@ == rejection_message(
            *req,
            config.protected_spec(),
        ),
{
    let p = config.protected();
    let groups = config.allowed_groups();
    let users = config.allowed_users();
    policy::decide(req, &p, &groups, &users)
}

/// Decides one admission request of the embedded form: the request
/// document together with the permissive key/value configuration. The
/// verdict is a function of the document and the settings alone; a
/// rejection carries either the fixed veto reason or the allow-list
/// reason for the configured taint.
pub fn validate(request: &serde_json::Value, settings: &Settings) -> (r: ValidationResponse)
    ensures
        r.wf(),
        r.accepted == decision_accepts_parts(
            operation_model(*request),
            workload_model(*request),
            username_model(*request),
            groups_model(*request),
            settings.protected_spec(),
            views_of(settings.allowed_groups@),
            views_of(settings.allowed_users@),
        ),
        r.message matches Some(m) ==> m@ == rejection_message_parts(
            workload_model(*request),
            settings.protected_spec(),
        ),
{
    let p = settings.protected();
    evaluate_document(request, &p, &settings.allowed_groups, &settings.allowed_users)
}

/// Decides one admission request of the standalone form: the request
/// text together with the strict triple configuration. Text that the
/// JSON parser refuses is the one fatal error; it never turns into a
/// verdict. On accepted text the verdict is owed and is a function of
/// the text and the configuration alone; a rejection always carries the
/// allow-list reason for the configured toleration triple.
pub fn eval(raw: &str, config: &Config) -> (r: Result<ValidationResponse, PayloadError>)
    ensures
        r is Ok <==> json_well_formed(raw@),
        r matches Err(e) ==> e == PayloadError::Malformed,
        json_doc_of(raw@) matches Some(doc) ==> (r matches Ok(v) && v.wf()
            && v.accepted == decision_accepts_parts(
            operation_model(doc),
            workload_model(doc),
            username_model(doc),
            groups_model(doc),
            config.protected_spec(),
            split_opt(config.allowed_groups),
            split_opt(config.allowed_users),
        ) && (v.message matches Some(m) ==> m@ == denied_message_spec(config.protected_spec()))),
{
    let doc = match json_from_str(raw) {
        Some(d) => d,
        None => {
            return Err(PayloadError::Malformed);
        },
    };
    let p = config.protected();
    let groups = config.allowed_groups();
    let users = config.allowed_users();
    let v = evaluate_document(&doc, &p, &groups, &users);
    proof {
        lemma_triple_no_veto(tolerations_of(workload_model(doc)), config.protected_spec());
    }
    Ok(v)
}

} // verus!
