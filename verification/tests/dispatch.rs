//! Dispatch, validation, defaulting and the method catalog.

use gmail_daemon::error::ErrorKind;
use gmail_daemon::gmail::GmailService;
use gmail_daemon::params::RequestParams;
use gmail_daemon::value::Value;

fn service() -> GmailService {
    GmailService::new("/tmp/gmail-cli.py".to_string(), true).unwrap()
}

#[test]
fn unknown_method_is_rejected_without_backend() {
    let svc = service();
    let err = svc.dispatch("frobnicate", RequestParams::new()).unwrap_err();
    assert_eq!(err.kind, ErrorKind::UnknownMethod);
    assert_eq!(err.message, "frobnicate");
}

#[test]
fn search_without_query_is_rejected_naming_query() {
    let svc = service();
    let err = svc.dispatch("search", RequestParams::new()).unwrap_err();
    assert_eq!(err.kind, ErrorKind::MissingRequiredParam);
    assert_eq!(err.message, "query");
}

#[test]
fn search_applies_default_limit() {
    let svc = service();
    let mut params = RequestParams::new();
    params.insert("query".to_string(), Value::Str("invoices".to_string()));
    let cmd = svc.dispatch("search", params).unwrap();
    assert_eq!(cmd.args, vec!["search", "invoices", "--limit", "10"]);
}

#[test]
fn search_uses_given_limit() {
    let svc = service();
    let mut params = RequestParams::new();
    params.insert("query".to_string(), Value::Str("from:newsletter".to_string()));
    params.insert("limit".to_string(), Value::Int(25));
    let cmd = svc.dispatch("search", params).unwrap();
    assert_eq!(cmd.args, vec!["search", "from:newsletter", "--limit", "25"]);
}

#[test]
fn search_with_non_string_query_is_rejected() {
    let svc = service();
    let mut params = RequestParams::new();
    params.insert("query".to_string(), Value::Int(3));
    let err = svc.dispatch("search", params).unwrap_err();
    assert_eq!(err.kind, ErrorKind::MissingRequiredParam);
    assert_eq!(err.message, "query");
}

#[test]
fn inbox_defaults_limit_to_ten() {
    let svc = service();
    let cmd = svc.dispatch("inbox", RequestParams::new()).unwrap();
    assert_eq!(cmd.args, vec!["inbox", "--limit", "10"]);
}

#[test]
fn inbox_ignores_unusable_limit() {
    let svc = service();
    let mut params = RequestParams::new();
    params.insert("limit".to_string(), Value::Str("many".to_string()));
    let cmd = svc.dispatch("inbox", params).unwrap();
    assert_eq!(cmd.args, vec!["inbox", "--limit", "10"]);

    let mut params = RequestParams::new();
    params.insert("limit".to_string(), Value::Int(-4));
    let cmd = svc.dispatch("inbox", params).unwrap();
    assert_eq!(cmd.args, vec!["inbox", "--limit", "10"]);
}

#[test]
fn unread_takes_no_arguments() {
    let svc = service();
    let cmd = svc.dispatch("unread", RequestParams::new()).unwrap();
    assert_eq!(cmd.args, vec!["unread"]);
}

#[test]
fn send_forwards_positional_arguments_in_order() {
    let svc = service();
    let mut params = RequestParams::new();
    params.insert("to".to_string(), Value::Str("a@b.c".to_string()));
    params.insert("subject".to_string(), Value::Str("hello".to_string()));
    params.insert("body".to_string(), Value::Str("text".to_string()));
    let cmd = svc.dispatch("send", params).unwrap();
    assert_eq!(cmd.args, vec!["send", "a@b.c", "hello", "text"]);
}

#[test]
fn send_missing_subject_is_rejected_naming_subject() {
    let svc = service();
    let mut params = RequestParams::new();
    params.insert("to".to_string(), Value::Str("a@b.c".to_string()));
    params.insert("body".to_string(), Value::Str("text".to_string()));
    let err = svc.dispatch("send", params).unwrap_err();
    assert_eq!(err.kind, ErrorKind::MissingRequiredParam);
    assert_eq!(err.message, "subject");
}

#[test]
fn thread_forwards_thread_id() {
    let svc = service();
    let mut params = RequestParams::new();
    params.insert("thread_id".to_string(), Value::Str("t-42".to_string()));
    let cmd = svc.dispatch("thread", params).unwrap();
    assert_eq!(cmd.args, vec!["thread", "t-42"]);
}

#[test]
fn thread_without_id_is_rejected() {
    let svc = service();
    let err = svc.dispatch("thread", RequestParams::new()).unwrap_err();
    assert_eq!(err.kind, ErrorKind::MissingRequiredParam);
    assert_eq!(err.message, "thread_id");
}

#[test]
fn method_list_is_stable_and_complete() {
    let svc = service();
    let first = svc.method_list();
    let second = svc.method_list();
    let names: Vec<String> = first.iter().map(|m| m.name.clone()).collect();
    let names_again: Vec<String> = second.iter().map(|m| m.name.clone()).collect();
    assert_eq!(names, names_again);
    assert_eq!(names, vec!["inbox", "unread", "search", "send", "thread"]);
}

#[test]
fn every_listed_method_is_accepted_with_its_required_params() {
    let svc = service();
    for method in svc.method_list() {
        let mut params = RequestParams::new();
        for p in &method.params {
            if p.required {
                params.insert(p.name.clone(), Value::Str("x".to_string()));
            }
        }
        let r = svc.dispatch(&method.name, params);
        assert!(r.is_ok(), "method {} was rejected", method.name);
    }
}

#[test]
fn method_list_declares_search_parameters() {
    let svc = service();
    let list = svc.method_list();
    let search = list.iter().find(|m| m.name == "search").unwrap();
    assert_eq!(search.description, "Search emails by query");
    assert_eq!(search.params.len(), 2);
    assert_eq!(search.params[0].name, "query");
    assert_eq!(search.params[0].param_type, "string");
    assert!(search.params[0].required);
    assert!(search.params[0].default.is_none());
    assert_eq!(search.params[1].name, "limit");
    assert_eq!(search.params[1].param_type, "integer");
    assert!(!search.params[1].required);
    assert!(matches!(search.params[1].default, Some(Value::Int(10))));
}

#[test]
fn extra_parameters_are_ignored() {
    let svc = service();
    let mut params = RequestParams::new();
    params.insert("query".to_string(), Value::Str("urgent".to_string()));
    params.insert("verbose".to_string(), Value::Bool(true));
    params.insert("tags".to_string(), Value::Composite("[\"a\",\"b\"]".to_string()));
    params.insert("note".to_string(), Value::Null);
    let cmd = svc.dispatch("search", params).unwrap();
    assert_eq!(cmd.args, vec!["search", "urgent", "--limit", "10"]);
}

#[test]
fn empty_method_name_is_unknown() {
    let svc = service();
    let err = svc.dispatch("", RequestParams::new()).unwrap_err();
    assert_eq!(err.kind, ErrorKind::UnknownMethod);
}

#[test]
fn params_insert_get_and_overwrite() {
    let mut params = RequestParams::new();
    assert!(!params.contains_key(&"k".to_string()));
    params.insert("k".to_string(), Value::Int(1));
    assert!(params.contains_key(&"k".to_string()));
    assert!(matches!(params.get(&"k".to_string()), Some(Value::Int(1))));
    params.insert("k".to_string(), Value::Str("two".to_string()));
    match params.get(&"k".to_string()) {
        Some(Value::Str(s)) => assert_eq!(s, "two"),
        other => panic!("unexpected value {:?}", other),
    }
    assert!(params.get(&"absent".to_string()).is_none());
}
