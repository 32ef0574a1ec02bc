use opencode_pm::envelope::{VosError, VosMessage, error_envelope, detailed_error_envelope};
use opencode_pm::json::Json;
use opencode_pm::registry::{default_registry, Service, ContextService, PmService};
use opencode_pm::api::Health;

fn msg(target: &str, op: &str, payload: Json) -> VosMessage {
    VosMessage { target: target.to_string(), op: op.to_string(), payload }
}

#[test]
fn dispatch_unknown_target_is_bad_request() {
    let reg = default_registry();
    let r = reg.dispatch(msg("nobody", "anything", Json::Null));
    match r {
        Err(VosError::BadRequest(m)) => assert_eq!(m, "unknown target"),
        _ => panic!("expected a routing bad request"),
    }
}

#[test]
fn dispatch_known_target_unknown_op_is_service_error() {
    let reg = default_registry();
    let r = reg.dispatch(msg("opencode_pm", "no.such.op", Json::Null));
    match r {
        Err(VosError::BadRequest(m)) => {
            assert_eq!(m, "Unsupported operation");
            assert_ne!(m, "unknown target");
        },
        _ => panic!("expected the service's own bad request"),
    }
}

#[test]
fn dispatch_pm_create_acknowledges_with_fresh_ref() {
    let reg = default_registry();
    let r = reg.dispatch(msg("opencode_pm", "specbundle.create", Json::Null)).unwrap();
    assert_eq!(r.target, "opencode_pm");
    assert_eq!(r.op, "specbundle.created");
    match &r.payload {
        Json::Obj(entries) => {
            assert_eq!(entries.len(), 2);
            assert_eq!(entries[0].0, "ko_ref");
            match &entries[0].1 {
                Json::Str(kr) => {
                    assert!(kr.starts_with("ko://specbundle/"));
                    assert_eq!(kr.len(), "ko://specbundle/".len() + 36);
                },
                _ => panic!("ko_ref must be a string"),
            }
            assert_eq!(entries[1].0, "status");
            match &entries[1].1 {
                Json::Str(st) => assert_eq!(st, "created"),
                _ => panic!("status must be a string"),
            }
        },
        _ => panic!("payload must be an object"),
    }
}

#[test]
fn dispatch_context_fetch_returns_path_and_refs() {
    let reg = default_registry();
    let payload = Json::Obj(vec![("path".to_string(), Json::Str("src/main.rs".to_string()))]);
    let r = reg.dispatch(msg("context_service", "context.fetch", payload)).unwrap();
    assert_eq!(r.target, "context_service");
    assert_eq!(r.op, "context.fetch.ok");
    match &r.payload {
        Json::Obj(entries) => {
            assert_eq!(entries[0].0, "path");
            match &entries[0].1 {
                Json::Str(p) => assert_eq!(p, "src/main.rs"),
                _ => panic!("path must be a string"),
            }
            assert_eq!(entries[1].0, "ko_refs");
            match &entries[1].1 {
                Json::Arr(refs) => assert_eq!(refs.len(), 2),
                _ => panic!("ko_refs must be an array"),
            }
        },
        _ => panic!("payload must be an object"),
    }
}

#[test]
fn dispatch_context_fetch_defaults_path() {
    let reg = default_registry();
    let r = reg.dispatch(msg("context_service", "context.fetch", Json::Null)).unwrap();
    match &r.payload {
        Json::Obj(entries) => match &entries[0].1 {
            Json::Str(p) => assert_eq!(p, "."),
            _ => panic!("path must be a string"),
        },
        _ => panic!("payload must be an object"),
    }
}

#[test]
fn services_advertise_their_capabilities() {
    let c = Service::Context(ContextService);
    assert_eq!(c.service_name(), "context_service");
    assert_eq!(c.capabilities(), vec!["context.fetch".to_string()]);
    let p = Service::Pm(PmService);
    assert_eq!(p.service_name(), "opencode_pm");
    assert_eq!(p.capabilities(), vec!["specbundle.create".to_string()]);
}

#[test]
fn error_envelopes_carry_code_and_message() {
    let e = error_envelope("something broke");
    assert_eq!(e.target, "error");
    assert_eq!(e.op, "error");
    match &e.payload {
        Json::Obj(entries) => {
            assert_eq!(entries[0].0, "err");
            match &entries[0].1 {
                Json::Str(m) => assert_eq!(m, "something broke"),
                _ => panic!("err must be a string"),
            }
        },
        _ => panic!("payload must be an object"),
    }
    let d = detailed_error_envelope("invalid request", "details", "missing bundle");
    match &d.payload {
        Json::Obj(entries) => {
            assert_eq!(entries.len(), 2);
            assert_eq!(entries[1].0, "details");
        },
        _ => panic!("payload must be an object"),
    }
}

#[test]
fn health_reports_ok() {
    let h = Health::ok();
    assert_eq!(h.status, "ok");
}
