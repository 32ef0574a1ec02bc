use opencode_pm::bundle_codec::{bundle_to_json, decode_create_req, json_to_bundle};
use opencode_pm::json::{Json, json_quote, obj_get};
use opencode_pm::specbundle::{SpecBundle, SpecPart, SourceSession, SpecbundleCreateReq, plan_with};

fn sample_bundle() -> SpecBundle {
    SpecBundle {
        title: "Design \"notes\"\nwith edges\t".to_string(),
        created_by: "alice".to_string(),
        source_sessions: vec![
            SourceSession { agent: "planner".to_string(), session_id: "s-1".to_string() },
            SourceSession { agent: "coder".to_string(), session_id: "s-2".to_string() },
        ],
        parts: vec![
            SpecPart {
                kind: "markdown".to_string(),
                path: None,
                content: Some("# Title\nbody \\ with escapes \"q\"".to_string()),
            },
            SpecPart {
                kind: "attachment".to_string(),
                path: Some("/data/in.bin".to_string()),
                content: None,
            },
            SpecPart { kind: "mermaid".to_string(), path: None, content: Some("a-->b".to_string()) },
        ],
        tags: vec!["one".to_string(), "two".to_string()],
        redactions: vec!["p1".to_string()],
    }
}

fn assert_bundles_equal(a: &SpecBundle, b: &SpecBundle) {
    assert_eq!(a.title, b.title);
    assert_eq!(a.created_by, b.created_by);
    assert_eq!(a.source_sessions.len(), b.source_sessions.len());
    for (x, y) in a.source_sessions.iter().zip(b.source_sessions.iter()) {
        assert_eq!(x.agent, y.agent);
        assert_eq!(x.session_id, y.session_id);
    }
    assert_eq!(a.parts.len(), b.parts.len());
    for (x, y) in a.parts.iter().zip(b.parts.iter()) {
        assert_eq!(x.kind, y.kind);
        assert_eq!(x.path, y.path);
        assert_eq!(x.content, y.content);
    }
    assert_eq!(a.tags, b.tags);
    assert_eq!(a.redactions, b.redactions);
}

fn value_to_json(v: &serde_json::Value) -> Json {
    match v {
        serde_json::Value::Null => Json::Null,
        serde_json::Value::Bool(b) => Json::Bool(*b),
        serde_json::Value::Number(n) => Json::Int(n.as_i64().expect("integral number")),
        serde_json::Value::String(s) => Json::Str(s.clone()),
        serde_json::Value::Array(items) => Json::Arr(items.iter().map(value_to_json).collect()),
        serde_json::Value::Object(m) => {
            Json::Obj(m.iter().map(|(k, x)| (k.clone(), value_to_json(x))).collect())
        },
    }
}

#[test]
fn tree_round_trip_returns_the_bundle() {
    let b = sample_bundle();
    let j = bundle_to_json(&b);
    let back = json_to_bundle(&j).unwrap();
    assert_bundles_equal(&b, &back);
}

#[test]
fn written_snapshot_reads_back_as_the_bundle() {
    let b = sample_bundle();
    let req = SpecbundleCreateReq { bundle: b, ingest: Some(false) };
    let plan = plan_with(&req, "00000000-0000-4000-8000-000000000000", "now").unwrap();
    assert_eq!(plan.files[0].rel_path, "bundle.json");
    let text = &plan.files[0].content;
    let v: serde_json::Value = serde_json::from_str(text).expect("snapshot is valid JSON");
    let back = json_to_bundle(&value_to_json(&v)).unwrap();
    assert_bundles_equal(&req.bundle, &back);
}

#[test]
fn decode_tolerates_unknown_fields() {
    let b = sample_bundle();
    let j = bundle_to_json(&b);
    let extended = match j {
        Json::Obj(mut entries) => {
            entries.push(("extra".to_string(), Json::Int(7)));
            Json::Obj(entries)
        },
        _ => panic!("encoding must be an object"),
    };
    let back = json_to_bundle(&extended).unwrap();
    assert_bundles_equal(&sample_bundle(), &back);
}

#[test]
fn decode_rejects_missing_and_ill_shaped_fields() {
    assert!(json_to_bundle(&Json::Null).is_err());
    assert!(json_to_bundle(&Json::Obj(vec![])).is_err());
    let bad = Json::Obj(vec![("title".to_string(), Json::Int(3))]);
    assert!(json_to_bundle(&bad).is_err());
}

#[test]
fn decode_create_req_reads_bundle_and_ingest() {
    let b = sample_bundle();
    let payload = Json::Obj(vec![
        ("bundle".to_string(), bundle_to_json(&b)),
        ("ingest".to_string(), Json::Bool(true)),
    ]);
    let req = decode_create_req(&payload).unwrap();
    assert_eq!(req.ingest, Some(true));
    assert_bundles_equal(&b, &req.bundle);

    let none = Json::Obj(vec![("bundle".to_string(), bundle_to_json(&b))]);
    assert_eq!(decode_create_req(&none).unwrap().ingest, None);

    let null_flag = Json::Obj(vec![
        ("bundle".to_string(), bundle_to_json(&b)),
        ("ingest".to_string(), Json::Null),
    ]);
    assert_eq!(decode_create_req(&null_flag).unwrap().ingest, None);

    assert!(decode_create_req(&Json::Obj(vec![])).is_err());
}

#[test]
fn quoting_escapes_as_json() {
    assert_eq!(json_quote("plain"), "\"plain\"");
    assert_eq!(json_quote("a\"b\\c\nd\re\tf"), "\"a\\\"b\\\\c\\nd\\re\\tf\"");
    assert_eq!(json_quote("\u{1}"), "\"\\u0001\"");
    assert_eq!(json_quote("\u{1f}"), "\"\\u001f\"");
    // What serde_json parses back equals the original.
    let parsed: serde_json::Value = serde_json::from_str(&json_quote("mixed \" \\ \n \u{2} ✓")).unwrap();
    assert_eq!(parsed, serde_json::Value::String("mixed \" \\ \n \u{2} ✓".to_string()));
}

#[test]
fn object_lookup_finds_first_entry() {
    let j = Json::Obj(vec![
        ("k".to_string(), Json::Int(1)),
        ("k".to_string(), Json::Int(2)),
        ("other".to_string(), Json::Null),
    ]);
    match obj_get(&j, "k") {
        Some(Json::Int(v)) => assert_eq!(*v, 1),
        _ => panic!("lookup must find the first entry"),
    }
    assert!(obj_get(&j, "missing").is_none());
    assert!(obj_get(&Json::Null, "k").is_none());
}
