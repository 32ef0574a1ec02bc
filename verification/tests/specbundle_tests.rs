use opencode_pm::specbundle::{
    CreateError, SpecBundle, SpecPart, SpecbundleCreateReq, SpecbundleService, SourceSession,
    find_violation, plan_with, sanitize_ko_id,
};
use opencode_pm::strutil::{contains_substring, format_index, str_eq, u64_to_dec};

fn part(kind: &str, path: Option<&str>, content: Option<&str>) -> SpecPart {
    SpecPart {
        kind: kind.to_string(),
        path: path.map(|s| s.to_string()),
        content: content.map(|s| s.to_string()),
    }
}

fn bundle(parts: Vec<SpecPart>, redactions: Vec<&str>) -> SpecBundle {
    SpecBundle {
        title: "A bundle".to_string(),
        created_by: "tester".to_string(),
        source_sessions: vec![SourceSession {
            agent: "agent-1".to_string(),
            session_id: "sess-1".to_string(),
        }],
        parts,
        tags: vec!["design".to_string()],
        redactions: redactions.into_iter().map(|s| s.to_string()).collect(),
    }
}

#[test]
fn ordering_of_stored_parts_and_count() {
    let req = SpecbundleCreateReq {
        bundle: bundle(
            vec![
                part("markdown", None, Some("A")),
                part("mermaid", None, Some("B")),
                part("markdown", None, Some("C")),
            ],
            vec![],
        ),
        ingest: None,
    };
    let plan = plan_with(&req, "00000000-0000-4000-8000-000000000000", "now").unwrap();
    assert_eq!(plan.files.len(), 4);
    assert_eq!(plan.files[0].rel_path, "bundle.json");
    assert_eq!(plan.files[1].rel_path, "parts/0001.md");
    assert_eq!(plan.files[1].content, "A");
    assert_eq!(plan.files[2].rel_path, "parts/0002.mmd");
    assert_eq!(plan.files[2].content, "B");
    assert_eq!(plan.files[3].rel_path, "parts/0003.md");
    assert_eq!(plan.files[3].content, "C");
    assert_eq!(plan.response.stored_parts, 3);
    assert!(!plan.response.ingested);
}

#[test]
fn redaction_violation_aborts_with_nothing_planned() {
    let req = SpecbundleCreateReq {
        bundle: bundle(
            vec![part("markdown", None, Some("the SECRET is here"))],
            vec!["SECRET"],
        ),
        ingest: Some(true),
    };
    match plan_with(&req, "00000000-0000-4000-8000-000000000000", "now") {
        Err(CreateError::RedactionViolation(p)) => {
            assert_eq!(p, "SECRET");
            let e = CreateError::RedactionViolation(p);
            assert_eq!(
                e.message(),
                "guardian_redaction_violation: content contains redacted pattern 'SECRET'"
            );
        },
        _ => panic!("expected a redaction violation"),
    }
}

#[test]
fn guard_scans_only_first_markdown_part() {
    // The first markdown part is clean; a later one holds the pattern.
    let b = bundle(
        vec![
            part("mermaid", None, Some("SECRET in a diagram is not guarded")),
            part("markdown", None, Some("clean")),
            part("markdown", None, Some("SECRET")),
        ],
        vec!["SECRET"],
    );
    assert!(find_violation(&b).is_none());
}

#[test]
fn guard_reports_first_pattern_in_order() {
    let b = bundle(
        vec![part("markdown", None, Some("xx BBB yy AAA"))],
        vec!["AAA", "BBB"],
    );
    assert_eq!(find_violation(&b), Some("AAA".to_string()));
}

#[test]
fn skip_on_malformed_part_still_succeeds() {
    let req = SpecbundleCreateReq {
        bundle: bundle(
            vec![
                part("markdown", None, Some("kept")),
                part("attachment", None, None),
                part("mystery", None, Some("unrecognized kind")),
                part("markdown", None, None),
                part("attachment", Some("/tmp/a.bin"), None),
            ],
            vec![],
        ),
        ingest: None,
    };
    let plan = plan_with(&req, "00000000-0000-4000-8000-000000000000", "now").unwrap();
    assert_eq!(plan.response.stored_parts, 2);
    assert_eq!(plan.files.len(), 3);
    assert_eq!(plan.files[1].rel_path, "parts/0001.md");
    assert_eq!(plan.files[2].rel_path, "parts/0005.attachment.json");
    assert_eq!(plan.files[2].content, "{\"source_path\":\"/tmp/a.bin\"}");
}

#[test]
fn ingest_plans_an_audit_record() {
    let req = SpecbundleCreateReq {
        bundle: bundle(vec![part("markdown", None, Some("x"))], vec!["pat"]),
        ingest: Some(true),
    };
    let plan = plan_with(&req, "00000000-0000-4000-8000-000000000000", "2025-01-01 0:00:00.0 +00:00:00").unwrap();
    assert!(plan.response.ingested);
    let last = plan.files.last().unwrap();
    assert_eq!(last.rel_path, "audit.json");
    let v: serde_json::Value = serde_json::from_str(&last.content).unwrap();
    assert_eq!(v["event"], "INGEST.ENQUEUED");
    assert_eq!(v["ko_id"], "ko:specbundle/00000000-0000-4000-8000-000000000000");
    assert_eq!(v["at"], "2025-01-01 0:00:00.0 +00:00:00");
    assert_eq!(v["tags"][0], "design");
    assert_eq!(v["redactions"][0], "pat");
}

#[test]
fn directory_names_follow_the_reference() {
    let req = SpecbundleCreateReq { bundle: bundle(vec![], vec![]), ingest: None };
    let plan = plan_with(&req, "11111111-2222-4333-8444-555555555555", "now").unwrap();
    assert_eq!(plan.response.ko_id, "ko:specbundle/11111111-2222-4333-8444-555555555555");
    assert_eq!(plan.dir_name, "ko_specbundle_11111111-2222-4333-8444-555555555555");
    assert_eq!(
        plan.parts_dir,
        "ko_specbundle_11111111-2222-4333-8444-555555555555/parts"
    );
}

#[test]
fn two_creations_draw_distinct_identifiers() {
    let req = SpecbundleCreateReq {
        bundle: bundle(vec![part("markdown", None, Some("same"))], vec![]),
        ingest: None,
    };
    let p1 = SpecbundleService::plan_create(&req).unwrap();
    let p2 = SpecbundleService::plan_create(&req).unwrap();
    assert_ne!(p1.response.ko_id, p2.response.ko_id);
    assert_ne!(p1.dir_name, p2.dir_name);
    // The drawn identifier is a well-formed UUID rendering.
    let suffix = &p1.response.ko_id["ko:specbundle/".len()..];
    assert_eq!(suffix.len(), 36);
    assert!(uuid::Uuid::parse_str(suffix).is_ok());
}

#[test]
fn sanitize_replaces_separators() {
    assert_eq!(sanitize_ko_id("ko:specbundle/abc"), "ko_specbundle_abc");
    assert_eq!(sanitize_ko_id("no-separators"), "no-separators");
}

#[test]
fn decimal_and_index_formatting() {
    assert_eq!(u64_to_dec(0), "0");
    assert_eq!(u64_to_dec(907), "907");
    assert_eq!(format_index(1), "0001");
    assert_eq!(format_index(42), "0042");
    assert_eq!(format_index(999), "0999");
    assert_eq!(format_index(12345), "12345");
}

#[test]
fn substring_search_agrees_with_std() {
    assert!(contains_substring("hello world", "lo wo"));
    assert!(contains_substring("hello", ""));
    assert!(!contains_substring("hello", "world"));
    assert!(!contains_substring("ab", "abc"));
    assert!(str_eq("same", "same"));
    assert!(!str_eq("same", "other"));
}

#[test]
fn directory_setup_is_idempotent() {
    // Creating the same nested directories twice does not fail.
    let rt = tokio::runtime::Builder::new_current_thread().enable_all().build().unwrap();
    rt.block_on(async {
        let base = std::path::PathBuf::from("/tmp")
            .join(format!("specbundle-idempotence-{}", uuid::Uuid::new_v4()))
            .join("parts");
        tokio::fs::create_dir_all(&base).await.unwrap();
        tokio::fs::create_dir_all(&base).await.unwrap();
    });
}
