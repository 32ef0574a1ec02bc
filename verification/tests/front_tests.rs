use opencode_pm::front::{Route, classify, created_response, secret_value_response, secrets_ok_response};
use opencode_pm::json::Json;
use opencode_pm::model_manager::{ChatBatchReq, ChatItem, ChatMessage, ModelManagerService};
use opencode_pm::secrets::{SecretGetResp, SecretsService};
use opencode_pm::specbundle::SpecbundleCreateResp;

#[test]
fn classify_intercepts_the_fixed_operations() {
    assert!(matches!(classify("opencode_pm", "specbundle.create"), Route::SpecbundleCreate));
    assert!(matches!(classify("model_manager", "chat.batch"), Route::ChatBatch));
    assert!(matches!(classify("opencode_pm", "secrets.set"), Route::SecretsSet));
    assert!(matches!(classify("opencode_pm", "secrets.get"), Route::SecretsGet));
    assert!(matches!(classify("opencode_pm", "chat.batch"), Route::Registry));
    assert!(matches!(classify("context_service", "context.fetch"), Route::Registry));
}

#[test]
fn created_response_reports_the_outcome() {
    let resp = SpecbundleCreateResp {
        ko_id: "ko:specbundle/x".to_string(),
        stored_parts: 2,
        ingested: true,
    };
    let m = created_response(&resp);
    assert_eq!(m.target, "opencode_pm");
    assert_eq!(m.op, "specbundle.created");
    match &m.payload {
        Json::Obj(e) => {
            assert_eq!(e.len(), 3);
            assert_eq!(e[0].0, "ko_id");
            assert!(matches!(&e[1].1, Json::Int(2)));
            assert!(matches!(&e[2].1, Json::Bool(true)));
        },
        _ => panic!("payload must be an object"),
    }
}

#[test]
fn secrets_responses_take_their_shapes() {
    let ok = secrets_ok_response();
    assert_eq!(ok.op, "secrets.ok");
    assert!(matches!(&ok.payload, Json::Obj(e) if e.is_empty()));

    let hit = secret_value_response(&SecretGetResp { exists: true, key: Some("k-1".to_string()) });
    assert_eq!(hit.op, "secrets.value");
    match &hit.payload {
        Json::Obj(e) => {
            assert!(matches!(&e[0].1, Json::Bool(true)));
            assert!(matches!(&e[1].1, Json::Str(s) if s == "k-1"));
        },
        _ => panic!("payload must be an object"),
    }
    let miss = secret_value_response(&SecretGetResp { exists: false, key: None });
    match &miss.payload {
        Json::Obj(e) => {
            assert!(matches!(&e[0].1, Json::Bool(false)));
            assert!(matches!(&e[1].1, Json::Null));
        },
        _ => panic!("payload must be an object"),
    }
}

#[test]
fn chat_batch_echoes_each_item_in_order() {
    let req = ChatBatchReq {
        batch: vec![
            ChatItem {
                provider: "prov".to_string(),
                model: "mod".to_string(),
                persona: None,
                session_id: "s-1".to_string(),
                messages: vec![
                    ChatMessage { role: "user".to_string(), content: "first".to_string() },
                    ChatMessage { role: "user".to_string(), content: "hi".to_string() },
                ],
            },
            ChatItem {
                provider: "p2".to_string(),
                model: "m2".to_string(),
                persona: Some("pal".to_string()),
                session_id: "s-2".to_string(),
                messages: vec![],
            },
        ],
    };
    let resp = ModelManagerService::chat_batch(req).unwrap();
    assert_eq!(resp.results.len(), 2);
    let r0 = &resp.results[0];
    assert_eq!(r0.session_id, "s-1");
    assert_eq!(r0.content, "(stub) prov → mod responded to: hi");
    assert_eq!(r0.usage_tokens, None);
    assert_eq!(r0.provider.as_deref(), Some("prov"));
    assert_eq!(r0.model.as_deref(), Some("mod"));
    assert_eq!(r0.latency_ms, Some(25));
    let r1 = &resp.results[1];
    assert_eq!(r1.session_id, "s-2");
    assert_eq!(r1.content, "(stub) p2 → m2 responded to: ");
}

#[test]
fn secrets_namespace_is_per_provider() {
    assert_eq!(
        SecretsService::service_namespace("openai"),
        "tempext.genesis.secrets.openai"
    );
}
