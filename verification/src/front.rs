//! The decisions the dispatch entry point makes: which fixed operations are
//! intercepted for direct handling, and the response envelopes each outcome
//! yields. The transport around them lives outside the library.

use vstd::prelude::*;
use crate::envelope::VosMessage;
use crate::json::Json;
use crate::strutil::str_eq;
use crate::specbundle::SpecbundleCreateResp;
use crate::secrets::SecretGetResp;

verus! {

/// Where an incoming envelope goes: one of the intercepted operations, or the
/// registry.
pub enum Route {
    SpecbundleCreate,
    ChatBatch,
    SecretsSet,
    SecretsGet,
    Registry,
}

/// Which route a target and operation select.
pub open spec fn route_of(target: Seq<char>, op: Seq<char>) -> Route {
    if target == "opencode_pm"@ && op == "specbundle.create"@ {
        Route::SpecbundleCreate
    } else if target == "model_manager"@ && op == "chat.batch"@ {
        Route::ChatBatch
    } else if target == "opencode_pm"@ && op == "secrets.set"@ {
        Route::SecretsSet
    } else if target == "opencode_pm"@ && op == "secrets.get"@ {
        Route::SecretsGet
    } else {
        Route::Registry
    }
}

/// Classifies an envelope by target and operation.
pub fn classify(target: &str, op: &str) -> (r: Route)
    ensures
        r == route_of(target@, op@),
{
    if str_eq(target, "opencode_pm") && str_eq(op, "specbundle.create") {
        Route::SpecbundleCreate
    } else if str_eq(target, "model_manager") && str_eq(op, "chat.batch") {
        Route::ChatBatch
    } else if str_eq(target, "opencode_pm") && str_eq(op, "secrets.set") {
        Route::SecretsSet
    } else if str_eq(target, "opencode_pm") && str_eq(op, "secrets.get") {
        Route::SecretsGet
    } else {
        Route::Registry
    }
}

/// The response envelope for a completed creation: the assigned reference,
/// the stored-part count, and whether ingest was requested.
pub open spec fn is_created_response(m: VosMessage, resp: SpecbundleCreateResp) -> bool {
    &&& m.target@ == "opencode_pm"@
    &&& m.op@ == "specbundle.created"@
    &&& m.payload matches Json::Obj(e)
    &&& m.payload->Obj_0@.len() == 3
    &&& m.payload->Obj_0@[0].0@ == "ko_id"@
    &&& m.payload->Obj_0@[0].1 matches Json::Str(s)
    &&& m.payload->Obj_0@[0].1->Str_0@ == resp.ko_id@
    &&& m.payload->Obj_0@[1].0@ == "stored_parts"@
    &&& m.payload->Obj_0@[1].1 matches Json::Int(n)
    &&& m.payload->Obj_0@[1].1->Int_0 == resp.stored_parts as int
    &&& m.payload->Obj_0@[2].0@ == "ingested"@
    &&& m.payload->Obj_0@[2].1 == Json::Bool(resp.ingested)
}

/// Builds the response envelope for a completed creation.
pub fn created_response(resp: &SpecbundleCreateResp) -> (r: VosMessage)
    requires
        resp.stored_parts as int <= 0x7fff_ffff_ffff_ffff,
    ensures
        is_created_response(r, *resp),
{
    let mut entries: Vec<(String, Json)> = Vec::new();
    entries.push(("ko_id".to_owned(), Json::Str(resp.ko_id.clone())));
    entries.push(("stored_parts".to_owned(), Json::Int(resp.stored_parts as i64)));
    entries.push(("ingested".to_owned(), Json::Bool(resp.ingested)));
    VosMessage {
        target: "opencode_pm".to_owned(),
        op: "specbundle.created".to_owned(),
        payload: Json::Obj(entries),
    }
}

/// The acknowledgement for a stored secret: an empty payload.
pub open spec fn is_secrets_ok_response(m: VosMessage) -> bool {
    &&& m.target@ == "opencode_pm"@
    &&& m.op@ == "secrets.ok"@
    &&& m.payload matches Json::Obj(e)
    &&& m.payload->Obj_0@.len() == 0
}

/// Builds the acknowledgement for a stored secret.
pub fn secrets_ok_response() -> (r: VosMessage)
    ensures
        is_secrets_ok_response(r),
{
    let entries: Vec<(String, Json)> = Vec::new();
    VosMessage {
        target: "opencode_pm".to_owned(),
        op: "secrets.ok".to_owned(),
        payload: Json::Obj(entries),
    }
}

/// The answer to a secret lookup: whether it exists, and the key or null.
pub open spec fn is_secret_value_response(m: VosMessage, resp: SecretGetResp) -> bool {
    &&& m.target@ == "opencode_pm"@
    &&& m.op@ == "secrets.value"@
    &&& m.payload matches Json::Obj(e)
    &&& m.payload->Obj_0@.len() == 2
    &&& m.payload->Obj_0@[0].0@ == "exists"@
    &&& m.payload->Obj_0@[0].1 == Json::Bool(resp.exists)
    &&& m.payload->Obj_0@[1].0@ == "key"@
    &&& (match resp.key {
        Some(k) => m.payload->Obj_0@[1].1 matches Json::Str(s) && m.payload->Obj_0@[1].1->Str_0@
            == k@,
        None => m.payload->Obj_0@[1].1 is Null,
    })
}

/// Builds the answer to a secret lookup.
pub fn secret_value_response(resp: &SecretGetResp) -> (r: VosMessage)
    ensures
        is_secret_value_response(r, *resp),
{
    let kj = match &resp.key {
        Some(k) => Json::Str(k.clone()),
        None => Json::Null,
    };
    let mut entries: Vec<(String, Json)> = Vec::new();
    entries.push(("exists".to_owned(), Json::Bool(resp.exists)));
    entries.push(("key".to_owned(), kj));
    VosMessage {
        target: "opencode_pm".to_owned(),
        op: "secrets.value".to_owned(),
        payload: Json::Obj(entries),
    }
}

} // verus!
