//! The structured-value codec for bundles: a creation request arrives as an
//! opaque payload tree and is decoded with unknown-field tolerance; a bundle
//! encodes back to the same tree shape. Decoding an encoded bundle yields the
//! bundle again, field for field.

use vstd::prelude::*;
use crate::json::{Json, json_get, obj_get, json_as_str, lemma_obj_key_index};
use crate::specbundle::{
    SpecPart, SpecPartView, SourceSession, SourceSessionView, SpecBundle, SpecBundleView,
    SpecbundleCreateReq, SpecbundleCreateReqView, opt_str_view, strings_view, sessions_view,
    parts_view,
};

verus! {

/// The strings inside an array, when every element is a JSON string.
pub open spec fn json_strings_view(items: Seq<Json>) -> Option<Seq<Seq<char>>>
    decreases items.len(),
{
    if items.len() == 0 {
        Some(Seq::empty())
    } else {
        match (json_strings_view(items.drop_last()), items.last()) {
            (Some(v), Json::Str(s)) => Some(v.push(s@)),
            _ => None,
        }
    }
}

/// One source session read out of an object; unknown keys are tolerated.
pub open spec fn json_session_view(j: Json) -> Option<SourceSessionView> {
    match (json_get(j, "agent"@), json_get(j, "session_id"@)) {
        (Some(Json::Str(a)), Some(Json::Str(s))) => Some(
            SourceSessionView { agent: a@, session_id: s@ },
        ),
        _ => None,
    }
}

/// The source sessions inside an array, when every element reads as one.
pub open spec fn json_sessions_view(items: Seq<Json>) -> Option<Seq<SourceSessionView>>
    decreases items.len(),
{
    if items.len() == 0 {
        Some(Seq::empty())
    } else {
        match (json_sessions_view(items.drop_last()), json_session_view(items.last())) {
            (Some(v), Some(s)) => Some(v.push(s)),
            _ => None,
        }
    }
}

/// An optional string field: absent or null reads as `None`, a string reads
/// as itself, and any other shape is a mismatch.
pub open spec fn json_opt_str_field(j: Json, key: Seq<char>) -> Option<Option<Seq<char>>> {
    match json_get(j, key) {
        None => Some(None),
        Some(Json::Null) => Some(None),
        Some(Json::Str(s)) => Some(Some(s@)),
        Some(_) => None,
    }
}

/// One part read out of an object; unknown keys are tolerated.
pub open spec fn json_part_view(j: Json) -> Option<SpecPartView> {
    match (json_get(j, "kind"@), json_opt_str_field(j, "path"@), json_opt_str_field(
        j,
        "content"@,
    )) {
        (Some(Json::Str(k)), Some(p), Some(c)) => Some(
            SpecPartView { kind: k@, path: p, content: c },
        ),
        _ => None,
    }
}

/// The parts inside an array, when every element reads as one.
pub open spec fn json_parts_view(items: Seq<Json>) -> Option<Seq<SpecPartView>>
    decreases items.len(),
{
    if items.len() == 0 {
        Some(Seq::empty())
    } else {
        match (json_parts_view(items.drop_last()), json_part_view(items.last())) {
            (Some(v), Some(p)) => Some(v.push(p)),
            _ => None,
        }
    }
}

/// A bundle read out of a payload tree; unknown keys are tolerated, missing
/// or ill-shaped required keys are a mismatch.
pub open spec fn json_bundle_view(j: Json) -> Option<SpecBundleView> {
    match (json_get(j, "title"@), json_get(j, "created_by"@), json_get(j, "source_sessions"@),
    json_get(j, "parts"@), json_get(j, "tags"@), json_get(j, "redactions"@)) {
        (
            Some(Json::Str(t)),
            Some(Json::Str(cb)),
            Some(Json::Arr(ss)),
            Some(Json::Arr(ps)),
            Some(Json::Arr(tg)),
            Some(Json::Arr(rd)),
        ) => {
            match (json_sessions_view(ss@), json_parts_view(ps@), json_strings_view(tg@),
            json_strings_view(rd@)) {
                (Some(ssv), Some(psv), Some(tgv), Some(rdv)) => Some(
                    SpecBundleView {
                        title: t@,
                        created_by: cb@,
                        source_sessions: ssv,
                        parts: psv,
                        tags: tgv,
                        redactions: rdv,
                    },
                ),
                _ => None,
            }
        },
        _ => None,
    }
}

/// A creation request read out of a payload tree: the bundle under "bundle"
/// and an optional boolean under "ingest".
pub open spec fn json_create_req_view(j: Json) -> Option<SpecbundleCreateReqView> {
    match json_get(j, "bundle"@) {
        Some(bj) => match json_bundle_view(bj) {
            Some(bv) => match json_get(j, "ingest"@) {
                None => Some(SpecbundleCreateReqView { bundle: bv, ingest: None }),
                Some(Json::Null) => Some(SpecbundleCreateReqView { bundle: bv, ingest: None }),
                Some(Json::Bool(b)) => Some(
                    SpecbundleCreateReqView { bundle: bv, ingest: Some(b) },
                ),
                Some(_) => None,
            },
            None => None,
        },
        None => None,
    }
}

proof fn lemma_strings_view_bad(items: Seq<Json>, i: int)
    requires
        0 <= i < items.len(),
        !(items[i] matches Json::Str(_)),
    ensures
        json_strings_view(items) is None,
    decreases items.len(),
{
    if i < items.len() - 1 {
        lemma_strings_view_bad(items.drop_last(), i);
    }
}

proof fn lemma_sessions_view_bad(items: Seq<Json>, i: int)
    requires
        0 <= i < items.len(),
        json_session_view(items[i]) is None,
    ensures
        json_sessions_view(items) is None,
    decreases items.len(),
{
    if i < items.len() - 1 {
        lemma_sessions_view_bad(items.drop_last(), i);
    }
}

proof fn lemma_parts_view_bad(items: Seq<Json>, i: int)
    requires
        0 <= i < items.len(),
        json_part_view(items[i]) is None,
    ensures
        json_parts_view(items) is None,
    decreases items.len(),
{
    if i < items.len() - 1 {
        lemma_parts_view_bad(items.drop_last(), i);
    }
}

/// Decodes an array of JSON strings.
fn decode_strings(items: &Vec<Json>) -> (r: Result<Vec<String>, String>)
    ensures
        match r {
            Ok(v) => json_strings_view(items@) == Some(strings_view(v@)),
            Err(_) => json_strings_view(items@) is None,
        },
{
    let mut out: Vec<String> = Vec::new();
    let n = items.len();
    let mut i: usize = 0;
    while i < n
        invariant
            n == items@.len(),
            i <= n,
            json_strings_view(items@.subrange(0, i as int)) == Some(strings_view(out@)),
        decreases n - i,
    {
        let el = &items[i];
        match json_as_str(el) {
            Some(s) => {
                out.push(s.clone());
            },
            None => {
                proof {
                    lemma_strings_view_bad(items@, i as int);
                }
                return Err("expected a string".to_owned());
            },
        }
        proof {
            assert(items@.subrange(0, i as int + 1).drop_last() =~= items@.subrange(0, i as int));
            assert(items@.subrange(0, i as int + 1).last() == items@[i as int]);
            assert(strings_view(out@) =~= strings_view(out@.drop_last()).push(
                out@.last()@,
            ));
        }
        i += 1;
    }
    proof {
        assert(items@.subrange(0, n as int) =~= items@);
    }
    Ok(out)
}

/// Decodes one source session object.
fn decode_session(el: &Json) -> (r: Result<SourceSession, String>)
    ensures
        match r {
            Ok(s) => json_session_view(*el) == Some(s@),
            Err(_) => json_session_view(*el) is None,
        },
{
    let agent = match obj_get(el, "agent") {
        Some(v) => match json_as_str(v) {
            Some(s) => s.clone(),
            None => {
                return Err("expected a string under agent".to_owned());
            },
        },
        None => {
            return Err("missing agent".to_owned());
        },
    };
    let session_id = match obj_get(el, "session_id") {
        Some(v) => match json_as_str(v) {
            Some(s) => s.clone(),
            None => {
                return Err("expected a string under session_id".to_owned());
            },
        },
        None => {
            return Err("missing session_id".to_owned());
        },
    };
    Ok(SourceSession { agent, session_id })
}

/// Decodes an array of source sessions.
fn decode_sessions(items: &Vec<Json>) -> (r: Result<Vec<SourceSession>, String>)
    ensures
        match r {
            Ok(v) => json_sessions_view(items@) == Some(sessions_view(v@)),
            Err(_) => json_sessions_view(items@) is None,
        },
{
    let mut out: Vec<SourceSession> = Vec::new();
    let n = items.len();
    let mut i: usize = 0;
    while i < n
        invariant
            n == items@.len(),
            i <= n,
            json_sessions_view(items@.subrange(0, i as int)) == Some(sessions_view(out@)),
        decreases n - i,
    {
        let el = &items[i];
        match decode_session(el) {
            Ok(s) => {
                out.push(s);
            },
            Err(e) => {
                proof {
                    lemma_sessions_view_bad(items@, i as int);
                }
                return Err(e);
            },
        }
        proof {
            assert(items@.subrange(0, i as int + 1).drop_last() =~= items@.subrange(0, i as int));
            assert(items@.subrange(0, i as int + 1).last() == items@[i as int]);
            assert(sessions_view(out@) =~= sessions_view(out@.drop_last()).push(
                out@.last()@,
            ));
        }
        i += 1;
    }
    proof {
        assert(items@.subrange(0, n as int) =~= items@);
    }
    Ok(out)
}

/// Decodes an optional string field: absent or null becomes `None`.
fn decode_opt_str_field(el: &Json, key: &str) -> (r: Result<Option<String>, String>)
    ensures
        match r {
            Ok(o) => json_opt_str_field(*el, key@) == Some(opt_str_view(o)),
            Err(_) => json_opt_str_field(*el, key@) is None,
        },
{
    match obj_get(el, key) {
        None => Ok(None),
        Some(v) => match v {
            Json::Null => Ok(None),
            Json::Str(s) => Ok(Some(s.clone())),
            _ => Err("expected a string or null".to_owned()),
        },
    }
}

/// Decodes one part object.
fn decode_part(el: &Json) -> (r: Result<SpecPart, String>)
    ensures
        match r {
            Ok(p) => json_part_view(*el) == Some(p@),
            Err(_) => json_part_view(*el) is None,
        },
{
    let kind = match obj_get(el, "kind") {
        Some(v) => match json_as_str(v) {
            Some(s) => s.clone(),
            None => {
                return Err("expected a string under kind".to_owned());
            },
        },
        None => {
            return Err("missing kind".to_owned());
        },
    };
    let path = match decode_opt_str_field(el, "path") {
        Ok(o) => o,
        Err(e) => {
            return Err(e);
        },
    };
    let content = match decode_opt_str_field(el, "content") {
        Ok(o) => o,
        Err(e) => {
            return Err(e);
        },
    };
    Ok(SpecPart { kind, path, content })
}

/// Decodes an array of parts.
fn decode_parts(items: &Vec<Json>) -> (r: Result<Vec<SpecPart>, String>)
    ensures
        match r {
            Ok(v) => json_parts_view(items@) == Some(parts_view(v@)),
            Err(_) => json_parts_view(items@) is None,
        },
{
    let mut out: Vec<SpecPart> = Vec::new();
    let n = items.len();
    let mut i: usize = 0;
    while i < n
        invariant
            n == items@.len(),
            i <= n,
            json_parts_view(items@.subrange(0, i as int)) == Some(parts_view(out@)),
        decreases n - i,
    {
        let el = &items[i];
        match decode_part(el) {
            Ok(p) => {
                out.push(p);
            },
            Err(e) => {
                proof {
                    lemma_parts_view_bad(items@, i as int);
                }
                return Err(e);
            },
        }
        proof {
            assert(items@.subrange(0, i as int + 1).drop_last() =~= items@.subrange(0, i as int));
            assert(items@.subrange(0, i as int + 1).last() == items@[i as int]);
            assert(parts_view(out@) =~= parts_view(out@.drop_last()).push(out@.last()@));
        }
        i += 1;
    }
    proof {
        assert(items@.subrange(0, n as int) =~= items@);
    }
    Ok(out)
}

/// Decodes a bundle from a payload tree, tolerating unknown keys: the shape a
/// stored metadata snapshot reads back as.
pub fn json_to_bundle(j: &Json) -> (r: Result<SpecBundle, String>)
    ensures
        match r {
            Ok(b) => json_bundle_view(*j) == Some(b@),
            Err(_) => json_bundle_view(*j) is None,
        },
{
    let title = match obj_get(j, "title") {
        Some(v) => match json_as_str(v) {
            Some(s) => s.clone(),
            None => {
                return Err("expected a string under title".to_owned());
            },
        },
        None => {
            return Err("missing title".to_owned());
        },
    };
    let created_by = match obj_get(j, "created_by") {
        Some(v) => match json_as_str(v) {
            Some(s) => s.clone(),
            None => {
                return Err("expected a string under created_by".to_owned());
            },
        },
        None => {
            return Err("missing created_by".to_owned());
        },
    };
    let source_sessions = match obj_get(j, "source_sessions") {
        Some(v) => match v {
            Json::Arr(items) => match decode_sessions(items) {
                Ok(ss) => ss,
                Err(e) => {
                    return Err(e);
                },
            },
            _ => {
                return Err("expected an array under source_sessions".to_owned());
            },
        },
        None => {
            return Err("missing source_sessions".to_owned());
        },
    };
    let parts = match obj_get(j, "parts") {
        Some(v) => match v {
            Json::Arr(items) => match decode_parts(items) {
                Ok(ps) => ps,
                Err(e) => {
                    return Err(e);
                },
            },
            _ => {
                return Err("expected an array under parts".to_owned());
            },
        },
        None => {
            return Err("missing parts".to_owned());
        },
    };
    let tags = match obj_get(j, "tags") {
        Some(v) => match v {
            Json::Arr(items) => match decode_strings(items) {
                Ok(ts) => ts,
                Err(e) => {
                    return Err(e);
                },
            },
            _ => {
                return Err("expected an array under tags".to_owned());
            },
        },
        None => {
            return Err("missing tags".to_owned());
        },
    };
    let redactions = match obj_get(j, "redactions") {
        Some(v) => match v {
            Json::Arr(items) => match decode_strings(items) {
                Ok(rs) => rs,
                Err(e) => {
                    return Err(e);
                },
            },
            _ => {
                return Err("expected an array under redactions".to_owned());
            },
        },
        None => {
            return Err("missing redactions".to_owned());
        },
    };
    Ok(SpecBundle { title, created_by, source_sessions, parts, tags, redactions })
}

/// Decodes a creation request from a payload tree: the bundle under "bundle"
/// and an optional "ingest" flag.
pub fn decode_create_req(j: &Json) -> (r: Result<SpecbundleCreateReq, String>)
    ensures
        match r {
            Ok(req) => json_create_req_view(*j) == Some(req@),
            Err(_) => json_create_req_view(*j) is None,
        },
{
    let bundle = match obj_get(j, "bundle") {
        Some(bj) => match json_to_bundle(bj) {
            Ok(b) => b,
            Err(e) => {
                return Err(e);
            },
        },
        None => {
            return Err("missing bundle".to_owned());
        },
    };
    let ingest: Option<bool> = match obj_get(j, "ingest") {
        None => None,
        Some(v) => match v {
            Json::Null => None,
            Json::Bool(b) => Some(*b),
            _ => {
                return Err("expected a boolean under ingest".to_owned());
            },
        },
    };
    Ok(SpecbundleCreateReq { bundle, ingest })
}


/// Encodes one source session as an object.
fn session_to_json(s: &SourceSession) -> (r: Json)
    ensures
        json_session_view(r) == Some(s@),
{
    let mut entries: Vec<(String, Json)> = Vec::new();
    entries.push(("agent".to_owned(), Json::Str(s.agent.clone())));
    entries.push(("session_id".to_owned(), Json::Str(s.session_id.clone())));
    let r = Json::Obj(entries);
    proof {
        reveal_strlit("agent");
        reveal_strlit("session_id");
        assert("agent"@.len() == 5);
        assert("session_id"@.len() == 10);
        lemma_obj_key_index(entries@, "agent"@);
        lemma_obj_key_index(entries@, "session_id"@);
        assert(json_get(r, "agent"@) == Some(entries@[0].1));
        assert(json_get(r, "session_id"@) == Some(entries@[1].1));
    }
    r
}

/// Encodes one part as an object, writing null for an absent field.
fn part_to_json(p: &SpecPart) -> (r: Json)
    ensures
        json_part_view(r) == Some(p@),
{
    let mut entries: Vec<(String, Json)> = Vec::new();
    entries.push(("kind".to_owned(), Json::Str(p.kind.clone())));
    let pj = match &p.path {
        Some(s) => Json::Str(s.clone()),
        None => Json::Null,
    };
    entries.push(("path".to_owned(), pj));
    let cj = match &p.content {
        Some(s) => Json::Str(s.clone()),
        None => Json::Null,
    };
    entries.push(("content".to_owned(), cj));
    let r = Json::Obj(entries);
    proof {
        reveal_strlit("kind");
        reveal_strlit("path");
        reveal_strlit("content");
        assert("kind"@.len() == 4 && "kind"@[0] == 'k');
        assert("path"@.len() == 4 && "path"@[0] == 'p');
        assert("content"@.len() == 7);
        lemma_obj_key_index(entries@, "kind"@);
        lemma_obj_key_index(entries@, "path"@);
        lemma_obj_key_index(entries@, "content"@);
        assert(json_get(r, "kind"@) == Some(entries@[0].1));
        assert(json_get(r, "path"@) == Some(entries@[1].1));
        assert(json_get(r, "content"@) == Some(entries@[2].1));
    }
    r
}

/// Encodes a list of source sessions.
fn sessions_to_json(v: &Vec<SourceSession>) -> (r: Vec<Json>)
    ensures
        json_sessions_view(r@) == Some(sessions_view(v@)),
{
    let mut out: Vec<Json> = Vec::new();
    let n = v.len();
    let mut i: usize = 0;
    while i < n
        invariant
            n == v@.len(),
            i <= n,
            json_sessions_view(out@) == Some(sessions_view(v@.subrange(0, i as int))),
        decreases n - i,
    {
        let ghost prev = out@;
        let el = session_to_json(&v[i]);
        out.push(el);
        proof {
            assert(out@.drop_last() =~= prev);
            assert(sessions_view(v@.subrange(0, i as int + 1)) =~= sessions_view(
                v@.subrange(0, i as int),
            ).push(v@[i as int]@));
        }
        i += 1;
    }
    proof {
        assert(v@.subrange(0, n as int) =~= v@);
    }
    out
}

/// Encodes a list of parts.
fn parts_to_json(v: &Vec<SpecPart>) -> (r: Vec<Json>)
    ensures
        json_parts_view(r@) == Some(parts_view(v@)),
{
    let mut out: Vec<Json> = Vec::new();
    let n = v.len();
    let mut i: usize = 0;
    while i < n
        invariant
            n == v@.len(),
            i <= n,
            json_parts_view(out@) == Some(parts_view(v@.subrange(0, i as int))),
        decreases n - i,
    {
        let ghost prev = out@;
        let el = part_to_json(&v[i]);
        out.push(el);
        proof {
            assert(out@.drop_last() =~= prev);
            assert(parts_view(v@.subrange(0, i as int + 1)) =~= parts_view(
                v@.subrange(0, i as int),
            ).push(v@[i as int]@));
        }
        i += 1;
    }
    proof {
        assert(v@.subrange(0, n as int) =~= v@);
    }
    out
}

/// Encodes a list of strings.
fn strings_to_json(v: &Vec<String>) -> (r: Vec<Json>)
    ensures
        json_strings_view(r@) == Some(strings_view(v@)),
{
    let mut out: Vec<Json> = Vec::new();
    let n = v.len();
    let mut i: usize = 0;
    while i < n
        invariant
            n == v@.len(),
            i <= n,
            json_strings_view(out@) == Some(strings_view(v@.subrange(0, i as int))),
        decreases n - i,
    {
        let ghost prev = out@;
        out.push(Json::Str(v[i].clone()));
        proof {
            assert(out@.drop_last() =~= prev);
            assert(strings_view(v@.subrange(0, i as int + 1)) =~= strings_view(
                v@.subrange(0, i as int),
            ).push(v@[i as int]@));
        }
        i += 1;
    }
    proof {
        assert(v@.subrange(0, n as int) =~= v@);
    }
    out
}

/// Encodes a bundle as the payload tree its metadata snapshot holds: the
/// shape `json_bundle_view` reads back as the bundle itself.
pub fn bundle_to_json(b: &SpecBundle) -> (r: Json)
    ensures
        json_bundle_view(r) == Some(b@),
{
    let mut entries: Vec<(String, Json)> = Vec::new();
    entries.push(("title".to_owned(), Json::Str(b.title.clone())));
    entries.push(("created_by".to_owned(), Json::Str(b.created_by.clone())));
    entries.push(
        ("source_sessions".to_owned(), Json::Arr(sessions_to_json(&b.source_sessions))),
    );
    entries.push(("parts".to_owned(), Json::Arr(parts_to_json(&b.parts))));
    entries.push(("tags".to_owned(), Json::Arr(strings_to_json(&b.tags))));
    entries.push(("redactions".to_owned(), Json::Arr(strings_to_json(&b.redactions))));
    let r = Json::Obj(entries);
    proof {
        reveal_strlit("title");
        reveal_strlit("created_by");
        reveal_strlit("source_sessions");
        reveal_strlit("parts");
        reveal_strlit("tags");
        reveal_strlit("redactions");
        assert("title"@.len() == 5 && "title"@[0] == 't');
        assert("created_by"@.len() == 10 && "created_by"@[0] == 'c');
        assert("source_sessions"@.len() == 15);
        assert("parts"@.len() == 5 && "parts"@[0] == 'p');
        assert("tags"@.len() == 4);
        assert("redactions"@.len() == 10 && "redactions"@[0] == 'r');
        lemma_obj_key_index(entries@, "title"@);
        lemma_obj_key_index(entries@, "created_by"@);
        lemma_obj_key_index(entries@, "source_sessions"@);
        lemma_obj_key_index(entries@, "parts"@);
        lemma_obj_key_index(entries@, "tags"@);
        lemma_obj_key_index(entries@, "redactions"@);
        assert(json_get(r, "title"@) == Some(entries@[0].1));
        assert(json_get(r, "created_by"@) == Some(entries@[1].1));
        assert(json_get(r, "source_sessions"@) == Some(entries@[2].1));
        assert(json_get(r, "parts"@) == Some(entries@[3].1));
        assert(json_get(r, "tags"@) == Some(entries@[4].1));
        assert(json_get(r, "redactions"@) == Some(entries@[5].1));
    }
    r
}

/// The round trip of the bundle codec: whatever tree a bundle encodes to,
/// every bundle decoded back from that tree equals the original, field for
/// field. Together with the contracts of `bundle_to_json` and
/// `json_to_bundle`, a bundle written and read back is the bundle itself,
/// independent of part-persistence outcomes.
pub proof fn lemma_bundle_codec_round_trip(b: SpecBundle, j: Json, b2: SpecBundle)
    requires
        json_bundle_view(j) == Some(b@),
        json_bundle_view(j) == Some(b2@),
    ensures
        b2@ == b@,
{
}

} // verus!
