//! Rendering a bundle and its companion documents as pretty-printed JSON
//! text: the metadata snapshot, the ingest audit record, and the attachment
//! descriptor.

use vstd::prelude::*;
use crate::json::{quoted, json_quote};
use crate::specbundle::{
    SpecBundle, SpecBundleView, SpecPart, SpecPartView, SourceSession, SourceSessionView,
    opt_str_view, strings_view, sessions_view, parts_view,
};

verus! {

/// The first `n` rendered items joined with a comma and a line break.
pub open spec fn joined_upto(items: Seq<Seq<char>>, n: int) -> Seq<char>
    decreases n,
{
    if n <= 0 {
        Seq::empty()
    } else if n == 1 {
        items[0]
    } else {
        joined_upto(items, n - 1) + ",\n"@ + items[n - 1]
    }
}

/// A JSON array over already-rendered items, two levels deep.
pub open spec fn arr_text(items: Seq<Seq<char>>) -> Seq<char> {
    if items.len() == 0 {
        "[]"@
    } else {
        "[\n"@ + joined_upto(items, items.len() as int) + "\n  ]"@
    }
}

/// One string item inside an array.
pub open spec fn str_item_text(s: Seq<char>) -> Seq<char> {
    "    "@ + quoted(s)
}

/// A JSON array of strings.
pub open spec fn str_array_text(v: Seq<Seq<char>>) -> Seq<char> {
    arr_text(v.map_values(|s: Seq<char>| str_item_text(s)))
}

/// One source session rendered as an object item inside an array.
pub open spec fn session_item_text(s: SourceSessionView) -> Seq<char> {
    "    {\n      \"agent\": "@ + quoted(s.agent) + ",\n      \"session_id\": "@ + quoted(
        s.session_id,
    ) + "\n    }"@
}

/// An optional string: a JSON string literal or null.
pub open spec fn opt_text(o: Option<Seq<char>>) -> Seq<char> {
    match o {
        Some(s) => quoted(s),
        None => "null"@,
    }
}

/// One part rendered as an object item inside an array.
pub open spec fn part_item_text(p: SpecPartView) -> Seq<char> {
    "    {\n      \"kind\": "@ + quoted(p.kind) + ",\n      \"path\": "@ + opt_text(p.path)
        + ",\n      \"content\": "@ + opt_text(p.content) + "\n    }"@
}

/// The full metadata snapshot of a bundle, pretty-printed.
pub open spec fn bundle_text(b: SpecBundleView) -> Seq<char> {
    "{\n  \"title\": "@ + quoted(b.title) + ",\n  \"created_by\": "@ + quoted(b.created_by)
        + ",\n  \"source_sessions\": "@ + arr_text(
        b.source_sessions.map_values(|s: SourceSessionView| session_item_text(s)),
    ) + ",\n  \"parts\": "@ + arr_text(b.parts.map_values(|p: SpecPartView| part_item_text(p)))
        + ",\n  \"tags\": "@ + str_array_text(b.tags) + ",\n  \"redactions\": "@ + str_array_text(
        b.redactions,
    ) + "\n}"@
}

/// The ingest audit record, pretty-printed, keys in sorted order.
pub open spec fn audit_text(
    ko_id: Seq<char>,
    at: Seq<char>,
    tags: Seq<Seq<char>>,
    redactions: Seq<Seq<char>>,
) -> Seq<char> {
    "{\n  \"at\": "@ + quoted(at) + ",\n  \"event\": "@ + quoted("INGEST.ENQUEUED"@)
        + ",\n  \"ko_id\": "@ + quoted(ko_id) + ",\n  \"redactions\": "@ + str_array_text(
        redactions,
    ) + ",\n  \"tags\": "@ + str_array_text(tags) + "\n}"@
}

/// The small descriptor recording an attachment's source path; the bytes
/// themselves are not copied.
pub open spec fn attachment_descriptor(path: Seq<char>) -> Seq<char> {
    "{\"source_path\":"@ + quoted(path) + "}"@
}

/// Appends `s` as a JSON string literal.
fn append_quoted(out: &mut String, s: &str)
    ensures
        final(out)@ == old(out)@ + quoted(s@),
{
    let q = json_quote(s);
    out.append(q.as_str());
}

/// Renders the descriptor recording an attachment's source path.
pub fn encode_attachment_descriptor(path: &str) -> (r: String)
    ensures
        r@ == attachment_descriptor(path@),
{
    let mut out = String::new();
    out.append("{\"source_path\":");
    append_quoted(&mut out, path);
    out.append("}");
    proof {
        assert(out@ =~= attachment_descriptor(path@));
    }
    out
}

/// Appends a JSON array of strings, as `str_array_text` lays it out.
fn append_str_array(out: &mut String, v: &Vec<String>)
    ensures
        final(out)@ == old(out)@ + str_array_text(strings_view(v@)),
{
    let n = v.len();
    if n == 0 {
        proof {
            assert(strings_view(v@).map_values(|s: Seq<char>| str_item_text(s)).len() == 0);
        }
        out.append("[]");
        return ;
    }
    out.append("[\n");
    let ghost base = out@;
    let ghost items = strings_view(v@).map_values(|s: Seq<char>| str_item_text(s));
    let mut i: usize = 0;
    while i < n
        invariant
            n == v@.len(),
            0 < n,
            i <= n,
            items == strings_view(v@).map_values(|s: Seq<char>| str_item_text(s)),
            out@ == base + joined_upto(items, i as int),
        decreases n - i,
    {
        if i > 0 {
            out.append(",\n");
        }
        out.append("    ");
        append_quoted(out, v[i].as_str());
        proof {
            assert(items[i as int] == str_item_text(v@[i as int]@));
            assert(out@ =~= base + joined_upto(items, i as int + 1));
        }
        i += 1;
    }
    out.append("\n  ]");
    proof {
        assert(out@ =~= old(out)@ + str_array_text(strings_view(v@)));
    }
}

/// Appends one source session as an array item.
fn append_session_item(out: &mut String, s: &SourceSession)
    ensures
        final(out)@ == old(out)@ + session_item_text(s@),
{
    out.append("    {\n      \"agent\": ");
    append_quoted(out, s.agent.as_str());
    out.append(",\n      \"session_id\": ");
    append_quoted(out, s.session_id.as_str());
    out.append("\n    }");
    proof {
        assert(out@ =~= old(out)@ + session_item_text(s@));
    }
}

/// Appends the JSON array of source sessions.
fn append_sessions_array(out: &mut String, v: &Vec<SourceSession>)
    ensures
        final(out)@ == old(out)@ + arr_text(
            sessions_view(v@).map_values(|s: SourceSessionView| session_item_text(s)),
        ),
{
    let n = v.len();
    if n == 0 {
        proof {
            assert(sessions_view(v@).map_values(
                |s: SourceSessionView| session_item_text(s),
            ).len() == 0);
        }
        out.append("[]");
        return ;
    }
    out.append("[\n");
    let ghost base = out@;
    let ghost items = sessions_view(v@).map_values(|s: SourceSessionView| session_item_text(s));
    let mut i: usize = 0;
    while i < n
        invariant
            n == v@.len(),
            0 < n,
            i <= n,
            items == sessions_view(v@).map_values(|s: SourceSessionView| session_item_text(s)),
            out@ == base + joined_upto(items, i as int),
        decreases n - i,
    {
        if i > 0 {
            out.append(",\n");
        }
        append_session_item(out, &v[i]);
        proof {
            assert(items[i as int] == session_item_text(v@[i as int]@));
            assert(out@ =~= base + joined_upto(items, i as int + 1));
        }
        i += 1;
    }
    out.append("\n  ]");
    proof {
        assert(out@ =~= old(out)@ + arr_text(items));
    }
}

/// Appends an optional string as a JSON string literal or null.
fn append_opt_str(out: &mut String, o: &Option<String>)
    ensures
        final(out)@ == old(out)@ + opt_text(opt_str_view(*o)),
{
    match o {
        Some(s) => {
            append_quoted(out, s.as_str());
        },
        None => {
            out.append("null");
        },
    }
}

/// Appends one part as an array item.
fn append_part_item(out: &mut String, p: &SpecPart)
    ensures
        final(out)@ == old(out)@ + part_item_text(p@),
{
    out.append("    {\n      \"kind\": ");
    append_quoted(out, p.kind.as_str());
    out.append(",\n      \"path\": ");
    append_opt_str(out, &p.path);
    out.append(",\n      \"content\": ");
    append_opt_str(out, &p.content);
    out.append("\n    }");
    proof {
        assert(out@ =~= old(out)@ + part_item_text(p@));
    }
}

/// Appends the JSON array of parts.
fn append_parts_array(out: &mut String, v: &Vec<SpecPart>)
    ensures
        final(out)@ == old(out)@ + arr_text(
            parts_view(v@).map_values(|p: SpecPartView| part_item_text(p)),
        ),
{
    let n = v.len();
    if n == 0 {
        proof {
            assert(parts_view(v@).map_values(|p: SpecPartView| part_item_text(p)).len() == 0);
        }
        out.append("[]");
        return ;
    }
    out.append("[\n");
    let ghost base = out@;
    let ghost items = parts_view(v@).map_values(|p: SpecPartView| part_item_text(p));
    let mut i: usize = 0;
    while i < n
        invariant
            n == v@.len(),
            0 < n,
            i <= n,
            items == parts_view(v@).map_values(|p: SpecPartView| part_item_text(p)),
            out@ == base + joined_upto(items, i as int),
        decreases n - i,
    {
        if i > 0 {
            out.append(",\n");
        }
        append_part_item(out, &v[i]);
        proof {
            assert(items[i as int] == part_item_text(v@[i as int]@));
            assert(out@ =~= base + joined_upto(items, i as int + 1));
        }
        i += 1;
    }
    out.append("\n  ]");
    proof {
        assert(out@ =~= old(out)@ + arr_text(items));
    }
}

/// Renders the full metadata snapshot of a bundle: the durable record of
/// intent, written before any part is persisted.
pub fn encode_bundle(b: &SpecBundle) -> (r: String)
    ensures
        r@ == bundle_text(b@),
{
    let mut out = String::new();
    out.append("{\n  \"title\": ");
    append_quoted(&mut out, b.title.as_str());
    out.append(",\n  \"created_by\": ");
    append_quoted(&mut out, b.created_by.as_str());
    out.append(",\n  \"source_sessions\": ");
    append_sessions_array(&mut out, &b.source_sessions);
    out.append(",\n  \"parts\": ");
    append_parts_array(&mut out, &b.parts);
    out.append(",\n  \"tags\": ");
    append_str_array(&mut out, &b.tags);
    out.append(",\n  \"redactions\": ");
    append_str_array(&mut out, &b.redactions);
    out.append("\n}");
    proof {
        assert(out@ =~= bundle_text(b@));
    }
    out
}

/// Renders the ingest audit record: event tag, reference, timestamp, tags and
/// redaction patterns, keys in sorted order.
pub fn encode_audit(ko_id: &str, at: &str, tags: &Vec<String>, redactions: &Vec<String>) -> (r:
    String)
    ensures
        r@ == audit_text(ko_id@, at@, strings_view(tags@), strings_view(redactions@)),
{
    let mut out = String::new();
    out.append("{\n  \"at\": ");
    append_quoted(&mut out, at);
    out.append(",\n  \"event\": ");
    append_quoted(&mut out, "INGEST.ENQUEUED");
    out.append(",\n  \"ko_id\": ");
    append_quoted(&mut out, ko_id);
    out.append(",\n  \"redactions\": ");
    append_str_array(&mut out, redactions);
    out.append(",\n  \"tags\": ");
    append_str_array(&mut out, tags);
    out.append("\n}");
    proof {
        assert(out@ =~= audit_text(ko_id@, at@, strings_view(tags@), strings_view(redactions@)));
    }
    out
}

} // verus!
