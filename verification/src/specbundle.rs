//! The SpecBundle ingestion pipeline: validates a multi-part document bundle
//! behind a pre-write redaction guard and plans its durable persistence as a
//! directory of numbered part files with a metadata snapshot.

use vstd::prelude::*;
use crate::strutil::{str_eq, contains_seq, contains_substring, index_text, format_index};
use crate::bundle_text::{bundle_text, audit_text, attachment_descriptor, encode_bundle, encode_audit, encode_attachment_descriptor};
use crate::ext::{fresh_uuid_string, now_utc_string, is_uuid_seq};

verus! {

/// One content part of a bundle. `kind` tags the variant: "markdown" and
/// "mermaid" carry inline `content`, "attachment" carries a `source_path`
/// reference in `path`. Any other shape is skipped during persistence.
pub struct SpecPart {
    pub kind: String,
    pub path: Option<String>,
    pub content: Option<String>,
}

/// Where a bundle came from: an agent and its session.
pub struct SourceSession {
    pub agent: String,
    pub session_id: String,
}

/// A titled collection of ordered content parts plus provenance, tags and
/// redaction patterns. The order of `parts` determines on-disk naming.
pub struct SpecBundle {
    pub title: String,
    pub created_by: String,
    pub source_sessions: Vec<SourceSession>,
    pub parts: Vec<SpecPart>,
    pub tags: Vec<String>,
    pub redactions: Vec<String>,
}

/// A creation request: the bundle and whether to enqueue an ingest audit.
pub struct SpecbundleCreateReq {
    pub bundle: SpecBundle,
    pub ingest: Option<bool>,
}

/// What a creation call reports back: the assigned reference, how many parts
/// were stored, and whether an ingest audit was requested.
pub struct SpecbundleCreateResp {
    pub ko_id: String,
    pub stored_parts: usize,
    pub ingested: bool,
}

/// The mathematical form of one part.
#[verifier::ext_equal]
pub struct SpecPartView {
    pub kind: Seq<char>,
    pub path: Option<Seq<char>>,
    pub content: Option<Seq<char>>,
}

/// The mathematical form of one source session.
#[verifier::ext_equal]
pub struct SourceSessionView {
    pub agent: Seq<char>,
    pub session_id: Seq<char>,
}

/// The mathematical form of a bundle.
#[verifier::ext_equal]
pub struct SpecBundleView {
    pub title: Seq<char>,
    pub created_by: Seq<char>,
    pub source_sessions: Seq<SourceSessionView>,
    pub parts: Seq<SpecPartView>,
    pub tags: Seq<Seq<char>>,
    pub redactions: Seq<Seq<char>>,
}

/// The mathematical form of a creation request.
#[verifier::ext_equal]
pub struct SpecbundleCreateReqView {
    pub bundle: SpecBundleView,
    pub ingest: Option<bool>,
}

/// The character sequence inside an optional string.
pub open spec fn opt_str_view(o: Option<String>) -> Option<Seq<char>> {
    match o {
        Some(s) => Some(s@),
        None => None,
    }
}

/// The character sequences of a list of strings.
pub open spec fn strings_view(v: Seq<String>) -> Seq<Seq<char>> {
    v.map_values(|t: String| t@)
}

/// The mathematical forms of a list of source sessions.
pub open spec fn sessions_view(v: Seq<SourceSession>) -> Seq<SourceSessionView> {
    v.map_values(|s: SourceSession| s@)
}

/// The mathematical forms of a list of parts.
pub open spec fn parts_view(v: Seq<SpecPart>) -> Seq<SpecPartView> {
    v.map_values(|p: SpecPart| p@)
}

impl View for SpecPart {
    type V = SpecPartView;

    open spec fn view(&self) -> SpecPartView {
        SpecPartView {
            kind: self.kind@,
            path: opt_str_view(self.path),
            content: opt_str_view(self.content),
        }
    }
}

impl View for SourceSession {
    type V = SourceSessionView;

    open spec fn view(&self) -> SourceSessionView {
        SourceSessionView { agent: self.agent@, session_id: self.session_id@ }
    }
}

impl View for SpecBundle {
    type V = SpecBundleView;

    open spec fn view(&self) -> SpecBundleView {
        SpecBundleView {
            title: self.title@,
            created_by: self.created_by@,
            source_sessions: sessions_view(self.source_sessions@),
            parts: parts_view(self.parts@),
            tags: strings_view(self.tags@),
            redactions: strings_view(self.redactions@),
        }
    }
}

impl View for SpecbundleCreateReq {
    type V = SpecbundleCreateReqView;

    open spec fn view(&self) -> SpecbundleCreateReqView {
        SpecbundleCreateReqView { bundle: self.bundle@, ingest: self.ingest }
    }
}

/// The text the redaction guard scans: the content of the first
/// "markdown"-kind part, when that part has content.
pub open spec fn guard_content(parts: Seq<SpecPartView>) -> Option<Seq<char>>
    decreases parts.len(),
{
    if parts.len() == 0 {
        None
    } else if parts[0].kind == "markdown"@ {
        parts[0].content
    } else {
        guard_content(parts.drop_first())
    }
}

/// The first redaction pattern occurring in `content`, in pattern order.
pub open spec fn first_violation(content: Seq<char>, red: Seq<Seq<char>>) -> Option<Seq<char>>
    decreases red.len(),
{
    if red.len() == 0 {
        None
    } else if contains_seq(content, red[0]) {
        Some(red[0])
    } else {
        first_violation(content, red.drop_first())
    }
}

/// The redaction violation a bundle has, if any: the first pattern found as a
/// substring of the guarded content.
pub open spec fn bundle_violation(b: SpecBundleView) -> Option<Seq<char>> {
    match guard_content(b.parts) {
        Some(c) => first_violation(c, b.redactions),
        None => None,
    }
}

proof fn lemma_guard_content_skip(parts: Seq<SpecPartView>, i: int)
    requires
        0 <= i <= parts.len(),
        forall|k: int| 0 <= k < i ==> #[trigger] parts[k].kind != "markdown"@,
    ensures
        guard_content(parts) == guard_content(parts.subrange(i, parts.len() as int)),
    decreases i,
{
    if i > 0 {
        let rest = parts.drop_first();
        assert(forall|k: int| 0 <= k < i - 1 ==> #[trigger] rest[k].kind != "markdown"@);
        lemma_guard_content_skip(rest, i - 1);
        assert(rest.subrange(i - 1, rest.len() as int) =~= parts.subrange(
            i,
            parts.len() as int,
        ));
    } else {
        assert(parts.subrange(0, parts.len() as int) =~= parts);
    }
}

proof fn lemma_first_violation_skip(content: Seq<char>, red: Seq<Seq<char>>, j: int)
    requires
        0 <= j <= red.len(),
        forall|k: int| 0 <= k < j ==> !contains_seq(content, #[trigger] red[k]),
    ensures
        first_violation(content, red) == first_violation(
            content,
            red.subrange(j, red.len() as int),
        ),
    decreases j,
{
    if j > 0 {
        let rest = red.drop_first();
        assert(forall|k: int| 0 <= k < j - 1 ==> !contains_seq(content, #[trigger] rest[k]));
        lemma_first_violation_skip(content, rest, j - 1);
        assert(rest.subrange(j - 1, rest.len() as int) =~= red.subrange(j, red.len() as int));
    } else {
        assert(red.subrange(0, red.len() as int) =~= red);
    }
}

/// Runs the redaction guard: scans the first markdown part's content for each
/// pattern and reports the first one found.
pub fn find_violation(bundle: &SpecBundle) -> (r: Option<String>)
    ensures
        match r {
            Some(p) => bundle_violation(bundle@) == Some(p@),
            None => bundle_violation(bundle@) is None,
        },
{
    let ghost partsv = bundle@.parts;
    let n = bundle.parts.len();
    let mut i: usize = 0;
    while i < n && !str_eq(bundle.parts[i].kind.as_str(), "markdown")
        invariant
            n == bundle.parts@.len(),
            partsv == bundle@.parts,
            i <= n,
            forall|k: int| 0 <= k < i ==> #[trigger] partsv[k].kind != "markdown"@,
        decreases n - i,
    {
        proof {
            assert(partsv[i as int] == bundle.parts@[i as int]@);
        }
        i += 1;
    }
    proof {
        if i < n {
            assert(partsv[i as int] == bundle.parts@[i as int]@);
        }
        lemma_guard_content_skip(partsv, i as int);
    }
    if i == n {
        proof {
            assert(partsv.subrange(i as int, partsv.len() as int) =~= Seq::<
                SpecPartView,
            >::empty());
        }
        return None;
    }
    // parts[i] is the first markdown part
    proof {
        assert(partsv.subrange(i as int, partsv.len() as int)[0] == partsv[i as int]);
    }
    let content: &String = match &bundle.parts[i].content {
        Some(c) => c,
        None => {
            return None;
        },
    };
    let ghost cv = content@;
    assert(guard_content(partsv) == Some(cv));
    let m = bundle.redactions.len();
    let mut j: usize = 0;
    while j < m
        invariant
            m == bundle.redactions@.len(),
            guard_content(partsv) == Some(cv),
            partsv == bundle@.parts,
            cv == content@,
            j <= m,
            forall|k: int|
                0 <= k < j ==> !contains_seq(cv, #[trigger] bundle@.redactions[k]),
        decreases m - j,
    {
        let pat = &bundle.redactions[j];
        proof {
            assert(bundle@.redactions[j as int] == bundle.redactions@[j as int]@);
        }
        if contains_substring(content.as_str(), pat.as_str()) {
            proof {
                lemma_first_violation_skip(cv, bundle@.redactions, j as int);
                assert(bundle@.redactions.subrange(j as int, m as int)[0] == bundle@.redactions[
                    j as int
                ]);
            }
            return Some(pat.clone());
        }
        j += 1;
    }
    proof {
        lemma_first_violation_skip(cv, bundle@.redactions, m as int);
        assert(bundle@.redactions.subrange(m as int, m as int) =~= Seq::<Seq<char>>::empty());
    }
    None
}

/// The knowledge-object reference assigned to a bundle drawn as `u`.
pub open spec fn ko_id_seq(u: Seq<char>) -> Seq<char> {
    "ko:specbundle/"@ + u
}

/// The path-safe form of a reference: every colon, and the separator the
/// reference embeds, becomes an underscore, so the result names one directory.
pub open spec fn sanitized(s: Seq<char>) -> Seq<char> {
    s.map_values(|c: char| if c == ':' || c == '/' { '_' } else { c })
}

/// Replaces every colon and slash with an underscore.
pub fn sanitize_ko_id(s: &str) -> (r: String)
    ensures
        r@ == sanitized(s@),
{
    let n = s.unicode_len();
    let mut out = String::new();
    let mut i: usize = 0;
    while i < n
        invariant
            n == s@.len(),
            i <= n,
            out@ =~= sanitized(s@).subrange(0, i as int),
        decreases n - i,
    {
        let c = s.get_char(i);
        if c == ':' || c == '/' {
            proof {
                reveal_strlit("_");
            }
            out.append("_");
        } else {
            out.append(s.substring_char(i, i + 1));
            proof {
                assert(s@.subrange(i as int, i as int + 1) =~= seq![s@[i as int]]);
            }
        }
        proof {
            assert(out@ =~= sanitized(s@).subrange(0, i as int + 1));
        }
        i += 1;
    }
    proof {
        assert(sanitized(s@).subrange(0, n as int) =~= sanitized(s@));
    }
    out
}

/// Sanitizing a reference made from a UUID yields the underscored prefix with
/// the UUID unchanged, since a UUID rendering holds no colon.
pub proof fn lemma_sanitized_ko_id(u: Seq<char>)
    requires
        is_uuid_seq(u),
    ensures
        sanitized(ko_id_seq(u)) == "ko_specbundle_"@ + u,
{
    reveal_strlit("ko:specbundle/");
    reveal_strlit("ko_specbundle_");
    assert forall|i: int| 0 <= i < u.len() implies u[i] != ':' && u[i] != '/' by {
        assert(crate::ext::is_uuid_char(u[i]));
    }
    assert(sanitized(ko_id_seq(u)) =~= "ko_specbundle_"@ + u);
}

/// Distinct identifier draws give distinct references and distinct on-disk
/// directory names.
pub proof fn lemma_distinct_ids_distinct_dirs(u1: Seq<char>, u2: Seq<char>)
    requires
        is_uuid_seq(u1),
        is_uuid_seq(u2),
        u1 != u2,
    ensures
        ko_id_seq(u1) != ko_id_seq(u2),
        sanitized(ko_id_seq(u1)) != sanitized(ko_id_seq(u2)),
{
    lemma_sanitized_ko_id(u1);
    lemma_sanitized_ko_id(u2);
    if ko_id_seq(u1) == ko_id_seq(u2) {
        assert(u1 =~= u2) by {
            assert(forall|i: int|
                0 <= i < 36 ==> u1[i] == ko_id_seq(u1)["ko:specbundle/"@.len() + i] && u2[i]
                    == ko_id_seq(u2)["ko:specbundle/"@.len() + i]);
        }
    }
    if sanitized(ko_id_seq(u1)) == sanitized(ko_id_seq(u2)) {
        assert(u1 =~= u2) by {
            assert(forall|i: int|
                0 <= i < 36 ==> u1[i] == ("ko_specbundle_"@ + u1)["ko_specbundle_"@.len() + i]
                    && u2[i] == ("ko_specbundle_"@ + u2)["ko_specbundle_"@.len() + i]);
        }
    }
}


/// One file the pipeline will write: a path below the bundle root and the
/// full text to write there.
pub struct PlannedFile {
    pub rel_path: String,
    pub content: String,
}

/// Everything one creation call will do on disk, laid out before any write:
/// the bundle root directory name, the nested parts directory, and the file
/// writes in order. Executing the writes in order, stopping at the first
/// failure and rolling nothing back, preserves the pipeline's at-least-once,
/// partial-write semantics.
pub struct CreatePlan {
    pub dir_name: String,
    pub parts_dir: String,
    pub files: Vec<PlannedFile>,
    pub response: SpecbundleCreateResp,
}

/// Why a creation call is refused before any write.
#[derive(Debug)]
pub enum CreateError {
    /// A redaction pattern occurs in the guarded content; the field names it.
    RedactionViolation(String),
}

/// The message a redaction violation surfaces, naming the offending pattern.
pub open spec fn redaction_message(pat: Seq<char>) -> Seq<char> {
    "guardian_redaction_violation: content contains redacted pattern '"@ + pat + "'"@
}

impl CreateError {
    /// The human-readable message the error carries.
    pub open spec fn message_view(&self) -> Seq<char> {
        match self {
            CreateError::RedactionViolation(p) => redaction_message(p@),
        }
    }

    /// Renders the message, machine-readable code first.
    pub fn message(&self) -> (r: String)
        ensures
            r@ == self.message_view(),
    {
        match self {
            CreateError::RedactionViolation(p) => {
                let mut m =
                    "guardian_redaction_violation: content contains redacted pattern '".to_owned();
                m.append(p.as_str());
                m.append("'");
                proof {
                    assert(m@ =~= redaction_message(p@));
                }
                m
            },
        }
    }
}

/// The stored form of the part at 1-based position `pos`: its path below the
/// bundle root and its text. An unrecognized kind-and-field combination has
/// no stored form and is skipped.
pub open spec fn stored_file(p: SpecPartView, pos: int) -> Option<(Seq<char>, Seq<char>)> {
    if p.kind == "markdown"@ {
        match p.content {
            Some(c) => Some(("parts/"@ + index_text(pos) + ".md"@, c)),
            None => None,
        }
    } else if p.kind == "mermaid"@ {
        match p.content {
            Some(c) => Some(("parts/"@ + index_text(pos) + ".mmd"@, c)),
            None => None,
        }
    } else if p.kind == "attachment"@ {
        match p.path {
            Some(pa) => Some(
                ("parts/"@ + index_text(pos) + ".attachment.json"@, attachment_descriptor(pa)),
            ),
            None => None,
        }
    } else {
        None
    }
}

/// The stored forms of the first `n` parts, in input order.
pub open spec fn stored_files_upto(parts: Seq<SpecPartView>, n: int) -> Seq<
    (Seq<char>, Seq<char>),
>
    decreases n,
{
    if n <= 0 {
        Seq::empty()
    } else {
        stored_files_upto(parts, n - 1) + match stored_file(parts[n - 1], n) {
            Some(f) => seq![f],
            None => Seq::empty(),
        }
    }
}

/// The stored forms of all parts, in input order.
pub open spec fn stored_files(parts: Seq<SpecPartView>) -> Seq<(Seq<char>, Seq<char>)> {
    stored_files_upto(parts, parts.len() as int)
}

/// Every write one creation performs, in order: the metadata snapshot, one
/// file per well-formed part, and the audit record when ingest is asked for.
pub open spec fn plan_files(b: SpecBundleView, u: Seq<char>, now: Seq<char>, ingest: bool) -> Seq<
    (Seq<char>, Seq<char>),
> {
    seq![("bundle.json"@, bundle_text(b))] + stored_files(b.parts) + (if ingest {
        seq![("audit.json"@, audit_text(ko_id_seq(u), now, b.tags, b.redactions))]
    } else {
        Seq::empty()
    })
}

/// How a computed plan reflects the request, the drawn identifier `u` and the
/// clock reading `now`.
pub open spec fn plan_matches(
    rq: SpecbundleCreateReqView,
    u: Seq<char>,
    now: Seq<char>,
    p: CreatePlan,
) -> bool {
    let ingest = rq.ingest == Some(true);
    let files = plan_files(rq.bundle, u, now, ingest);
    &&& p.dir_name@ == sanitized(ko_id_seq(u))
    &&& p.parts_dir@ == sanitized(ko_id_seq(u)) + "/parts"@
    &&& p.files@.len() == files.len()
    &&& (forall|i: int|
        0 <= i < files.len() ==> (#[trigger] p.files@[i]).rel_path@ == files[i].0
            && p.files@[i].content@ == files[i].1)
    &&& p.response.ko_id@ == ko_id_seq(u)
    &&& p.response.stored_parts == stored_files(rq.bundle.parts).len()
    &&& p.response.ingested == ingest
}

/// Plans a creation under a given identifier and clock reading: the redaction
/// guard runs first and a violation aborts with nothing planned; otherwise
/// every write is laid out, parts strictly in input order.
pub fn plan_with(req: &SpecbundleCreateReq, ko_uuid: &str, now: &str) -> (r: Result<
    CreatePlan,
    CreateError,
>)
    ensures
        (r is Ok) <==> bundle_violation(req.bundle@) is None,
        r matches Err(e) ==> (e matches CreateError::RedactionViolation(p) && Some(p@)
            == bundle_violation(req.bundle@)),
        r matches Ok(p) ==> plan_matches(req@, ko_uuid@, now@, p),
{
    if let Some(p) = find_violation(&req.bundle) {
        return Err(CreateError::RedactionViolation(p));
    }
    let mut ko_id = "ko:specbundle/".to_owned();
    ko_id.append(ko_uuid);
    proof {
        assert(ko_id@ == ko_id_seq(ko_uuid@));
    }
    let dir_name = sanitize_ko_id(ko_id.as_str());
    let mut parts_dir = dir_name.clone();
    parts_dir.append("/parts");
    let mut files: Vec<PlannedFile> = Vec::new();
    files.push(
        PlannedFile { rel_path: "bundle.json".to_owned(), content: encode_bundle(&req.bundle) },
    );
    let ghost partsv = req.bundle@.parts;
    let n = req.bundle.parts.len();
    let mut stored: usize = 0;
    let mut i: usize = 0;
    while i < n
        invariant
            n == req.bundle.parts@.len(),
            partsv == req.bundle@.parts,
            i <= n,
            stored <= i,
            stored == stored_files_upto(partsv, i as int).len(),
            files@.len() == 1 + stored,
            files@[0].rel_path@ == "bundle.json"@,
            files@[0].content@ == bundle_text(req.bundle@),
            forall|k: int|
                0 <= k < stored ==> (#[trigger] files@[k + 1]).rel_path@ == stored_files_upto(
                    partsv,
                    i as int,
                )[k].0 && files@[k + 1].content@ == stored_files_upto(partsv, i as int)[k].1,
        decreases n - i,
    {
        let part = &req.bundle.parts[i];
        proof {
            assert(partsv[i as int] == req.bundle.parts@[i as int]@);
        }
        let pos = i + 1;
        let idx = format_index(pos as u64);
        let mut added: Option<PlannedFile> = None;
        if str_eq(part.kind.as_str(), "markdown") {
            if let Some(c) = &part.content {
                let mut name = "parts/".to_owned();
                name.append(idx.as_str());
                name.append(".md");
                proof {
                    assert(name@ =~= "parts/"@ + index_text(pos as int) + ".md"@);
                }
                added = Some(PlannedFile { rel_path: name, content: c.clone() });
            }
        } else if str_eq(part.kind.as_str(), "mermaid") {
            if let Some(c) = &part.content {
                let mut name = "parts/".to_owned();
                name.append(idx.as_str());
                name.append(".mmd");
                proof {
                    assert(name@ =~= "parts/"@ + index_text(pos as int) + ".mmd"@);
                }
                added = Some(PlannedFile { rel_path: name, content: c.clone() });
            }
        } else if str_eq(part.kind.as_str(), "attachment") {
            if let Some(pa) = &part.path {
                let mut name = "parts/".to_owned();
                name.append(idx.as_str());
                name.append(".attachment.json");
                proof {
                    assert(name@ =~= "parts/"@ + index_text(pos as int) + ".attachment.json"@);
                }
                added = Some(
                    PlannedFile {
                        rel_path: name,
                        content: encode_attachment_descriptor(pa.as_str()),
                    },
                );
            }
        }
        proof {
            assert(stored_files_upto(partsv, i as int + 1) == stored_files_upto(partsv, i as int)
                + (match stored_file(partsv[i as int], i as int + 1) {
                Some(f) => seq![f],
                None => Seq::<(Seq<char>, Seq<char>)>::empty(),
            }));
        }
        match added {
            Some(f) => {
                proof {
                    assert(stored_file(partsv[i as int], i as int + 1) matches Some(sf)
                        && f.rel_path@ == sf.0 && f.content@ == sf.1);
                }
                files.push(f);
                stored += 1;
            },
            None => {
                proof {
                    assert(stored_file(partsv[i as int], i as int + 1) is None);
                }
            },
        }
        i += 1;
    }
    let ingested = match req.ingest {
        Some(b) => b,
        None => false,
    };
    if ingested {
        files.push(
            PlannedFile {
                rel_path: "audit.json".to_owned(),
                content: encode_audit(
                    ko_id.as_str(),
                    now,
                    &req.bundle.tags,
                    &req.bundle.redactions,
                ),
            },
        );
    }
    let response = SpecbundleCreateResp { ko_id, stored_parts: stored, ingested };
    let plan = CreatePlan { dir_name, parts_dir, files, response };
    proof {
        let fs = plan_files(req@.bundle, ko_uuid@, now@, ingested);
        assert(partsv.len() == n as int);
        assert(req@.bundle.parts == partsv);
        assert(stored_files(partsv) == stored_files_upto(partsv, n as int));
        assert(stored == stored_files(partsv).len());
        assert(fs.len() == 1 + stored + (if ingested {
            1int
        } else {
            0int
        }));
        assert forall|k: int|
            0 <= k < fs.len() implies (#[trigger] plan.files@[k]).rel_path@ == fs[k].0
                && plan.files@[k].content@ == fs[k].1 by {
            if k == 0 {
                assert(fs[0] == ("bundle.json"@, bundle_text(req@.bundle)));
            } else if k < 1 + stored {
                assert(fs[k] == stored_files(partsv)[k - 1]);
                assert(plan.files@[(k - 1) + 1].rel_path@ == stored_files_upto(
                    partsv,
                    n as int,
                )[k - 1].0);
                assert(plan.files@[(k - 1) + 1].content@ == stored_files_upto(
                    partsv,
                    n as int,
                )[k - 1].1);
            } else {
                assert(fs[k] == ("audit.json"@, audit_text(
                    ko_id_seq(ko_uuid@),
                    now@,
                    req@.bundle.tags,
                    req@.bundle.redactions,
                )));
            }
        }
        assert(plan_matches(req@, ko_uuid@, now@, plan));
    }
    Ok(plan)
}

/// The concrete service behind the "specbundle.create" capability.
pub struct SpecbundleService;

impl SpecbundleService {
    /// Validates a creation request and plans the whole creation: the guard
    /// runs first, then a fresh globally-unique identifier is drawn, the
    /// clock is read, and every write is laid out in order. Fails exactly on
    /// a redaction violation, with nothing planned.
    pub fn plan_create(req: &SpecbundleCreateReq) -> (r: Result<CreatePlan, CreateError>)
        ensures
            (r is Ok) <==> bundle_violation(req.bundle@) is None,
            r matches Err(e) ==> (e matches CreateError::RedactionViolation(p) && Some(p@)
                == bundle_violation(req.bundle@)),
            r matches Ok(p) ==> exists|u: Seq<char>, now: Seq<char>|
                is_uuid_seq(u) && #[trigger] plan_matches(req@, u, now, p),
    {
        let u = fresh_uuid_string();
        let now = now_utc_string();
        let r = plan_with(req, u.as_str(), now.as_str());
        proof {
            if r is Ok {
                assert(is_uuid_seq(u@) && plan_matches(req@, u@, now@, r->Ok_0));
            }
        }
        r
    }
}

} // verus!
