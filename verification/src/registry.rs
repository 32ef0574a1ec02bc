//! The service registry: holds registered services, maps an incoming envelope
//! to the owning service by target name, and invokes its handler.

use vstd::prelude::*;
use crate::envelope::{VosMessage, VosError};
use crate::json::{Json, json_get, obj_get, json_as_str};
use crate::ext::{fresh_uuid_string, is_uuid_seq};
use crate::strutil::str_eq;

verus! {

/// Returns related knowledge-object references for a file or task.
pub struct ContextService;

/// Handles project-management operations; acknowledges SpecBundle creation
/// requests with a fresh reference.
pub struct PmService;

/// The services a registry can own, behind one flat interface.
pub enum Service {
    Context(ContextService),
    Pm(PmService),
}

/// The name a service registers under.
pub open spec fn service_name_view(s: Service) -> Seq<char> {
    match s {
        Service::Context(_) => "context_service"@,
        Service::Pm(_) => "opencode_pm"@,
    }
}

/// One entry {"id": <id>} in a list of knowledge-object references.
pub open spec fn is_ko_ref(j: Json, id: Seq<char>) -> bool {
    &&& j matches Json::Obj(e)
    &&& e@.len() == 1
    &&& e@[0].0@ == "id"@
    &&& e@[0].1 matches Json::Str(s)
    &&& e@[0].1->Str_0@ == id
}

/// The path a context request asks about: the payload's "path" string, with
/// "." standing in when the payload has none.
pub open spec fn requested_path(p: Json) -> Seq<char> {
    match json_get(p, "path"@) {
        Some(v) => match v {
            Json::Str(s) => s@,
            _ => "."@,
        },
        None => "."@,
    }
}

/// What a successful context fetch response holds: the requested path and the
/// two related knowledge-object references.
pub open spec fn is_context_fetch_response(m: VosMessage, req_payload: Json) -> bool {
    &&& m.target@ == "context_service"@
    &&& m.op@ == "context.fetch.ok"@
    &&& m.payload matches Json::Obj(entries)
    &&& entries@.len() == 2
    &&& entries@[0].0@ == "path"@
    &&& entries@[0].1 matches Json::Str(s)
    &&& entries@[0].1->Str_0@ == requested_path(req_payload)
    &&& entries@[1].0@ == "ko_refs"@
    &&& entries@[1].1 matches Json::Arr(refs)
    &&& entries@[1].1->Arr_0@.len() == 2
    &&& is_ko_ref(entries@[1].1->Arr_0@[0], "ko://docs/adr/0001-service-registry"@)
    &&& is_ko_ref(entries@[1].1->Arr_0@[1], "ko://schemas/opencode_pm.openapi.json"@)
}

impl ContextService {
    /// The registered name.
    pub fn service_name(&self) -> (r: &'static str)
        ensures
            r@ == "context_service"@,
    {
        "context_service"
    }

    /// The advertised capabilities: advisory metadata, not an access gate.
    pub fn capabilities(&self) -> (r: Vec<String>)
        ensures
            r@.len() == 1,
            r@[0]@ == "context.fetch"@,
    {
        let mut v: Vec<String> = Vec::new();
        v.push("context.fetch".to_owned());
        v
    }

    /// Answers any operation with the related references for the requested
    /// path; never fails.
    pub fn handle_message(&self, message: VosMessage) -> (r: Result<VosMessage, VosError>)
        ensures
            r matches Ok(resp) && is_context_fetch_response(resp, message.payload),
    {
        let path: String = match obj_get(&message.payload, "path") {
            Some(v) => match json_as_str(v) {
                Some(s) => s.clone(),
                None => ".".to_owned(),
            },
            None => ".".to_owned(),
        };
        let mut ref1: Vec<(String, Json)> = Vec::new();
        ref1.push(("id".to_owned(), Json::Str("ko://docs/adr/0001-service-registry".to_owned())));
        let mut ref2: Vec<(String, Json)> = Vec::new();
        ref2.push(("id".to_owned(), Json::Str("ko://schemas/opencode_pm.openapi.json".to_owned())));
        let mut refs: Vec<Json> = Vec::new();
        refs.push(Json::Obj(ref1));
        refs.push(Json::Obj(ref2));
        let mut entries: Vec<(String, Json)> = Vec::new();
        entries.push(("path".to_owned(), Json::Str(path)));
        entries.push(("ko_refs".to_owned(), Json::Arr(refs)));
        Ok(
            VosMessage {
                target: "context_service".to_owned(),
                op: "context.fetch.ok".to_owned(),
                payload: Json::Obj(entries),
            },
        )
    }
}

/// What a successful stub creation acknowledgement holds: a fresh reference
/// under "ko_ref" and the status "created".
pub open spec fn is_pm_created_response(m: VosMessage) -> bool {
    &&& m.target@ == "opencode_pm"@
    &&& m.op@ == "specbundle.created"@
    &&& m.payload matches Json::Obj(entries)
    &&& entries@.len() == 2
    &&& entries@[0].0@ == "ko_ref"@
    &&& entries@[0].1 matches Json::Str(kr)
    &&& (exists|u: Seq<char>|
        is_uuid_seq(u) && entries@[0].1->Str_0@ == "ko://specbundle/"@ + u)
    &&& entries@[1].0@ == "status"@
    &&& entries@[1].1 matches Json::Str(st)
    &&& entries@[1].1->Str_0@ == "created"@
}

/// The project-management service acknowledges a creation request and rejects
/// every other operation with its own bad-request error.
pub open spec fn pm_handle_post(m: VosMessage, r: Result<VosMessage, VosError>) -> bool {
    if m.op@ == "specbundle.create"@ {
        r matches Ok(resp) && is_pm_created_response(resp)
    } else {
        r matches Err(e) && e matches VosError::BadRequest(msg) && msg@
            == "Unsupported operation"@
    }
}

impl PmService {
    /// The registered name.
    pub fn service_name(&self) -> (r: &'static str)
        ensures
            r@ == "opencode_pm"@,
    {
        "opencode_pm"
    }

    /// The advertised capabilities: advisory metadata, not an access gate.
    pub fn capabilities(&self) -> (r: Vec<String>)
        ensures
            r@.len() == 1,
            r@[0]@ == "specbundle.create"@,
    {
        let mut v: Vec<String> = Vec::new();
        v.push("specbundle.create".to_owned());
        v
    }

    /// Acknowledges a SpecBundle creation request with a freshly drawn
    /// reference; any other operation is rejected as unsupported.
    pub fn handle_message(&self, message: VosMessage) -> (r: Result<VosMessage, VosError>)
        ensures
            pm_handle_post(message, r),
    {
        if str_eq(message.op.as_str(), "specbundle.create") {
            let u = fresh_uuid_string();
            let mut ko_ref = "ko://specbundle/".to_owned();
            ko_ref.append(u.as_str());
            let ghost uv = u@;
            let mut entries: Vec<(String, Json)> = Vec::new();
            entries.push(("ko_ref".to_owned(), Json::Str(ko_ref)));
            entries.push(("status".to_owned(), Json::Str("created".to_owned())));
            let resp = VosMessage {
                target: "opencode_pm".to_owned(),
                op: "specbundle.created".to_owned(),
                payload: Json::Obj(entries),
            };
            proof {
                assert(resp.payload->Obj_0@[0].1->Str_0@ == "ko://specbundle/"@ + uv);
                assert(exists|w: Seq<char>|
                    is_uuid_seq(w) && resp.payload->Obj_0@[0].1->Str_0@ == "ko://specbundle/"@
                        + w) by {
                    assert(is_uuid_seq(uv) && resp.payload->Obj_0@[0].1->Str_0@
                        == "ko://specbundle/"@ + uv);
                }
            }
            Ok(resp)
        } else {
            Err(VosError::BadRequest("Unsupported operation".to_owned()))
        }
    }
}

/// What any service's handler promises of its result.
pub open spec fn handle_post(s: Service, m: VosMessage, r: Result<VosMessage, VosError>) -> bool {
    match s {
        Service::Context(_) => r matches Ok(resp) && is_context_fetch_response(resp, m.payload),
        Service::Pm(_) => pm_handle_post(m, r),
    }
}

impl Service {
    /// The registered name.
    pub fn service_name(&self) -> (r: &'static str)
        ensures
            r@ == service_name_view(*self),
    {
        match self {
            Service::Context(s) => s.service_name(),
            Service::Pm(s) => s.service_name(),
        }
    }

    /// The advertised capabilities of the wrapped service.
    pub fn capabilities(&self) -> (r: Vec<String>)
        ensures
            r@.len() == 1,
    {
        match self {
            Service::Context(s) => s.capabilities(),
            Service::Pm(s) => s.capabilities(),
        }
    }

    /// Hands the envelope to the wrapped service's handler.
    pub fn handle_message(&self, message: VosMessage) -> (r: Result<VosMessage, VosError>)
        ensures
            handle_post(*self, message, r),
    {
        match self {
            Service::Context(s) => s.handle_message(message),
            Service::Pm(s) => s.handle_message(message),
        }
    }
}


/// A service's own rejection of an unknown operation is distinguishable from
/// the router's unknown-target error: the project-management service answers
/// with its own bad-request message, never the routing message.
pub proof fn lemma_unknown_op_is_service_error(m: VosMessage, r: Result<VosMessage, VosError>)
    requires
        pm_handle_post(m, r),
        m.op@ != "specbundle.create"@,
    ensures
        r matches Err(e) && e matches VosError::BadRequest(msg) && msg@
            == "Unsupported operation"@,
        r matches Err(e) && e matches VosError::BadRequest(msg) && msg@ != "unknown target"@,
{
    reveal_strlit("Unsupported operation");
    reveal_strlit("unknown target");
    assert("Unsupported operation"@.len() == 21);
    assert("unknown target"@.len() == 14);
}

/// Holds registered services and routes envelopes to them by target name.
/// Registration happens once at process start; dispatch never changes the
/// registry.
pub struct ServiceRegistry {
    services: Vec<Service>,
}

impl View for ServiceRegistry {
    type V = Seq<Service>;

    /// The registered services, in registration order.
    closed spec fn view(&self) -> Seq<Service> {
        self.services@
    }
}

impl ServiceRegistry {
    /// True when some registered service has this name.
    pub open spec fn has_target(&self, name: Seq<char>) -> bool {
        exists|i: int| 0 <= i < self@.len() && service_name_view(#[trigger] self@[i]) == name
    }

    /// All registered names are distinct.
    pub open spec fn wf(&self) -> bool {
        forall|i: int, j: int|
            0 <= i < j < self@.len() ==> service_name_view(#[trigger] self@[i])
                != service_name_view(#[trigger] self@[j])
    }

    /// A registry with no services.
    pub fn new() -> (r: Self)
        ensures
            r@ =~= Seq::<Service>::empty(),
            r.wf(),
    {
        ServiceRegistry { services: Vec::new() }
    }

    /// Adds a service under its declared name. Registering a name twice is a
    /// misconfigured process, not bad input, so the name must be new.
    pub fn register(&mut self, s: Service)
        requires
            !old(self).has_target(service_name_view(s)),
        ensures
            final(self)@ == old(self)@.push(s),
            old(self).wf() ==> final(self).wf(),
    {
        self.services.push(s);
        proof {
            assert forall|i: int|
                0 <= i < old(self)@.len() implies service_name_view(self@[i]) != service_name_view(
                s,
            ) by {
                assert(!(service_name_view(old(self)@[i]) == service_name_view(s)));
            }
        }
    }

    /// Looks the target's service up and returns its handler's result
    /// unchanged; an unknown target fails as a bad request, and no service is
    /// invoked.
    pub fn dispatch(&self, msg: VosMessage) -> (r: Result<VosMessage, VosError>)
        ensures
            !self.has_target(msg.target@) ==> (r matches Err(e) && e matches VosError::BadRequest(
                m2,
            ) && m2@ == "unknown target"@),
            self.has_target(msg.target@) ==> exists|i: int|
                0 <= i < self@.len() && service_name_view(#[trigger] self@[i]) == msg.target@
                    && handle_post(self@[i], msg, r),
    {
        let n = self.services.len();
        let mut idx: usize = 0;
        let mut found = false;
        while idx < n && !found
            invariant
                n == self@.len(),
                idx <= n,
                found ==> idx < n && service_name_view(self@[idx as int]) == msg.target@,
                !found ==> forall|k: int|
                    0 <= k < idx ==> service_name_view(#[trigger] self@[k]) != msg.target@,
            decreases n - idx + (if found { 0int } else { 1int }),
        {
            if str_eq(self.services[idx].service_name(), msg.target.as_str()) {
                found = true;
            } else {
                idx += 1;
            }
        }
        if found {
            let ghost i = idx as int;
            let r = self.services[idx].handle_message(msg);
            proof {
                assert(0 <= i < self@.len() && service_name_view(self@[i]) == msg.target@
                    && handle_post(self@[i], msg, r));
            }
            r
        } else {
            assert(!self.has_target(msg.target@));
            Err(VosError::BadRequest("unknown target".to_owned()))
        }
    }
}

/// Builds the registry every process starts from: the context service and the
/// project-management service, registered once.
pub fn default_registry() -> (r: ServiceRegistry)
    ensures
        r.wf(),
        r@.len() == 2,
        r@[0] is Context,
        r@[1] is Pm,
{
    let mut reg = ServiceRegistry::new();
    reg.register(Service::Context(ContextService));
    proof {
        reveal_strlit("context_service");
        reveal_strlit("opencode_pm");
        assert("context_service"@.len() == 15);
        assert("opencode_pm"@.len() == 11);
    }
    reg.register(Service::Pm(PmService));
    reg
}

} // verus!
