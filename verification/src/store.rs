//! The session-description store: one slot that holds the latest description
//! and candidate, the two requests that write and read it, and the policy for
//! cross-origin callers. The transport in front of it is not part of this module.

use crate::text::same_text;
use vstd::prelude::*;

verus! {

/// What the slot holds: a session description and a network candidate.
#[derive(Debug, PartialEq)]
pub struct ChannelData {
    pub description: String,
    pub candidate: String,
}

impl Default for ChannelData {
    fn default() -> (data: ChannelData)
        ensures
            data.description@ == Seq::<char>::empty(),
            data.candidate@ == Seq::<char>::empty(),
    {
        ChannelData { description: String::new(), candidate: String::new() }
    }
}

impl Clone for ChannelData {
    fn clone(&self) -> (copy: ChannelData)
        ensures
            copy == *self,
    {
        ChannelData { description: self.description.clone(), candidate: self.candidate.clone() }
    }
}

/// Request methods that the store knows.
#[derive(Clone, Copy, Debug, PartialEq, Eq, Structural)]
pub enum Method {
    Get,
    Post,
}

/// Who may call the store from another origin.
#[derive(Clone, Debug, PartialEq, Eq)]
pub struct CorsPolicy {
    pub allowed_origins: Vec<String>,
    pub allowed_methods: Vec<Method>,
    pub allowed_headers: Vec<String>,
    pub allow_credentials: bool,
}

/// The texts of a sequence of strings.
pub open spec fn texts(strings: Seq<String>) -> Seq<Seq<char>> {
    strings.map_values(|s: String| s@)
}

/// The policy of the store: four exact origins, reading and writing, five
/// headers, credentials allowed.
pub fn make_cors() -> (policy: CorsPolicy)
    ensures
        texts(policy.allowed_origins@) == seq![
            "http://localhost:8080"@,
            "http://127.0.0.1:8080"@,
            "http://localhost:8000"@,
            "http://0.0.0.0:8000"@,
        ],
        policy.allowed_methods@ == seq![Method::Get, Method::Post],
        texts(policy.allowed_headers@) == seq![
            "Authorization"@,
            "Accept"@,
            "Content-Type"@,
            "User-Agent"@,
            "Access-Control-Allow-Origin"@,
        ],
        policy.allow_credentials,
{
    let mut allowed_origins: Vec<String> = Vec::new();
    allowed_origins.push(String::from_str("http://localhost:8080"));
    allowed_origins.push(String::from_str("http://127.0.0.1:8080"));
    allowed_origins.push(String::from_str("http://localhost:8000"));
    allowed_origins.push(String::from_str("http://0.0.0.0:8000"));
    let mut allowed_methods: Vec<Method> = Vec::new();
    allowed_methods.push(Method::Get);
    allowed_methods.push(Method::Post);
    let mut allowed_headers: Vec<String> = Vec::new();
    allowed_headers.push(String::from_str("Authorization"));
    allowed_headers.push(String::from_str("Accept"));
    allowed_headers.push(String::from_str("Content-Type"));
    allowed_headers.push(String::from_str("User-Agent"));
    allowed_headers.push(String::from_str("Access-Control-Allow-Origin"));
    proof {
        assert(texts(allowed_origins@) =~= seq![
            "http://localhost:8080"@,
            "http://127.0.0.1:8080"@,
            "http://localhost:8000"@,
            "http://0.0.0.0:8000"@,
        ]);
        assert(allowed_methods@ =~= seq![Method::Get, Method::Post]);
        assert(texts(allowed_headers@) =~= seq![
            "Authorization"@,
            "Accept"@,
            "Content-Type"@,
            "User-Agent"@,
            "Access-Control-Allow-Origin"@,
        ]);
    }
    CorsPolicy { allowed_origins, allowed_methods, allowed_headers, allow_credentials: true }
}

/// The body that answers a request without data: a status and, on failure, a reason.
#[derive(Clone, Debug, PartialEq, Eq)]
pub struct Reply {
    pub status: String,
    pub reason: Option<String>,
}

/// What the store answers.
#[derive(Debug, PartialEq)]
pub enum Response {
    /// The payload was stored.
    Saved(Reply),
    /// The slot's content.
    Loaded(ChannelData),
    /// No endpoint under that method and path.
    NotFound(Reply),
}

impl Response {
    /// The status code that goes with the answer: 404 for `NotFound`, else 200.
    pub fn status_code(&self) -> (code: u16)
        ensures
            code == (if self is NotFound { 404int } else { 200int }),
    {
        match self {
            Response::NotFound(_) => 404,
            _ => 200,
        }
    }
}

/// The two endpoints of the store.
#[derive(Clone, Copy, Debug, PartialEq, Eq, Structural)]
pub enum Endpoint {
    New,
    Get,
}

/// A request as the transport hands it over; `payload` is the decoded body, if one came.
pub struct Request {
    pub method: Method,
    pub path: String,
    pub payload: Option<ChannelData>,
}

/// The store as it is served: the slot, the mount point and the policy.
pub struct Rocket {
    pub state: ChannelData,
    pub mount: String,
    pub cors: CorsPolicy,
}

/// Which endpoint a method and a path name: both live at `/json` under the
/// mount point `/state`, writing by `Post` and reading by `Get`.
pub open spec fn endpoint_of(method: Method, path: Seq<char>) -> Option<Endpoint> {
    if path == "/state/json"@ {
        Some(
            match method {
                Method::Post => Endpoint::New,
                Method::Get => Endpoint::Get,
            },
        )
    } else {
        None
    }
}

/// Stores the payload in the slot and answers `ok`.
pub fn new(payload: ChannelData, state: &mut ChannelData) -> (reply: Reply)
    ensures
        *final(state) == payload,
        reply.status@ == "ok"@,
        reply.reason is None,
{
    *state = payload;
    Reply { status: String::from_str("ok"), reason: None }
}

/// A copy of the slot's content; the slot always holds one.
pub fn get(state: &ChannelData) -> (found: Option<ChannelData>)
    ensures
        found == Some(*state),
{
    Some(state.clone())
}

/// The answer to a request that names no endpoint.
pub fn not_found() -> (reply: Reply)
    ensures
        reply.status@ == "error"@,
        reply.reason matches Some(reason) && reason@ == "Resource was not found."@,
{
    Reply {
        status: String::from_str("error"),
        reason: Some(String::from_str("Resource was not found.")),
    }
}

/// The store at start: an empty slot, mounted at `/state`, under the policy of `make_cors`.
pub fn rocket() -> (service: Rocket)
    ensures
        service.state.description@ == Seq::<char>::empty(),
        service.state.candidate@ == Seq::<char>::empty(),
        service.mount@ == "/state"@,
        texts(service.cors.allowed_origins@) == seq![
            "http://localhost:8080"@,
            "http://127.0.0.1:8080"@,
            "http://localhost:8000"@,
            "http://0.0.0.0:8000"@,
        ],
        service.cors.allowed_methods@ == seq![Method::Get, Method::Post],
        texts(service.cors.allowed_headers@) == seq![
            "Authorization"@,
            "Accept"@,
            "Content-Type"@,
            "User-Agent"@,
            "Access-Control-Allow-Origin"@,
        ],
        service.cors.allow_credentials,
{
    Rocket { state: ChannelData::default(), mount: String::from_str("/state"), cors: make_cors() }
}

impl Rocket {
    /// Answers one request. A `Post` to `/state/json` that carries a payload
    /// replaces the slot; a `Get` there returns a copy of it; anything else is
    /// not found and leaves the slot alone.
    pub fn dispatch(&mut self, request: Request) -> (response: Response)
        ensures
            final(self).mount == old(self).mount,
            final(self).cors == old(self).cors,
            match (endpoint_of(request.method, request.path@), request.payload) {
                (Some(Endpoint::New), Some(payload)) => {
                    &&& final(self).state == payload
                    &&& response matches Response::Saved(reply) && reply.status@ == "ok"@
                        && reply.reason is None
                },
                (Some(Endpoint::Get), _) => {
                    &&& final(self).state == old(self).state
                    &&& response == Response::Loaded(old(self).state)
                },
                _ => {
                    &&& final(self).state == old(self).state
                    &&& response matches Response::NotFound(reply) && reply.status@ == "error"@
                        && (reply.reason matches Some(reason) && reason@
                        == "Resource was not found."@)
                },
            },
    {
        let Request { method, path, payload } = request;
        if !same_text(path.as_str(), "/state/json") {
            return Response::NotFound(not_found());
        }
        match method {
            Method::Post => match payload {
                Some(data) => Response::Saved(new(data, &mut self.state)),
                None => Response::NotFound(not_found()),
            },
            Method::Get => match get(&self.state) {
                Some(data) => Response::Loaded(data),
                None => Response::NotFound(not_found()),
            },
        }
    }
}

} // verus!
