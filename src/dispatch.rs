//! The request dispatch pipeline as a state machine: classify the request,
//! resolve its origin, ask for admission, forward upstream, and translate
//! each outcome into a response. The caller performs each action (a message
//! to the catalog or the engine, an upstream call) and hands back its result
//! as the next event.
use vstd::prelude::*;

use crate::definitions::{APIDefinition, APISpecification, Origin, Server, ServerView, servers_view};
use crate::responses::Failure;

verus! {

/// The decimal digit `d` as a character.
pub open spec fn digit_char(d: int) -> char {
    if d == 0 {
        '0'
    } else if d == 1 {
        '1'
    } else if d == 2 {
        '2'
    } else if d == 3 {
        '3'
    } else if d == 4 {
        '4'
    } else if d == 5 {
        '5'
    } else if d == 6 {
        '6'
    } else if d == 7 {
        '7'
    } else if d == 8 {
        '8'
    } else {
        '9'
    }
}

/// The decimal rendering of `n`, without leading zeros.
pub open spec fn decimal(n: nat) -> Seq<char>
    decreases n,
{
    if n < 10 {
        seq![digit_char(n as int)]
    } else {
        decimal(n / 10).push(digit_char((n % 10) as int))
    }
}

fn digit_text(d: u16) -> (r: &'static str)
    requires
        d < 10,
    ensures
        r@ == seq![digit_char(d as int)],
{
    proof {
        reveal_strlit("0");
        reveal_strlit("1");
        reveal_strlit("2");
        reveal_strlit("3");
        reveal_strlit("4");
        reveal_strlit("5");
        reveal_strlit("6");
        reveal_strlit("7");
        reveal_strlit("8");
        reveal_strlit("9");
    }
    match d {
        0 => "0",
        1 => "1",
        2 => "2",
        3 => "3",
        4 => "4",
        5 => "5",
        6 => "6",
        7 => "7",
        8 => "8",
        _ => "9",
    }
}

/// Appends the decimal rendering of `n` to `s`.
fn push_decimal(s: &mut String, n: u16)
    ensures
        final(s)@ == old(s)@ + decimal(n as nat),
    decreases n,
{
    if n >= 10 {
        push_decimal(s, n / 10);
    }
    s.append(digit_text(n % 10));
    proof {
        if n < 10 {
            assert(old(s)@ + decimal(n as nat) =~= old(s)@ + seq![digit_char(n as int)]);
        } else {
            assert(old(s)@ + decimal(n as nat) =~= (old(s)@ + decimal((n / 10) as nat)) + seq![
                digit_char((n % 10) as int),
            ]);
        }
    }
}

/// The address a request is forwarded to: plain HTTP to the server, with the
/// original path and query.
pub open spec fn forward_uri_of(server: ServerView, path_and_query: Seq<char>) -> Seq<char> {
    "http://"@ + server.hostname + ":"@ + decimal(server.port as nat) + path_and_query
}

/// Builds `http://{hostname}:{port}{path_and_query}`.
pub fn forward_uri(server: &Server, path_and_query: &str) -> (r: String)
    ensures
        r@ == forward_uri_of(server@, path_and_query@),
{
    let mut url = "http://".to_owned();
    url.append(server.hostname.as_str());
    url.append(":");
    push_decimal(&mut url, server.port);
    url.append(path_and_query);
    url
}

/// Whether http's URI parser accepts the text; a function of the text alone.
pub uninterp spec fn parses_as_uri(text: Seq<char>) -> bool;

/// Relies on `http::Uri`'s `FromStr` (re-exported by hyper): whether the text
/// parses as a URI.
#[verifier::external_body]
fn is_valid_uri(text: &str) -> (r: bool)
    ensures
        r == parses_as_uri(text@),
{
    text.parse::<hyper::Uri>().is_ok()
}

/// Relies on rand's `Rng::gen_range` on the thread generator: an index drawn
/// from `0..len`, which must not be empty.
#[verifier::external_body]
fn random_index(len: usize) -> (r: usize)
    requires
        len > 0,
    ensures
        r < len,
{
    rand::Rng::gen_range(&mut rand::thread_rng(), 0..len)
}

/// Picks one of the servers uniformly at random; `None` when there is none.
pub fn select_server(servers: &Vec<Server>) -> (r: Option<usize>)
    ensures
        servers@.len() == 0 <==> r is None,
        r matches Some(i) ==> i < servers@.len(),
{
    if servers.len() == 0 {
        None
    } else {
        Some(random_index(servers.len()))
    }
}

/// What became of the upstream call.
#[derive(Debug, Clone, Copy, PartialEq, Eq, Structural)]
pub enum UpstreamOutcome {
    /// The backend answered; its response goes back as it is.
    Responded,
    /// The deadline passed first.
    TimedOut,
    /// The connection or the exchange failed.
    TransportFailed,
}

/// Where a request stands in the pipeline.
#[derive(Debug)]
pub enum DispatchState {
    /// Waiting for the API that the query selects.
    AwaitingApi { path_and_query: String },
    /// Waiting for the origin of the selected API.
    AwaitingOrigin { path_and_query: String, timeout_ms: u64 },
    /// Waiting for the rate-limit engine's answer for the origin.
    AwaitingAdmission { path_and_query: String, timeout_ms: u64, servers: Vec<Server> },
    /// Waiting for the backend.
    AwaitingUpstream,
    /// A response has been decided.
    Done,
}

/// The result of the last action, handed back by the caller.
#[derive(Debug)]
pub enum DispatchEvent {
    ApiAnswer(Option<APIDefinition>),
    OriginAnswer(Option<Origin>),
    AdmissionAnswer(bool),
    UpstreamAnswer(UpstreamOutcome),
    /// A message to the catalog or the engine, or its reply, was lost.
    ChannelFailed,
}

/// What the caller is to do next.
#[derive(Debug)]
pub enum DispatchAction {
    LookupApi(APISpecification),
    LookupOrigin(String),
    CheckAdmission(String),
    /// Send the request to `uri`, waiting at most `timeout_ms` milliseconds.
    Forward { uri: String, timeout_ms: u64 },
    /// Answer with the failure's canonical response.
    Respond(Failure),
    /// Answer with the backend's response as it is.
    Relay,
}

/// The first step: a request without a Host header fails at once; otherwise
/// the query `{[method], [path], [host]}` goes to the catalog.
pub open spec fn starts_as(
    method: Seq<char>,
    path: Seq<char>,
    path_and_query: String,
    host: Option<String>,
    s: DispatchState,
    a: DispatchAction,
) -> bool {
    match host {
        None => s is Done && a == DispatchAction::Respond(Failure::InternalError),
        Some(h) => {
            &&& s == DispatchState::AwaitingApi { path_and_query }
            &&& a matches DispatchAction::LookupApi(q) && q@.methods == seq![method]
                && q@.paths == seq![path] && q@.hostnames == seq![h@]
        },
    }
}

/// The step from state `s` on event `e` to state `s2` with action `a`, where
/// `pick` chooses the server (taken modulo the number of servers).
pub open spec fn transition(
    s: DispatchState,
    e: DispatchEvent,
    pick: nat,
    s2: DispatchState,
    a: DispatchAction,
) -> bool {
    match (s, e) {
        (DispatchState::AwaitingApi { path_and_query }, DispatchEvent::ApiAnswer(None)) => {
            s2 is Done && a == DispatchAction::Respond(Failure::NotFound)
        },
        (DispatchState::AwaitingApi { path_and_query }, DispatchEvent::ApiAnswer(Some(api))) => {
            &&& s2 == DispatchState::AwaitingOrigin {
                path_and_query,
                timeout_ms: api.backend_response_timeout,
            }
            &&& a matches DispatchAction::LookupOrigin(id) && id@ == api.origin_id@
        },
        (DispatchState::AwaitingOrigin { .. }, DispatchEvent::OriginAnswer(None)) => {
            s2 is Done && a == DispatchAction::Respond(Failure::ServiceUnavailable)
        },
        (
            DispatchState::AwaitingOrigin { path_and_query, timeout_ms },
            DispatchEvent::OriginAnswer(Some(origin)),
        ) => {
            &&& s2 matches DispatchState::AwaitingAdmission { path_and_query: pq, timeout_ms: t, servers }
                && pq == path_and_query && t == timeout_ms && servers_view(servers@)
                == origin@.specification.servers
            &&& a matches DispatchAction::CheckAdmission(id) && id@ == origin.origin_id@
        },
        (DispatchState::AwaitingAdmission { .. }, DispatchEvent::AdmissionAnswer(false)) => {
            s2 is Done && a == DispatchAction::Respond(Failure::TooManyRequests)
        },
        (
            DispatchState::AwaitingAdmission { path_and_query, timeout_ms, servers },
            DispatchEvent::AdmissionAnswer(true),
        ) => {
            if servers@.len() == 0 {
                s2 is Done && a == DispatchAction::Respond(Failure::ServiceUnavailable)
            } else {
                let uri = forward_uri_of(
                    servers@[(pick % servers@.len()) as int]@,
                    path_and_query@,
                );
                if parses_as_uri(uri) {
                    &&& s2 is AwaitingUpstream
                    &&& a matches DispatchAction::Forward { uri: u, timeout_ms: t } && u@ == uri
                        && t == timeout_ms
                } else {
                    s2 is Done && a == DispatchAction::Respond(Failure::InternalError)
                }
            }
        },
        (DispatchState::AwaitingUpstream, DispatchEvent::UpstreamAnswer(outcome)) => {
            &&& s2 is Done
            &&& a == match outcome {
                UpstreamOutcome::Responded => DispatchAction::Relay,
                UpstreamOutcome::TimedOut => DispatchAction::Respond(Failure::GatewayTimeout),
                UpstreamOutcome::TransportFailed => DispatchAction::Respond(
                    Failure::ServiceUnavailable,
                ),
            }
        },
        _ => s2 is Done && a == DispatchAction::Respond(Failure::InternalError),
    }
}

/// A single-element list holding `s`.
fn one_string(s: String) -> (r: Vec<String>)
    ensures
        r@ == seq![s],
{
    let mut v: Vec<String> = Vec::new();
    v.push(s);
    assert(v@ =~= seq![s]);
    v
}

impl DispatchState {
    /// Starts the pipeline for a request; `host` is its Host header, if any.
    pub fn start(method: String, path: String, path_and_query: String, host: Option<String>) -> (r: (
        DispatchState,
        DispatchAction,
    ))
        ensures
            starts_as(method@, path@, path_and_query, host, r.0, r.1),
    {
        match host {
            None => (DispatchState::Done, DispatchAction::Respond(Failure::InternalError)),
            Some(h) => {
                let ghost hv = h@;
                let ghost mv = method@;
                let ghost pv = path@;
                let q = APISpecification {
                    methods: one_string(method),
                    paths: one_string(path),
                    hostnames: one_string(h),
                };
                assert(q@.methods =~= seq![mv]);
                assert(q@.paths =~= seq![pv]);
                assert(q@.hostnames =~= seq![hv]);
                (DispatchState::AwaitingApi { path_and_query }, DispatchAction::LookupApi(q))
            },
        }
    }

    /// The step on an event, with the server choice given.
    pub fn step_with_pick(self, event: DispatchEvent, pick: usize) -> (r: (
        DispatchState,
        DispatchAction,
    ))
        ensures
            transition(self, event, pick as nat, r.0, r.1),
    {
        match (self, event) {
            (DispatchState::AwaitingApi { path_and_query }, DispatchEvent::ApiAnswer(answer)) => {
                match answer {
                    None => (DispatchState::Done, DispatchAction::Respond(Failure::NotFound)),
                    Some(api) => (
                        DispatchState::AwaitingOrigin {
                            path_and_query,
                            timeout_ms: api.backend_response_timeout,
                        },
                        DispatchAction::LookupOrigin(api.origin_id()),
                    ),
                }
            },
            (
                DispatchState::AwaitingOrigin { path_and_query, timeout_ms },
                DispatchEvent::OriginAnswer(answer),
            ) => {
                match answer {
                    None => (DispatchState::Done, DispatchAction::Respond(Failure::ServiceUnavailable)),
                    Some(origin) => {
                        let id = origin.origin_id.clone();
                        let servers = crate::definitions::clone_servers(&origin.specification.servers);
                        (
                            DispatchState::AwaitingAdmission { path_and_query, timeout_ms, servers },
                            DispatchAction::CheckAdmission(id),
                        )
                    },
                }
            },
            (
                DispatchState::AwaitingAdmission { path_and_query, timeout_ms, servers },
                DispatchEvent::AdmissionAnswer(admitted),
            ) => {
                if !admitted {
                    (DispatchState::Done, DispatchAction::Respond(Failure::TooManyRequests))
                } else if servers.len() == 0 {
                    (DispatchState::Done, DispatchAction::Respond(Failure::ServiceUnavailable))
                } else {
                    let uri = forward_uri(&servers[pick % servers.len()], path_and_query.as_str());
                    if is_valid_uri(uri.as_str()) {
                        (DispatchState::AwaitingUpstream, DispatchAction::Forward { uri, timeout_ms })
                    } else {
                        (DispatchState::Done, DispatchAction::Respond(Failure::InternalError))
                    }
                }
            },
            (DispatchState::AwaitingUpstream, DispatchEvent::UpstreamAnswer(outcome)) => {
                let action = match outcome {
                    UpstreamOutcome::Responded => DispatchAction::Relay,
                    UpstreamOutcome::TimedOut => DispatchAction::Respond(Failure::GatewayTimeout),
                    UpstreamOutcome::TransportFailed => DispatchAction::Respond(
                        Failure::ServiceUnavailable,
                    ),
                };
                (DispatchState::Done, action)
            },
            _ => (DispatchState::Done, DispatchAction::Respond(Failure::InternalError)),
        }
    }

    /// The step on an event. Where the request goes forward, the server is
    /// drawn at random from the origin's pool.
    pub fn step(self, event: DispatchEvent) -> (r: (DispatchState, DispatchAction))
        ensures
            exists|pick: nat| transition(self, event, pick, r.0, r.1),
    {
        let pick: usize = match &self {
            DispatchState::AwaitingAdmission { servers, .. } => {
                match select_server(servers) {
                    Some(i) => i,
                    None => 0,
                }
            },
            _ => 0,
        };
        let ghost s = self;
        let ghost e = event;
        let r = self.step_with_pick(event, pick);
        assert(transition(s, e, pick as nat, r.0, r.1));
        r
    }
}

/// Each request gets one answer: a step ends the pipeline exactly when its
/// action is a response (a canonical failure or the backend's own).
pub proof fn lemma_one_response_per_request(
    s: DispatchState,
    e: DispatchEvent,
    pick: nat,
    s2: DispatchState,
    a: DispatchAction,
)
    requires
        transition(s, e, pick, s2, a),
    ensures
        (a is Respond || a is Relay) <==> s2 is Done,
{
}

/// Each request gets one answer from the first step too: a request without
/// a Host header is answered at once, any other goes on to the catalog.
pub proof fn lemma_start_one_response(
    method: Seq<char>,
    path: Seq<char>,
    path_and_query: String,
    host: Option<String>,
    s: DispatchState,
    a: DispatchAction,
)
    requires
        starts_as(method, path, path_and_query, host, s, a),
    ensures
        (a is Respond || a is Relay) <==> s is Done,
{
}

/// A request without a Host header is answered 500.
pub proof fn lemma_missing_host_is_internal_error(
    method: Seq<char>,
    path: Seq<char>,
    path_and_query: String,
    s: DispatchState,
    a: DispatchAction,
)
    requires
        starts_as(method, path, path_and_query, None, s, a),
    ensures
        a == DispatchAction::Respond(Failure::InternalError),
        s is Done,
{
}

/// An admitted request to an origin without servers is answered 503.
pub proof fn lemma_no_servers_is_unavailable(
    path_and_query: String,
    timeout_ms: u64,
    servers: Vec<Server>,
    pick: nat,
    s2: DispatchState,
    a: DispatchAction,
)
    requires
        servers@.len() == 0,
        transition(
            DispatchState::AwaitingAdmission { path_and_query, timeout_ms, servers },
            DispatchEvent::AdmissionAnswer(true),
            pick,
            s2,
            a,
        ),
    ensures
        a == DispatchAction::Respond(Failure::ServiceUnavailable),
{
}

/// The upstream deadline is the API's `backend_response_timeout`, and a
/// backend that misses it is answered 504.
pub proof fn lemma_deadline_is_api_timeout(
    path_and_query: String,
    api: APIDefinition,
    s1: DispatchState,
    a1: DispatchAction,
    origin: Origin,
    s2: DispatchState,
    a2: DispatchAction,
    pick: nat,
    s3: DispatchState,
    a3: DispatchAction,
    s4: DispatchState,
    a4: DispatchAction,
)
    requires
        transition(
            DispatchState::AwaitingApi { path_and_query },
            DispatchEvent::ApiAnswer(Some(api)),
            0,
            s1,
            a1,
        ),
        transition(s1, DispatchEvent::OriginAnswer(Some(origin)), 0, s2, a2),
        transition(s2, DispatchEvent::AdmissionAnswer(true), pick, s3, a3),
        a3 is Forward,
        transition(s3, DispatchEvent::UpstreamAnswer(UpstreamOutcome::TimedOut), 0, s4, a4),
    ensures
        a3 matches DispatchAction::Forward { timeout_ms, .. } && timeout_ms
            == api.backend_response_timeout,
        a4 == DispatchAction::Respond(Failure::GatewayTimeout),
{
}

/// The event that hands back the catalog's answer on an API, where `None`
/// means that the question or its reply was lost.
pub open spec fn api_event(answer: Option<Option<APIDefinition>>) -> DispatchEvent {
    match answer {
        Some(a) => DispatchEvent::ApiAnswer(a),
        None => DispatchEvent::ChannelFailed,
    }
}

/// The event that hands back the catalog's answer on an origin.
pub open spec fn origin_event(answer: Option<Option<Origin>>) -> DispatchEvent {
    match answer {
        Some(o) => DispatchEvent::OriginAnswer(o),
        None => DispatchEvent::ChannelFailed,
    }
}

/// The event that hands back the engine's admission answer.
pub open spec fn admission_event(answer: Option<bool>) -> DispatchEvent {
    match answer {
        Some(b) => DispatchEvent::AdmissionAnswer(b),
        None => DispatchEvent::ChannelFailed,
    }
}

/// The answer a request gets when each stage answers as given: the first
/// condition that applies, in pipeline order (missing Host, lost message,
/// no API, no origin, refused admission, no server, unusable address, then
/// the backend's outcome).
pub open spec fn first_applicable(
    host_present: bool,
    api: Option<Option<APIDefinition>>,
    origin: Option<Option<Origin>>,
    admitted: Option<bool>,
    pick: nat,
    path_and_query: Seq<char>,
    upstream: UpstreamOutcome,
) -> DispatchAction {
    if !host_present {
        DispatchAction::Respond(Failure::InternalError)
    } else {
        match api {
            None => DispatchAction::Respond(Failure::InternalError),
            Some(None) => DispatchAction::Respond(Failure::NotFound),
            Some(Some(_)) => match origin {
                None => DispatchAction::Respond(Failure::InternalError),
                Some(None) => DispatchAction::Respond(Failure::ServiceUnavailable),
                Some(Some(o)) => match admitted {
                    None => DispatchAction::Respond(Failure::InternalError),
                    Some(false) => DispatchAction::Respond(Failure::TooManyRequests),
                    Some(true) => {
                        let servers = o@.specification.servers;
                        if servers.len() == 0 {
                            DispatchAction::Respond(Failure::ServiceUnavailable)
                        } else if !parses_as_uri(
                            forward_uri_of(servers[(pick % servers.len()) as int], path_and_query),
                        ) {
                            DispatchAction::Respond(Failure::InternalError)
                        } else {
                            match upstream {
                                UpstreamOutcome::Responded => DispatchAction::Relay,
                                UpstreamOutcome::TimedOut => DispatchAction::Respond(
                                    Failure::GatewayTimeout,
                                ),
                                UpstreamOutcome::TransportFailed => DispatchAction::Respond(
                                    Failure::ServiceUnavailable,
                                ),
                            }
                        }
                    },
                },
            },
        }
    }
}

/// A request is answered once, with the first condition that applies: when
/// the pipeline is driven from its start, each stage's answer handed back
/// until it is done, its one response is `first_applicable` of those answers.
pub proof fn lemma_first_applicable_condition(
    method: Seq<char>,
    path: Seq<char>,
    path_and_query: String,
    host: Option<String>,
    api: Option<Option<APIDefinition>>,
    origin: Option<Option<Origin>>,
    admitted: Option<bool>,
    pick: nat,
    upstream: UpstreamOutcome,
    s0: DispatchState,
    a0: DispatchAction,
    s1: DispatchState,
    a1: DispatchAction,
    s2: DispatchState,
    a2: DispatchAction,
    s3: DispatchState,
    a3: DispatchAction,
    s4: DispatchState,
    a4: DispatchAction,
)
    requires
        starts_as(method, path, path_and_query, host, s0, a0),
        !(s0 is Done) ==> transition(s0, api_event(api), 0, s1, a1),
        !(s0 is Done) && !(s1 is Done) ==> transition(s1, origin_event(origin), 0, s2, a2),
        !(s0 is Done) && !(s1 is Done) && !(s2 is Done) ==> transition(
            s2,
            admission_event(admitted),
            pick,
            s3,
            a3,
        ),
        !(s0 is Done) && !(s1 is Done) && !(s2 is Done) && !(s3 is Done) ==> transition(
            s3,
            DispatchEvent::UpstreamAnswer(upstream),
            0,
            s4,
            a4,
        ),
    ensures
        ({
            let answer = if s0 is Done {
                a0
            } else if s1 is Done {
                a1
            } else if s2 is Done {
                a2
            } else if s3 is Done {
                a3
            } else {
                a4
            };
            answer == first_applicable(
                host is Some,
                api,
                origin,
                admitted,
                pick,
                path_and_query@,
                upstream,
            )
        }),
        !(s0 is Done) && !(s1 is Done) && !(s2 is Done) && !(s3 is Done) ==> s4 is Done,
{
    if !(s0 is Done) && !(s1 is Done) && !(s2 is Done) {
        if let Some(Some(o)) = origin {
            if let DispatchState::AwaitingAdmission { servers, .. } = s2 {
                assert(servers_view(servers@) == o@.specification.servers);
                assert(servers@.len() == o@.specification.servers.len());
                if servers@.len() > 0 {
                    let k = (pick % servers@.len()) as int;
                    assert(servers_view(servers@)[k] == servers@[k]@);
                }
            }
        }
    }
}

/// The happy path: a request with a Host header whose API and origin are
/// found, which is admitted, and whose forward address parses, is sent to
/// `http://{server}:{port}{path_and_query}` of the picked server under the
/// API's deadline, and the backend's answer is handed back as it is.
pub proof fn lemma_happy_path_relays(
    method: Seq<char>,
    path: Seq<char>,
    path_and_query: String,
    host: String,
    api: APIDefinition,
    origin: Origin,
    pick: nat,
    s0: DispatchState,
    a0: DispatchAction,
    s1: DispatchState,
    a1: DispatchAction,
    s2: DispatchState,
    a2: DispatchAction,
    s3: DispatchState,
    a3: DispatchAction,
    s4: DispatchState,
    a4: DispatchAction,
)
    requires
        origin@.specification.servers.len() > 0,
        parses_as_uri(
            forward_uri_of(
                origin@.specification.servers[(pick % origin@.specification.servers.len()) as int],
                path_and_query@,
            ),
        ),
        starts_as(method, path, path_and_query, Some(host), s0, a0),
        transition(s0, DispatchEvent::ApiAnswer(Some(api)), 0, s1, a1),
        transition(s1, DispatchEvent::OriginAnswer(Some(origin)), 0, s2, a2),
        transition(s2, DispatchEvent::AdmissionAnswer(true), pick, s3, a3),
        transition(s3, DispatchEvent::UpstreamAnswer(UpstreamOutcome::Responded), 0, s4, a4),
    ensures
        a0 matches DispatchAction::LookupApi(q) && q@.methods == seq![method] && q@.paths
            == seq![path] && q@.hostnames == seq![host@],
        a1 matches DispatchAction::LookupOrigin(id) && id@ == api.origin_id@,
        a2 matches DispatchAction::CheckAdmission(id) && id@ == origin.origin_id@,
        a3 matches DispatchAction::Forward { uri, timeout_ms } && uri@ == forward_uri_of(
            origin@.specification.servers[(pick % origin@.specification.servers.len()) as int],
            path_and_query@,
        ) && timeout_ms == api.backend_response_timeout,
        a4 == DispatchAction::Relay,
        s4 is Done,
{
    if let DispatchState::AwaitingAdmission { servers, .. } = s2 {
        assert(servers_view(servers@) == origin@.specification.servers);
        assert(servers@.len() == origin@.specification.servers.len());
        let k = (pick % servers@.len()) as int;
        assert(servers_view(servers@)[k] == servers@[k]@);
    }
}

} // verus!
