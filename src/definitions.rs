//! The definition data model: APIs, origins, servers and rate-limit settings.
use vstd::prelude::*;

verus! {

/// The request shape that an API accepts: methods, path prefixes and hostnames.
#[derive(Debug)]
pub struct APISpecification {
    pub methods: Vec<String>,
    pub paths: Vec<String>,
    pub hostnames: Vec<String>,
}

/// A declared API: which requests belong to it and which origin serves them.
#[derive(Debug)]
pub struct APIDefinition {
    pub api_id: String,
    pub api_name: String,
    pub api_version: String,
    pub api_desc: String,
    pub specification: APISpecification,
    /// Upstream deadline in milliseconds.
    pub backend_response_timeout: u64,
    pub origin_id: String,
}

#[derive(Debug, Clone, Copy, PartialEq, Eq, Structural)]
pub enum RateLimiterAlgorithm {
    TokenBucket,
    LeakyBucket,
}

#[derive(Debug, Clone, Copy, PartialEq, Eq, Structural)]
pub enum TimeUnit {
    Hour,
    Minute,
    Second,
}

/// The admission budget of an origin: `req_per_time_unit` requests per `time_unit`.
#[derive(Debug, Clone, Copy, PartialEq, Eq, Structural)]
pub struct RateLimiterConfig {
    pub algorithm: RateLimiterAlgorithm,
    pub time_unit: TimeUnit,
    pub req_per_time_unit: u32,
}

/// One backend server of an origin.
#[derive(Debug)]
pub struct Server {
    pub hostname: String,
    pub port: u16,
    pub secure: bool,
    pub verify_cert: bool,
}

#[derive(Debug)]
pub struct OriginSpecification {
    pub rate_limiter: RateLimiterConfig,
    pub servers: Vec<Server>,
}

/// A named backend: a pool of servers and a rate-limit policy.
#[derive(Debug)]
pub struct Origin {
    pub origin_id: String,
    pub origin_name: String,
    pub origin_desc: String,
    pub specification: OriginSpecification,
}

/// The mathematical value of a string list.
pub open spec fn strings_view(v: Seq<String>) -> Seq<Seq<char>> {
    v.map_values(|s: String| s@)
}

/// The mathematical value of a server list.
pub open spec fn servers_view(v: Seq<Server>) -> Seq<ServerView> {
    v.map_values(|s: Server| s@)
}

pub struct SpecificationView {
    pub methods: Seq<Seq<char>>,
    pub paths: Seq<Seq<char>>,
    pub hostnames: Seq<Seq<char>>,
}

pub struct APIDefinitionView {
    pub api_id: Seq<char>,
    pub api_name: Seq<char>,
    pub api_version: Seq<char>,
    pub api_desc: Seq<char>,
    pub specification: SpecificationView,
    pub backend_response_timeout: u64,
    pub origin_id: Seq<char>,
}

pub struct ServerView {
    pub hostname: Seq<char>,
    pub port: u16,
    pub secure: bool,
    pub verify_cert: bool,
}

pub struct OriginSpecificationView {
    pub rate_limiter: RateLimiterConfig,
    pub servers: Seq<ServerView>,
}

pub struct OriginView {
    pub origin_id: Seq<char>,
    pub origin_name: Seq<char>,
    pub origin_desc: Seq<char>,
    pub specification: OriginSpecificationView,
}

impl View for APISpecification {
    type V = SpecificationView;

    open spec fn view(&self) -> SpecificationView {
        SpecificationView {
            methods: strings_view(self.methods@),
            paths: strings_view(self.paths@),
            hostnames: strings_view(self.hostnames@),
        }
    }
}

impl View for APIDefinition {
    type V = APIDefinitionView;

    open spec fn view(&self) -> APIDefinitionView {
        APIDefinitionView {
            api_id: self.api_id@,
            api_name: self.api_name@,
            api_version: self.api_version@,
            api_desc: self.api_desc@,
            specification: self.specification@,
            backend_response_timeout: self.backend_response_timeout,
            origin_id: self.origin_id@,
        }
    }
}

impl View for Server {
    type V = ServerView;

    open spec fn view(&self) -> ServerView {
        ServerView {
            hostname: self.hostname@,
            port: self.port,
            secure: self.secure,
            verify_cert: self.verify_cert,
        }
    }
}

impl View for OriginSpecification {
    type V = OriginSpecificationView;

    open spec fn view(&self) -> OriginSpecificationView {
        OriginSpecificationView {
            rate_limiter: self.rate_limiter,
            servers: servers_view(self.servers@),
        }
    }
}

impl View for Origin {
    type V = OriginView;

    open spec fn view(&self) -> OriginView {
        OriginView {
            origin_id: self.origin_id@,
            origin_name: self.origin_name@,
            origin_desc: self.origin_desc@,
            specification: self.specification@,
        }
    }
}

/// Copies a list of strings element by element.
pub fn clone_strings(v: &Vec<String>) -> (r: Vec<String>)
    ensures
        r@ == v@,
{
    let mut r: Vec<String> = Vec::new();
    let mut i: usize = 0;
    while i < v.len()
        invariant
            i <= v.len(),
            r@ == v@.subrange(0, i as int),
        decreases v.len() - i,
    {
        r.push(v[i].clone());
        i += 1;
    }
    assert(r@ =~= v@);
    r
}

impl Clone for APISpecification {
    fn clone(&self) -> (r: Self)
        ensures
            r@ == self@,
    {
        APISpecification {
            methods: clone_strings(&self.methods),
            paths: clone_strings(&self.paths),
            hostnames: clone_strings(&self.hostnames),
        }
    }
}

impl Clone for APIDefinition {
    fn clone(&self) -> (r: Self)
        ensures
            r@ == self@,
    {
        APIDefinition {
            api_id: self.api_id.clone(),
            api_name: self.api_name.clone(),
            api_version: self.api_version.clone(),
            api_desc: self.api_desc.clone(),
            specification: self.specification.clone(),
            backend_response_timeout: self.backend_response_timeout,
            origin_id: self.origin_id.clone(),
        }
    }
}

impl Clone for Server {
    fn clone(&self) -> (r: Self)
        ensures
            r@ == self@,
    {
        Server {
            hostname: self.hostname.clone(),
            port: self.port,
            secure: self.secure,
            verify_cert: self.verify_cert,
        }
    }
}

/// Copies a server list element by element.
pub fn clone_servers(v: &Vec<Server>) -> (r: Vec<Server>)
    ensures
        servers_view(r@) == servers_view(v@),
{
    let mut r: Vec<Server> = Vec::new();
    let mut i: usize = 0;
    while i < v.len()
        invariant
            i <= v.len(),
            r@.len() == i,
            forall|k: int| 0 <= k < i ==> r@[k]@ == v@[k]@,
        decreases v.len() - i,
    {
        r.push(v[i].clone());
        i += 1;
    }
    assert(servers_view(r@) =~= servers_view(v@));
    r
}

impl Clone for OriginSpecification {
    fn clone(&self) -> (r: Self)
        ensures
            r@ == self@,
    {
        OriginSpecification {
            rate_limiter: self.rate_limiter,
            servers: clone_servers(&self.servers),
        }
    }
}

impl Clone for Origin {
    fn clone(&self) -> (r: Self)
        ensures
            r@ == self@,
    {
        Origin {
            origin_id: self.origin_id.clone(),
            origin_name: self.origin_name.clone(),
            origin_desc: self.origin_desc.clone(),
            specification: self.specification.clone(),
        }
    }
}

impl APIDefinition {
    /// The id of the origin that serves this API.
    pub fn origin_id(&self) -> (r: String)
        ensures
            r@ == self.origin_id@,
    {
        self.origin_id.clone()
    }
}

impl Origin {
    /// Whether this origin carries the given id.
    pub fn has_id(&self, origin_id: &String) -> (r: bool)
        ensures
            r == (self.origin_id@ == origin_id@),
    {
        self.origin_id.eq(origin_id)
    }
}

} // verus!
