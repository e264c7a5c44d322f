//! The HTTP front end: the server's configuration and the state machine of
//! one request, which is either a CONNECT to be tunnelled or a request to be
//! forwarded.

use vstd::prelude::*;
use vstd::string::StringExecFns;
use crate::addr::{IpAddress, SocketAddress, IPV4_LOOPBACK, IPV6_LOOPBACK};
use crate::error::Error;
use crate::subnet::{
    get_rand_ipv4_socket_addr, get_rand_ipv6_socket_addr, in_ipv4_pool, in_ipv6_pool,
    ipv4_pool_contains, ipv6_pool_contains, Ipv4Subnet, Ipv6Subnet,
};

verus! {

/// The status of the response to a request that the proxy cannot serve.
pub const BAD_REQUEST: u16 = 400;

/// The HTTP server: where it listens, and the pools from which it draws the
/// egress address of each outbound connection.
#[derive(Clone)]
pub struct HttpServer {
    addr: SocketAddress,
    ipv6_subnets: Vec<Ipv6Subnet>,
    ipv4_subnets: Vec<Ipv4Subnet>,
}

/// Whether a request is tunnelled or forwarded.
#[derive(Debug, Clone, Copy, PartialEq, Eq, Structural)]
pub enum Route {
    /// The request asks for a tunnel.
    Connect,
    /// The request is sent on to its destination.
    Forward,
}

/// Where the handling of a request stands.
#[derive(Debug, Clone, Copy, PartialEq, Eq, Structural)]
pub enum ExchangePhase {
    /// A CONNECT was accepted; the raw stream of the client is awaited.
    Upgrading,
    /// The target of a CONNECT is being resolved.
    Resolving,
    /// An outbound connection to one candidate is being tried.
    Attempting,
    /// Bytes are relayed between client and destination.
    Tunneling,
    /// The host of a request to forward is being resolved.
    ResolvingHost,
    /// The request is with the outbound client.
    Forwarding,
    /// The request is dealt with.
    Closed,
}

/// The state of one request.
#[derive(Debug, Clone, PartialEq, Eq)]
pub struct Exchange {
    /// The phase of the handling.
    pub phase: ExchangePhase,
    /// The `host:port` target of a CONNECT.
    pub target: Option<String>,
    /// The addresses that the target resolved to, in the order of resolution.
    pub candidates: Vec<SocketAddress>,
    /// How many of the candidates have been passed.
    pub next: usize,
}

/// What the driver reports: the outcome of the action asked for last.
#[derive(Debug)]
pub enum HttpEvent {
    /// The raw stream of the client is at hand.
    Upgraded,
    /// The addresses that name resolution returned, in its order.
    Resolved(Vec<SocketAddress>),
    /// Name resolution failed.
    ResolveFailed,
    /// The outbound socket could not be bound or connected.
    AttemptFailed,
    /// The outbound socket is connected.
    Connected,
    /// The relay ended without an error.
    RelayFinished,
    /// The destination answered, and its response went to the client.
    Responded,
    /// The outbound client could not complete the request.
    UpstreamFailed,
    /// A transport operation failed.
    IoFailed(std::io::Error),
}

/// What the exchange asks its driver to do next.
#[derive(Debug)]
pub enum HttpAction {
    /// Answer the client with this status and body; the request is over.
    Respond { status: u16, body: String },
    /// Answer the CONNECT with an empty success response and take over the
    /// raw stream.
    Upgrade,
    /// Resolve this `host:port` target.
    Resolve(String),
    /// Open an outbound socket of the candidate's family, bind it to `bind`
    /// and connect it to `candidate`.
    Attempt { candidate: SocketAddress, bind: SocketAddress },
    /// Relay bytes between the client and the outbound socket, both ways.
    Relay,
    /// Resolve this host.
    ResolveHost(String),
    /// Send the request through a client whose local address is `local`, and
    /// hand its response to the caller.
    Forward { local: IpAddress },
    /// Nothing is left to do.
    Finish,
    /// The request failed.
    Fail(Error),
}

/// The loopback address of a family.
pub open spec fn loopback(ipv4: bool) -> IpAddress {
    if ipv4 {
        IpAddress::V4(IPV4_LOOPBACK)
    } else {
        IpAddress::V6(IPV6_LOOPBACK)
    }
}

/// The local address of a request whose destination is not known: the IPv6
/// loopback address where an IPv6 pool is configured, else the IPv4 one.
pub open spec fn fallback_bind(ipv6_pool: Seq<Ipv6Subnet>) -> IpAddress {
    loopback(ipv6_pool.len() == 0)
}

/// Whether `bind` may be the local address of a forwarded request whose
/// host resolved to `first` before all others: an address of the pool of
/// that record's family, or the loopback address of the family where that
/// pool is empty; with no record, the fallback address.
pub open spec fn forward_bind_spec(
    first: Option<SocketAddress>,
    bind: IpAddress,
    ipv4_pool: Seq<Ipv4Subnet>,
    ipv6_pool: Seq<Ipv6Subnet>,
) -> bool {
    match first {
        None => bind == fallback_bind(ipv6_pool),
        Some(record) => match record.ip {
            IpAddress::V4(_) => if ipv4_pool.len() == 0 {
                bind == loopback(true)
            } else {
                bind matches IpAddress::V4(address) && ipv4_pool_contains(ipv4_pool, address)
            },
            IpAddress::V6(_) => if ipv6_pool.len() == 0 {
                bind == loopback(false)
            } else {
                bind matches IpAddress::V6(address) && ipv6_pool_contains(ipv6_pool, address)
            },
        },
    }
}

/// Whether a pool is configured for the family of `candidate`.
pub open spec fn usable(
    candidate: SocketAddress,
    ipv4_pool: Seq<Ipv4Subnet>,
    ipv6_pool: Seq<Ipv6Subnet>,
) -> bool {
    match candidate.ip {
        IpAddress::V4(_) => ipv4_pool.len() > 0,
        IpAddress::V6(_) => ipv6_pool.len() > 0,
    }
}

/// The index of the first usable candidate at or after `from`, or the
/// number of candidates where none is left.
pub open spec fn first_usable(
    candidates: Seq<SocketAddress>,
    from: int,
    ipv4_pool: Seq<Ipv4Subnet>,
    ipv6_pool: Seq<Ipv6Subnet>,
) -> int
    decreases candidates.len() - from,
{
    if from < 0 || from >= candidates.len() {
        candidates.len() as int
    } else if usable(candidates[from], ipv4_pool, ipv6_pool) {
        from
    } else {
        first_usable(candidates, from + 1, ipv4_pool, ipv6_pool)
    }
}

/// The local address for a family from the outcome of a draw: the address
/// drawn, or the loopback address of the family where the draw failed.
pub fn bind_or_loopback(ipv4: bool, draw: Result<SocketAddress, Error>) -> (bind: IpAddress)
    ensures
        bind == match draw {
            Ok(address) => address.ip,
            Err(_) => loopback(ipv4),
        },
{
    match draw {
        Ok(address) => address.ip,
        Err(_) => if ipv4 {
            IpAddress::V4(IPV4_LOOPBACK)
        } else {
            IpAddress::V6(IPV6_LOOPBACK)
        },
    }
}

/// Whether a request method asks for a tunnel.
fn is_connect(method: &str) -> (r: bool)
    ensures
        r == (method@ == "CONNECT"@),
{
    let given = String::from_str(method);
    let connect = String::from_str("CONNECT");
    given == connect
}

impl Exchange {
    /// The same exchange in another phase.
    pub open spec fn at(self, phase: ExchangePhase) -> Exchange {
        Exchange { phase, ..self }
    }

    /// Whether `event` is one that the exchange takes in its phase.
    pub open spec fn accepts(self, event: HttpEvent) -> bool {
        match event {
            HttpEvent::IoFailed(_) => self.phase != ExchangePhase::Closed,
            HttpEvent::Upgraded => self.phase == ExchangePhase::Upgrading && self.target is Some,
            HttpEvent::Resolved(_) => self.phase == ExchangePhase::Resolving || self.phase
                == ExchangePhase::ResolvingHost,
            HttpEvent::ResolveFailed => self.phase == ExchangePhase::Resolving || self.phase
                == ExchangePhase::ResolvingHost,
            HttpEvent::AttemptFailed => self.phase == ExchangePhase::Attempting,
            HttpEvent::Connected => self.phase == ExchangePhase::Attempting,
            HttpEvent::RelayFinished => self.phase == ExchangePhase::Tunneling,
            HttpEvent::Responded => self.phase == ExchangePhase::Forwarding,
            HttpEvent::UpstreamFailed => self.phase == ExchangePhase::Forwarding,
        }
    }

    /// The step that tries the next candidate: the first one left for whose
    /// family a pool is configured, with an egress address from that pool.
    /// With none left the exchange ends without a tunnel.
    pub open spec fn attempt_spec(
        candidates: Seq<SocketAddress>,
        from: int,
        target: Option<String>,
        post: Exchange,
        action: HttpAction,
        ipv4_pool: Seq<Ipv4Subnet>,
        ipv6_pool: Seq<Ipv6Subnet>,
    ) -> bool {
        let found = first_usable(candidates, from, ipv4_pool, ipv6_pool);
        &&& post.target == target
        &&& post.candidates@ == candidates
        &&& if found >= candidates.len() {
            &&& post.phase == ExchangePhase::Closed
            &&& post.next == candidates.len()
            &&& action == HttpAction::Finish
        } else {
            &&& post.phase == ExchangePhase::Attempting
            &&& post.next == found + 1
            &&& action matches HttpAction::Attempt { candidate, bind }
            &&& candidate == candidates[found]
            &&& match candidate.ip {
                IpAddress::V4(_) => in_ipv4_pool(ipv4_pool, bind),
                IpAddress::V6(_) => in_ipv6_pool(ipv6_pool, bind),
            }
        }
    }

    /// The step of an exchange: what an accepted event makes of the exchange
    /// `pre`, and what the exchange then asks for. Everything is determined
    /// but an address drawn from a pool, which is some address of that pool.
    pub open spec fn step_spec(
        pre: Exchange,
        event: HttpEvent,
        post: Exchange,
        action: HttpAction,
        ipv4_pool: Seq<Ipv4Subnet>,
        ipv6_pool: Seq<Ipv6Subnet>,
    ) -> bool {
        match event {
            HttpEvent::IoFailed(error) => {
                &&& post == pre.at(ExchangePhase::Closed)
                &&& action matches HttpAction::Fail(Error::StdError(cause))
                &&& cause == error
            },
            HttpEvent::Upgraded => {
                &&& post == pre.at(ExchangePhase::Resolving)
                &&& action matches HttpAction::Resolve(asked)
                &&& pre.target matches Some(target)
                &&& asked@ == target@
            },
            HttpEvent::Resolved(addresses) => if pre.phase == ExchangePhase::Resolving {
                Self::attempt_spec(addresses@, 0, pre.target, post, action, ipv4_pool, ipv6_pool)
            } else {
                &&& post == pre.at(ExchangePhase::Forwarding)
                &&& action matches HttpAction::Forward { local }
                &&& forward_bind_spec(
                    if addresses@.len() == 0 {
                        None
                    } else {
                        Some(addresses@[0])
                    },
                    local,
                    ipv4_pool,
                    ipv6_pool,
                )
            },
            HttpEvent::ResolveFailed => if pre.phase == ExchangePhase::Resolving {
                &&& post == pre.at(ExchangePhase::Closed)
                &&& action == HttpAction::Finish
            } else {
                &&& post == pre.at(ExchangePhase::Forwarding)
                &&& action == (HttpAction::Forward { local: fallback_bind(ipv6_pool) })
            },
            HttpEvent::AttemptFailed => Self::attempt_spec(
                pre.candidates@,
                pre.next as int,
                pre.target,
                post,
                action,
                ipv4_pool,
                ipv6_pool,
            ),
            HttpEvent::Connected => {
                &&& post == pre.at(ExchangePhase::Tunneling)
                &&& action == HttpAction::Relay
            },
            HttpEvent::RelayFinished => {
                &&& post == pre.at(ExchangePhase::Closed)
                &&& action == HttpAction::Finish
            },
            HttpEvent::Responded => {
                &&& post == pre.at(ExchangePhase::Closed)
                &&& action == HttpAction::Finish
            },
            HttpEvent::UpstreamFailed => {
                &&& post == pre.at(ExchangePhase::Closed)
                &&& action matches HttpAction::Respond { status, body }
                &&& status == BAD_REQUEST
                &&& body@ == Seq::<char>::empty()
            },
        }
    }

    /// How a request begins. A CONNECT without an authority is refused, one
    /// with an authority is upgraded to a tunnel towards it. Any other
    /// request is forwarded: from the fallback address where it names no
    /// host, else after its host is resolved.
    pub open spec fn begin_spec(
        connect: bool,
        authority: Option<String>,
        host: Option<String>,
        post: Exchange,
        action: HttpAction,
        ipv6_pool: Seq<Ipv6Subnet>,
    ) -> bool {
        &&& post.candidates@ == Seq::<SocketAddress>::empty()
        &&& post.next == 0
        &&& if connect {
            match authority {
                None => {
                    &&& post.phase == ExchangePhase::Closed
                    &&& post.target is None
                    &&& action matches HttpAction::Respond { status, body }
                    &&& status == BAD_REQUEST
                    &&& body@ == "CONNECT must be to a socket address"@
                },
                Some(target) => {
                    &&& post.phase == ExchangePhase::Upgrading
                    &&& post.target == Some(target)
                    &&& action == HttpAction::Upgrade
                },
            }
        } else {
            &&& post.target is None
            &&& match host {
                None => {
                    &&& post.phase == ExchangePhase::Forwarding
                    &&& action == (HttpAction::Forward { local: fallback_bind(ipv6_pool) })
                },
                Some(name) => {
                    &&& post.phase == ExchangePhase::ResolvingHost
                    &&& action == HttpAction::ResolveHost(name)
                },
            }
        }
    }
}

/// `first_usable` is what its name says: it lies between `from` and the
/// number of candidates, no candidate from `from` up to it is usable, and
/// the candidate at it is usable where it is a candidate's index.
pub proof fn lemma_first_usable(
    candidates: Seq<SocketAddress>,
    from: int,
    ipv4_pool: Seq<Ipv4Subnet>,
    ipv6_pool: Seq<Ipv6Subnet>,
)
    requires
        0 <= from <= candidates.len(),
    ensures
        from <= first_usable(candidates, from, ipv4_pool, ipv6_pool) <= candidates.len(),
        first_usable(candidates, from, ipv4_pool, ipv6_pool) < candidates.len() ==> usable(
            candidates[first_usable(candidates, from, ipv4_pool, ipv6_pool)],
            ipv4_pool,
            ipv6_pool,
        ),
        forall|j: int|
            from <= j < first_usable(candidates, from, ipv4_pool, ipv6_pool) ==> !usable(
                #[trigger] candidates[j],
                ipv4_pool,
                ipv6_pool,
            ),
    decreases candidates.len() - from,
{
    if from < candidates.len() && !usable(candidates[from], ipv4_pool, ipv6_pool) {
        lemma_first_usable(candidates, from + 1, ipv4_pool, ipv6_pool);
    }
}

impl Exchange {
    /// Whether the exchange's fields fit its phase: the candidates passed
    /// are among the candidates, an attempt has passed at least one, and a
    /// CONNECT that awaits its stream has a target.
    pub open spec fn wf(self) -> bool {
        &&& self.next <= self.candidates@.len()
        &&& self.phase == ExchangePhase::Attempting ==> self.next >= 1
        &&& self.phase == ExchangePhase::Upgrading ==> self.target is Some
    }

    /// A request begins with a well-formed exchange.
    pub proof fn lemma_begin_wf(
        connect: bool,
        authority: Option<String>,
        host: Option<String>,
        post: Exchange,
        action: HttpAction,
        ipv6_pool: Seq<Ipv6Subnet>,
    )
        requires
            Exchange::begin_spec(connect, authority, host, post, action, ipv6_pool),
        ensures
            post.wf(),
    {
    }

    /// Every step keeps an exchange well-formed.
    pub proof fn lemma_step_preserves_wf(
        pre: Exchange,
        event: HttpEvent,
        post: Exchange,
        action: HttpAction,
        ipv4_pool: Seq<Ipv4Subnet>,
        ipv6_pool: Seq<Ipv6Subnet>,
    )
        requires
            pre.wf(),
            pre.accepts(event),
            Exchange::step_spec(pre, event, post, action, ipv4_pool, ipv6_pool),
        ensures
            post.wf(),
    {
        match event {
            HttpEvent::Resolved(addresses) => {
                lemma_first_usable(addresses@, 0, ipv4_pool, ipv6_pool);
            },
            HttpEvent::AttemptFailed => {
                lemma_first_usable(pre.candidates@, pre.next as int, ipv4_pool, ipv6_pool);
            },
            _ => {},
        }
    }

    /// A closed exchange takes no event.
    pub proof fn lemma_closed_is_terminal(exchange: Exchange, event: HttpEvent)
        requires
            exchange.phase == ExchangePhase::Closed,
        ensures
            !exchange.accepts(event),
    {
    }

    /// Candidates are tried in the order of resolution, each at most once:
    /// after a failed attempt the next one is made at a candidate behind all
    /// that were passed, and every candidate skipped on the way has no pool
    /// of its family.
    pub proof fn lemma_attempts_advance(
        pre: Exchange,
        post: Exchange,
        action: HttpAction,
        ipv4_pool: Seq<Ipv4Subnet>,
        ipv6_pool: Seq<Ipv6Subnet>,
    )
        requires
            pre.wf(),
            pre.accepts(HttpEvent::AttemptFailed),
            Exchange::step_spec(pre, HttpEvent::AttemptFailed, post, action, ipv4_pool, ipv6_pool),
            action is Attempt,
        ensures
            post.next > pre.next,
            action matches HttpAction::Attempt { candidate, bind } && candidate
                == pre.candidates@[post.next - 1],
            forall|j: int|
                pre.next <= j < post.next - 1 ==> !usable(
                    #[trigger] pre.candidates@[j],
                    ipv4_pool,
                    ipv6_pool,
                ),
    {
        lemma_first_usable(pre.candidates@, pre.next as int, ipv4_pool, ipv6_pool);
    }
}

impl HttpServer {
    /// The address on which the server listens.
    pub closed spec fn addr(&self) -> SocketAddress {
        self.addr
    }

    /// The IPv4 pool.
    pub closed spec fn ipv4_subnets(&self) -> Seq<Ipv4Subnet> {
        self.ipv4_subnets@
    }

    /// The IPv6 pool.
    pub closed spec fn ipv6_subnets(&self) -> Seq<Ipv6Subnet> {
        self.ipv6_subnets@
    }

    /// A server on `addr` with both pools empty.
    pub fn new(addr: SocketAddress) -> (server: Self)
        ensures
            server.addr() == addr,
            server.ipv4_subnets() == Seq::<Ipv4Subnet>::empty(),
            server.ipv6_subnets() == Seq::<Ipv6Subnet>::empty(),
    {
        Self { addr, ipv6_subnets: vec![], ipv4_subnets: vec![] }
    }

    /// The same server with `ipv6_subnets` as its IPv6 pool.
    pub fn with_ipv6_subnets(self, ipv6_subnets: Vec<Ipv6Subnet>) -> (server: Self)
        ensures
            server.addr() == self.addr(),
            server.ipv4_subnets() == self.ipv4_subnets(),
            server.ipv6_subnets() == ipv6_subnets@,
    {
        let mut server = self;
        server.ipv6_subnets = ipv6_subnets;
        server
    }

    /// The same server with `ipv4_subnets` as its IPv4 pool.
    pub fn with_ipv4_subnets(self, ipv4_subnets: Vec<Ipv4Subnet>) -> (server: Self)
        ensures
            server.addr() == self.addr(),
            server.ipv4_subnets() == ipv4_subnets@,
            server.ipv6_subnets() == self.ipv6_subnets(),
    {
        let mut server = self;
        server.ipv4_subnets = ipv4_subnets;
        server
    }

    /// The address on which the server listens.
    pub fn listen_addr(&self) -> (addr: SocketAddress)
        ensures
            addr == self.addr(),
    {
        self.addr
    }

    /// Whether a request with `method` is tunnelled or forwarded.
    pub fn route(method: &str) -> (route: Route)
        ensures
            route == if method@ == "CONNECT"@ {
                Route::Connect
            } else {
                Route::Forward
            },
    {
        if is_connect(method) {
            Route::Connect
        } else {
            Route::Forward
        }
    }

    /// Begins the handling of a request: a CONNECT is begun as a tunnel
    /// towards `authority`, any other method as a request forwarded to
    /// `host`.
    pub fn proxy(&self, method: &str, authority: Option<String>, host: Option<String>) -> (r: (
        Exchange,
        HttpAction,
    ))
        ensures
            Exchange::begin_spec(
                method@ == "CONNECT"@,
                authority,
                host,
                r.0,
                r.1,
                self.ipv6_subnets(),
            ),
    {
        match Self::route(method) {
            Route::Connect => self.process_connect(authority),
            Route::Forward => self.process_request(host),
        }
    }

    /// The local address of a request whose destination is not known.
    fn fallback(&self) -> (local: IpAddress)
        ensures
            local == fallback_bind(self.ipv6_subnets()),
    {
        if self.ipv6_subnets.len() == 0 {
            IpAddress::V4(IPV4_LOOPBACK)
        } else {
            IpAddress::V6(IPV6_LOOPBACK)
        }
    }

    /// Begins a CONNECT towards the authority of its target, or refuses it
    /// where the target has none.
    pub fn process_connect(&self, authority: Option<String>) -> (r: (Exchange, HttpAction))
        ensures
            Exchange::begin_spec(true, authority, None, r.0, r.1, self.ipv6_subnets()),
    {
        match authority {
            None => (
                Exchange { phase: ExchangePhase::Closed, target: None, candidates: vec![], next: 0 },
                HttpAction::Respond {
                    status: BAD_REQUEST,
                    body: String::from_str("CONNECT must be to a socket address"),
                },
            ),
            Some(target) => (
                Exchange {
                    phase: ExchangePhase::Upgrading,
                    target: Some(target),
                    candidates: vec![],
                    next: 0,
                },
                HttpAction::Upgrade,
            ),
        }
    }

    /// Begins the forwarding of a request to `host`, or from the fallback
    /// address where the request names no host.
    pub fn process_request(&self, host: Option<String>) -> (r: (Exchange, HttpAction))
        ensures
            Exchange::begin_spec(false, None, host, r.0, r.1, self.ipv6_subnets()),
    {
        match host {
            None => (
                Exchange {
                    phase: ExchangePhase::Forwarding,
                    target: None,
                    candidates: vec![],
                    next: 0,
                },
                HttpAction::Forward { local: self.fallback() },
            ),
            Some(name) => (
                Exchange {
                    phase: ExchangePhase::ResolvingHost,
                    target: None,
                    candidates: vec![],
                    next: 0,
                },
                HttpAction::ResolveHost(name),
            ),
        }
    }

    /// The local address of a forwarded request whose host resolved to
    /// `first` before all others.
    pub fn forward_bind(&self, first: Option<SocketAddress>) -> (local: IpAddress)
        ensures
            forward_bind_spec(first, local, self.ipv4_subnets(), self.ipv6_subnets()),
    {
        match first {
            None => self.fallback(),
            Some(record) => match record.ip {
                IpAddress::V4(_) => bind_or_loopback(
                    true,
                    get_rand_ipv4_socket_addr(self.ipv4_subnets.as_slice()),
                ),
                IpAddress::V6(_) => bind_or_loopback(
                    false,
                    get_rand_ipv6_socket_addr(self.ipv6_subnets.as_slice()),
                ),
            },
        }
    }

    /// Moves an exchange on to its next candidate, from index `from`.
    pub fn tunnel(&self, exchange: &mut Exchange, from: usize) -> (action: HttpAction)
        ensures
            Exchange::attempt_spec(
                old(exchange).candidates@,
                from as int,
                old(exchange).target,
                *final(exchange),
                action,
                self.ipv4_subnets(),
                self.ipv6_subnets(),
            ),
    {
        let count = exchange.candidates.len();
        let mut i: usize = from;
        while i < count
            invariant
                count == exchange.candidates@.len(),
                exchange.candidates@ == old(exchange).candidates@,
                exchange.target == old(exchange).target,
                from <= i,
                first_usable(
                    exchange.candidates@,
                    from as int,
                    self.ipv4_subnets(),
                    self.ipv6_subnets(),
                ) == first_usable(
                    exchange.candidates@,
                    i as int,
                    self.ipv4_subnets(),
                    self.ipv6_subnets(),
                ),
            decreases count - i,
        {
            let candidate = exchange.candidates[i];
            let draw = match candidate.ip {
                IpAddress::V4(_) => get_rand_ipv4_socket_addr(self.ipv4_subnets.as_slice()),
                IpAddress::V6(_) => get_rand_ipv6_socket_addr(self.ipv6_subnets.as_slice()),
            };
            match draw {
                Ok(bind) => {
                    exchange.phase = ExchangePhase::Attempting;
                    exchange.next = i + 1;
                    return HttpAction::Attempt { candidate, bind };
                },
                Err(_) => {},
            }
            i += 1;
        }
        exchange.phase = ExchangePhase::Closed;
        exchange.next = count;
        HttpAction::Finish
    }

    /// Advances an exchange by one event. The event is taken only if it is
    /// what the exchange's phase waits for; otherwise the exchange stays as
    /// it is and nothing is asked of the driver.
    pub fn step(&self, exchange: &mut Exchange, event: HttpEvent) -> (r: Option<HttpAction>)
        ensures
            r is Some <==> old(exchange).accepts(event),
            r is None ==> *final(exchange) == *old(exchange),
            r matches Some(action) ==> Exchange::step_spec(
                *old(exchange),
                event,
                *final(exchange),
                action,
                self.ipv4_subnets(),
                self.ipv6_subnets(),
            ),
    {
        let phase = exchange.phase;
        match event {
            HttpEvent::IoFailed(error) => {
                if phase == ExchangePhase::Closed {
                    return None;
                }
                exchange.phase = ExchangePhase::Closed;
                Some(HttpAction::Fail(Error::StdError(error)))
            },
            HttpEvent::Upgraded => {
                if phase != ExchangePhase::Upgrading {
                    return None;
                }
                let asked = match &exchange.target {
                    None => {
                        return None;
                    },
                    Some(target) => target.clone(),
                };
                exchange.phase = ExchangePhase::Resolving;
                Some(HttpAction::Resolve(asked))
            },
            HttpEvent::Resolved(addresses) => {
                if phase == ExchangePhase::Resolving {
                    exchange.candidates = addresses;
                    Some(self.tunnel(exchange, 0))
                } else if phase == ExchangePhase::ResolvingHost {
                    let first = if addresses.len() == 0 {
                        None
                    } else {
                        Some(addresses[0])
                    };
                    exchange.phase = ExchangePhase::Forwarding;
                    Some(HttpAction::Forward { local: self.forward_bind(first) })
                } else {
                    None
                }
            },
            HttpEvent::ResolveFailed => {
                if phase == ExchangePhase::Resolving {
                    exchange.phase = ExchangePhase::Closed;
                    Some(HttpAction::Finish)
                } else if phase == ExchangePhase::ResolvingHost {
                    exchange.phase = ExchangePhase::Forwarding;
                    Some(HttpAction::Forward { local: self.fallback() })
                } else {
                    None
                }
            },
            HttpEvent::AttemptFailed => {
                if phase != ExchangePhase::Attempting {
                    return None;
                }
                let from = exchange.next;
                Some(self.tunnel(exchange, from))
            },
            HttpEvent::Connected => {
                if phase != ExchangePhase::Attempting {
                    return None;
                }
                exchange.phase = ExchangePhase::Tunneling;
                Some(HttpAction::Relay)
            },
            HttpEvent::RelayFinished => {
                if phase != ExchangePhase::Tunneling {
                    return None;
                }
                exchange.phase = ExchangePhase::Closed;
                Some(HttpAction::Finish)
            },
            HttpEvent::Responded => {
                if phase != ExchangePhase::Forwarding {
                    return None;
                }
                exchange.phase = ExchangePhase::Closed;
                Some(HttpAction::Finish)
            },
            HttpEvent::UpstreamFailed => {
                if phase != ExchangePhase::Forwarding {
                    return None;
                }
                exchange.phase = ExchangePhase::Closed;
                Some(HttpAction::Respond { status: BAD_REQUEST, body: String::new() })
            },
        }
    }
}

} // verus!
