//! The SOCKS5 front end: the server's configuration, the reply it sends, and
//! the state machine of one client connection.

use vstd::prelude::*;
use vstd::slice::{slice_subrange, slice_to_vec};
use vstd::utf8::{decode_utf8, valid_utf8};
use crate::addr::{be_value, port_from_octets, IpAddress, SocketAddress};
use crate::error::Error;
use crate::subnet::{
    get_rand_ipv4_socket_addr, get_rand_ipv6_socket_addr, in_ipv4_pool, in_ipv6_pool, Ipv4Subnet,
    Ipv6Subnet,
};
use crate::text::{host_port, host_port_text, string_from_utf8};

verus! {

/// The protocol version that the server speaks.
pub const SOCKS_VERSION: u8 = 0x05;

/// The value of the reserved octet of a reply.
pub const RESERVED: u8 = 0x00;

/// The method "no authentication required".
pub const NO_AUTHENTICATION: u8 = 0x00;

/// The method octet that tells the client that none of its methods is
/// acceptable.
pub const NO_ACCEPTABLE_METHOD: u8 = 0xFF;

/// Address type of an IPv4 address: four octets.
pub const ADDRESS_IPV4: u8 = 0x01;

/// Address type of a domain name: a length octet and that many octets.
pub const ADDRESS_DOMAIN: u8 = 0x03;

/// Address type of an IPv6 address: sixteen octets.
pub const ADDRESS_IPV6: u8 = 0x04;

/// The SOCKS5 server: where it listens, and the pools from which it draws
/// the egress address of each outbound connection.
#[derive(Debug, Clone)]
pub struct Socks5Server {
    addr: SocketAddress,
    ipv6_subnets: Vec<Ipv6Subnet>,
    ipv4_subnets: Vec<Ipv4Subnet>,
}

impl Socks5Server {
    /// The address on which the server listens.
    pub closed spec fn addr(&self) -> SocketAddress {
        self.addr
    }

    /// The IPv4 pool.
    pub closed spec fn ipv4_subnets(&self) -> Seq<Ipv4Subnet> {
        self.ipv4_subnets@
    }

    /// The IPv6 pool.
    pub closed spec fn ipv6_subnets(&self) -> Seq<Ipv6Subnet> {
        self.ipv6_subnets@
    }

    /// A server on `addr` with both pools empty.
    pub fn new(addr: SocketAddress) -> (server: Self)
        ensures
            server.addr() == addr,
            server.ipv4_subnets() == Seq::<Ipv4Subnet>::empty(),
            server.ipv6_subnets() == Seq::<Ipv6Subnet>::empty(),
    {
        Self { addr, ipv4_subnets: vec![], ipv6_subnets: vec![] }
    }

    /// The same server with `ipv4_subnets` as its IPv4 pool.
    pub fn with_ipv4_subnets(self, ipv4_subnets: Vec<Ipv4Subnet>) -> (server: Self)
        ensures
            server.addr() == self.addr(),
            server.ipv4_subnets() == ipv4_subnets@,
            server.ipv6_subnets() == self.ipv6_subnets(),
    {
        let mut server = self;
        server.ipv4_subnets = ipv4_subnets;
        server
    }

    /// The same server with `ipv6_subnets` as its IPv6 pool.
    pub fn with_ipv6_subnets(self, ipv6_subnets: Vec<Ipv6Subnet>) -> (server: Self)
        ensures
            server.addr() == self.addr(),
            server.ipv4_subnets() == self.ipv4_subnets(),
            server.ipv6_subnets() == ipv6_subnets@,
    {
        let mut server = self;
        server.ipv6_subnets = ipv6_subnets;
        server
    }

    /// The address on which the server listens.
    pub fn listen_addr(&self) -> (addr: SocketAddress)
        ensures
            addr == self.addr(),
    {
        self.addr
    }
}

/// The status that a reply reports to the client.
#[derive(Debug, Clone, Copy, PartialEq, Eq, Structural)]
pub enum ResponseCode {
    Success,
}

impl ResponseCode {
    /// The octet that stands for the status on the wire.
    pub open spec fn octet(self) -> u8 {
        match self {
            ResponseCode::Success => 0x00,
        }
    }

    /// The octet that stands for the status on the wire.
    pub fn code(self) -> (octet: u8)
        ensures
            octet == self.octet(),
    {
        match self {
            ResponseCode::Success => 0x00,
        }
    }
}

/// The ten octets of a reply with `status`: version, status, the reserved
/// octet, the address type IPv4, and a bind address and port of zeros.
pub open spec fn reply_octets(status: ResponseCode) -> Seq<u8> {
    seq![SOCKS_VERSION, status.octet(), RESERVED, ADDRESS_IPV4, 0u8, 0u8, 0u8, 0u8, 0u8, 0u8]
}

/// The reply to a request. Its bind address and port are always zero, not
/// the address that the outbound socket was bound to.
pub struct SocksReply {
    pub buf: [u8; 10],
}

impl SocksReply {
    /// The reply that reports `status`.
    pub fn new(status: ResponseCode) -> (reply: Self)
        ensures
            reply.buf@ == reply_octets(status),
    {
        let buf = [SOCKS_VERSION, status.code(), RESERVED, ADDRESS_IPV4, 0, 0, 0, 0, 0, 0];
        assert(buf@ =~= reply_octets(status));
        Self { buf }
    }

    /// The octets of the reply, as they go on the wire.
    pub fn to_vec(&self) -> (octets: Vec<u8>)
        ensures
            octets@ == self.buf@,
    {
        let mut octets: Vec<u8> = Vec::new();
        let mut i: usize = 0;
        while i < 10
            invariant
                i <= 10,
                octets@ == self.buf@.take(i as int),
            decreases 10 - i,
        {
            octets.push(self.buf[i]);
            assert(octets@ =~= self.buf@.take(i + 1));
            i += 1;
        }
        assert(self.buf@.take(10) =~= self.buf@);
        octets
    }
}

/// Which part of a request's address the session reads next.
#[derive(Debug, Clone, Copy, PartialEq, Eq, Structural)]
pub enum Resolving {
    /// An IPv4 address and a port: six octets.
    Ipv4,
    /// The length octet of a domain name.
    DomainLength,
    /// A domain name of `length` octets and a port.
    Domain { length: u8 },
    /// The answer of name resolution for the domain name.
    Lookup,
    /// An IPv6 address and a port: eighteen octets.
    Ipv6,
}

/// Where a connection stands in the protocol.
#[derive(Debug, Clone, Copy, PartialEq, Eq, Structural)]
pub enum Phase {
    /// Nothing was read yet; the greeting's version and method count come
    /// first.
    Start,
    /// The greeting announced `count` methods, which are read next.
    AwaitMethods { count: u8 },
    /// The method selection is being written.
    Replied,
    /// The four-octet header of the request is read next.
    AwaitRequest,
    /// The destination is read or looked up.
    Resolve(Resolving),
    /// The outbound socket is being bound to the egress address.
    Bind,
    /// The outbound socket is connecting to the destination.
    Connect,
    /// The success reply is being written.
    Reply,
    /// Bytes are relayed between client and destination.
    Tunneling,
    /// The connection is over.
    Closed,
}

/// The state of one client connection. The two streams of the connection
/// belong to the driver.
#[derive(Debug, Clone, PartialEq, Eq)]
pub struct Session {
    /// The phase of the protocol.
    pub phase: Phase,
    /// The method selected for the client, once selected.
    pub method: Option<u8>,
    /// The `host:port` target handed to name resolution, for a request by
    /// domain name.
    pub target: Option<String>,
    /// The destination of the outbound connection, once known.
    pub destination: Option<SocketAddress>,
    /// The address that the outbound socket is bound to, once drawn.
    pub egress: Option<SocketAddress>,
}

/// What the driver reports to the session: the outcome of the action that
/// the session asked for last.
#[derive(Debug)]
pub enum Event {
    /// The octets that were read from the client.
    Bytes(Vec<u8>),
    /// The octets were written to the client.
    Written,
    /// The addresses that name resolution returned, in its order.
    Resolved(Vec<SocketAddress>),
    /// The outbound socket is bound.
    Bound,
    /// The outbound socket is connected.
    Connected,
    /// The relay ended without an error.
    RelayFinished,
    /// The action failed.
    IoFailed(std::io::Error),
}

/// What the session asks its driver to do next.
#[derive(Debug)]
pub enum Action {
    /// Read exactly this many octets from the client.
    Read(usize),
    /// Write these octets to the client.
    Write(Vec<u8>),
    /// Resolve this `host:port` target.
    Resolve(String),
    /// Open an outbound socket of the address's family and bind it to the
    /// address.
    Bind(SocketAddress),
    /// Connect the outbound socket to the address.
    Connect(SocketAddress),
    /// Relay bytes between the client and the outbound socket, both ways.
    Relay,
    /// Close the connection: it is complete.
    Finish,
    /// Close the connection: it failed.
    Fail(Error),
}

/// The method that the server selects among those a client offers: "no
/// authentication" where it is offered, else the octet that refuses all.
pub open spec fn selected_method(methods: Seq<u8>) -> u8 {
    if methods.contains(NO_AUTHENTICATION) {
        NO_AUTHENTICATION
    } else {
        NO_ACCEPTABLE_METHOD
    }
}

/// Selects the method for a client that offers `methods`.
pub fn select_method(methods: &[u8]) -> (method: u8)
    ensures
        method == selected_method(methods@),
{
    let mut i: usize = 0;
    while i < methods.len()
        invariant
            i <= methods@.len(),
            !methods@.take(i as int).contains(NO_AUTHENTICATION),
        decreases methods@.len() - i,
    {
        if methods[i] == NO_AUTHENTICATION {
            assert(methods@[i as int] == NO_AUTHENTICATION);
            return NO_AUTHENTICATION;
        }
        proof {
            let before = methods@.take(i as int);
            let after = methods@.take(i + 1);
            assert forall|j: int| 0 <= j < after.len() implies after[j] != NO_AUTHENTICATION by {
                if j < i {
                    assert(before[j] == after[j]);
                    assert(before.contains(before[j]));
                }
            }
        }
        i += 1;
    }
    assert(methods@.take(i as int) =~= methods@);
    NO_ACCEPTABLE_METHOD
}

/// The IPv4 destination that six octets spell: four of address and two of
/// port, each in network order.
pub open spec fn ipv4_destination(octets: Seq<u8>) -> SocketAddress {
    SocketAddress {
        ip: IpAddress::V4(be_value(octets.subrange(0, 4)) as u32),
        port: be_value(octets.subrange(4, 6)) as u16,
    }
}

/// The IPv6 destination that eighteen octets spell: sixteen of address and
/// two of port, each in network order.
pub open spec fn ipv6_destination(octets: Seq<u8>) -> SocketAddress {
    SocketAddress {
        ip: IpAddress::V6(be_value(octets.subrange(0, 16)) as u128),
        port: be_value(octets.subrange(16, 18)) as u16,
    }
}

impl Session {
    /// A session that has read nothing, and the first action: to read the
    /// two octets of the greeting.
    pub fn start() -> (r: (Session, Action))
        ensures
            r.0 == Session::initial(),
            r.1 == Action::Read(2),
    {
        (
            Session { phase: Phase::Start, method: None, target: None, destination: None, egress: None },
            Action::Read(2),
        )
    }

    /// The session of a connection on which nothing was read.
    pub open spec fn initial() -> Session {
        Session { phase: Phase::Start, method: None, target: None, destination: None, egress: None }
    }

    /// The same session in another phase.
    pub open spec fn at(self, phase: Phase) -> Session {
        Session { phase, ..self }
    }

    /// How many octets the session reads in a phase, where the phase reads.
    pub open spec fn awaited(phase: Phase) -> Option<nat> {
        match phase {
            Phase::Start => Some(2nat),
            Phase::AwaitMethods { count } => Some(count as nat),
            Phase::AwaitRequest => Some(4nat),
            Phase::Resolve(Resolving::Ipv4) => Some(6nat),
            Phase::Resolve(Resolving::DomainLength) => Some(1nat),
            Phase::Resolve(Resolving::Domain { length }) => Some((length + 2) as nat),
            Phase::Resolve(Resolving::Ipv6) => Some(18nat),
            _ => None,
        }
    }

    /// Whether `event` is one that the session takes in its phase.
    pub open spec fn accepts(self, event: Event) -> bool {
        match event {
            Event::IoFailed(_) => self.phase != Phase::Closed,
            Event::Bytes(octets) => Self::awaited(self.phase) == Some(octets@.len()),
            Event::Written => (self.phase == Phase::Replied && self.method is Some) || self.phase
                == Phase::Reply,
            Event::Resolved(_) => self.phase == Phase::Resolve(Resolving::Lookup)
                && self.target is Some,
            Event::Bound => self.phase == Phase::Bind && self.destination is Some,
            Event::Connected => self.phase == Phase::Connect,
            Event::RelayFinished => self.phase == Phase::Tunneling,
        }
    }

    /// The step that binds: with the destination known, the session moves to
    /// `Bind` with an egress address from the pool of the destination's
    /// family, or closes because that pool is empty.
    pub open spec fn bind_spec(
        pre: Session,
        destination: SocketAddress,
        post: Session,
        action: Action,
        ipv4_pool: Seq<Ipv4Subnet>,
        ipv6_pool: Seq<Ipv6Subnet>,
    ) -> bool {
        let empty = match destination.ip {
            IpAddress::V4(_) => ipv4_pool.len() == 0,
            IpAddress::V6(_) => ipv6_pool.len() == 0,
        };
        &&& post.method == pre.method
        &&& post.target == pre.target
        &&& post.destination == Some(destination)
        &&& if empty {
            &&& post.phase == Phase::Closed
            &&& post.egress == pre.egress
            &&& action matches Action::Fail(Error::EmptyPool)
        } else {
            &&& post.phase == Phase::Bind
            &&& post.egress matches Some(egress)
            &&& action == Action::Bind(egress)
            &&& match destination.ip {
                IpAddress::V4(_) => in_ipv4_pool(ipv4_pool, egress),
                IpAddress::V6(_) => in_ipv6_pool(ipv6_pool, egress),
            }
        }
    }

    /// What a read of `octets` leads to, in each phase that reads.
    pub open spec fn bytes_spec(
        pre: Session,
        octets: Seq<u8>,
        post: Session,
        action: Action,
        ipv4_pool: Seq<Ipv4Subnet>,
        ipv6_pool: Seq<Ipv6Subnet>,
    ) -> bool {
        match pre.phase {
            Phase::Start => if octets[0] != SOCKS_VERSION {
                &&& post == pre.at(Phase::Closed)
                &&& action matches Action::Fail(Error::UnsupportedSocksVersion(version))
                &&& version == octets[0]
            } else {
                &&& post == pre.at(Phase::AwaitMethods { count: octets[1] })
                &&& action == Action::Read(octets[1] as usize)
            },
            Phase::AwaitMethods { count } => {
                &&& post == Session { phase: Phase::Replied, method: Some(selected_method(octets)), ..pre }
                &&& action matches Action::Write(reply)
                &&& reply@ == seq![SOCKS_VERSION, selected_method(octets)]
            },
            Phase::AwaitRequest => if octets[3] == ADDRESS_IPV4 {
                &&& post == pre.at(Phase::Resolve(Resolving::Ipv4))
                &&& action == Action::Read(6)
            } else if octets[3] == ADDRESS_DOMAIN {
                &&& post == pre.at(Phase::Resolve(Resolving::DomainLength))
                &&& action == Action::Read(1)
            } else if octets[3] == ADDRESS_IPV6 {
                &&& post == pre.at(Phase::Resolve(Resolving::Ipv6))
                &&& action == Action::Read(18)
            } else {
                &&& post == pre.at(Phase::Closed)
                &&& action matches Action::Fail(Error::UnsupportedSocksAddressType(kind))
                &&& kind == octets[3]
            },
            Phase::Resolve(Resolving::Ipv4) => Self::bind_spec(
                pre,
                ipv4_destination(octets),
                post,
                action,
                ipv4_pool,
                ipv6_pool,
            ),
            Phase::Resolve(Resolving::Ipv6) => Self::bind_spec(
                pre,
                ipv6_destination(octets),
                post,
                action,
                ipv4_pool,
                ipv6_pool,
            ),
            Phase::Resolve(Resolving::DomainLength) => {
                &&& post == pre.at(Phase::Resolve(Resolving::Domain { length: octets[0] }))
                &&& action == Action::Read((octets[0] + 2) as usize)
            },
            Phase::Resolve(Resolving::Domain { length }) => {
                let name = octets.subrange(0, length as int);
                let port = be_value(octets.subrange(length as int, length + 2)) as u16;
                if valid_utf8(name) {
                    &&& post.phase == Phase::Resolve(Resolving::Lookup)
                    &&& post.method == pre.method
                    &&& post.destination == pre.destination
                    &&& post.egress == pre.egress
                    &&& post.target matches Some(target)
                    &&& target@ == host_port_text(decode_utf8(name), port)
                    &&& action matches Action::Resolve(asked)
                    &&& asked@ == host_port_text(decode_utf8(name), port)
                } else {
                    &&& post == pre.at(Phase::Closed)
                    &&& action matches Action::Fail(Error::FromUtf8Error(_))
                }
            },
            _ => false,
        }
    }

    /// What a completed write leads to: after the method selection the
    /// request is read, unless no method was acceptable; after the success
    /// reply the relay begins.
    pub open spec fn written_spec(pre: Session, post: Session, action: Action) -> bool {
        if pre.phase == Phase::Replied {
            if pre.method == Some(NO_ACCEPTABLE_METHOD) {
                &&& post == pre.at(Phase::Closed)
                &&& action matches Action::Fail(Error::UnsupportedSocksMethod)
            } else {
                &&& post == pre.at(Phase::AwaitRequest)
                &&& action == Action::Read(4)
            }
        } else {
            &&& post == pre.at(Phase::Tunneling)
            &&& action == Action::Relay
        }
    }

    /// What the answer of name resolution leads to: the first address is the
    /// destination; with no address the connection fails, and the error
    /// names the target.
    pub open spec fn resolved_spec(
        pre: Session,
        addresses: Seq<SocketAddress>,
        post: Session,
        action: Action,
        ipv4_pool: Seq<Ipv4Subnet>,
        ipv6_pool: Seq<Ipv6Subnet>,
    ) -> bool {
        if addresses.len() == 0 {
            &&& post == pre.at(Phase::Closed)
            &&& action matches Action::Fail(Error::InvalidDomainName(name))
            &&& pre.target matches Some(target)
            &&& name@ == target@
        } else {
            Self::bind_spec(pre, addresses[0], post, action, ipv4_pool, ipv6_pool)
        }
    }

    /// The step of a session: what an accepted event makes of the session
    /// `pre`, and what the session then asks for. Everything is determined
    /// but the egress address, which is some address of the pool that
    /// matches the destination.
    pub open spec fn step_spec(
        pre: Session,
        event: Event,
        post: Session,
        action: Action,
        ipv4_pool: Seq<Ipv4Subnet>,
        ipv6_pool: Seq<Ipv6Subnet>,
    ) -> bool {
        match event {
            Event::IoFailed(error) => {
                &&& post == pre.at(Phase::Closed)
                &&& action matches Action::Fail(Error::StdError(cause))
                &&& cause == error
            },
            Event::Bytes(octets) => Self::bytes_spec(pre, octets@, post, action, ipv4_pool, ipv6_pool),
            Event::Written => Self::written_spec(pre, post, action),
            Event::Resolved(addresses) => Self::resolved_spec(
                pre,
                addresses@,
                post,
                action,
                ipv4_pool,
                ipv6_pool,
            ),
            Event::Bound => {
                &&& post == pre.at(Phase::Connect)
                &&& pre.destination matches Some(destination)
                &&& action == Action::Connect(destination)
            },
            Event::Connected => {
                &&& post == pre.at(Phase::Reply)
                &&& action matches Action::Write(reply)
                &&& reply@ == reply_octets(ResponseCode::Success)
            },
            Event::RelayFinished => {
                &&& post == pre.at(Phase::Closed)
                &&& action == Action::Finish
            },
        }
    }

    /// Records the destination and the outcome of the draw of an egress
    /// address: with an address the session moves to `Bind` and asks for the
    /// socket to be bound to it, with an error it closes and fails with that
    /// error.
    pub fn bind_to(&mut self, destination: SocketAddress, egress: Result<SocketAddress, Error>) -> (action: Action)
        ensures
            final(self).method == old(self).method,
            final(self).target == old(self).target,
            final(self).destination == Some(destination),
            match egress {
                Ok(address) => {
                    &&& final(self).phase == Phase::Bind
                    &&& final(self).egress == Some(address)
                    &&& action == Action::Bind(address)
                },
                Err(error) => {
                    &&& final(self).phase == Phase::Closed
                    &&& final(self).egress == old(self).egress
                    &&& action == Action::Fail(error)
                },
            },
    {
        self.destination = Some(destination);
        match egress {
            Ok(address) => {
                self.phase = Phase::Bind;
                self.egress = Some(address);
                Action::Bind(address)
            },
            Err(error) => {
                self.phase = Phase::Closed;
                Action::Fail(error)
            },
        }
    }
}

impl Session {
    /// Whether the session's fields fit its phase: a method is selected
    /// from the reply on and is "no authentication" past it, a lookup has its
    /// target, and from `Bind` to `Tunneling` the destination is known and
    /// the egress address lies in the pool of the destination's family.
    pub open spec fn wf(self, ipv4_pool: Seq<Ipv4Subnet>, ipv6_pool: Seq<Ipv6Subnet>) -> bool {
        &&& self.phase == Phase::Replied ==> self.method == Some(NO_AUTHENTICATION) || self.method
            == Some(NO_ACCEPTABLE_METHOD)
        &&& self.phase == Phase::AwaitRequest || self.phase is Resolve || self.connecting()
            ==> self.method == Some(NO_AUTHENTICATION)
        &&& self.phase == Phase::Resolve(Resolving::Lookup) ==> self.target is Some
        &&& self.connecting() ==> {
            &&& self.destination matches Some(destination)
            &&& self.egress matches Some(egress)
            &&& match destination.ip {
                IpAddress::V4(_) => in_ipv4_pool(ipv4_pool, egress),
                IpAddress::V6(_) => in_ipv6_pool(ipv6_pool, egress),
            }
        }
    }

    /// Whether the session is in one of the phases that deal with the
    /// outbound socket.
    pub open spec fn connecting(self) -> bool {
        self.phase == Phase::Bind || self.phase == Phase::Connect || self.phase == Phase::Reply
            || self.phase == Phase::Tunneling
    }

    /// A session that has read nothing is well-formed.
    pub proof fn lemma_initial_wf(ipv4_pool: Seq<Ipv4Subnet>, ipv6_pool: Seq<Ipv6Subnet>)
        ensures
            Session::initial().wf(ipv4_pool, ipv6_pool),
    {
    }

    /// Every step keeps a session well-formed.
    pub proof fn lemma_step_preserves_wf(
        pre: Session,
        event: Event,
        post: Session,
        action: Action,
        ipv4_pool: Seq<Ipv4Subnet>,
        ipv6_pool: Seq<Ipv6Subnet>,
    )
        requires
            pre.wf(ipv4_pool, ipv6_pool),
            pre.accepts(event),
            Session::step_spec(pre, event, post, action, ipv4_pool, ipv6_pool),
        ensures
            post.wf(ipv4_pool, ipv6_pool),
    {
    }

    /// How far a phase is along the protocol.
    pub open spec fn rank(phase: Phase) -> nat {
        match phase {
            Phase::Start => 0,
            Phase::AwaitMethods { .. } => 1,
            Phase::Replied => 2,
            Phase::AwaitRequest => 3,
            Phase::Resolve(Resolving::Ipv4) => 4,
            Phase::Resolve(Resolving::Ipv6) => 4,
            Phase::Resolve(Resolving::DomainLength) => 4,
            Phase::Resolve(Resolving::Domain { .. }) => 5,
            Phase::Resolve(Resolving::Lookup) => 6,
            Phase::Bind => 7,
            Phase::Connect => 8,
            Phase::Reply => 9,
            Phase::Tunneling => 10,
            Phase::Closed => 11,
        }
    }

    /// The phases of a connection come strictly in sequence: every step
    /// takes the session to a phase further along, so a connection has at
    /// most eleven steps.
    pub proof fn lemma_step_advances(
        pre: Session,
        event: Event,
        post: Session,
        action: Action,
        ipv4_pool: Seq<Ipv4Subnet>,
        ipv6_pool: Seq<Ipv6Subnet>,
    )
        requires
            pre.accepts(event),
            Session::step_spec(pre, event, post, action, ipv4_pool, ipv6_pool),
        ensures
            Session::rank(post.phase) > Session::rank(pre.phase),
            Session::rank(post.phase) <= 11,
    {
    }

    /// A closed session takes no event.
    pub proof fn lemma_closed_is_terminal(session: Session, event: Event)
        requires
            session.phase == Phase::Closed,
        ensures
            !session.accepts(event),
    {
    }

    /// A session relays only for a client that was granted "no
    /// authentication", towards a known destination, from an egress address
    /// of the pool of the destination's family.
    pub proof fn lemma_relay_is_bound(
        pre: Session,
        event: Event,
        post: Session,
        action: Action,
        ipv4_pool: Seq<Ipv4Subnet>,
        ipv6_pool: Seq<Ipv6Subnet>,
    )
        requires
            pre.wf(ipv4_pool, ipv6_pool),
            pre.accepts(event),
            Session::step_spec(pre, event, post, action, ipv4_pool, ipv6_pool),
            action == Action::Relay,
        ensures
            post.phase == Phase::Tunneling,
            post.method == Some(NO_AUTHENTICATION),
            post.destination matches Some(destination) && post.egress matches Some(egress)
                && match destination.ip {
                IpAddress::V4(_) => in_ipv4_pool(ipv4_pool, egress),
                IpAddress::V6(_) => in_ipv6_pool(ipv6_pool, egress),
            },
    {
    }
}

impl Socks5Server {
    /// Draws an egress address from the pool of the destination's family and
    /// moves the session to `Bind`, or closes it where that pool is empty.
    fn bind_destination(&self, session: &mut Session, destination: SocketAddress) -> (action:
        Action)
        ensures
            Session::bind_spec(
                *old(session),
                destination,
                *final(session),
                action,
                self.ipv4_subnets(),
                self.ipv6_subnets(),
            ),
    {
        let egress = match destination.ip {
            IpAddress::V4(_) => get_rand_ipv4_socket_addr(self.ipv4_subnets.as_slice()),
            IpAddress::V6(_) => get_rand_ipv6_socket_addr(self.ipv6_subnets.as_slice()),
        };
        session.bind_to(destination, egress)
    }

    /// The step for octets read from the client.
    fn on_bytes(&self, session: &mut Session, octets: Vec<u8>) -> (r: Option<Action>)
        ensures
            r is Some <==> Session::awaited(old(session).phase) == Some(octets@.len()),
            r is None ==> *final(session) == *old(session),
            r matches Some(action) ==> Session::bytes_spec(
                *old(session),
                octets@,
                *final(session),
                action,
                self.ipv4_subnets(),
                self.ipv6_subnets(),
            ),
    {
        let phase = session.phase;
        match phase {
            Phase::Start => {
                if octets.len() != 2 {
                    return None;
                }
                if octets[0] != SOCKS_VERSION {
                    session.phase = Phase::Closed;
                    return Some(Action::Fail(Error::UnsupportedSocksVersion(octets[0])));
                }
                session.phase = Phase::AwaitMethods { count: octets[1] };
                Some(Action::Read(octets[1] as usize))
            },
            Phase::AwaitMethods { count } => {
                if octets.len() != count as usize {
                    return None;
                }
                let method = select_method(octets.as_slice());
                session.phase = Phase::Replied;
                session.method = Some(method);
                Some(Action::Write(vec![SOCKS_VERSION, method]))
            },
            Phase::AwaitRequest => {
                if octets.len() != 4 {
                    return None;
                }
                let kind = octets[3];
                if kind == ADDRESS_IPV4 {
                    session.phase = Phase::Resolve(Resolving::Ipv4);
                    Some(Action::Read(6))
                } else if kind == ADDRESS_DOMAIN {
                    session.phase = Phase::Resolve(Resolving::DomainLength);
                    Some(Action::Read(1))
                } else if kind == ADDRESS_IPV6 {
                    session.phase = Phase::Resolve(Resolving::Ipv6);
                    Some(Action::Read(18))
                } else {
                    session.phase = Phase::Closed;
                    Some(Action::Fail(Error::UnsupportedSocksAddressType(kind)))
                }
            },
            Phase::Resolve(Resolving::Ipv4) => {
                if octets.len() != 6 {
                    return None;
                }
                let ip = IpAddress::from_v4_octets(slice_subrange(octets.as_slice(), 0, 4));
                let port = port_from_octets(slice_subrange(octets.as_slice(), 4, 6));
                let destination = SocketAddress { ip: ip.unwrap(), port: port.unwrap() };
                Some(self.bind_destination(session, destination))
            },
            Phase::Resolve(Resolving::Ipv6) => {
                if octets.len() != 18 {
                    return None;
                }
                let ip = IpAddress::from_v6_octets(slice_subrange(octets.as_slice(), 0, 16));
                let port = port_from_octets(slice_subrange(octets.as_slice(), 16, 18));
                let destination = SocketAddress { ip: ip.unwrap(), port: port.unwrap() };
                Some(self.bind_destination(session, destination))
            },
            Phase::Resolve(Resolving::DomainLength) => {
                if octets.len() != 1 {
                    return None;
                }
                let length = octets[0];
                session.phase = Phase::Resolve(Resolving::Domain { length });
                Some(Action::Read(length as usize + 2))
            },
            Phase::Resolve(Resolving::Domain { length }) => {
                let name_length = length as usize;
                if octets.len() != name_length + 2 {
                    return None;
                }
                let name = slice_subrange(octets.as_slice(), 0, name_length);
                let port = port_from_octets(
                    slice_subrange(octets.as_slice(), name_length, name_length + 2),
                ).unwrap();
                match string_from_utf8(slice_to_vec(name)) {
                    Err(error) => {
                        session.phase = Phase::Closed;
                        Some(Action::Fail(Error::FromUtf8Error(error)))
                    },
                    Ok(domain) => {
                        let target = host_port(domain.as_str(), port);
                        let asked = target.clone();
                        session.phase = Phase::Resolve(Resolving::Lookup);
                        session.target = Some(target);
                        Some(Action::Resolve(asked))
                    },
                }
            },
            _ => None,
        }
    }

    /// The step for a completed write.
    fn on_written(session: &mut Session) -> (r: Option<Action>)
        ensures
            r is Some <==> old(session).accepts(Event::Written),
            r is None ==> *final(session) == *old(session),
            r matches Some(action) ==> Session::written_spec(
                *old(session),
                *final(session),
                action,
            ),
    {
        let phase = session.phase;
        match phase {
            Phase::Replied => match session.method {
                None => None,
                Some(method) => {
                    if method == NO_ACCEPTABLE_METHOD {
                        session.phase = Phase::Closed;
                        Some(Action::Fail(Error::UnsupportedSocksMethod))
                    } else {
                        session.phase = Phase::AwaitRequest;
                        Some(Action::Read(4))
                    }
                },
            },
            Phase::Reply => {
                session.phase = Phase::Tunneling;
                Some(Action::Relay)
            },
            _ => None,
        }
    }

    /// The step for the answer of name resolution.
    fn on_resolved(&self, session: &mut Session, addresses: Vec<SocketAddress>) -> (r: Option<
        Action,
    >)
        ensures
            r is Some <==> old(session).accepts(Event::Resolved(addresses)),
            r is None ==> *final(session) == *old(session),
            r matches Some(action) ==> Session::resolved_spec(
                *old(session),
                addresses@,
                *final(session),
                action,
                self.ipv4_subnets(),
                self.ipv6_subnets(),
            ),
    {
        let phase = session.phase;
        match phase {
            Phase::Resolve(Resolving::Lookup) => {
                let name = match &session.target {
                    None => {
                        return None;
                    },
                    Some(target) => target.clone(),
                };
                if addresses.len() == 0 {
                    session.phase = Phase::Closed;
                    Some(Action::Fail(Error::InvalidDomainName(name)))
                } else {
                    Some(self.bind_destination(session, addresses[0]))
                }
            },
            _ => None,
        }
    }

    /// Advances a session by one event. The event is taken only if it is
    /// what the session's phase waits for; otherwise the session stays as it
    /// is and nothing is asked of the driver.
    pub fn step(&self, session: &mut Session, event: Event) -> (r: Option<Action>)
        ensures
            r is Some <==> old(session).accepts(event),
            r is None ==> *final(session) == *old(session),
            r matches Some(action) ==> Session::step_spec(
                *old(session),
                event,
                *final(session),
                action,
                self.ipv4_subnets(),
                self.ipv6_subnets(),
            ),
    {
        let phase = session.phase;
        match event {
            Event::IoFailed(error) => {
                if phase == Phase::Closed {
                    return None;
                }
                session.phase = Phase::Closed;
                Some(Action::Fail(Error::StdError(error)))
            },
            Event::Bytes(octets) => self.on_bytes(session, octets),
            Event::Written => Self::on_written(session),
            Event::Resolved(addresses) => self.on_resolved(session, addresses),
            Event::Bound => {
                if phase != Phase::Bind {
                    return None;
                }
                match session.destination {
                    None => None,
                    Some(destination) => {
                        session.phase = Phase::Connect;
                        Some(Action::Connect(destination))
                    },
                }
            },
            Event::Connected => {
                if phase != Phase::Connect {
                    return None;
                }
                session.phase = Phase::Reply;
                Some(Action::Write(SocksReply::new(ResponseCode::Success).to_vec()))
            },
            Event::RelayFinished => {
                if phase != Phase::Tunneling {
                    return None;
                }
                session.phase = Phase::Closed;
                Some(Action::Finish)
            },
        }
    }
}

} // verus!
