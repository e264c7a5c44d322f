use proxy_pool::addr::{IpAddress, SocketAddress, IPV4_LOOPBACK, IPV6_LOOPBACK};
use proxy_pool::error::Error;
use proxy_pool::http::{
    bind_or_loopback, Exchange, ExchangePhase, HttpAction, HttpEvent, HttpServer,
    Route, BAD_REQUEST,
};
use proxy_pool::subnet::{Ipv4Subnet, Ipv6Subnet};

fn listen() -> SocketAddress {
    SocketAddress { ip: IpAddress::V4(0), port: 8080 }
}

fn ipv4_pool() -> Vec<Ipv4Subnet> {
    vec![Ipv4Subnet::new(0x0a00_0000, 8).unwrap()]
}

fn ipv6_pool() -> Vec<Ipv6Subnet> {
    vec![Ipv6Subnet::new(0xfd00 << 112, 8).unwrap()]
}

fn dual() -> HttpServer {
    HttpServer::new(listen()).with_ipv4_subnets(ipv4_pool()).with_ipv6_subnets(ipv6_pool())
}

fn v4(ip: u32, port: u16) -> SocketAddress {
    SocketAddress { ip: IpAddress::V4(ip), port }
}

fn v6(ip: u128, port: u16) -> SocketAddress {
    SocketAddress { ip: IpAddress::V6(ip), port }
}

#[test]
fn only_connect_is_tunnelled() {
    assert_eq!(HttpServer::route("connect"), Route::Forward);
    assert_eq!(HttpServer::route(""), Route::Forward);
    assert_eq!(HttpServer::route("CONNECT "), Route::Forward);
    assert_eq!(HttpServer::route("CONNECT"), Route::Connect);
    assert_eq!(HttpServer::route("GET"), Route::Forward);
    assert_eq!(HttpServer::route("POST"), Route::Forward);
}

#[test]
fn connect_without_authority_is_a_bad_request() {
    let server = dual();
    let (exchange, action) = server.process_connect(None);
    match action {
        HttpAction::Respond { status, body } => {
            assert_eq!(status, 400);
            assert!(body.contains("CONNECT must be to a socket address"));
            assert_eq!(body, "CONNECT must be to a socket address");
        }
        other => panic!("unexpected action {:?}", other),
    }
    assert_eq!(exchange.phase, ExchangePhase::Closed);
    let (exchange, action) = server.proxy("CONNECT", None, Some("example.com".to_string()));
    assert!(matches!(action, HttpAction::Respond { status: 400, .. }));
    assert_eq!(exchange.phase, ExchangePhase::Closed);
    assert_eq!(BAD_REQUEST, 400);
}

#[test]
fn connect_is_upgraded_resolved_and_tunnelled() {
    let server = dual();
    let (mut exchange, action) =
        server.proxy("CONNECT", Some("example.com:443".to_string()), None);
    assert!(matches!(action, HttpAction::Upgrade));
    assert_eq!(exchange.phase, ExchangePhase::Upgrading);
    match server.step(&mut exchange, HttpEvent::Upgraded) {
        Some(HttpAction::Resolve(target)) => assert_eq!(target, "example.com:443"),
        other => panic!("unexpected action {:?}", other),
    }
    let candidates = vec![v4(0x5db8_d822, 443), v6(0x2001_0db8 << 96, 443)];
    match server.step(&mut exchange, HttpEvent::Resolved(candidates.clone())) {
        Some(HttpAction::Attempt { candidate, bind }) => {
            assert_eq!(candidate, candidates[0]);
            match bind.ip {
                IpAddress::V4(ip) => assert_eq!(ip >> 24, 10),
                IpAddress::V6(_) => panic!("an IPv4 candidate got an IPv6 egress address"),
            }
        }
        other => panic!("unexpected action {:?}", other),
    }
    assert_eq!(exchange.phase, ExchangePhase::Attempting);
    assert_eq!(exchange.next, 1);
    assert!(matches!(server.step(&mut exchange, HttpEvent::Connected), Some(HttpAction::Relay)));
    assert_eq!(exchange.phase, ExchangePhase::Tunneling);
    assert!(matches!(
        server.step(&mut exchange, HttpEvent::RelayFinished),
        Some(HttpAction::Finish)
    ));
    assert_eq!(exchange.phase, ExchangePhase::Closed);
}

#[test]
fn candidates_are_tried_in_order_until_one_connects() {
    let server = dual();
    let (mut exchange, _) = server.process_connect(Some("example.com:443".to_string()));
    server.step(&mut exchange, HttpEvent::Upgraded);
    let candidates = vec![v4(1, 443), v6(2, 443), v4(3, 443)];
    match server.step(&mut exchange, HttpEvent::Resolved(candidates.clone())) {
        Some(HttpAction::Attempt { candidate, .. }) => assert_eq!(candidate, candidates[0]),
        other => panic!("unexpected action {:?}", other),
    }
    match server.step(&mut exchange, HttpEvent::AttemptFailed) {
        Some(HttpAction::Attempt { candidate, bind }) => {
            assert_eq!(candidate, candidates[1]);
            assert!(!bind.ip.is_v4());
        }
        other => panic!("unexpected action {:?}", other),
    }
    assert_eq!(exchange.next, 2);
    match server.step(&mut exchange, HttpEvent::AttemptFailed) {
        Some(HttpAction::Attempt { candidate, bind }) => {
            assert_eq!(candidate, candidates[2]);
            assert!(bind.ip.is_v4());
        }
        other => panic!("unexpected action {:?}", other),
    }
    assert_eq!(exchange.next, 3);
    assert!(matches!(
        server.step(&mut exchange, HttpEvent::AttemptFailed),
        Some(HttpAction::Finish)
    ));
    assert_eq!(exchange.phase, ExchangePhase::Closed);
    assert_eq!(exchange.candidates, candidates);
}

#[test]
fn candidates_without_a_pool_of_their_family_are_passed_over() {
    let server = HttpServer::new(listen()).with_ipv6_subnets(ipv6_pool());
    let (mut exchange, _) = server.process_connect(Some("example.com:443".to_string()));
    server.step(&mut exchange, HttpEvent::Upgraded);
    let candidates = vec![v4(1, 443), v4(2, 443), v6(3, 443), v4(4, 443)];
    match server.step(&mut exchange, HttpEvent::Resolved(candidates.clone())) {
        Some(HttpAction::Attempt { candidate, bind }) => {
            assert_eq!(candidate, candidates[2]);
            assert!(!bind.ip.is_v4());
        }
        other => panic!("unexpected action {:?}", other),
    }
    assert_eq!(exchange.next, 3);
    assert!(matches!(
        server.step(&mut exchange, HttpEvent::AttemptFailed),
        Some(HttpAction::Finish)
    ));
    assert_eq!(exchange.next, 4);
}

#[test]
fn connect_that_resolves_to_nothing_ends_without_a_tunnel() {
    let server = dual();
    let (mut exchange, _) = server.process_connect(Some("nowhere:1".to_string()));
    server.step(&mut exchange, HttpEvent::Upgraded);
    assert!(matches!(
        server.step(&mut exchange, HttpEvent::Resolved(vec![])),
        Some(HttpAction::Finish)
    ));
    assert_eq!(exchange.phase, ExchangePhase::Closed);
    let (mut exchange, _) = server.process_connect(Some("nowhere:1".to_string()));
    server.step(&mut exchange, HttpEvent::Upgraded);
    assert!(matches!(
        server.step(&mut exchange, HttpEvent::ResolveFailed),
        Some(HttpAction::Finish)
    ));
    assert_eq!(exchange.phase, ExchangePhase::Closed);
}

#[test]
fn forward_to_ipv6_only_host_with_empty_ipv6_pool_binds_to_loopback() {
    let server = HttpServer::new(listen()).with_ipv4_subnets(ipv4_pool());
    let record = v6(0x2001_0db8 << 96, 80);
    assert_eq!(server.forward_bind(Some(record)), IpAddress::V6(IPV6_LOOPBACK));
    let (mut exchange, action) = server.proxy("GET", None, Some("v6only.example".to_string()));
    match action {
        HttpAction::ResolveHost(host) => assert_eq!(host, "v6only.example"),
        other => panic!("unexpected action {:?}", other),
    }
    assert_eq!(exchange.phase, ExchangePhase::ResolvingHost);
    match server.step(&mut exchange, HttpEvent::Resolved(vec![record])) {
        Some(HttpAction::Forward { local }) => assert_eq!(local, IpAddress::V6(IPV6_LOOPBACK)),
        other => panic!("unexpected action {:?}", other),
    }
    assert_eq!(exchange.phase, ExchangePhase::Forwarding);
}

#[test]
fn forward_to_ipv4_host_with_empty_ipv4_pool_binds_to_loopback() {
    let server = HttpServer::new(listen()).with_ipv6_subnets(ipv6_pool());
    assert_eq!(server.forward_bind(Some(v4(0x0808_0808, 80))), IpAddress::V4(IPV4_LOOPBACK));
}

#[test]
fn forward_binds_to_the_pool_of_the_first_record() {
    let server = dual();
    for _ in 0..32 {
        match server.forward_bind(Some(v4(0x0808_0808, 80))) {
            IpAddress::V4(ip) => assert_eq!(ip >> 24, 10),
            IpAddress::V6(_) => panic!("an IPv4 record got an IPv6 local address"),
        }
        match server.forward_bind(Some(v6(1, 80))) {
            IpAddress::V6(ip) => assert_eq!(ip >> 120, 0xfd),
            IpAddress::V4(_) => panic!("an IPv6 record got an IPv4 local address"),
        }
    }
    let (mut exchange, _) = server.process_request(Some("example.com".to_string()));
    match server.step(&mut exchange, HttpEvent::Resolved(vec![v6(9, 80), v4(9, 80)])) {
        Some(HttpAction::Forward { local }) => assert!(!local.is_v4()),
        other => panic!("unexpected action {:?}", other),
    }
}

#[test]
fn forward_without_a_destination_falls_back_to_loopback() {
    let with_ipv6 = dual();
    let without_ipv6 = HttpServer::new(listen()).with_ipv4_subnets(ipv4_pool());
    let bare = HttpServer::new(listen());
    assert_eq!(with_ipv6.forward_bind(None), IpAddress::V6(IPV6_LOOPBACK));
    assert_eq!(without_ipv6.forward_bind(None), IpAddress::V4(IPV4_LOOPBACK));
    assert_eq!(bare.forward_bind(None), IpAddress::V4(IPV4_LOOPBACK));
    let (exchange, action) = with_ipv6.proxy("GET", None, None);
    assert!(matches!(action, HttpAction::Forward { local: IpAddress::V6(IPV6_LOOPBACK) }));
    assert_eq!(exchange.phase, ExchangePhase::Forwarding);
    let (mut exchange, _) = without_ipv6.process_request(Some("unknown.example".to_string()));
    assert!(matches!(
        without_ipv6.step(&mut exchange, HttpEvent::ResolveFailed),
        Some(HttpAction::Forward { local: IpAddress::V4(IPV4_LOOPBACK) })
    ));
    let (mut exchange, _) = with_ipv6.process_request(Some("unknown.example".to_string()));
    assert!(matches!(
        with_ipv6.step(&mut exchange, HttpEvent::Resolved(vec![])),
        Some(HttpAction::Forward { local: IpAddress::V6(IPV6_LOOPBACK) })
    ));
}

#[test]
fn forward_that_fails_upstream_is_a_bad_request() {
    let server = dual();
    let (mut exchange, _) = server.process_request(None);
    match server.step(&mut exchange, HttpEvent::UpstreamFailed) {
        Some(HttpAction::Respond { status, body }) => {
            assert_eq!(status, 400);
            assert_eq!(body, "");
        }
        other => panic!("unexpected action {:?}", other),
    }
    assert_eq!(exchange.phase, ExchangePhase::Closed);
    let (mut exchange, _) = server.process_request(None);
    assert!(matches!(server.step(&mut exchange, HttpEvent::Responded), Some(HttpAction::Finish)));
    assert_eq!(exchange.phase, ExchangePhase::Closed);
}

#[test]
fn transport_failure_closes_the_exchange() {
    let server = dual();
    let (mut exchange, _) = server.process_connect(Some("example.com:443".to_string()));
    server.step(&mut exchange, HttpEvent::Upgraded);
    server.step(&mut exchange, HttpEvent::Resolved(vec![v4(1, 443)]));
    server.step(&mut exchange, HttpEvent::Connected);
    let failure = std::io::Error::new(std::io::ErrorKind::ConnectionReset, "reset");
    match server.step(&mut exchange, HttpEvent::IoFailed(failure)) {
        Some(HttpAction::Fail(Error::StdError(cause))) => {
            assert_eq!(cause.kind(), std::io::ErrorKind::ConnectionReset)
        }
        other => panic!("unexpected action {:?}", other),
    }
    assert_eq!(exchange.phase, ExchangePhase::Closed);
    let again = std::io::Error::new(std::io::ErrorKind::Other, "again");
    assert!(server.step(&mut exchange, HttpEvent::IoFailed(again)).is_none());
}

#[test]
fn events_that_the_phase_does_not_await_change_nothing_in_an_exchange() {
    let server = dual();
    let (mut exchange, _) = server.process_connect(Some("example.com:443".to_string()));
    let before: Exchange = exchange.clone();
    assert!(server.step(&mut exchange, HttpEvent::Resolved(vec![v4(1, 1)])).is_none());
    assert!(server.step(&mut exchange, HttpEvent::ResolveFailed).is_none());
    assert!(server.step(&mut exchange, HttpEvent::AttemptFailed).is_none());
    assert!(server.step(&mut exchange, HttpEvent::Connected).is_none());
    assert!(server.step(&mut exchange, HttpEvent::RelayFinished).is_none());
    assert!(server.step(&mut exchange, HttpEvent::Responded).is_none());
    assert!(server.step(&mut exchange, HttpEvent::UpstreamFailed).is_none());
    assert_eq!(exchange, before);
    let (mut closed, _) = server.process_connect(None);
    assert!(server.step(&mut closed, HttpEvent::Upgraded).is_none());
}

#[test]
fn draw_or_loopback_keeps_the_family() {
    assert_eq!(bind_or_loopback(true, Ok(v4(7, 9))), IpAddress::V4(7));
    assert_eq!(bind_or_loopback(false, Ok(v6(7, 9))), IpAddress::V6(7));
    assert_eq!(bind_or_loopback(true, Err(Error::EmptyPool)), IpAddress::V4(IPV4_LOOPBACK));
    assert_eq!(bind_or_loopback(false, Err(Error::EmptyPool)), IpAddress::V6(IPV6_LOOPBACK));
}

#[test]
fn server_is_built_from_an_address_and_pools() {
    let server = HttpServer::new(listen());
    assert_eq!(server.listen_addr(), listen());
    let server = server.with_ipv6_subnets(ipv6_pool());
    assert_eq!(server.listen_addr(), listen());
    assert_eq!(server.forward_bind(None), IpAddress::V6(IPV6_LOOPBACK));
    let replaced = server.with_ipv6_subnets(vec![]);
    assert_eq!(replaced.forward_bind(None), IpAddress::V4(IPV4_LOOPBACK));
}
