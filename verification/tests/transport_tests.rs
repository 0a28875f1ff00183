use libp2p::addr::{Multiaddr, Segment};
use libp2p::dns::DnsConfig;
use libp2p::tcp::{TcpConfig, EPHEMERAL_PORT};
use libp2p::transport::Transport;
use libp2p::websocket::{BrowserWsConfig, WsConfig};
use libp2p::{CommonTransport, InnerImplementation};

const LOOPBACK: u32 = 0x7f000001;

fn ma(segments: Vec<Segment>) -> Multiaddr {
    Multiaddr { segments }
}

fn default_stack() -> InnerImplementation {
    WsConfig::new(DnsConfig::new(TcpConfig::new()))
}

#[test]
fn dial_unsupported_app_layer_returns_ownership() {
    // A loopback host + TCP port + an application-layer segment no layer
    // handles: the dial fails, and both the transport and the address come
    // back unchanged, not partially consumed.
    let t = CommonTransport::new();
    let addr = ma(vec![Segment::Ip4(LOOPBACK), Segment::Tcp(80), Segment::Http]);
    let original = addr.duplicate();
    match t.dial(addr) {
        Ok(_) => panic!("dial accepted an unsupported address"),
        Err((t2, addr_back)) => {
            assert!(addr_back.equals(&original));
            // The returned transport is as capable as the one passed in:
            // a supported address dials fine.
            let good = ma(vec![Segment::Ip4(LOOPBACK), Segment::Tcp(4001)]);
            assert!(t2.dial(good).is_ok());
        }
    }
}

#[test]
fn listen_failure_returns_ownership_for_retry() {
    let t = CommonTransport::new();
    let addr = ma(vec![Segment::Udp(53)]);
    let original = addr.duplicate();
    match t.listen_on(addr) {
        Ok(_) => panic!("listen accepted an unsupported address"),
        Err((t2, addr_back)) => {
            assert!(addr_back.equals(&original));
            let good = ma(vec![Segment::Ip4(LOOPBACK), Segment::Tcp(4001)]);
            assert!(t2.listen_on(good).is_ok());
        }
    }
}

#[test]
fn listen_wildcard_port_resolves_concrete() {
    let t = CommonTransport::new();
    let addr = ma(vec![Segment::Ip4(LOOPBACK), Segment::Tcp(0)]);
    match t.listen_on(addr) {
        Ok((listener, bound)) => {
            let expected = ma(vec![Segment::Ip4(LOOPBACK), Segment::Tcp(EPHEMERAL_PORT)]);
            assert!(bound.equals(&expected));
            assert!(listener.bound.equals(&expected));
            match bound.segment(1) {
                Segment::Tcp(p) => assert_ne!(p, 0),
                s => panic!("expected a TCP port segment, got {:?}", s),
            }
        }
        Err(_) => panic!("listen on a wildcard port must succeed"),
    }
}

#[test]
fn listen_wildcard_port_under_ws_marker() {
    let t = CommonTransport::new();
    let addr = ma(vec![Segment::Ip4(LOOPBACK), Segment::Tcp(0), Segment::Ws]);
    match t.listen_on(addr) {
        Ok((_, bound)) => {
            let expected = ma(vec![
                Segment::Ip4(LOOPBACK),
                Segment::Tcp(EPHEMERAL_PORT),
                Segment::Ws,
            ]);
            assert!(bound.equals(&expected));
        }
        Err(_) => panic!("listen on a websocket address must succeed"),
    }
}

#[test]
fn listen_concrete_port_returns_requested_address() {
    let t = CommonTransport::new();
    let addr = ma(vec![Segment::Ip4(LOOPBACK), Segment::Tcp(4001)]);
    let requested = addr.duplicate();
    match t.listen_on(addr) {
        Ok((_, bound)) => assert!(bound.equals(&requested)),
        Err(_) => panic!("listen on a concrete port must succeed"),
    }
}

#[test]
fn nat_traversal_same_inputs_equal_results() {
    let t = CommonTransport::new();
    let server = ma(vec![Segment::Ip4(0x0a000001), Segment::Tcp(4001)]);
    let observed = ma(vec![Segment::Ip4(0xc0a80101), Segment::Tcp(30000)]);
    let first = t.nat_traversal(&server, &observed);
    let second = t.nat_traversal(&server, &observed);
    match (first, second) {
        (Some(a), Some(b)) => assert!(a.equals(&b)),
        (None, None) => {}
        _ => panic!("two identical nat_traversal calls disagreed"),
    }
}

#[test]
fn nat_traversal_rewrites_host_keeps_port() {
    let t = CommonTransport::new();
    let server = ma(vec![Segment::Ip4(0x0a000001), Segment::Tcp(4001)]);
    let observed = ma(vec![Segment::Ip4(0xc0a80101), Segment::Tcp(30000)]);
    let r = t.nat_traversal(&server, &observed);
    let expected = ma(vec![Segment::Ip4(0xc0a80101), Segment::Tcp(4001)]);
    assert!(r.expect("a rewrite was owed").equals(&expected));
}

#[test]
fn nat_traversal_keeps_ws_marker() {
    let t = CommonTransport::new();
    let server = ma(vec![Segment::Ip4(0x0a000001), Segment::Tcp(4001), Segment::Ws]);
    let observed = ma(vec![Segment::Ip4(0xc0a80101), Segment::Tcp(30000), Segment::Ws]);
    let r = t.nat_traversal(&server, &observed);
    let expected = ma(vec![
        Segment::Ip4(0xc0a80101),
        Segment::Tcp(4001),
        Segment::Ws,
    ]);
    assert!(r.expect("a rewrite was owed").equals(&expected));
}

#[test]
fn nat_traversal_without_host_segments_has_no_opinion() {
    let t = CommonTransport::new();
    let server = ma(vec![Segment::Dns(9), Segment::Tcp(4001)]);
    let observed = ma(vec![Segment::Ip4(LOOPBACK), Segment::Tcp(30000)]);
    assert!(t.nat_traversal(&server, &observed).is_none());
}

#[test]
fn composite_matches_bare_stack_on_success() {
    // The composite's successful result is structurally what the unwrapped
    // stack alone produces for the same address.
    let composite = CommonTransport::from_inner(default_stack());
    let bare = default_stack();
    let addr = ma(vec![Segment::Ip4(LOOPBACK), Segment::Tcp(0), Segment::Ws]);
    let addr2 = addr.duplicate();
    let (_, bound_composite) = composite.listen_on(addr).ok().expect("composite listen");
    let (_, bound_bare) = bare.listen_on(addr2).ok().expect("bare listen");
    assert!(bound_composite.equals(&bound_bare));
}

#[test]
fn dns_name_resolves_through_stack() {
    let stack = WsConfig::new(DnsConfig::new(TcpConfig::new()).with_host(7, 0x5db8d822));
    let t = CommonTransport::from_inner(stack);
    let addr = ma(vec![Segment::Dns(7), Segment::Tcp(4001), Segment::Ws]);
    match t.dial(addr) {
        Ok(dial) => {
            let expected = ma(vec![Segment::Ip4(0x5db8d822), Segment::Tcp(4001)]);
            assert!(dial.target.equals(&expected));
        }
        Err(_) => panic!("a known name must resolve and dial"),
    }
}

#[test]
fn dns_unknown_name_fails_with_address_unchanged() {
    let t = CommonTransport::new();
    let addr = ma(vec![Segment::Dns(7), Segment::Tcp(4001)]);
    let original = addr.duplicate();
    match t.dial(addr) {
        Ok(_) => panic!("an unknown name must not dial"),
        Err((_, addr_back)) => assert!(addr_back.equals(&original)),
    }
}

#[test]
fn dns_restores_original_address_after_inner_failure() {
    // The name resolves, but the layer below rejects the resolved shape;
    // the caller must get the original, unresolved address back.
    let stack = WsConfig::new(DnsConfig::new(TcpConfig::new()).with_host(7, LOOPBACK));
    let addr = ma(vec![Segment::Dns(7), Segment::Udp(4001)]);
    let original = addr.duplicate();
    match stack.dial(addr) {
        Ok(_) => panic!("a UDP segment must not dial"),
        Err((_, addr_back)) => assert!(addr_back.equals(&original)),
    }
}

#[test]
fn dns_first_matching_entry_wins() {
    let stack = WsConfig::new(
        DnsConfig::new(TcpConfig::new())
            .with_host(7, 0x01010101)
            .with_host(7, 0x02020202),
    );
    let addr = ma(vec![Segment::Dns(7), Segment::Tcp(443)]);
    match stack.dial(addr) {
        Ok(dial) => {
            let expected = ma(vec![Segment::Ip4(0x01010101), Segment::Tcp(443)]);
            assert!(dial.target.equals(&expected));
        }
        Err(_) => panic!("a known name must resolve and dial"),
    }
}

#[test]
fn browser_transport_cannot_listen() {
    let t = BrowserWsConfig::new();
    let addr = ma(vec![Segment::Ip4(LOOPBACK), Segment::Tcp(0), Segment::Ws]);
    let original = addr.duplicate();
    match t.listen_on(addr) {
        Ok(_) => panic!("the restricted host cannot listen"),
        Err((_, addr_back)) => assert!(addr_back.equals(&original)),
    }
}

#[test]
fn browser_transport_dials_ws_addresses() {
    let t = BrowserWsConfig::new();
    let addr = ma(vec![Segment::Ip4(LOOPBACK), Segment::Tcp(443), Segment::Ws]);
    assert!(t.dial(addr).is_ok());
    let t = BrowserWsConfig::new();
    let plain = ma(vec![Segment::Ip4(LOOPBACK), Segment::Tcp(443)]);
    assert!(t.dial(plain).is_err());
}

#[test]
fn variants_share_outcome_shapes() {
    // The two platform shapes answer the same calls with the same
    // success/failure shapes: a websocket dial succeeds on both, an
    // unsupported address hands ownership back on both.
    let full = CommonTransport::new();
    let hosted = BrowserWsConfig::new();
    let ws_addr = ma(vec![Segment::Ip4(LOOPBACK), Segment::Tcp(443), Segment::Ws]);
    assert!(full.dial(ws_addr.duplicate()).is_ok());
    assert!(hosted.dial(ws_addr).is_ok());

    let full = CommonTransport::new();
    let hosted = BrowserWsConfig::new();
    let bad = ma(vec![Segment::Udp(53)]);
    match full.dial(bad.duplicate()) {
        Err((_, back)) => assert!(back.equals(&bad)),
        Ok(_) => panic!("an unsupported address must not dial"),
    }
    match hosted.dial(bad.duplicate()) {
        Err((_, back)) => assert!(back.equals(&bad)),
        Ok(_) => panic!("an unsupported address must not dial"),
    }
}

#[test]
fn empty_address_is_rejected() {
    let t = CommonTransport::new();
    let addr = Multiaddr::empty();
    assert!(t.dial(addr).is_err());
    let t = CommonTransport::new();
    assert!(t.listen_on(Multiaddr::empty()).is_err());
}

#[test]
fn duplicate_and_equals_are_structural() {
    let a = ma(vec![Segment::Ip4(LOOPBACK), Segment::Tcp(80), Segment::Ws]);
    let b = a.duplicate();
    assert!(a.equals(&b));
    assert_eq!(a.len(), 3);
    let c = ma(vec![Segment::Ip4(LOOPBACK), Segment::Tcp(81), Segment::Ws]);
    assert!(!a.equals(&c));
    assert!(!a.equals(&Multiaddr::empty()));
}
