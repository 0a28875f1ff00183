//! A composable network transport abstraction.
//!
//! A transport is anything that can listen for inbound connections on an
//! address, dial an address, and rewrite an externally observed address into
//! a publicly reachable one (NAT traversal). Transports compose: a
//! name-resolution layer wraps a raw stream transport, and a websocket
//! upgrade layer wraps that. [`CommonTransport`] re-exposes the fully
//! composed default stack under one stable type.
//!
//! Failure is never an exception here: an operation that cannot service an
//! address hands both the transport and the address back to the caller, so
//! the capability survives the failed attempt and can be retried.

use vstd::prelude::*;

pub mod addr;
pub mod dns;
pub mod tcp;
pub mod transport;
pub mod websocket;

pub use addr::{Multiaddr, Segment};
pub use transport::{Dial, Listener, Transport};

verus! {

/// The fully composed default stack: the raw stream transport innermost,
/// name resolution around it, the websocket upgrade outermost.
pub type InnerImplementation = websocket::WsConfig<dns::DnsConfig<tcp::TcpConfig>>;

/// The concrete address a listen through the default stack binds: the
/// requested address with a wildcard port made concrete, and the websocket
/// marker kept if it was there.
pub open spec fn default_listen_bound(a: Seq<Segment>) -> Seq<Segment> {
    if addr::has_ws_suffix(a) {
        tcp::tcp_bound(a.drop_last(), tcp::EPHEMERAL_PORT).push(Segment::Ws)
    } else {
        tcp::tcp_bound(a, tcp::EPHEMERAL_PORT)
    }
}

/// The default stack's NAT answer: the stream transport's host rewrite,
/// applied under a websocket marker when both addresses carry one.
pub open spec fn default_nat_view(s: Seq<Segment>, o: Seq<Segment>) -> Option<Seq<Segment>> {
    if addr::has_ws_suffix(s) && addr::has_ws_suffix(o) {
        match tcp::tcp_nat(s.drop_last(), o.drop_last()) {
            Some(v) => Some(v.push(Segment::Ws)),
            None => None::<Seq<Segment>>,
        }
    } else {
        tcp::tcp_nat(s, o)
    }
}

/// A transport supporting the most common protocols, re-exposed under one
/// stable type: callers depend on this name, not on the shape of the inner
/// stack.
#[derive(Clone, Debug)]
pub struct CommonTransport {
    inner: CommonTransportInner,
}

/// The private holder of the actual implementation of everything.
#[derive(Clone, Debug)]
struct CommonTransportInner {
    inner: InnerImplementation,
}

/// The default stack of a fresh [`CommonTransport`] resolves no names and
/// binds wildcard listens to the first dynamic port; its capability
/// specifications flatten to the plain statements below.
proof fn lemma_default_specs(t: CommonTransport, a: Seq<Segment>)
    requires
        t.inner.inner.inner.hosts@ == Seq::<dns::HostEntry>::empty(),
        t.inner.inner.inner.inner.assigned_port == tcp::EPHEMERAL_PORT,
    ensures
        t.listen_ok(a) == addr::is_tcp_addr(addr::strip_ws(a)),
        t.listen_bound(a) == default_listen_bound(a),
        t.dial_ok(a) == addr::is_tcp_addr(addr::strip_ws(a)),
        t.dial_view(a) == addr::strip_ws(a),
{
    let x = addr::strip_ws(a);
    let hosts = t.inner.inner.inner.hosts@;
    match addr::dns_head(x) {
        Some(n) => {
            assert(dns::lookup(hosts, n) is None);
            assert(dns::resolved(hosts, x) == x);
            assert(!dns::resolvable(hosts, x));
            assert(!addr::is_tcp_addr(x));
        },
        None => {
            assert(dns::resolved(hosts, x) == x);
            assert(dns::resolvable(hosts, x));
        },
    }
}

impl CommonTransport {
    /// Initializes the `CommonTransport`: stream transport innermost, name
    /// resolution around it, the websocket upgrade outermost. The contract
    /// states the assembled stack's whole behavior in plain terms.
    pub fn new() -> (r: CommonTransport)
        ensures
            forall|a: Seq<Segment>| #[trigger] r.listen_ok(a) == addr::is_tcp_addr(
                addr::strip_ws(a),
            ),
            forall|a: Seq<Segment>| #[trigger] r.listen_bound(a) == default_listen_bound(a),
            forall|a: Seq<Segment>| #[trigger] r.dial_ok(a) == addr::is_tcp_addr(
                addr::strip_ws(a),
            ),
            forall|a: Seq<Segment>| #[trigger] r.dial_view(a) == addr::strip_ws(a),
            forall|s: Seq<Segment>, o: Seq<Segment>| #[trigger] r.nat_view(s, o)
                == default_nat_view(s, o),
    {
        let tcp_cfg = tcp::TcpConfig::new();
        let with_dns = dns::DnsConfig::new(tcp_cfg);
        let with_ws = websocket::WsConfig::new(with_dns);
        let r = CommonTransport { inner: CommonTransportInner { inner: with_ws } };
        proof {
            assert forall|a: Seq<Segment>|
                #[trigger] r.listen_ok(a) == addr::is_tcp_addr(addr::strip_ws(a))
                    && #[trigger] r.listen_bound(a) == default_listen_bound(a)
                    && #[trigger] r.dial_ok(a) == addr::is_tcp_addr(addr::strip_ws(a))
                    && #[trigger] r.dial_view(a) == addr::strip_ws(a) by {
                lemma_default_specs(r, a);
            }
        }
        r
    }

    /// Adopts one pre-built stack whole, the way a host-provided transport
    /// is adopted: the composite's capability specifications are exactly the
    /// adopted stack's, so a successful operation's result is structurally
    /// what the unwrapped stack alone would have produced.
    pub fn from_inner(inner: InnerImplementation) -> (r: CommonTransport)
        ensures
            forall|a: Seq<Segment>| #[trigger] r.listen_ok(a) == inner.listen_ok(a),
            forall|a: Seq<Segment>| #[trigger] r.listen_bound(a) == inner.listen_bound(a),
            forall|a: Seq<Segment>| #[trigger] r.dial_ok(a) == inner.dial_ok(a),
            forall|a: Seq<Segment>| #[trigger] r.dial_view(a) == inner.dial_view(a),
            forall|s: Seq<Segment>, o: Seq<Segment>| #[trigger] r.nat_view(s, o) == inner.nat_view(
                s,
                o,
            ),
    {
        CommonTransport { inner: CommonTransportInner { inner } }
    }
}

impl Transport for CommonTransport {
    closed spec fn listen_ok(&self, addr: Seq<Segment>) -> bool {
        self.inner.inner.listen_ok(addr)
    }

    closed spec fn listen_bound(&self, addr: Seq<Segment>) -> Seq<Segment> {
        self.inner.inner.listen_bound(addr)
    }

    closed spec fn dial_ok(&self, addr: Seq<Segment>) -> bool {
        self.inner.inner.dial_ok(addr)
    }

    closed spec fn dial_view(&self, addr: Seq<Segment>) -> Seq<Segment> {
        self.inner.inner.dial_view(addr)
    }

    closed spec fn nat_view(&self, server: Seq<Segment>, observed: Seq<Segment>) -> Option<
        Seq<Segment>,
    > {
        self.inner.inner.nat_view(server, observed)
    }

    fn listen_on(self, addr: Multiaddr) -> (r: Result<(Listener, Multiaddr), (Self, Multiaddr)>) {
        match self.inner.inner.listen_on(addr) {
            Ok(res) => Ok(res),
            Err((inner, addr2)) => {
                let trans = CommonTransport { inner: CommonTransportInner { inner } };
                Err((trans, addr2))
            },
        }
    }

    fn dial(self, addr: Multiaddr) -> (r: Result<Dial, (Self, Multiaddr)>) {
        match self.inner.inner.dial(addr) {
            Ok(res) => Ok(res),
            Err((inner, addr2)) => {
                let trans = CommonTransport { inner: CommonTransportInner { inner } };
                Err((trans, addr2))
            },
        }
    }

    fn nat_traversal(&self, server: &Multiaddr, observed: &Multiaddr) -> (r: Option<Multiaddr>) {
        self.inner.inner.nat_traversal(server, observed)
    }
}

} // verus!
