//! The raw stream transport: the innermost layer of the default stack. It
//! accepts addresses of the shape network host + TCP port, resolves a
//! wildcard port to a concrete one on listen, and answers NAT traversal by
//! keeping the server's port while adopting the host address a peer
//! observed.

use vstd::prelude::*;

use crate::addr::{is_tcp_addr, tcp_port, Multiaddr, Segment};
use crate::transport::{Dial, Listener, Transport};

verus! {

/// The port a wildcard listen binds: the first port of the dynamic range.
pub const EPHEMERAL_PORT: u16 = 49152;

/// The concrete address a listen on `a` binds when the next free port is
/// `port`: the requested address, with a wildcard (zero) port replaced.
pub open spec fn tcp_bound(a: Seq<Segment>, port: u16) -> Seq<Segment> {
    if is_tcp_addr(a) && tcp_port(a) == 0 {
        seq![a[0], Segment::Tcp(port)]
    } else {
        a
    }
}

/// The stream transport's NAT rewrite: the server's address with its host
/// segment replaced by the host segment a peer observed; no answer unless
/// both addresses start with a network host segment.
pub open spec fn tcp_nat(server: Seq<Segment>, observed: Seq<Segment>) -> Option<Seq<Segment>> {
    if server.len() >= 1 && observed.len() >= 1 && (server[0] matches Segment::Ip4(_)) && (
    observed[0] matches Segment::Ip4(_)) {
        Some(server.update(0, observed[0]))
    } else {
        None::<Seq<Segment>>
    }
}

/// The raw stream transport's configuration. It holds no live resource:
/// only the port the next wildcard listen would bind.
#[derive(Clone, Copy, Debug)]
pub struct TcpConfig {
    /// The concrete, nonzero port a wildcard listen binds.
    pub assigned_port: u16,
}

impl TcpConfig {
    /// A fresh stream transport configuration.
    pub fn new() -> (r: TcpConfig)
        ensures
            r.assigned_port == EPHEMERAL_PORT,
    {
        TcpConfig { assigned_port: EPHEMERAL_PORT }
    }
}

impl Transport for TcpConfig {
    open spec fn listen_ok(&self, addr: Seq<Segment>) -> bool {
        is_tcp_addr(addr)
    }

    open spec fn listen_bound(&self, addr: Seq<Segment>) -> Seq<Segment> {
        tcp_bound(addr, self.assigned_port)
    }

    open spec fn dial_ok(&self, addr: Seq<Segment>) -> bool {
        is_tcp_addr(addr)
    }

    open spec fn dial_view(&self, addr: Seq<Segment>) -> Seq<Segment> {
        addr
    }

    open spec fn nat_view(&self, server: Seq<Segment>, observed: Seq<Segment>) -> Option<
        Seq<Segment>,
    > {
        tcp_nat(server, observed)
    }

    fn listen_on(self, addr: Multiaddr) -> (r: Result<(Listener, Multiaddr), (Self, Multiaddr)>) {
        let ok_shape = addr.segments.len() == 2 && (matches!(addr.segments[0], Segment::Ip4(_)))
            && (matches!(addr.segments[1], Segment::Tcp(_)));
        if !ok_shape {
            return Err((self, addr));
        }
        let port = match addr.segments[1] {
            Segment::Tcp(p) => p,
            _ => 0,
        };
        if port == 0 {
            let head = addr.segments[0];
            let mut v: Vec<Segment> = Vec::new();
            v.push(head);
            v.push(Segment::Tcp(self.assigned_port));
            proof {
                assert(v@ =~= tcp_bound(addr@, self.assigned_port));
            }
            let bound = Multiaddr { segments: v };
            let returned = bound.duplicate();
            Ok((Listener { bound }, returned))
        } else {
            let returned = addr.duplicate();
            Ok((Listener { bound: addr }, returned))
        }
    }

    fn dial(self, addr: Multiaddr) -> (r: Result<Dial, (Self, Multiaddr)>) {
        let ok_shape = addr.segments.len() == 2 && (matches!(addr.segments[0], Segment::Ip4(_)))
            && (matches!(addr.segments[1], Segment::Tcp(_)));
        if ok_shape {
            Ok(Dial { target: addr })
        } else {
            Err((self, addr))
        }
    }

    fn nat_traversal(&self, server: &Multiaddr, observed: &Multiaddr) -> (r: Option<Multiaddr>) {
        let ok_shape = server.segments.len() >= 1 && observed.segments.len() >= 1 && (matches!(
            server.segments[0],
            Segment::Ip4(_),
        )) && (matches!(observed.segments[0], Segment::Ip4(_)));
        if ok_shape {
            let dup = server.duplicate();
            let Multiaddr { segments: mut segs } = dup;
            let _head = segs.remove(0);
            segs.insert(0, observed.segments[0]);
            proof {
                assert(segs@ =~= server@.update(0, observed@[0]));
            }
            Some(Multiaddr { segments: segs })
        } else {
            None
        }
    }
}

} // verus!
