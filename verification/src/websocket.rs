//! The protocol-upgrade layer. [`WsConfig`] wraps an inner transport: an
//! address ending with the websocket marker has the marker stripped, the
//! remainder is handed down, and a successfully bound address gets the
//! marker back; an address without the marker passes through untouched.
//! [`BrowserWsConfig`] is the upgrade-capable transport a restricted host
//! provides whole: it dials websocket addresses itself and cannot listen.

use vstd::prelude::*;

use crate::addr::{has_ws_suffix, strip_ws, Multiaddr, Segment};
use crate::transport::{Dial, Listener, Transport};

verus! {

/// The websocket upgrade layer around an inner transport.
#[derive(Clone, Debug)]
pub struct WsConfig<T> {
    pub inner: T,
}

impl<T: Transport> WsConfig<T> {
    /// Wraps an inner transport.
    pub fn new(inner: T) -> (r: WsConfig<T>)
        ensures
            r.inner == inner,
    {
        WsConfig { inner }
    }
}

impl<T: Transport> Transport for WsConfig<T> {
    open spec fn listen_ok(&self, addr: Seq<Segment>) -> bool {
        self.inner.listen_ok(strip_ws(addr))
    }

    open spec fn listen_bound(&self, addr: Seq<Segment>) -> Seq<Segment> {
        if has_ws_suffix(addr) {
            self.inner.listen_bound(addr.drop_last()).push(Segment::Ws)
        } else {
            self.inner.listen_bound(addr)
        }
    }

    open spec fn dial_ok(&self, addr: Seq<Segment>) -> bool {
        self.inner.dial_ok(strip_ws(addr))
    }

    open spec fn dial_view(&self, addr: Seq<Segment>) -> Seq<Segment> {
        self.inner.dial_view(strip_ws(addr))
    }

    open spec fn nat_view(&self, server: Seq<Segment>, observed: Seq<Segment>) -> Option<
        Seq<Segment>,
    > {
        if has_ws_suffix(server) && has_ws_suffix(observed) {
            match self.inner.nat_view(server.drop_last(), observed.drop_last()) {
                Some(v) => Some(v.push(Segment::Ws)),
                None => None::<Seq<Segment>>,
            }
        } else {
            self.inner.nat_view(server, observed)
        }
    }

    fn listen_on(self, addr: Multiaddr) -> (r: Result<(Listener, Multiaddr), (Self, Multiaddr)>) {
        let WsConfig { inner } = self;
        let n = addr.segments.len();
        let is_ws = n >= 1 && (matches!(addr.segments[n - 1], Segment::Ws));
        if is_ws {
            let ghost a0 = addr@;
            let Multiaddr { segments: mut segs } = addr;
            let _marker = segs.pop();
            proof {
                assert(segs@ =~= a0.drop_last());
            }
            match inner.listen_on(Multiaddr { segments: segs }) {
                Ok((l, bound)) => {
                    let Listener { bound: lb } = l;
                    let Multiaddr { segments: mut lsegs } = lb;
                    lsegs.push(Segment::Ws);
                    let Multiaddr { segments: mut bsegs } = bound;
                    bsegs.push(Segment::Ws);
                    Ok(
                        (
                            Listener { bound: Multiaddr { segments: lsegs } },
                            Multiaddr { segments: bsegs },
                        ),
                    )
                },
                Err((t2, a2)) => {
                    let Multiaddr { segments: mut s2 } = a2;
                    s2.push(Segment::Ws);
                    proof {
                        assert(s2@ =~= a0);
                    }
                    Err((WsConfig { inner: t2 }, Multiaddr { segments: s2 }))
                },
            }
        } else {
            match inner.listen_on(addr) {
                Ok(res) => Ok(res),
                Err((t2, a2)) => Err((WsConfig { inner: t2 }, a2)),
            }
        }
    }

    fn dial(self, addr: Multiaddr) -> (r: Result<Dial, (Self, Multiaddr)>) {
        let WsConfig { inner } = self;
        let n = addr.segments.len();
        let is_ws = n >= 1 && (matches!(addr.segments[n - 1], Segment::Ws));
        if is_ws {
            let ghost a0 = addr@;
            let Multiaddr { segments: mut segs } = addr;
            let _marker = segs.pop();
            proof {
                assert(segs@ =~= a0.drop_last());
            }
            match inner.dial(Multiaddr { segments: segs }) {
                Ok(d) => Ok(d),
                Err((t2, a2)) => {
                    let Multiaddr { segments: mut s2 } = a2;
                    s2.push(Segment::Ws);
                    proof {
                        assert(s2@ =~= a0);
                    }
                    Err((WsConfig { inner: t2 }, Multiaddr { segments: s2 }))
                },
            }
        } else {
            match inner.dial(addr) {
                Ok(d) => Ok(d),
                Err((t2, a2)) => Err((WsConfig { inner: t2 }, a2)),
            }
        }
    }

    fn nat_traversal(&self, server: &Multiaddr, observed: &Multiaddr) -> (r: Option<Multiaddr>) {
        let sn = server.segments.len();
        let on = observed.segments.len();
        let both_ws = sn >= 1 && on >= 1 && (matches!(server.segments[sn - 1], Segment::Ws)) && (
        matches!(observed.segments[on - 1], Segment::Ws));
        if both_ws {
            let s2 = server.prefix(sn - 1);
            let o2 = observed.prefix(on - 1);
            proof {
                assert(s2@ =~= server@.drop_last());
                assert(o2@ =~= observed@.drop_last());
            }
            match self.inner.nat_traversal(&s2, &o2) {
                Some(a) => {
                    let Multiaddr { segments: mut v } = a;
                    v.push(Segment::Ws);
                    Some(Multiaddr { segments: v })
                },
                None => None,
            }
        } else {
            self.inner.nat_traversal(server, observed)
        }
    }
}

/// The shape the restricted host can dial once the websocket marker is
/// stripped: a network host or a symbolic name, followed by a TCP port.
pub open spec fn browser_dialable(a: Seq<Segment>) -> bool {
    &&& a.len() == 2
    &&& (a[0] matches Segment::Ip4(_) || a[0] matches Segment::Dns(_))
    &&& a[1] matches Segment::Tcp(_)
}

/// The host-provided transport of the restricted-host stack. The host's own
/// machinery establishes the connection and performs the upgrade, so the
/// transport dials websocket addresses whole, cannot listen, and has no
/// NAT-traversal opinion.
#[derive(Clone, Copy, Debug)]
pub struct BrowserWsConfig {}

impl BrowserWsConfig {
    /// The host-provided transport.
    pub fn new() -> (r: BrowserWsConfig) {
        BrowserWsConfig {  }
    }
}

impl Transport for BrowserWsConfig {
    open spec fn listen_ok(&self, addr: Seq<Segment>) -> bool {
        false
    }

    open spec fn listen_bound(&self, addr: Seq<Segment>) -> Seq<Segment> {
        addr
    }

    open spec fn dial_ok(&self, addr: Seq<Segment>) -> bool {
        has_ws_suffix(addr) && browser_dialable(addr.drop_last())
    }

    open spec fn dial_view(&self, addr: Seq<Segment>) -> Seq<Segment> {
        addr
    }

    open spec fn nat_view(&self, server: Seq<Segment>, observed: Seq<Segment>) -> Option<
        Seq<Segment>,
    > {
        None::<Seq<Segment>>
    }

    fn listen_on(self, addr: Multiaddr) -> (r: Result<(Listener, Multiaddr), (Self, Multiaddr)>) {
        Err((self, addr))
    }

    fn dial(self, addr: Multiaddr) -> (r: Result<Dial, (Self, Multiaddr)>) {
        let n = addr.segments.len();
        let ok_shape = n == 3 && (matches!(addr.segments[0], Segment::Ip4(_)) || matches!(
            addr.segments[0],
            Segment::Dns(_),
        )) && (matches!(addr.segments[1], Segment::Tcp(_))) && (matches!(
            addr.segments[2],
            Segment::Ws,
        ));
        if ok_shape {
            Ok(Dial { target: addr })
        } else {
            proof {
                if self.dial_ok(addr@) {
                    assert(addr@.drop_last().len() == 2);
                    assert(addr@.len() == 3);
                    assert(addr@.drop_last()[0] == addr@[0]);
                    assert(addr@.drop_last()[1] == addr@[1]);
                    assert(false);
                }
            }
            Err((self, addr))
        }
    }

    fn nat_traversal(&self, server: &Multiaddr, observed: &Multiaddr) -> (r: Option<Multiaddr>) {
        None
    }
}

} // verus!
