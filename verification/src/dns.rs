//! The name-resolution layer: wraps an inner transport and translates a
//! symbolic name at the head of an address into the network host address it
//! names, before handing the address down. When the inner layer fails, the
//! original, unresolved address is restored before both are handed back, so
//! the caller never sees the partially rewritten form.

use vstd::prelude::*;

use crate::addr::{dns_head, Multiaddr, Segment};
use crate::transport::{Dial, Listener, Transport};

verus! {

/// One entry of the resolver's host table.
#[derive(Clone, Copy, PartialEq, Eq, Structural, Debug)]
pub struct HostEntry {
    pub name: u64,
    pub ip: u32,
}

/// First-match lookup from position `i` onward.
pub open spec fn lookup_from(hosts: Seq<HostEntry>, name: u64, i: int) -> Option<u32>
    decreases hosts.len() - i,
{
    if i < 0 || i >= hosts.len() {
        None::<u32>
    } else if hosts[i].name == name {
        Some(hosts[i].ip)
    } else {
        lookup_from(hosts, name, i + 1)
    }
}

/// The host address a name resolves to: the first matching table entry.
pub open spec fn lookup(hosts: Seq<HostEntry>, name: u64) -> Option<u32> {
    lookup_from(hosts, name, 0)
}

/// Whether the resolver can hand the address down: an address without a
/// symbolic head passes as it is; one with a symbolic head needs a table
/// entry for the name.
pub open spec fn resolvable(hosts: Seq<HostEntry>, a: Seq<Segment>) -> bool {
    match dns_head(a) {
        Some(n) => lookup(hosts, n) is Some,
        None => true,
    }
}

/// The address as the layer below sees it: a resolvable symbolic head is
/// replaced by the host address it names; anything else is left alone.
pub open spec fn resolved(hosts: Seq<HostEntry>, a: Seq<Segment>) -> Seq<Segment> {
    match dns_head(a) {
        Some(n) => match lookup(hosts, n) {
            Some(ip) => a.update(0, Segment::Ip4(ip)),
            None => a,
        },
        None => a,
    }
}

/// The name-resolution layer around an inner transport, with its host table.
#[derive(Clone, Debug)]
pub struct DnsConfig<T> {
    pub inner: T,
    pub hosts: Vec<HostEntry>,
}

impl<T: Transport> DnsConfig<T> {
    /// Wraps an inner transport; the resolver starts with no known names.
    pub fn new(inner: T) -> (r: DnsConfig<T>)
        ensures
            r.inner == inner,
            r.hosts@ == Seq::<HostEntry>::empty(),
    {
        DnsConfig { inner, hosts: Vec::new() }
    }

    /// The same layer, knowing one more name.
    pub fn with_host(self, name: u64, ip: u32) -> (r: DnsConfig<T>)
        ensures
            r.inner == self.inner,
            r.hosts@ == self.hosts@.push((HostEntry { name, ip })),
    {
        let DnsConfig { inner, mut hosts } = self;
        hosts.push(HostEntry { name, ip });
        DnsConfig { inner, hosts }
    }
}

/// First-match lookup in a host table.
fn lookup_host(hosts: &Vec<HostEntry>, name: u64) -> (r: Option<u32>)
    ensures
        r == lookup(hosts@, name),
{
    let mut i: usize = 0;
    while i < hosts.len()
        invariant
            i <= hosts@.len(),
            lookup(hosts@, name) == lookup_from(hosts@, name, i as int),
        decreases hosts@.len() - i,
    {
        if hosts[i].name == name {
            return Some(hosts[i].ip);
        }
        i = i + 1;
    }
    None
}

impl<T: Transport> Transport for DnsConfig<T> {
    open spec fn listen_ok(&self, addr: Seq<Segment>) -> bool {
        resolvable(self.hosts@, addr) && self.inner.listen_ok(resolved(self.hosts@, addr))
    }

    open spec fn listen_bound(&self, addr: Seq<Segment>) -> Seq<Segment> {
        self.inner.listen_bound(resolved(self.hosts@, addr))
    }

    open spec fn dial_ok(&self, addr: Seq<Segment>) -> bool {
        resolvable(self.hosts@, addr) && self.inner.dial_ok(resolved(self.hosts@, addr))
    }

    open spec fn dial_view(&self, addr: Seq<Segment>) -> Seq<Segment> {
        self.inner.dial_view(resolved(self.hosts@, addr))
    }

    open spec fn nat_view(&self, server: Seq<Segment>, observed: Seq<Segment>) -> Option<
        Seq<Segment>,
    > {
        self.inner.nat_view(server, observed)
    }

    fn listen_on(self, addr: Multiaddr) -> (r: Result<(Listener, Multiaddr), (Self, Multiaddr)>) {
        let DnsConfig { inner, hosts } = self;
        let head: Option<u64> = if addr.segments.len() >= 1 {
            match addr.segments[0] {
                Segment::Dns(n) => Some(n),
                _ => None,
            }
        } else {
            None
        };
        match head {
            Some(name) => match lookup_host(&hosts, name) {
                Some(ip) => {
                    let Multiaddr { segments: mut segs } = addr;
                    let _head_seg = segs.remove(0);
                    segs.insert(0, Segment::Ip4(ip));
                    proof {
                        assert(segs@ =~= resolved(hosts@, addr@));
                    }
                    match inner.listen_on(Multiaddr { segments: segs }) {
                        Ok(res) => Ok(res),
                        Err((t2, a2)) => {
                            let Multiaddr { segments: mut s2 } = a2;
                            let _res_seg = s2.remove(0);
                            s2.insert(0, Segment::Dns(name));
                            proof {
                                assert(s2@ =~= addr@);
                            }
                            Err((DnsConfig { inner: t2, hosts }, Multiaddr { segments: s2 }))
                        },
                    }
                },
                None => Err((DnsConfig { inner, hosts }, addr)),
            },
            None => match inner.listen_on(addr) {
                Ok(res) => Ok(res),
                Err((t2, a2)) => Err((DnsConfig { inner: t2, hosts }, a2)),
            },
        }
    }

    fn dial(self, addr: Multiaddr) -> (r: Result<Dial, (Self, Multiaddr)>) {
        let DnsConfig { inner, hosts } = self;
        let head: Option<u64> = if addr.segments.len() >= 1 {
            match addr.segments[0] {
                Segment::Dns(n) => Some(n),
                _ => None,
            }
        } else {
            None
        };
        match head {
            Some(name) => match lookup_host(&hosts, name) {
                Some(ip) => {
                    let Multiaddr { segments: mut segs } = addr;
                    let _head_seg = segs.remove(0);
                    segs.insert(0, Segment::Ip4(ip));
                    proof {
                        assert(segs@ =~= resolved(hosts@, addr@));
                    }
                    match inner.dial(Multiaddr { segments: segs }) {
                        Ok(d) => Ok(d),
                        Err((t2, a2)) => {
                            let Multiaddr { segments: mut s2 } = a2;
                            let _res_seg = s2.remove(0);
                            s2.insert(0, Segment::Dns(name));
                            proof {
                                assert(s2@ =~= addr@);
                            }
                            Err((DnsConfig { inner: t2, hosts }, Multiaddr { segments: s2 }))
                        },
                    }
                },
                None => Err((DnsConfig { inner, hosts }, addr)),
            },
            None => match inner.dial(addr) {
                Ok(d) => Ok(d),
                Err((t2, a2)) => Err((DnsConfig { inner: t2, hosts }, a2)),
            },
        }
    }

    fn nat_traversal(&self, server: &Multiaddr, observed: &Multiaddr) -> (r: Option<Multiaddr>) {
        self.inner.nat_traversal(server, observed)
    }
}

} // verus!
