//! The transport capability: the three-operation contract every
//! network-access layer implements, and the laws the contract forces.
//!
//! `listen_on` and `dial` consume the transport by value. On success the
//! transport is spent and a handle comes back; on failure the caller regains
//! a transport of the very same value together with the address that was not
//! serviced, so failing to handle one address never destroys the capability
//! to try another.

use vstd::prelude::*;

use crate::addr::{Multiaddr, Segment};

verus! {

/// A handle on a bound listening resource: a lazy sequence of inbound
/// connections. Its state here is the concrete address it is bound to.
pub struct Listener {
    pub bound: Multiaddr,
}

impl View for Listener {
    type V = Seq<Segment>;

    open spec fn view(&self) -> Seq<Segment> {
        self.bound@
    }
}

/// A deferred outbound connection. Its state here is the address the
/// innermost layer that handled the dial connects to.
pub struct Dial {
    pub target: Multiaddr,
}

impl View for Dial {
    type V = Seq<Segment>;

    open spec fn view(&self) -> Seq<Segment> {
        self.target@
    }
}

/// The view of an optional address.
pub open spec fn opt_view(r: Option<Multiaddr>) -> Option<Seq<Segment>> {
    match r {
        Some(a) => Some(a@),
        None => None::<Seq<Segment>>,
    }
}

/// What `listen_on` promises. When the transport accepts the address, the
/// result is the listener and the concrete address now bound, both pinned by
/// `listen_bound`; otherwise the transport value and the address come back
/// unchanged.
pub open spec fn listen_contract<T: Transport>(
    t: T,
    addr: Seq<Segment>,
    r: Result<(Listener, Multiaddr), (T, Multiaddr)>,
) -> bool {
    &&& t.listen_ok(addr) ==> (r matches Ok(ok) && ok.0@ == t.listen_bound(addr) && ok.1@
        == t.listen_bound(addr))
    &&& !t.listen_ok(addr) ==> (r matches Err(e) && e.0 == t && e.1@ == addr)
}

/// What `dial` promises, in the same shape as `listen_contract`.
pub open spec fn dial_contract<T: Transport>(
    t: T,
    addr: Seq<Segment>,
    r: Result<Dial, (T, Multiaddr)>,
) -> bool {
    &&& t.dial_ok(addr) ==> (r matches Ok(d) && d@ == t.dial_view(addr))
    &&& !t.dial_ok(addr) ==> (r matches Err(e) && e.0 == t && e.1@ == addr)
}

/// What `nat_traversal` promises: the result is exactly `nat_view`, a
/// function of the transport value and the two addresses alone.
pub open spec fn nat_contract<T: Transport>(
    t: T,
    server: Seq<Segment>,
    observed: Seq<Segment>,
    r: Option<Multiaddr>,
) -> bool {
    match r {
        Some(a) => t.nat_view(server, observed) == Some(a@),
        None => t.nat_view(server, observed) is None,
    }
}

/// The transport capability.
///
/// The five specification functions describe the implementing stack: which
/// addresses it accepts, what a successful operation yields, and what its
/// NAT-traversal answer is. The three operations are bound to them.
pub trait Transport: Sized {
    /// Whether listening on the address succeeds.
    spec fn listen_ok(&self, addr: Seq<Segment>) -> bool;

    /// The concrete address a successful listen binds; it may differ from
    /// the requested one (a wildcard port resolves to a concrete port).
    spec fn listen_bound(&self, addr: Seq<Segment>) -> Seq<Segment>;

    /// Whether dialing the address succeeds.
    spec fn dial_ok(&self, addr: Seq<Segment>) -> bool;

    /// The address a successful dial's handle is connecting to, as the
    /// innermost layer that handled it sees it.
    spec fn dial_view(&self, addr: Seq<Segment>) -> Seq<Segment>;

    /// The stack's NAT-traversal answer, or `None` when it has no opinion.
    spec fn nat_view(&self, server: Seq<Segment>, observed: Seq<Segment>) -> Option<Seq<Segment>>;

    /// Begins listening for inbound connections on `addr`. When the stack
    /// accepts the address, the listener and the concrete address now bound
    /// come back, both pinned by `listen_bound`; otherwise the transport
    /// value and the address are returned unchanged.
    fn listen_on(self, addr: Multiaddr) -> (r: Result<(Listener, Multiaddr), (Self, Multiaddr)>)
        ensures
            self.listen_ok(addr@) ==> (r matches Ok(ok) && ok.0@ == self.listen_bound(addr@)
                && ok.1@ == self.listen_bound(addr@)),
            !self.listen_ok(addr@) ==> (r matches Err(e) && e.0 == self && e.1@ == addr@),
    ;

    /// Initiates an outbound connection to `addr`, under the same
    /// ownership-return contract as `listen_on`.
    fn dial(self, addr: Multiaddr) -> (r: Result<Dial, (Self, Multiaddr)>)
        ensures
            self.dial_ok(addr@) ==> (r matches Ok(d) && d@ == self.dial_view(addr@)),
            !self.dial_ok(addr@) ==> (r matches Err(e) && e.0 == self && e.1@ == addr@),
    ;

    /// Rewrites the address a server advertises into one reachable by
    /// others, given the address a peer observed the connection as coming
    /// from. Pure: it borrows the transport, never mutates it, and its
    /// result is exactly `nat_view`, a function of its inputs alone.
    fn nat_traversal(&self, server: &Multiaddr, observed: &Multiaddr) -> (r: Option<Multiaddr>)
        ensures
            r matches Some(a) ==> self.nat_view(server@, observed@) == Some(a@),
            r is None ==> self.nat_view(server@, observed@) is None,
    ;
}

/// Ownership round-trip for listening: when the stack rejects an address,
/// the failure tuple carries the original address and a transport of the
/// very same value, so every capability specification of the returned
/// transport — including acceptance of any retry address — is the original
/// transport's.
pub proof fn lemma_ownership_round_trip_listen<T: Transport>(
    t: T,
    addr: Seq<Segment>,
    r: Result<(Listener, Multiaddr), (T, Multiaddr)>,
    retry: Seq<Segment>,
)
    requires
        !t.listen_ok(addr),
        listen_contract(t, addr, r),
    ensures
        r matches Err(e) && e.1@ == addr && e.0.listen_ok(retry) == t.listen_ok(retry)
            && e.0.listen_bound(retry) == t.listen_bound(retry) && e.0.dial_ok(retry) == t.dial_ok(
            retry,
        ),
{
}

/// Ownership round-trip for dialing, in the same shape as
/// `lemma_ownership_round_trip_listen`.
pub proof fn lemma_ownership_round_trip_dial<T: Transport>(
    t: T,
    addr: Seq<Segment>,
    r: Result<Dial, (T, Multiaddr)>,
    retry: Seq<Segment>,
)
    requires
        !t.dial_ok(addr),
        dial_contract(t, addr, r),
    ensures
        r matches Err(e) && e.1@ == addr && e.0.dial_ok(retry) == t.dial_ok(retry)
            && e.0.dial_view(retry) == t.dial_view(retry) && e.0.listen_ok(retry) == t.listen_ok(
            retry,
        ),
{
}

/// NAT traversal is idempotent and pure: its contract pins the result to
/// `nat_view`, a function of the transport and the two addresses alone, so
/// any two calls with equal inputs return structurally equal addresses.
pub proof fn lemma_nat_traversal_deterministic<T: Transport>(
    t: T,
    server: Seq<Segment>,
    observed: Seq<Segment>,
    r1: Option<Multiaddr>,
    r2: Option<Multiaddr>,
)
    requires
        nat_contract(t, server, observed, r1),
        nat_contract(t, server, observed, r2),
    ensures
        opt_view(r1) == opt_view(r2),
{
}

/// Variant equivalence for listening: two transports, of possibly different
/// types, whose specification functions agree on an address are forced by
/// the shared contract to matching outcomes: both succeed with equal bound
/// addresses, or both fail, each returning its own value and the address
/// unchanged.
pub proof fn lemma_variant_equivalence_listen<A: Transport, B: Transport>(
    a: A,
    b: B,
    addr: Seq<Segment>,
    ra: Result<(Listener, Multiaddr), (A, Multiaddr)>,
    rb: Result<(Listener, Multiaddr), (B, Multiaddr)>,
)
    requires
        a.listen_ok(addr) == b.listen_ok(addr),
        a.listen_bound(addr) == b.listen_bound(addr),
        listen_contract(a, addr, ra),
        listen_contract(b, addr, rb),
    ensures
        ra is Ok <==> rb is Ok,
        ra matches Ok(pa) ==> (rb matches Ok(pb) && pa.0@ == pb.0@ && pa.1@ == pb.1@),
        ra matches Err(ea) ==> (rb matches Err(eb) && ea.0 == a && eb.0 == b && ea.1@ == eb.1@),
{
}

/// Variant equivalence for dialing, in the same shape as
/// `lemma_variant_equivalence_listen`.
pub proof fn lemma_variant_equivalence_dial<A: Transport, B: Transport>(
    a: A,
    b: B,
    addr: Seq<Segment>,
    ra: Result<Dial, (A, Multiaddr)>,
    rb: Result<Dial, (B, Multiaddr)>,
)
    requires
        a.dial_ok(addr) == b.dial_ok(addr),
        a.dial_view(addr) == b.dial_view(addr),
        dial_contract(a, addr, ra),
        dial_contract(b, addr, rb),
    ensures
        ra is Ok <==> rb is Ok,
        ra matches Ok(da) ==> (rb matches Ok(db) && da@ == db@),
        ra matches Err(ea) ==> (rb matches Err(eb) && ea.0 == a && eb.0 == b && ea.1@ == eb.1@),
{
}

/// Variant equivalence for NAT traversal: agreeing `nat_view`s force equal
/// answers.
pub proof fn lemma_variant_equivalence_nat<A: Transport, B: Transport>(
    a: A,
    b: B,
    server: Seq<Segment>,
    observed: Seq<Segment>,
    ra: Option<Multiaddr>,
    rb: Option<Multiaddr>,
)
    requires
        a.nat_view(server, observed) == b.nat_view(server, observed),
        nat_contract(a, server, observed, ra),
        nat_contract(b, server, observed, rb),
    ensures
        opt_view(ra) == opt_view(rb),
{
}

} // verus!
