//! Multiaddresses: immutable, ordered sequences of self-describing protocol
//! segments. Layers of a transport stack consume a portion of an address
//! (a trailing upgrade marker, a leading symbolic name) and hand the
//! remainder downward; equality is structural.

use vstd::prelude::*;

verus! {

/// One protocol segment of a multiaddress.
#[derive(Clone, Copy, PartialEq, Eq, Structural, Debug)]
pub enum Segment {
    /// A network-layer host address (an IPv4 address as one 32-bit value).
    Ip4(u32),
    /// A TCP port; port 0 is the wildcard, "any free port".
    Tcp(u16),
    /// A UDP port. No layer of the default stack handles it.
    Udp(u16),
    /// A symbolic host name, as a name identifier a resolver can look up.
    Dns(u64),
    /// The websocket protocol-upgrade marker.
    Ws,
    /// An application-layer marker. No layer of the default stack handles it.
    Http,
}

/// An address: an ordered sequence of segments, owned by the caller and
/// passed by value into transport operations.
#[derive(Debug)]
pub struct Multiaddr {
    pub segments: Vec<Segment>,
}

impl View for Multiaddr {
    type V = Seq<Segment>;

    open spec fn view(&self) -> Seq<Segment> {
        self.segments@
    }
}

/// The shape the raw stream transport accepts: a network-layer host address
/// followed by a TCP port, and nothing else.
pub open spec fn is_tcp_addr(a: Seq<Segment>) -> bool {
    &&& a.len() == 2
    &&& a[0] matches Segment::Ip4(_)
    &&& a[1] matches Segment::Tcp(_)
}

/// The TCP port of a TCP-shaped address.
pub open spec fn tcp_port(a: Seq<Segment>) -> u16
    recommends
        is_tcp_addr(a),
{
    match a[1] {
        Segment::Tcp(p) => p,
        _ => 0,
    }
}

/// The symbolic name at the head of the address, if there is one.
pub open spec fn dns_head(a: Seq<Segment>) -> Option<u64> {
    if a.len() >= 1 {
        match a[0] {
            Segment::Dns(n) => Some(n),
            _ => None::<u64>,
        }
    } else {
        None::<u64>
    }
}

/// True when the address ends with the websocket upgrade marker.
pub open spec fn has_ws_suffix(a: Seq<Segment>) -> bool {
    a.len() >= 1 && (a[a.len() - 1] matches Segment::Ws)
}

/// The address with a trailing websocket marker stripped; an address without
/// one is left as it is.
pub open spec fn strip_ws(a: Seq<Segment>) -> Seq<Segment> {
    if has_ws_suffix(a) {
        a.drop_last()
    } else {
        a
    }
}

impl Multiaddr {
    /// The address with no segments.
    pub fn empty() -> (r: Multiaddr)
        ensures
            r@ == Seq::<Segment>::empty(),
    {
        Multiaddr { segments: Vec::new() }
    }

    /// How many segments the address has.
    pub fn len(&self) -> (n: usize)
        ensures
            n == self@.len(),
    {
        self.segments.len()
    }

    /// The segment at position `i`.
    pub fn segment(&self, i: usize) -> (s: Segment)
        requires
            i < self@.len(),
        ensures
            s == self@[i as int],
    {
        self.segments[i]
    }

    /// A new address holding the first `n` segments of this one.
    pub fn prefix(&self, n: usize) -> (r: Multiaddr)
        requires
            n <= self@.len(),
        ensures
            r@ == self@.subrange(0, n as int),
    {
        let mut v: Vec<Segment> = Vec::new();
        let mut i: usize = 0;
        while i < n
            invariant
                i <= n,
                n <= self@.len(),
                v@ == self@.subrange(0, i as int),
            decreases n - i,
        {
            v.push(self.segments[i]);
            proof {
                assert(self@.subrange(0, i as int).push(self@[i as int]) =~= self@.subrange(
                    0,
                    i as int + 1,
                ));
            }
            i = i + 1;
        }
        Multiaddr { segments: v }
    }

    /// A structural copy of the address.
    pub fn duplicate(&self) -> (r: Multiaddr)
        ensures
            r@ == self@,
    {
        let r = self.prefix(self.segments.len());
        proof {
            assert(self@.subrange(0, self@.len() as int) =~= self@);
        }
        r
    }

    /// Structural equality of two addresses.
    pub fn equals(&self, other: &Multiaddr) -> (r: bool)
        ensures
            r == (self@ == other@),
    {
        if self.segments.len() != other.segments.len() {
            return false;
        }
        let mut i: usize = 0;
        while i < self.segments.len()
            invariant
                i <= self@.len(),
                self@.len() == other@.len(),
                forall|k: int| 0 <= k < i ==> self@[k] == other@[k],
            decreases self@.len() - i,
        {
            if self.segments[i] != other.segments[i] {
                return false;
            }
            i = i + 1;
        }
        proof {
            assert(self@ =~= other@);
        }
        true
    }
}

} // verus!
