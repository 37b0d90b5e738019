//! Decisions of the network plumbing: which interface a send goes out of,
//! which subscribers of the internal bus get a message, and the order in
//! which a device hands out frames.
use vstd::prelude::*;
use std::collections::VecDeque;
use crate::wire::{Ipv4Address, Ipv4Cidr};
use crate::discovery::ModuleNeighborInfo;

verus! {

/// Socket kind of UDP sockets bound to a local endpoint.
pub struct UDP {}

/// Socket kind of raw IPv4 sockets that see whole packets.
pub struct Raw {}

/// An external bus with nothing on the other side: sends are dropped and
/// nothing is ever received.
pub struct DeadExternalBus {}

impl DeadExternalBus {
    /// Polls for a message without waiting: there never is one.
    pub fn try_receive<T>(&mut self) -> (r: Option<T>)
        ensures
            r is None,
    {
        None
    }
}

/// A line to the neighbouring transmitter that carries neighbour information.
pub trait ExternalBus {
    /// Waits for the neighbour's identity; `None` when there is no line.
    fn receive_neighbor_identity(&mut self) -> Option<ModuleNeighborInfo>;

    /// Sends this transmitter's identity to the neighbour.
    fn send_identity(&mut self, id: ModuleNeighborInfo);
}

/// Whether one of the networks holds `addr`.
pub open spec fn any_contains(cidrs: Seq<Ipv4Cidr>, addr: Ipv4Address) -> bool {
    exists|k: int| 0 <= k < cidrs.len() && (#[trigger] cidrs[k]).contains_spec(addr)
}

/// All networks of all interfaces have a prefix of at most 32 bits.
pub open spec fn interfaces_wf(interfaces: Seq<Vec<Ipv4Cidr>>) -> bool {
    forall|i: int, k: int|
        0 <= i < interfaces.len() && 0 <= k < interfaces[i]@.len() ==> (#[trigger] interfaces[i]@[k]).wf()
}

/// The interface a send to `endpoint` goes out of first: for a unicast
/// address the first interface with a network holding it, else none.
pub open spec fn route_spec(interfaces: Seq<Vec<Ipv4Cidr>>, endpoint: Ipv4Address) -> Option<usize> {
    if endpoint.is_unicast_spec() && exists|i: int|
        0 <= i < interfaces.len() && #[trigger] any_contains(interfaces[i]@, endpoint) {
        let i = choose|i: int|
            0 <= i < interfaces.len() && #[trigger] any_contains(interfaces[i]@, endpoint) && forall|j: int|
                0 <= j < i ==> !#[trigger] any_contains(interfaces[j]@, endpoint);
        Some(i as usize)
    } else {
        None
    }
}

/// Whether some network of `cidrs` holds `addr`.
fn networks_contain(cidrs: &Vec<Ipv4Cidr>, addr: &Ipv4Address) -> (r: bool)
    requires
        forall|k: int| 0 <= k < cidrs@.len() ==> (#[trigger] cidrs@[k]).wf(),
    ensures
        r == any_contains(cidrs@, *addr),
{
    let n = cidrs.len();
    let mut k: usize = 0;
    while k < n
        invariant
            n == cidrs@.len(),
            k <= n,
            forall|j: int| 0 <= j < cidrs@.len() ==> (#[trigger] cidrs@[j]).wf(),
            forall|j: int| 0 <= j < k ==> !(#[trigger] cidrs@[j]).contains_spec(*addr),
        decreases n - k,
    {
        if cidrs[k].contains_addr(addr) {
            return true;
        }
        k = k + 1;
    }
    false
}

/// Index of the interface through which a send to `endpoint` is polled
/// first, given the networks of each interface: for a unicast endpoint the
/// first interface that has a network holding it; none otherwise.
pub fn select_interface(interfaces: &Vec<Vec<Ipv4Cidr>>, endpoint: &Ipv4Address) -> (r: Option<usize>)
    requires
        interfaces_wf(interfaces@),
    ensures
        r == route_spec(interfaces@, *endpoint),
        r matches Some(i) ==> i < interfaces@.len() && any_contains(interfaces@[i as int]@, *endpoint)
            && forall|j: int| 0 <= j < i ==> !#[trigger] any_contains(interfaces@[j]@, *endpoint),
        r is None ==> !endpoint.is_unicast_spec() || forall|i: int|
            0 <= i < interfaces@.len() ==> !#[trigger] any_contains(interfaces@[i]@, *endpoint),
{
    if !endpoint.is_unicast() {
        return None;
    }
    let n = interfaces.len();
    let mut i: usize = 0;
    while i < n
        invariant
            n == interfaces@.len(),
            i <= n,
            interfaces_wf(interfaces@),
            endpoint.is_unicast_spec(),
            forall|j: int| 0 <= j < i ==> !#[trigger] any_contains(interfaces@[j]@, *endpoint),
        decreases n - i,
    {
        let found = networks_contain(&interfaces[i], endpoint);
        if found {
            proof {
                let ii = i as int;
                let c = choose|c: int|
                    0 <= c < interfaces@.len() && #[trigger] any_contains(interfaces@[c]@, *endpoint)
                        && forall|j: int| 0 <= j < c ==> !#[trigger] any_contains(interfaces@[j]@, *endpoint);
                assert(0 <= ii < interfaces@.len() && any_contains(interfaces@[ii]@, *endpoint)
                    && forall|j: int| 0 <= j < ii ==> !#[trigger] any_contains(interfaces@[j]@, *endpoint));
                if c < ii {
                } else if c > ii {
                }
                assert(c == ii);
            }
            return Some(i);
        }
        i = i + 1;
    }
    None
}

/// Subscribers of the internal bus that get a message from `source`: every
/// index below `count` except `source`, in increasing order.
pub open spec fn fanout_spec(count: usize, source: usize) -> Seq<usize> {
    Seq::new(
        if source < count { (count - 1) as nat } else { count as nat },
        |k: int| if k < source { k as usize } else { (k + 1) as usize },
    )
}

/// Indices of the subscribers that a message from subscriber `source` is
/// forwarded to: all of the `count` subscribers but the source.
pub fn fanout_targets(count: usize, source: usize) -> (r: Vec<usize>)
    ensures
        r@ == fanout_spec(count, source),
{
    let mut r: Vec<usize> = Vec::new();
    let mut i: usize = 0;
    while i < count
        invariant
            i <= count,
            r@.len() == if source < i { i - 1 } else { i as int },
            forall|k: int| 0 <= k < r@.len() ==> r@[k] == if k < source { k } else { k + 1 },
        decreases count - i,
    {
        if i != source {
            r.push(i);
        }
        i = i + 1;
    }
    assert(r@ =~= fanout_spec(count, source));
    r
}

/// Frames handed to a device ahead of its channel, oldest first.
pub struct FrameCache {
    frames: VecDeque<Vec<u8>>,
}

impl View for FrameCache {
    type V = Seq<Vec<u8>>;

    closed spec fn view(&self) -> Seq<Vec<u8>> {
        self.frames@
    }
}

impl FrameCache {
    /// An empty cache.
    pub fn new() -> (r: FrameCache)
        ensures
            r@ == Seq::<Vec<u8>>::empty(),
    {
        FrameCache { frames: VecDeque::new() }
    }

    /// Number of cached frames.
    pub fn len(&self) -> (r: usize)
        ensures
            r == self@.len(),
    {
        self.frames.len()
    }

    /// Puts a frame behind the ones already cached.
    pub fn inject_frame(&mut self, frame: Vec<u8>)
        ensures
            final(self)@ == old(self)@.push(frame),
    {
        self.frames.push_back(frame);
    }

    /// Takes the oldest cached frame, if any.
    pub fn next_frame(&mut self) -> (r: Option<Vec<u8>>)
        ensures
            old(self)@.len() == 0 ==> r is None && final(self)@ == old(self)@,
            old(self)@.len() > 0 ==> r == Some(old(self)@[0]) && final(self)@ == old(self)@.drop_first(),
    {
        let r = self.frames.pop_front();
        proof {
            if old(self)@.len() > 0 {
                assert(self@ =~= old(self)@.drop_first());
            }
        }
        r
    }
}

/// A message on the internal bus reaches every other subscriber exactly once
/// and never goes back to its source.
pub proof fn lemma_fanout_exact(count: usize, source: usize)
    ensures
        forall|k: int| 0 <= k < fanout_spec(count, source).len() ==> {
            &&& (#[trigger] fanout_spec(count, source)[k]) < count
            &&& fanout_spec(count, source)[k] != source
        },
        forall|i: usize| i < count && i != source ==> #[trigger] fanout_spec(count, source).contains(i),
        forall|k1: int, k2: int|
            0 <= k1 < k2 < fanout_spec(count, source).len() ==> fanout_spec(count, source)[k1]
                != fanout_spec(count, source)[k2],
{
    let f = fanout_spec(count, source);
    assert forall|i: usize| i < count && i != source implies #[trigger] f.contains(i) by {
        let k: int = if i < source { i as int } else { i - 1 };
        assert(f[k] == i);
    }
}

} // verus!
