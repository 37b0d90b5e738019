//! IPv4 values used by the addressing and routing rules, and the calls into
//! smoltcp's IPv4 wire code that the rules make.
use vstd::prelude::*;
use vstd::arithmetic::power2::pow2;

verus! {

/// A four-octet IPv4 address; field `i` is octet `i`, most significant first.
#[derive(Clone, Copy, Debug, PartialEq, Eq, Structural)]
pub struct Ipv4Address(pub u8, pub u8, pub u8, pub u8);

/// An IPv4 network: an address and the length of its prefix in bits.
#[derive(Clone, Copy, Debug, PartialEq, Eq, Structural)]
pub struct Ipv4Cidr {
    pub address: Ipv4Address,
    pub prefix_len: u8,
}

impl Ipv4Address {
    /// The unspecified address `0.0.0.0`.
    pub fn unspecified() -> (r: Ipv4Address)
        ensures
            r == Ipv4Address(0, 0, 0, 0),
    {
        Ipv4Address(0, 0, 0, 0)
    }

    /// The octets of the address as a sequence.
    pub open spec fn octets(self) -> Seq<u8> {
        seq![self.0, self.1, self.2, self.3]
    }

    /// The address read as a 32-bit big-endian number.
    pub open spec fn number(self) -> int {
        self.0 * 16777216 + self.1 * 65536 + self.2 * 256 + self.3
    }

    /// Broadcast, multicast or in the unspecified range `0.x.x.x`.
    pub open spec fn is_unicast_spec(self) -> bool {
        !((self.0 == 255 && self.1 == 255 && self.2 == 255 && self.3 == 255)
            || (self.0 & 0xf0u8) == 224 || self.0 == 0)
    }

    /// Whether the address is unicast: not broadcast, not multicast and not
    /// in the range `0.x.x.x`.
    pub fn is_unicast(&self) -> (r: bool)
        ensures
            r == self.is_unicast_spec(),
    {
        ipv4_is_unicast(*self)
    }

    /// The octets of the address, most significant first.
    pub fn to_bytes(&self) -> (r: Vec<u8>)
        ensures
            r@ == self.octets(),
    {
        let mut v: Vec<u8> = Vec::new();
        v.push(self.0);
        v.push(self.1);
        v.push(self.2);
        v.push(self.3);
        assert(v@ =~= self.octets());
        v
    }
}

impl Ipv4Cidr {
    /// A prefix length is at most 32 bits.
    pub open spec fn wf(self) -> bool {
        self.prefix_len <= 32
    }

    /// Whether the network holds `addr`: the first `prefix_len` bits agree.
    pub open spec fn contains_spec(self, addr: Ipv4Address) -> bool {
        self.prefix_len == 0 || self.address.number() / (pow2((32 - self.prefix_len) as nat) as int)
            == addr.number() / (pow2((32 - self.prefix_len) as nat) as int)
    }

    /// The network of `address` with a prefix of `prefix_len` bits.
    pub fn new(address: Ipv4Address, prefix_len: u8) -> (r: Ipv4Cidr)
        requires
            prefix_len <= 32,
        ensures
            r == (Ipv4Cidr { address, prefix_len }),
            r.wf(),
    {
        Ipv4Cidr { address, prefix_len }
    }

    /// Whether the network holds `addr`.
    pub fn contains_addr(&self, addr: &Ipv4Address) -> (r: bool)
        requires
            self.wf(),
        ensures
            r == self.contains_spec(*addr),
    {
        cidr_contains(self.address, self.prefix_len, *addr)
    }
}

/// Header length in octets that the first octet of an IPv4 header announces.
pub open spec fn ipv4_header_len(packet: Seq<u8>) -> int {
    (packet[0] % 16) * 4
}

/// Total length that an IPv4 header announces.
pub open spec fn ipv4_total_len(packet: Seq<u8>) -> int {
    packet[2] * 256 + packet[3]
}

/// The length checks that smoltcp makes before it reads an IPv4 header.
pub open spec fn ipv4_lengths_ok(packet: Seq<u8>) -> bool {
    &&& packet.len() >= 20
    &&& packet.len() >= ipv4_header_len(packet)
    &&& ipv4_header_len(packet) <= ipv4_total_len(packet)
    &&& packet.len() >= ipv4_total_len(packet)
}

/// Source address field of an IPv4 header: octets 12 to 15.
pub open spec fn ipv4_source(packet: Seq<u8>) -> Ipv4Address {
    Ipv4Address(packet[12], packet[13], packet[14], packet[15])
}

/// Destination address field of an IPv4 header: octets 16 to 19.
pub open spec fn ipv4_destination(packet: Seq<u8>) -> Ipv4Address {
    Ipv4Address(packet[16], packet[17], packet[18], packet[19])
}

/// Calls `smoltcp::wire::Ipv4Packet::new_checked` on `packet` and, where it
/// accepts the buffer, reads `src_addr` and `dst_addr`. The contract restates
/// `check_len` (buffer at least 20 octets, at least the header length, header
/// length at most the total length, buffer at least the total length) and the
/// fixed positions of the two address fields.
#[verifier::external_body]
pub(crate) fn ipv4_header_addresses(packet: &[u8]) -> (r: Option<(Ipv4Address, Ipv4Address)>)
    ensures
        r is Some <==> ipv4_lengths_ok(packet@),
        r matches Some((s, d)) ==> s == ipv4_source(packet@) && d == ipv4_destination(packet@),
{
    match smoltcp::wire::Ipv4Packet::new_checked(packet) {
        Ok(p) => {
            let s = p.src_addr().0;
            let d = p.dst_addr().0;
            Some((Ipv4Address(s[0], s[1], s[2], s[3]), Ipv4Address(d[0], d[1], d[2], d[3])))
        },
        Err(_) => None,
    }
}

/// Calls `smoltcp::wire::Ipv4Cidr::contains_addr` on the network built by
/// `Ipv4Cidr::new` (which panics above 32 bits, hence the precondition). The
/// contract restates its source: true for a zero prefix, else the two
/// big-endian numbers shifted right by `32 - prefix_len` bits agree.
#[verifier::external_body]
fn cidr_contains(network: Ipv4Address, prefix_len: u8, addr: Ipv4Address) -> (r: bool)
    requires
        prefix_len <= 32,
    ensures
        r == (Ipv4Cidr { address: network, prefix_len }).contains_spec(addr),
{
    let net = smoltcp::wire::Ipv4Address::new(network.0, network.1, network.2, network.3);
    let a = smoltcp::wire::Ipv4Address::new(addr.0, addr.1, addr.2, addr.3);
    smoltcp::wire::Ipv4Cidr::new(net, prefix_len).contains_addr(&a)
}

/// Calls `smoltcp::wire::Ipv4Address::is_unicast`. The contract restates its
/// source: not the broadcast address, not multicast (high nibble 0xe) and not
/// in the range whose first octet is 0.
#[verifier::external_body]
fn ipv4_is_unicast(addr: Ipv4Address) -> (r: bool)
    ensures
        r == addr.is_unicast_spec(),
{
    smoltcp::wire::Ipv4Address::new(addr.0, addr.1, addr.2, addr.3).is_unicast()
}

} // verus!
