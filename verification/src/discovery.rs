//! Discovery of neighbouring transmitters and the address plan built from it.
//!
//! Neighbour information travels between COM modules as a discovery message:
//! the JSON text of the externally tagged enum, without any whitespace, e.g.
//! `"Basic"`, `{"Hub":"Two"}` or `{"Advanced":[null,[]]}`.
use vstd::prelude::*;
use crate::wire::Ipv4Address;

verus! {

/// Position of a hub transmitter; it selects the first octet of addresses.
#[derive(Clone, Copy, Debug, PartialEq, Eq, Structural)]
pub enum HubIndex {
    One,
    Two,
    Three,
    Four,
}

/// Marker for a basic transmitter hanging below an advanced one.
#[derive(Clone, Copy, Debug, PartialEq, Eq, Structural)]
pub struct BasicTransmitter();

/// What a COM module learned about the transmitter next to it.
#[derive(Clone, Copy, Debug, PartialEq, Eq, Structural)]
pub enum ModuleNeighborInfo {
    NoNeighbor,
    /// A basic transmitter: the end of a leaf.
    Basic,
    /// A hub.
    Hub(HubIndex),
    /// An advanced transmitter: root, middle component or leaf.
    Advanced(Option<HubIndex>, Option<BasicTransmitter>),
}

/// The system modules that receive an address.
#[derive(Clone, Copy, Debug, PartialEq, Eq, Structural)]
pub enum Sysmodule {
    COM,
    PI,
    PV,
    HMI,
}

/// The kind of transmitter a COM module belongs to.
#[derive(Clone, Copy, Debug, PartialEq, Eq, Structural)]
pub enum Transmitter {
    Basic,
    Advanced,
    Hub(HubIndex),
}

impl HubIndex {
    /// First address octet of the hub's network: 192 to 195.
    pub open spec fn ip_octet(self) -> u8 {
        match self {
            HubIndex::One => 192,
            HubIndex::Two => 193,
            HubIndex::Three => 194,
            HubIndex::Four => 195,
        }
    }

    /// Zero-based position of the hub.
    pub open spec fn position(self) -> usize {
        match self {
            HubIndex::One => 0,
            HubIndex::Two => 1,
            HubIndex::Three => 2,
            HubIndex::Four => 3,
        }
    }

    /// Name of the variant, as it appears in a discovery message.
    pub open spec fn name(self) -> Seq<u8> {
        match self {
            HubIndex::One => seq![79u8, 110, 101],
            HubIndex::Two => seq![84u8, 119, 111],
            HubIndex::Three => seq![84u8, 104, 114, 101, 101],
            HubIndex::Four => seq![70u8, 111, 117, 114],
        }
    }

    /// First address octet of the hub's network.
    pub fn to_ip_octet(&self) -> (r: u8)
        ensures
            r == self.ip_octet(),
    {
        match self {
            HubIndex::One => 192,
            HubIndex::Two => 193,
            HubIndex::Three => 194,
            HubIndex::Four => 195,
        }
    }

    /// Zero-based position of the hub.
    pub fn index(&self) -> (r: usize)
        ensures
            r == self.position(),
    {
        match self {
            HubIndex::One => 0,
            HubIndex::Two => 1,
            HubIndex::Three => 2,
            HubIndex::Four => 3,
        }
    }

    /// The hub at a zero-based position; there are four.
    pub fn try_from_index(i: usize) -> (r: Result<HubIndex, ()>)
        ensures
            r == hub_at(i),
            r is Ok <==> i < 4,
            r matches Ok(h) ==> h.position() == i,
    {
        match i {
            0 => Ok(HubIndex::One),
            1 => Ok(HubIndex::Two),
            2 => Ok(HubIndex::Three),
            3 => Ok(HubIndex::Four),
            _ => Err(()),
        }
    }
}

/// The hub at a zero-based position, if there is one.
pub open spec fn hub_at(i: usize) -> Result<HubIndex, ()> {
    if i == 0 {
        Ok(HubIndex::One)
    } else if i == 1 {
        Ok(HubIndex::Two)
    } else if i == 2 {
        Ok(HubIndex::Three)
    } else if i == 3 {
        Ok(HubIndex::Four)
    } else {
        Err(())
    }
}

impl TryFrom<usize> for HubIndex {
    type Error = ();

    /// The hub at a zero-based position; there are four.
    fn try_from(i: usize) -> (r: Result<HubIndex, ()>) {
        HubIndex::try_from_index(i)
    }
}

impl vstd::std_specs::convert::TryFromSpecImpl<usize> for HubIndex {
    open spec fn obeys_try_from_spec() -> bool {
        true
    }

    open spec fn try_from_spec(i: usize) -> Result<HubIndex, ()> {
        hub_at(i)
    }
}

impl Sysmodule {
    /// Last address octet of the module: COM 1, PI 2, PV 3, HMI 4.
    pub open spec fn octet(self) -> u8 {
        match self {
            Sysmodule::COM => 1,
            Sysmodule::PI => 2,
            Sysmodule::PV => 3,
            Sysmodule::HMI => 4,
        }
    }

    /// Last address octet of the module.
    pub fn to_octet(&self) -> (r: u8)
        ensures
            r == self.octet(),
    {
        match self {
            Sysmodule::COM => 1,
            Sysmodule::PI => 2,
            Sysmodule::PV => 3,
            Sysmodule::HMI => 4,
        }
    }
}

/// Whether an address plan exists for a transmitter with the given neighbour.
pub open spec fn ip_defined(transmitter: Transmitter, neighbor_info: ModuleNeighborInfo) -> bool {
    match (transmitter, neighbor_info) {
        (Transmitter::Basic, ModuleNeighborInfo::Advanced(_, _)) => true,
        (Transmitter::Basic, ModuleNeighborInfo::Hub(_)) => true,
        (Transmitter::Basic, ModuleNeighborInfo::NoNeighbor) => true,
        (Transmitter::Advanced, ModuleNeighborInfo::NoNeighbor) => true,
        (Transmitter::Advanced, ModuleNeighborInfo::Advanced(None, _)) => true,
        (Transmitter::Advanced, ModuleNeighborInfo::Advanced(Some(_), Some(_))) => true,
        (Transmitter::Hub(_), ModuleNeighborInfo::NoNeighbor) => false,
        (Transmitter::Hub(_), _) => true,
        _ => false,
    }
}

/// The address plan: `network.168.subnet.module`, where the network octet
/// comes from the hub position (192 when alone, 193 for a basic transmitter
/// below an advanced one without hub) and the subnet octet names the
/// transmitter: 0 for a basic or lone one, 1 for an advanced one with a basic
/// child, 3 for a hub.
pub open spec fn address_of(
    sysmodule: Sysmodule,
    transmitter: Transmitter,
    neighbor_info: ModuleNeighborInfo,
) -> Ipv4Address {
    let m = sysmodule.octet();
    match (transmitter, neighbor_info) {
        (Transmitter::Basic, ModuleNeighborInfo::Advanced(None, _)) => Ipv4Address(193, 168, 0, m),
        (Transmitter::Basic, ModuleNeighborInfo::Advanced(Some(i), _)) => Ipv4Address(i.ip_octet(), 168, 0, m),
        (Transmitter::Basic, ModuleNeighborInfo::Hub(i)) => Ipv4Address(i.ip_octet(), 168, 0, m),
        (Transmitter::Basic, ModuleNeighborInfo::NoNeighbor) => Ipv4Address(192, 168, 0, m),
        (Transmitter::Advanced, ModuleNeighborInfo::NoNeighbor) => Ipv4Address(192, 168, 0, m),
        (Transmitter::Advanced, ModuleNeighborInfo::Advanced(None, None)) => Ipv4Address(192, 168, 0, m),
        (Transmitter::Advanced, ModuleNeighborInfo::Advanced(None, Some(_))) => Ipv4Address(192, 168, 1, m),
        (Transmitter::Advanced, ModuleNeighborInfo::Advanced(Some(i), Some(_))) => Ipv4Address(i.ip_octet(), 168, 1, m),
        (Transmitter::Hub(i), _) => Ipv4Address(i.ip_octet(), 168, 3, m),
        _ => Ipv4Address(0, 0, 0, 0),
    }
}

/// Whether an address plan exists for a transmitter with the given neighbour.
pub fn ip_is_defined(transmitter: &Transmitter, neighbor_info: &ModuleNeighborInfo) -> (r: bool)
    ensures
        r == ip_defined(*transmitter, *neighbor_info),
{
    match (transmitter, neighbor_info) {
        (Transmitter::Basic, ModuleNeighborInfo::Advanced(_, _)) => true,
        (Transmitter::Basic, ModuleNeighborInfo::Hub(_)) => true,
        (Transmitter::Basic, ModuleNeighborInfo::NoNeighbor) => true,
        (Transmitter::Advanced, ModuleNeighborInfo::NoNeighbor) => true,
        (Transmitter::Advanced, ModuleNeighborInfo::Advanced(None, _)) => true,
        (Transmitter::Advanced, ModuleNeighborInfo::Advanced(Some(_), Some(_))) => true,
        (Transmitter::Hub(_), ModuleNeighborInfo::NoNeighbor) => false,
        (Transmitter::Hub(_), _) => true,
        _ => false,
    }
}

/// The address of a system module of a transmitter with the given neighbour.
pub fn determine_ip(
    sysmodule: &Sysmodule,
    transmitter: &Transmitter,
    neighbor_info: &ModuleNeighborInfo,
) -> (r: Ipv4Address)
    requires
        ip_defined(*transmitter, *neighbor_info),
    ensures
        r == address_of(*sysmodule, *transmitter, *neighbor_info),
{
    let sysmodule_octet = sysmodule.to_octet();
    match (transmitter, neighbor_info) {
        (Transmitter::Basic, ModuleNeighborInfo::Advanced(None, _x)) => {
            Ipv4Address(HubIndex::Two.to_ip_octet(), 168, 0, sysmodule_octet)
        },
        (Transmitter::Basic, ModuleNeighborInfo::Advanced(Some(idx), _)) => {
            Ipv4Address(idx.to_ip_octet(), 168, 0, sysmodule_octet)
        },
        (Transmitter::Basic, ModuleNeighborInfo::Hub(idx)) => {
            Ipv4Address(idx.to_ip_octet(), 168, 0, sysmodule_octet)
        },
        (Transmitter::Advanced, ModuleNeighborInfo::Advanced(None, None))
        | (Transmitter::Advanced, ModuleNeighborInfo::NoNeighbor)
        | (Transmitter::Basic, ModuleNeighborInfo::NoNeighbor) => {
            Ipv4Address(HubIndex::One.to_ip_octet(), 168, 0, sysmodule_octet)
        },
        (Transmitter::Advanced, ModuleNeighborInfo::Advanced(None, Some(_trans))) => {
            Ipv4Address(HubIndex::One.to_ip_octet(), 168, 1, sysmodule_octet)
        },
        (Transmitter::Advanced, ModuleNeighborInfo::Advanced(Some(idx), Some(_trans))) => {
            Ipv4Address(idx.to_ip_octet(), 168, 1, sysmodule_octet)
        },
        (Transmitter::Hub(idx), _other) => {
            Ipv4Address(idx.to_ip_octet(), 168, 3, sysmodule_octet)
        },
        (_, _) => {
            proof {
                assert(false);
            }
            Ipv4Address(0, 0, 0, 0)
        },
    }
}

/// Hubs at distinct positions are distinct, and there are four positions.
pub proof fn lemma_hub_position_injective(h1: HubIndex, h2: HubIndex)
    ensures
        h1.position() < 4,
        h1.position() == h2.position() ==> h1 == h2,
{
}

/// Distinct hubs own distinct networks, all within 192 to 195.
pub proof fn lemma_hub_octets_distinct(h1: HubIndex, h2: HubIndex)
    ensures
        192 <= h1.ip_octet() <= 195,
        h1 != h2 ==> h1.ip_octet() != h2.ip_octet(),
{
}

/// Every planned address has 168 as second octet and the module's own
/// octet as last octet.
pub proof fn lemma_address_shape(sysmodule: Sysmodule, transmitter: Transmitter, neighbor_info: ModuleNeighborInfo)
    requires
        ip_defined(transmitter, neighbor_info),
    ensures
        address_of(sysmodule, transmitter, neighbor_info).1 == 168,
        address_of(sysmodule, transmitter, neighbor_info).3 == sysmodule.octet(),
{
}

/// Within one transmitter, distinct system modules get distinct addresses.
pub proof fn lemma_addresses_distinct(
    s1: Sysmodule,
    s2: Sysmodule,
    transmitter: Transmitter,
    neighbor_info: ModuleNeighborInfo,
)
    requires
        ip_defined(transmitter, neighbor_info),
        s1 != s2,
    ensures
        address_of(s1, transmitter, neighbor_info) != address_of(s2, transmitter, neighbor_info),
{
    lemma_address_shape(s1, transmitter, neighbor_info);
    lemma_address_shape(s2, transmitter, neighbor_info);
}

/// The subnet octet of a planned address names the transmitter: 0 on a
/// basic transmitter, 1 on an advanced one with a basic child, 3 on a hub.
pub proof fn lemma_address_subnet(sysmodule: Sysmodule, transmitter: Transmitter, neighbor_info: ModuleNeighborInfo)
    requires
        ip_defined(transmitter, neighbor_info),
    ensures
        transmitter == Transmitter::Basic ==> address_of(sysmodule, transmitter, neighbor_info).2 == 0,
        (transmitter == Transmitter::Advanced && neighbor_info matches ModuleNeighborInfo::Advanced(_, Some(_)))
            ==> address_of(sysmodule, transmitter, neighbor_info).2 == 1,
        transmitter matches Transmitter::Hub(_) ==> address_of(sysmodule, transmitter, neighbor_info).2 == 3,
{
}

/// The network octet of a planned address: the hub's network wherever a hub
/// is known; for a basic transmitter below an advanced one without hub the
/// network 193; for a transmitter on its own, or an advanced one whose only
/// neighbour is a basic child, the network 192.
pub proof fn lemma_address_network(sysmodule: Sysmodule)
    ensures
        forall|i: HubIndex, b: Option<BasicTransmitter>|
            (#[trigger] address_of(sysmodule, Transmitter::Basic, ModuleNeighborInfo::Advanced(Some(i), b))).0
                == i.ip_octet(),
        forall|i: HubIndex|
            (#[trigger] address_of(sysmodule, Transmitter::Basic, ModuleNeighborInfo::Hub(i))).0 == i.ip_octet(),
        forall|b: Option<BasicTransmitter>|
            (#[trigger] address_of(sysmodule, Transmitter::Basic, ModuleNeighborInfo::Advanced(None, b))).0 == 193,
        address_of(sysmodule, Transmitter::Basic, ModuleNeighborInfo::NoNeighbor).0 == 192,
        address_of(sysmodule, Transmitter::Advanced, ModuleNeighborInfo::NoNeighbor).0 == 192,
        forall|b: Option<BasicTransmitter>|
            (#[trigger] address_of(sysmodule, Transmitter::Advanced, ModuleNeighborInfo::Advanced(None, b))).0
                == 192,
        forall|i: HubIndex, t: BasicTransmitter|
            (#[trigger] address_of(
                sysmodule,
                Transmitter::Advanced,
                ModuleNeighborInfo::Advanced(Some(i), Some(t)),
            )).0 == i.ip_octet(),
        forall|i: HubIndex, n: ModuleNeighborInfo|
            (#[trigger] address_of(sysmodule, Transmitter::Hub(i), n)).0 == i.ip_octet(),
{
}

/// Which transmitters have an address plan: a basic one unless its
/// neighbour is another basic one; an advanced one when alone, without hub,
/// or with both a hub and a basic child; a hub unless it has no neighbour.
pub proof fn lemma_plans_defined(neighbor_info: ModuleNeighborInfo, i: HubIndex)
    ensures
        ip_defined(Transmitter::Basic, neighbor_info) <==> neighbor_info != ModuleNeighborInfo::Basic,
        ip_defined(Transmitter::Advanced, neighbor_info) <==> (neighbor_info == ModuleNeighborInfo::NoNeighbor
            || neighbor_info matches ModuleNeighborInfo::Advanced(None, _)
            || neighbor_info matches ModuleNeighborInfo::Advanced(Some(_), Some(_))),
        ip_defined(Transmitter::Hub(i), neighbor_info) <==> neighbor_info != ModuleNeighborInfo::NoNeighbor,
{
}

} // verus!
