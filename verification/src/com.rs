//! The COM module's rules: how it configures itself from what its neighbours
//! announce, which addresses it hands out, and where it forwards packets.
use vstd::prelude::*;
use crate::wire::{
    Ipv4Address, Ipv4Cidr, ipv4_header_addresses, ipv4_lengths_ok, ipv4_source,
    ipv4_destination,
};
use crate::discovery::{
    BasicTransmitter, HubIndex, ModuleNeighborInfo, Sysmodule, Transmitter, address_of,
    determine_ip, ip_defined,
};
use crate::codec::{decode_message, parse_discovery_message, lemma_decode_encoding};

verus! {

/// Where a COM module forwards a packet.
#[derive(Clone, Copy, Debug, PartialEq, Eq, Structural)]
pub enum Direction {
    Upstream,
    Downstream,
}

/// The place of a COM module in the P4.
#[derive(Clone, Copy, Debug, PartialEq, Eq, Structural)]
pub enum ComType {
    HubCom(HubIndex),
    AdvUpstream,
    AdvDownstream,
    Basic,
}

/// Port on which COM modules talk over the external bus.
pub const EXTERNAL_BUS_TRANSIENT_PORT: u16 = 6969;

/// Port on which COM modules talk over the internal bus.
pub const INTERNAL_BUS_TRANSIENT_COM_PORT: u16 = 6968;

/// Port on which system modules wait for their address.
pub const ADDRESS_ASSIGNMENT_PORT: u16 = 6967;

/// Address of the external bus before configuration: `192.168.70.1`.
pub fn external_bus_transient_address() -> (r: Ipv4Address)
    ensures
        r == Ipv4Address(192, 168, 70, 1),
{
    Ipv4Address(192, 168, 70, 1)
}

/// Address of the HMI module before configuration: `192.168.69.1`.
pub fn transient_hmi_id() -> (r: Ipv4Address)
    ensures
        r == Ipv4Address(192, 168, 69, 1),
{
    Ipv4Address(192, 168, 69, 1)
}

/// Address of the PV module before configuration: `192.168.69.2`.
pub fn transient_pv_id() -> (r: Ipv4Address)
    ensures
        r == Ipv4Address(192, 168, 69, 2),
{
    Ipv4Address(192, 168, 69, 2)
}

/// Address of the PI module before configuration: `192.168.69.3`.
pub fn transient_pi_id() -> (r: Ipv4Address)
    ensures
        r == Ipv4Address(192, 168, 69, 3),
{
    Ipv4Address(192, 168, 69, 3)
}

/// Address of a COM module on the internal bus: `192.168.69.4`.
pub fn transient_gateway_id() -> (r: Ipv4Address)
    ensures
        r == Ipv4Address(192, 168, 69, 4),
{
    Ipv4Address(192, 168, 69, 4)
}

impl ComType {
    /// The transmitter that a COM module of this type belongs to.
    pub open spec fn transmitter(self) -> Transmitter {
        match self {
            ComType::HubCom(idx) => Transmitter::Hub(idx),
            ComType::AdvUpstream => Transmitter::Advanced,
            ComType::AdvDownstream => Transmitter::Advanced,
            ComType::Basic => Transmitter::Basic,
        }
    }

    /// The transmitter that a COM module of this type belongs to.
    pub fn to_transmitter(self) -> (r: Transmitter)
        ensures
            r == self.transmitter(),
    {
        match self {
            ComType::HubCom(idx) => Transmitter::Hub(idx),
            ComType::AdvUpstream => Transmitter::Advanced,
            ComType::AdvDownstream => Transmitter::Advanced,
            ComType::Basic => Transmitter::Basic,
        }
    }

    /// The network of the external bus before configuration:
    /// `192.168.70.1/24`, whatever the type.
    pub fn external_bus_ip(&self) -> (r: Ipv4Cidr)
        ensures
            r == (Ipv4Cidr { address: Ipv4Address(192, 168, 70, 1), prefix_len: 24 }),
    {
        Ipv4Cidr::new(external_bus_transient_address(), 24)
    }
}

impl From<ComType> for Transmitter {
    /// The transmitter that a COM module of this type belongs to.
    fn from(c: ComType) -> (r: Transmitter) {
        c.to_transmitter()
    }
}

impl vstd::std_specs::convert::FromSpecImpl<ComType> for Transmitter {
    open spec fn obeys_from_spec() -> bool {
        true
    }

    open spec fn from_spec(c: ComType) -> Transmitter {
        c.transmitter()
    }
}

/// An address handed to a system module: sent to `destination` (its
/// address before configuration), carrying `address`.
#[derive(Clone, Copy, Debug, PartialEq, Eq, Structural)]
pub struct AddressAssignment {
    pub destination: Ipv4Address,
    pub address: Ipv4Address,
}

/// A discovery message a COM module sends: to `destination` on `port`.
#[derive(Clone, Debug)]
pub struct Outgoing {
    pub destination: Ipv4Address,
    pub port: u16,
    pub payload: Vec<u8>,
}

/// The message sent to the COM across the external bus, carrying `info`.
pub open spec fn to_external_bus(o: Outgoing, info: ModuleNeighborInfo) -> bool {
    &&& o.destination == Ipv4Address(192, 168, 70, 1)
    &&& o.port == EXTERNAL_BUS_TRANSIENT_PORT
    &&& o.payload@ == info.encoding()
}

/// The message sent to the other COM on the internal bus, carrying `info`.
pub open spec fn to_internal_bus(o: Outgoing, info: ModuleNeighborInfo) -> bool {
    &&& o.destination == Ipv4Address(192, 168, 69, 4)
    &&& o.port == INTERNAL_BUS_TRANSIENT_COM_PORT
    &&& o.payload@ == info.encoding()
}

/// Why a COM module cannot finish its configuration.
#[derive(Clone, Copy, Debug, PartialEq, Eq, Structural)]
pub enum SetupError {
    /// The message from the parent is no discovery message.
    MalformedParentInfo,
    /// The message from the child is no discovery message.
    MalformedChildInfo,
    /// Parent and child form no known configuration.
    UnknownConfiguration,
}

/// The decisions of a COM module: its configuration and assigned address.
#[derive(Clone, Copy, Debug)]
pub struct Com {
    pub initial_configuration: ComType,
    pub assigned_ip: Ipv4Address,
}

/// What a reply that may have timed out says about the neighbour: nothing
/// heard means no neighbour, otherwise the message must be a discovery message.
pub open spec fn neighbor_from_reply(reply: Option<Seq<u8>>) -> Result<ModuleNeighborInfo, ()> {
    match reply {
        None => Ok(ModuleNeighborInfo::NoNeighbor),
        Some(m) => decode_message(m),
    }
}

/// The state an advanced transmitter's upstream COM reaches from its parent
/// (hub side) and child (internal bus side).
pub open spec fn upstream_combination(
    parent: ModuleNeighborInfo,
    child: ModuleNeighborInfo,
) -> Result<ModuleNeighborInfo, SetupError> {
    match (parent, child) {
        (ModuleNeighborInfo::NoNeighbor, ModuleNeighborInfo::NoNeighbor) => Ok(
            ModuleNeighborInfo::Advanced(None, None),
        ),
        (ModuleNeighborInfo::Hub(i), ModuleNeighborInfo::NoNeighbor) => Ok(
            ModuleNeighborInfo::Advanced(Some(i), None),
        ),
        (ModuleNeighborInfo::NoNeighbor, ModuleNeighborInfo::Basic) => Ok(
            ModuleNeighborInfo::Advanced(None, Some(BasicTransmitter())),
        ),
        (ModuleNeighborInfo::Hub(i), ModuleNeighborInfo::Basic) => Ok(
            ModuleNeighborInfo::Advanced(Some(i), Some(BasicTransmitter())),
        ),
        _ => Err(SetupError::UnknownConfiguration),
    }
}

/// The upstream COM's state from the two replies (`None`: nothing heard).
pub open spec fn upstream_state_spec(
    parent_reply: Option<Seq<u8>>,
    child_reply: Option<Seq<u8>>,
) -> Result<ModuleNeighborInfo, SetupError> {
    match neighbor_from_reply(parent_reply) {
        Err(_) => Err(SetupError::MalformedParentInfo),
        Ok(parent) => match neighbor_from_reply(child_reply) {
            Err(_) => Err(SetupError::MalformedChildInfo),
            Ok(child) => upstream_combination(parent, child),
        },
    }
}

/// The state a downstream COM learns over the internal bus; without an answer
/// it assumes an advanced transmitter without hub, with itself as child.
pub open spec fn downstream_state_spec(reply: Option<Seq<u8>>) -> Result<ModuleNeighborInfo, SetupError> {
    match reply {
        None => Ok(ModuleNeighborInfo::Advanced(None, Some(BasicTransmitter()))),
        Some(m) => match decode_message(m) {
            Ok(s) => Ok(s),
            Err(_) => Err(SetupError::MalformedChildInfo),
        },
    }
}

/// What a basic COM learns from its parent (`None`: nothing heard).
pub open spec fn basic_state_spec(reply: Option<Seq<u8>>) -> Result<ModuleNeighborInfo, SetupError> {
    match neighbor_from_reply(reply) {
        Ok(s) => Ok(s),
        Err(_) => Err(SetupError::MalformedParentInfo),
    }
}

/// The view of an optional received message.
pub open spec fn reply_view(reply: Option<Vec<u8>>) -> Option<Seq<u8>> {
    match reply {
        Some(v) => Some(v@),
        None => None,
    }
}

/// Reads an optional reply as neighbour information.
fn read_neighbor(reply: &Option<Vec<u8>>) -> (r: Result<ModuleNeighborInfo, ()>)
    ensures
        r == neighbor_from_reply(reply_view(*reply)),
{
    match reply {
        None => Ok(ModuleNeighborInfo::NoNeighbor),
        Some(m) => parse_discovery_message(m.as_slice()),
    }
}

/// The subnet octet of an address: the index of the transmitter it is on.
pub open spec fn device_index_spec(address: Ipv4Address) -> u8 {
    address.2
}

/// Direction chosen by a basic COM for the given transmitter indices.
pub open spec fn basic_direction(sender_index: u8, destination_index: u8) -> Option<Direction> {
    if sender_index == destination_index {
        None
    } else if destination_index == 0 {
        Some(Direction::Downstream)
    } else {
        Some(Direction::Upstream)
    }
}

/// Direction chosen by the downstream COM of an advanced transmitter.
pub open spec fn advanced_downstream_direction(sender_index: u8, destination_index: u8) -> Option<Direction> {
    if sender_index == destination_index {
        None
    } else if destination_index < 1 {
        Some(Direction::Downstream)
    } else if sender_index < 1 {
        Some(Direction::Upstream)
    } else {
        None
    }
}

/// Direction chosen by the upstream COM of an advanced transmitter.
pub open spec fn advanced_upstream_direction(sender_index: u8, destination_index: u8) -> Option<Direction> {
    if sender_index == destination_index {
        None
    } else if destination_index > 1 {
        Some(Direction::Upstream)
    } else if sender_index > 1 {
        Some(Direction::Downstream)
    } else {
        None
    }
}

/// Direction chosen by a hub COM.
pub open spec fn hub_direction(sender_index: u8, destination_index: u8) -> Option<Direction> {
    if sender_index == destination_index {
        None
    } else if destination_index == 2 {
        Some(Direction::Upstream)
    } else {
        Some(Direction::Downstream)
    }
}

/// Direction chosen by a COM of the given type for a packet between two
/// addresses, by their subnet octets.
pub open spec fn direction_spec(
    configuration: ComType,
    sender: Ipv4Address,
    destination: Ipv4Address,
) -> Option<Direction> {
    let s = device_index_spec(sender);
    let d = device_index_spec(destination);
    match configuration {
        ComType::AdvDownstream => advanced_downstream_direction(s, d),
        ComType::AdvUpstream => advanced_upstream_direction(s, d),
        ComType::Basic => basic_direction(s, d),
        ComType::HubCom(_) => hub_direction(s, d),
    }
}

/// Direction for a raw packet; an error when smoltcp refuses its IPv4 header.
pub open spec fn packet_direction(configuration: ComType, packet: Seq<u8>) -> Result<Option<Direction>, ()> {
    if ipv4_lengths_ok(packet) {
        Ok(direction_spec(configuration, ipv4_source(packet), ipv4_destination(packet)))
    } else {
        Err(())
    }
}

/// The addresses handed out to PI, PV and HMI, in that order.
pub open spec fn assignments_spec(
    transmitter: Transmitter,
    module_info: ModuleNeighborInfo,
) -> Seq<AddressAssignment> {
    seq![
        AddressAssignment {
            destination: Ipv4Address(192, 168, 69, 3),
            address: address_of(Sysmodule::PI, transmitter, module_info),
        },
        AddressAssignment {
            destination: Ipv4Address(192, 168, 69, 2),
            address: address_of(Sysmodule::PV, transmitter, module_info),
        },
        AddressAssignment {
            destination: Ipv4Address(192, 168, 69, 1),
            address: address_of(Sysmodule::HMI, transmitter, module_info),
        },
    ]
}

impl Com {
    /// Transmitter index of a basic transmitter.
    pub const BASIC_INDEX: u8 = 0;

    /// Transmitter index of an advanced transmitter.
    pub const ADVANCED_INDEX: u8 = 1;

    /// Transmitter index of a hub.
    pub const HUB_INDEX: u8 = 2;

    /// A COM module of the given type with no address assigned yet.
    pub fn new(initial_configuration: ComType) -> (r: Com)
        ensures
            r.initial_configuration == initial_configuration,
            r.assigned_ip == Ipv4Address(0, 0, 0, 0),
    {
        Com { initial_configuration, assigned_ip: Ipv4Address::unspecified() }
    }

    /// The transmitter index that an address names: its subnet octet.
    pub fn device_index(address: &Ipv4Address) -> (r: u8)
        ensures
            r == device_index_spec(*address),
    {
        address.2
    }

    /// Direction chosen by a basic COM.
    pub fn determine_direction_basic(sender_index: u8, destination_index: u8) -> (r: Option<Direction>)
        ensures
            r == basic_direction(sender_index, destination_index),
    {
        if sender_index == destination_index {
            return None
        } else if destination_index == Self::BASIC_INDEX {
            return Some(Direction::Downstream)
        } else {
            return Some(Direction::Upstream)
        }
    }

    /// Direction chosen by the downstream COM of an advanced transmitter.
    pub fn determine_direction_advanced_downstream(sender_index: u8, destination_index: u8) -> (r: Option<Direction>)
        ensures
            r == advanced_downstream_direction(sender_index, destination_index),
    {
        if sender_index == destination_index {
            return None
        } else if destination_index < Self::ADVANCED_INDEX {
            return Some(Direction::Downstream)
        } else if destination_index >= Self::ADVANCED_INDEX && sender_index < Self::ADVANCED_INDEX {
            return Some(Direction::Upstream)
        } else {
            return None
        }
    }

    /// Direction chosen by the upstream COM of an advanced transmitter.
    pub fn determine_direction_advanced_upstream(sender_index: u8, destination_index: u8) -> (r: Option<Direction>)
        ensures
            r == advanced_upstream_direction(sender_index, destination_index),
    {
        if sender_index == destination_index {
            return None
        } else if destination_index > Self::ADVANCED_INDEX {
            return Some(Direction::Upstream)
        } else if destination_index <= Self::ADVANCED_INDEX && sender_index > Self::ADVANCED_INDEX {
            return Some(Direction::Downstream)
        } else {
            return None
        }
    }

    /// Direction chosen by a hub COM.
    pub fn determine_direction_hub(sender_index: u8, destination_index: u8) -> (r: Option<Direction>)
        ensures
            r == hub_direction(sender_index, destination_index),
    {
        if sender_index == destination_index {
            return None
        } else if destination_index == Self::HUB_INDEX {
            return Some(Direction::Upstream)
        } else {
            return Some(Direction::Downstream)
        }
    }

    /// Direction chosen by a COM of the given type for a packet from `sender`
    /// to `destination`.
    pub fn determine_direction(
        configuration: ComType,
        sender: &Ipv4Address,
        destination: &Ipv4Address,
    ) -> (r: Option<Direction>)
        ensures
            r == direction_spec(configuration, *sender, *destination),
    {
        let sender_index = Self::device_index(sender);
        let destination_index = Self::device_index(destination);
        match configuration {
            ComType::AdvDownstream => Self::determine_direction_advanced_downstream(sender_index, destination_index),
            ComType::AdvUpstream => Self::determine_direction_advanced_upstream(sender_index, destination_index),
            ComType::Basic => Self::determine_direction_basic(sender_index, destination_index),
            ComType::HubCom(_) => Self::determine_direction_hub(sender_index, destination_index),
        }
    }

    /// Direction for the source and destination that smoltcp read from a
    /// packet's header; an error when it refused the header (`None`).
    pub fn route_addresses(
        configuration: ComType,
        header: Option<(Ipv4Address, Ipv4Address)>,
    ) -> (r: Result<Option<Direction>, ()>)
        ensures
            r == match header {
                Some((s, d)) => Ok(direction_spec(configuration, s, d)),
                None => Err::<Option<Direction>, ()>(()),
            },
    {
        match header {
            Some((s, d)) => Ok(Self::determine_direction(configuration, &s, &d)),
            None => Err(()),
        }
    }

    /// Direction in which this COM forwards a raw packet (`None`: not
    /// forwarded); an error for a packet whose IPv4 header smoltcp refuses.
    pub fn route_packet(&self, packet: &[u8]) -> (r: Result<Option<Direction>, ()>)
        ensures
            r == packet_direction(self.initial_configuration, packet@),
    {
        let header = ipv4_header_addresses(packet);
        Self::route_addresses(self.initial_configuration, header)
    }

    /// The state of an advanced transmitter's upstream COM, from what its
    /// parent and child answered (`None`: nothing heard in time).
    pub fn upstream_state(
        parent_reply: &Option<Vec<u8>>,
        child_reply: &Option<Vec<u8>>,
    ) -> (r: Result<ModuleNeighborInfo, SetupError>)
        ensures
            r == upstream_state_spec(reply_view(*parent_reply), reply_view(*child_reply)),
    {
        let parent = match read_neighbor(parent_reply) {
            Ok(p) => p,
            Err(_) => return Err(SetupError::MalformedParentInfo),
        };
        let child = match read_neighbor(child_reply) {
            Ok(c) => c,
            Err(_) => return Err(SetupError::MalformedChildInfo),
        };
        match (parent, child) {
            (ModuleNeighborInfo::NoNeighbor, ModuleNeighborInfo::NoNeighbor) => Ok(
                ModuleNeighborInfo::Advanced(None, None),
            ),
            (ModuleNeighborInfo::Hub(i), ModuleNeighborInfo::NoNeighbor) => Ok(
                ModuleNeighborInfo::Advanced(Some(i), None),
            ),
            (ModuleNeighborInfo::NoNeighbor, ModuleNeighborInfo::Basic) => Ok(
                ModuleNeighborInfo::Advanced(None, Some(BasicTransmitter())),
            ),
            (ModuleNeighborInfo::Hub(i), ModuleNeighborInfo::Basic) => Ok(
                ModuleNeighborInfo::Advanced(Some(i), Some(BasicTransmitter())),
            ),
            (_, _) => Err(SetupError::UnknownConfiguration),
        }
    }

    /// The state a downstream COM forwards to its child, from the answer
    /// heard on the internal bus (`None`: nothing heard in time).
    pub fn downstream_state(reply: &Option<Vec<u8>>) -> (r: Result<ModuleNeighborInfo, SetupError>)
        ensures
            r == downstream_state_spec(reply_view(*reply)),
    {
        match reply {
            None => Ok(ModuleNeighborInfo::Advanced(None, Some(BasicTransmitter()))),
            Some(m) => match parse_discovery_message(m.as_slice()) {
                Ok(s) => Ok(s),
                Err(_) => Err(SetupError::MalformedChildInfo),
            },
        }
    }

    /// What an upstream COM sends once it knows its state, in this order: the
    /// state to the parent over the external bus, then to the COM below on
    /// the internal bus.
    pub fn upstream_messages(state: &ModuleNeighborInfo) -> (r: Vec<Outgoing>)
        ensures
            r@.len() == 2,
            to_external_bus(r@[0], *state),
            to_internal_bus(r@[1], *state),
    {
        let mut r: Vec<Outgoing> = Vec::new();
        r.push(Outgoing {
            destination: external_bus_transient_address(),
            port: EXTERNAL_BUS_TRANSIENT_PORT,
            payload: state.into_vec(),
        });
        r.push(Outgoing {
            destination: transient_gateway_id(),
            port: INTERNAL_BUS_TRANSIENT_COM_PORT,
            payload: state.into_vec(),
        });
        r
    }

    /// First step of a downstream COM, once it knows whether a child spoke on
    /// the external bus: without a child it stops (`None`); with one it
    /// announces a basic transmitter to the COM above on the internal bus.
    pub fn downstream_start(child_heard: bool) -> (r: Option<Outgoing>)
        ensures
            r is Some <==> child_heard,
            r matches Some(o) ==> to_internal_bus(o, ModuleNeighborInfo::Basic),
    {
        if !child_heard {
            return None;
        }
        Some(Outgoing {
            destination: transient_gateway_id(),
            port: INTERNAL_BUS_TRANSIENT_COM_PORT,
            payload: ModuleNeighborInfo::Basic.into_vec(),
        })
    }

    /// Second step of a downstream COM, from the answer heard on the internal
    /// bus (`None`: nothing in time): the state to send to the child, and the
    /// state to hand out addresses for when this COM does so.
    pub fn downstream_finish(reply: &Option<Vec<u8>>) -> (r: Result<(Outgoing, Option<ModuleNeighborInfo>), SetupError>)
        ensures
            match downstream_state_spec(reply_view(*reply)) {
                Ok(state) => r matches Ok((o, assign)) && to_external_bus(o, state) && assign == (
                    if state matches ModuleNeighborInfo::Advanced(None, _) {
                        Some(state)
                    } else {
                        None
                    }),
                Err(e) => r == Err::<(Outgoing, Option<ModuleNeighborInfo>), SetupError>(e),
            },
    {
        let state = match Self::downstream_state(reply) {
            Ok(s) => s,
            Err(e) => return Err(e),
        };
        let o = Outgoing {
            destination: external_bus_transient_address(),
            port: EXTERNAL_BUS_TRANSIENT_PORT,
            payload: state.into_vec(),
        };
        let assign = if Self::downstream_assigns(&state) {
            Some(state)
        } else {
            None
        };
        Ok((o, assign))
    }

    /// What a basic COM sends first: a basic transmitter's identity, to its
    /// parent over the external bus.
    pub fn basic_announcement() -> (r: Outgoing)
        ensures
            to_external_bus(r, ModuleNeighborInfo::Basic),
    {
        Outgoing {
            destination: external_bus_transient_address(),
            port: EXTERNAL_BUS_TRANSIENT_PORT,
            payload: ModuleNeighborInfo::Basic.into_vec(),
        }
    }

    /// Whether a downstream COM hands out addresses itself for this state:
    /// only when the advanced transmitter above has no hub.
    pub fn downstream_assigns(state: &ModuleNeighborInfo) -> (r: bool)
        ensures
            r == (*state matches ModuleNeighborInfo::Advanced(None, _)),
    {
        match state {
            ModuleNeighborInfo::Advanced(None, _) => true,
            _ => false,
        }
    }

    /// What a basic COM learns from its parent (`None`: nothing heard).
    pub fn basic_state(reply: &Option<Vec<u8>>) -> (r: Result<ModuleNeighborInfo, SetupError>)
        ensures
            r == basic_state_spec(reply_view(*reply)),
    {
        match read_neighbor(reply) {
            Ok(s) => Ok(s),
            Err(_) => Err(SetupError::MalformedParentInfo),
        }
    }

    /// Hands out addresses for the given neighbour information: returns what
    /// to send to PI, PV and HMI, and keeps the COM's own address.
    pub fn assign_ips(&mut self, module_info: &ModuleNeighborInfo) -> (r: Vec<AddressAssignment>)
        requires
            ip_defined(old(self).initial_configuration.transmitter(), *module_info),
        ensures
            r@ == assignments_spec(old(self).initial_configuration.transmitter(), *module_info),
            final(self).initial_configuration == old(self).initial_configuration,
            final(self).assigned_ip == address_of(
                Sysmodule::COM,
                old(self).initial_configuration.transmitter(),
                *module_info,
            ),
    {
        let transmitter = self.initial_configuration.to_transmitter();
        let mut r: Vec<AddressAssignment> = Vec::new();
        r.push(AddressAssignment {
            destination: transient_pi_id(),
            address: determine_ip(&Sysmodule::PI, &transmitter, module_info),
        });
        r.push(AddressAssignment {
            destination: transient_pv_id(),
            address: determine_ip(&Sysmodule::PV, &transmitter, module_info),
        });
        r.push(AddressAssignment {
            destination: transient_hmi_id(),
            address: determine_ip(&Sysmodule::HMI, &transmitter, module_info),
        });
        self.assigned_ip = determine_ip(&Sysmodule::COM, &transmitter, module_info);
        assert(r@ =~= assignments_spec(transmitter, *module_info));
        r
    }
}

/// The network a system module configures from an address-assignment
/// message: the four octets with a 24-bit prefix; none unless there are
/// exactly four octets.
pub fn assigned_network(message: &[u8]) -> (r: Option<Ipv4Cidr>)
    ensures
        r is Some <==> message@.len() == 4,
        r matches Some(c) ==> c == (Ipv4Cidr {
            address: Ipv4Address(message@[0], message@[1], message@[2], message@[3]),
            prefix_len: 24,
        }),
{
    if message.len() != 4 {
        return None;
    }
    Some(Ipv4Cidr::new(Ipv4Address(message[0], message[1], message[2], message[3]), 24))
}

/// A COM never forwards a packet between two addresses on the same
/// transmitter (equal subnet octets).
pub proof fn lemma_no_routing_within_transmitter(
    configuration: ComType,
    sender: Ipv4Address,
    destination: Ipv4Address,
)
    requires
        device_index_spec(sender) == device_index_spec(destination),
    ensures
        direction_spec(configuration, sender, destination) is None,
{
}

/// Between a basic transmitter and the advanced transmitter above it, with
/// the addresses both hand out for their shared state, a packet from the
/// basic side goes upstream through both COM modules and the answer goes
/// downstream through both.
pub proof fn lemma_basic_advanced_routing(
    basic_module: Sysmodule,
    advanced_module: Sysmodule,
    hub: Option<HubIndex>,
)
    ensures
        ({
            let state = ModuleNeighborInfo::Advanced(hub, Some(BasicTransmitter()));
            let b = address_of(basic_module, Transmitter::Basic, state);
            let a = address_of(advanced_module, Transmitter::Advanced, state);
            &&& direction_spec(ComType::Basic, b, a) == Some(Direction::Upstream)
            &&& direction_spec(ComType::AdvDownstream, b, a) == Some(Direction::Upstream)
            &&& direction_spec(ComType::AdvDownstream, a, b) == Some(Direction::Downstream)
            &&& direction_spec(ComType::Basic, a, b) == Some(Direction::Downstream)
            &&& direction_spec(ComType::AdvUpstream, b, a) is None
            &&& direction_spec(ComType::AdvUpstream, a, b) is None
        }),
{
}

/// Whatever state a COM sends down as a discovery message, the downstream
/// COM and the basic COM that receive it read back that same state.
pub proof fn lemma_state_forwarding(state: ModuleNeighborInfo)
    ensures
        downstream_state_spec(Some(state.encoding())) == Ok::<ModuleNeighborInfo, SetupError>(state),
        basic_state_spec(Some(state.encoding())) == Ok::<ModuleNeighborInfo, SetupError>(state),
{
    lemma_decode_encoding(state);
}

/// The upstream COM of an advanced transmitter combines what it hears:
/// hub above and basic transmitter below are both recorded.
pub proof fn lemma_upstream_combines(hub: Option<HubIndex>, has_child: bool)
    ensures
        ({
            let parent = match hub {
                Some(i) => Some(ModuleNeighborInfo::Hub(i).encoding()),
                None => None,
            };
            let child = if has_child {
                Some(ModuleNeighborInfo::Basic.encoding())
            } else {
                None
            };
            upstream_state_spec(parent, child) == Ok::<ModuleNeighborInfo, SetupError>(
                ModuleNeighborInfo::Advanced(hub, if has_child { Some(BasicTransmitter()) } else { None }),
            )
        }),
{
    lemma_decode_encoding(ModuleNeighborInfo::Basic);
    match hub {
        Some(i) => lemma_decode_encoding(ModuleNeighborInfo::Hub(i)),
        None => {},
    }
}

/// An advanced transmitter alone with a basic one below: its downstream COM
/// hears no upstream COM, settles on an advanced state without hub, hands
/// out addresses itself, and the basic COM that reads the state can hand out
/// addresses too.
pub proof fn lemma_advanced_basic_discovery()
    ensures
        ({
            let state = ModuleNeighborInfo::Advanced(None, Some(BasicTransmitter()));
            &&& downstream_state_spec(None) == Ok::<ModuleNeighborInfo, SetupError>(state)
            &&& state matches ModuleNeighborInfo::Advanced(None, _)
            &&& basic_state_spec(Some(state.encoding())) == Ok::<ModuleNeighborInfo, SetupError>(state)
            &&& ip_defined(ComType::AdvDownstream.transmitter(), state)
            &&& ip_defined(ComType::Basic.transmitter(), state)
        }),
{
    lemma_state_forwarding(ModuleNeighborInfo::Advanced(None, Some(BasicTransmitter())));
}

/// The message an address assignment travels in holds four octets, and the
/// network a module configures from it is the assigned address with a
/// 24-bit prefix.
pub proof fn lemma_assignment_message(address: Ipv4Address)
    ensures
        address.octets().len() == 4,
        Ipv4Address(address.octets()[0], address.octets()[1], address.octets()[2], address.octets()[3])
            == address,
{
}

/// A basic COM forwards every packet that leaves its own transmitter:
/// towards subnet 0 downstream, towards any other subnet upstream.
pub proof fn lemma_basic_routing(sender: Ipv4Address, destination: Ipv4Address)
    ensures
        sender.2 != destination.2 && destination.2 == 0 ==> direction_spec(ComType::Basic, sender, destination)
            == Some(Direction::Downstream),
        sender.2 != destination.2 && destination.2 != 0 ==> direction_spec(ComType::Basic, sender, destination)
            == Some(Direction::Upstream),
        sender.2 == destination.2 ==> direction_spec(ComType::Basic, sender, destination) is None,
{
}

/// The downstream COM of an advanced transmitter: packets from the basic side
/// (subnet 0) to any other subnet go upstream, packets to the basic side from
/// any other subnet go downstream, and packets between two subnets other than
/// 0 are left alone.
pub proof fn lemma_advanced_downstream_routing(sender: Ipv4Address, destination: Ipv4Address)
    ensures
        sender.2 == 0 && destination.2 != 0 ==> direction_spec(ComType::AdvDownstream, sender, destination)
            == Some(Direction::Upstream),
        sender.2 != 0 && destination.2 == 0 ==> direction_spec(ComType::AdvDownstream, sender, destination)
            == Some(Direction::Downstream),
        sender.2 != 0 && destination.2 != 0 ==> direction_spec(ComType::AdvDownstream, sender, destination) is None,
        sender.2 == destination.2 ==> direction_spec(ComType::AdvDownstream, sender, destination) is None,
        forall|s: u8, d: u8| s == 0 && d >= 1 ==> #[trigger] advanced_downstream_direction(s, d) == Some(
            Direction::Upstream,
        ),
{
}

/// The upstream COM of an advanced transmitter: packets to a subnet above 1
/// go upstream, packets from a subnet above 1 to subnet 0 or 1 go
/// downstream, and traffic among subnets 0 and 1 is left alone.
pub proof fn lemma_advanced_upstream_routing(sender: Ipv4Address, destination: Ipv4Address)
    ensures
        sender.2 != destination.2 && destination.2 > 1 ==> direction_spec(ComType::AdvUpstream, sender, destination)
            == Some(Direction::Upstream),
        sender.2 > 1 && destination.2 <= 1 ==> direction_spec(ComType::AdvUpstream, sender, destination)
            == Some(Direction::Downstream),
        sender.2 <= 1 && destination.2 <= 1 ==> direction_spec(ComType::AdvUpstream, sender, destination) is None,
        sender.2 == destination.2 ==> direction_spec(ComType::AdvUpstream, sender, destination) is None,
{
}

/// A hub COM forwards every packet that leaves its subnet: towards subnet 2
/// upstream, towards any other subnet downstream.
pub proof fn lemma_hub_routing(i: HubIndex, sender: Ipv4Address, destination: Ipv4Address)
    ensures
        sender.2 != destination.2 && destination.2 == 2 ==> direction_spec(ComType::HubCom(i), sender, destination)
            == Some(Direction::Upstream),
        sender.2 != destination.2 && destination.2 != 2 ==> direction_spec(ComType::HubCom(i), sender, destination)
            == Some(Direction::Downstream),
        sender.2 == destination.2 ==> direction_spec(ComType::HubCom(i), sender, destination) is None,
{
}

/// The module that waits at a transient address on the internal bus.
pub open spec fn transient_owner(destination: Ipv4Address) -> Option<Sysmodule> {
    if destination == Ipv4Address(192, 168, 69, 1) {
        Some(Sysmodule::HMI)
    } else if destination == Ipv4Address(192, 168, 69, 2) {
        Some(Sysmodule::PV)
    } else if destination == Ipv4Address(192, 168, 69, 3) {
        Some(Sysmodule::PI)
    } else {
        None
    }
}

/// Every address a COM hands out goes to the transient address of the
/// module it is planned for; the three destinations are PI's, PV's and
/// HMI's, one each; and the address ends in that module's octet.
pub proof fn lemma_assignments_reach_their_modules(transmitter: Transmitter, module_info: ModuleNeighborInfo)
    requires
        ip_defined(transmitter, module_info),
    ensures
        assignments_spec(transmitter, module_info).len() == 3,
        forall|k: int|
            0 <= k < 3 ==> {
                let a = #[trigger] assignments_spec(transmitter, module_info)[k];
                &&& transient_owner(a.destination) is Some
                &&& a.address == address_of(transient_owner(a.destination).unwrap(), transmitter, module_info)
                &&& a.address.3 == transient_owner(a.destination).unwrap().octet()
            },
        forall|k1: int, k2: int|
            0 <= k1 < k2 < 3 ==> (#[trigger] assignments_spec(transmitter, module_info)[k1]).destination
                != (#[trigger] assignments_spec(transmitter, module_info)[k2]).destination,
        assignments_spec(transmitter, module_info)[0].address.3 == 2,
        assignments_spec(transmitter, module_info)[1].address.3 == 3,
        assignments_spec(transmitter, module_info)[2].address.3 == 4,
{
    crate::discovery::lemma_address_shape(Sysmodule::PI, transmitter, module_info);
    crate::discovery::lemma_address_shape(Sysmodule::PV, transmitter, module_info);
    crate::discovery::lemma_address_shape(Sysmodule::HMI, transmitter, module_info);
}

/// Every state a COM reaches in its configuration has an address plan,
/// except where its transmitter fails: an upstream COM that hears a hub but
/// no basic child, and a basic COM whose parent claims to be basic too. In
/// particular a lone advanced transmitter hands out `192.168.0.x`.
pub proof fn lemma_reached_states_have_plans(
    parent: Option<Seq<u8>>,
    child: Option<Seq<u8>>,
    reply: Option<Seq<u8>>,
    s: ModuleNeighborInfo,
    m: Sysmodule,
)
    ensures
        upstream_state_spec(parent, child) == Ok::<ModuleNeighborInfo, SetupError>(s) && !(s matches ModuleNeighborInfo::Advanced(Some(_), None)) ==> ip_defined(Transmitter::Advanced, s),
        downstream_state_spec(reply) == Ok::<ModuleNeighborInfo, SetupError>(s) && (s matches ModuleNeighborInfo::Advanced(None, _)) ==> ip_defined(Transmitter::Advanced, s),
        downstream_state_spec(None) == Ok::<ModuleNeighborInfo, SetupError>(s) ==> ip_defined(Transmitter::Advanced, s) && ip_defined(Transmitter::Basic, s),
        basic_state_spec(reply) == Ok::<ModuleNeighborInfo, SetupError>(s) && s != ModuleNeighborInfo::Basic ==> ip_defined(Transmitter::Basic, s),
        upstream_state_spec(None, None) == Ok::<ModuleNeighborInfo, SetupError>(ModuleNeighborInfo::Advanced(None, None)),
        ip_defined(Transmitter::Advanced, ModuleNeighborInfo::Advanced(None, None)),
        address_of(m, Transmitter::Advanced, ModuleNeighborInfo::Advanced(None, None)) == Ipv4Address(192, 168, 0, m.octet()),
{
}

} // verus!
