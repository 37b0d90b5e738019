use p4net::com::{
    assigned_network, AddressAssignment, Com, ComType, Outgoing, SetupError, ADDRESS_ASSIGNMENT_PORT,
    EXTERNAL_BUS_TRANSIENT_PORT, INTERNAL_BUS_TRANSIENT_COM_PORT,
};
use p4net::discovery::{BasicTransmitter, HubIndex, ModuleNeighborInfo, Transmitter};
use p4net::wire::{Ipv4Address, Ipv4Cidr};

fn msg(i: ModuleNeighborInfo) -> Option<Vec<u8>> {
    Some(i.into_vec())
}

#[test]
fn ports_and_external_network() {
    assert_eq!(EXTERNAL_BUS_TRANSIENT_PORT, 6969);
    assert_eq!(INTERNAL_BUS_TRANSIENT_COM_PORT, 6968);
    assert_eq!(ADDRESS_ASSIGNMENT_PORT, 6967);
    let c = ComType::AdvUpstream.external_bus_ip();
    assert_eq!(c, Ipv4Cidr { address: Ipv4Address(192, 168, 70, 1), prefix_len: 24 });
    assert_eq!(ComType::Basic.external_bus_ip(), c);
}

#[test]
fn com_types_map_to_transmitters() {
    assert_eq!(ComType::HubCom(HubIndex::Two).to_transmitter(), Transmitter::Hub(HubIndex::Two));
    assert_eq!(ComType::AdvUpstream.to_transmitter(), Transmitter::Advanced);
    assert_eq!(ComType::AdvDownstream.to_transmitter(), Transmitter::Advanced);
    assert_eq!(ComType::Basic.to_transmitter(), Transmitter::Basic);
    let t: Transmitter = ComType::HubCom(HubIndex::Four).into();
    assert_eq!(t, Transmitter::Hub(HubIndex::Four));
    let t: Transmitter = ComType::AdvDownstream.into();
    assert_eq!(t, Transmitter::Advanced);
}

#[test]
fn upstream_state_combinations() {
    let bt = Some(BasicTransmitter());
    assert_eq!(Com::upstream_state(&None, &None), Ok(ModuleNeighborInfo::Advanced(None, None)));
    assert_eq!(
        Com::upstream_state(&msg(ModuleNeighborInfo::Hub(HubIndex::Two)), &None),
        Ok(ModuleNeighborInfo::Advanced(Some(HubIndex::Two), None))
    );
    assert_eq!(
        Com::upstream_state(&None, &msg(ModuleNeighborInfo::Basic)),
        Ok(ModuleNeighborInfo::Advanced(None, bt))
    );
    assert_eq!(
        Com::upstream_state(&msg(ModuleNeighborInfo::Hub(HubIndex::Four)), &msg(ModuleNeighborInfo::Basic)),
        Ok(ModuleNeighborInfo::Advanced(Some(HubIndex::Four), bt))
    );
    assert_eq!(
        Com::upstream_state(&msg(ModuleNeighborInfo::Basic), &None),
        Err(SetupError::UnknownConfiguration)
    );
    assert_eq!(
        Com::upstream_state(&msg(ModuleNeighborInfo::NoNeighbor), &msg(ModuleNeighborInfo::NoNeighbor)),
        Ok(ModuleNeighborInfo::Advanced(None, None))
    );
    assert_eq!(
        Com::upstream_state(&Some(b"garbage".to_vec()), &msg(ModuleNeighborInfo::Basic)),
        Err(SetupError::MalformedParentInfo)
    );
    assert_eq!(
        Com::upstream_state(&None, &Some(b"garbage".to_vec())),
        Err(SetupError::MalformedChildInfo)
    );
    // the parent is read first
    assert_eq!(
        Com::upstream_state(&Some(vec![1]), &Some(vec![2])),
        Err(SetupError::MalformedParentInfo)
    );
}

#[test]
fn downstream_and_basic_states() {
    let bt = Some(BasicTransmitter());
    assert_eq!(Com::downstream_state(&None), Ok(ModuleNeighborInfo::Advanced(None, bt)));
    let s = ModuleNeighborInfo::Advanced(Some(HubIndex::One), bt);
    assert_eq!(Com::downstream_state(&msg(s)), Ok(s));
    assert_eq!(Com::downstream_state(&Some(vec![])), Err(SetupError::MalformedChildInfo));
    assert!(Com::downstream_assigns(&ModuleNeighborInfo::Advanced(None, bt)));
    assert!(Com::downstream_assigns(&ModuleNeighborInfo::Advanced(None, None)));
    assert!(!Com::downstream_assigns(&s));
    assert!(!Com::downstream_assigns(&ModuleNeighborInfo::Basic));

    assert_eq!(Com::basic_state(&None), Ok(ModuleNeighborInfo::NoNeighbor));
    assert_eq!(Com::basic_state(&msg(s)), Ok(s));
    assert_eq!(Com::basic_state(&Some(b"{}".to_vec())), Err(SetupError::MalformedParentInfo));
}

#[test]
fn assign_ips_plan() {
    let mut com = Com::new(ComType::AdvDownstream);
    assert_eq!(com.assigned_ip, Ipv4Address(0, 0, 0, 0));
    let state = ModuleNeighborInfo::Advanced(None, Some(BasicTransmitter()));
    let plan = com.assign_ips(&state);
    assert_eq!(
        plan,
        vec![
            AddressAssignment { destination: Ipv4Address(192, 168, 69, 3), address: Ipv4Address(192, 168, 1, 2) },
            AddressAssignment { destination: Ipv4Address(192, 168, 69, 2), address: Ipv4Address(192, 168, 1, 3) },
            AddressAssignment { destination: Ipv4Address(192, 168, 69, 1), address: Ipv4Address(192, 168, 1, 4) },
        ]
    );
    assert_eq!(com.assigned_ip, Ipv4Address(192, 168, 1, 1));
    assert_eq!(com.initial_configuration, ComType::AdvDownstream);

    let mut basic = Com::new(ComType::Basic);
    let plan = basic.assign_ips(&state);
    assert_eq!(plan[2].address, Ipv4Address(193, 168, 0, 4));
    assert_eq!(basic.assigned_ip, Ipv4Address(193, 168, 0, 1));
}

#[test]
fn assignment_messages_configure_the_module() {
    let a = Ipv4Address(193, 168, 0, 4);
    let bytes = a.to_bytes();
    assert_eq!(bytes, vec![193, 168, 0, 4]);
    assert_eq!(assigned_network(&bytes), Some(Ipv4Cidr { address: a, prefix_len: 24 }));
    assert_eq!(assigned_network(&[1, 2, 3]), None);
    assert_eq!(assigned_network(&[1, 2, 3, 4, 5]), None);
}

fn check(o: &Outgoing, destination: Ipv4Address, port: u16, payload: &[u8]) {
    assert_eq!(o.destination, destination);
    assert_eq!(o.port, port);
    assert_eq!(o.payload, payload.to_vec());
}

#[test]
fn configuration_messages() {
    let external = Ipv4Address(192, 168, 70, 1);
    let gateway = Ipv4Address(192, 168, 69, 4);
    check(&Com::basic_announcement(), external, 6969, b"\"Basic\"");

    assert!(Com::downstream_start(false).is_none());
    let a = Com::downstream_start(true).unwrap();
    check(&a, gateway, 6968, b"\"Basic\"");

    let (o, assign) = Com::downstream_finish(&None).unwrap();
    check(&o, external, 6969, b"{\"Advanced\":[null,[]]}");
    assert_eq!(assign, Some(ModuleNeighborInfo::Advanced(None, Some(BasicTransmitter()))));

    let with_hub = ModuleNeighborInfo::Advanced(Some(HubIndex::Two), Some(BasicTransmitter()));
    let (o, assign) = Com::downstream_finish(&msg(with_hub)).unwrap();
    check(&o, external, 6969, b"{\"Advanced\":[\"Two\",[]]}");
    assert_eq!(assign, None);
    assert!(matches!(Com::downstream_finish(&Some(b"?".to_vec())), Err(SetupError::MalformedChildInfo)));

    let m = Com::upstream_messages(&with_hub);
    assert_eq!(m.len(), 2);
    check(&m[0], external, 6969, b"{\"Advanced\":[\"Two\",[]]}");
    check(&m[1], gateway, 6968, b"{\"Advanced\":[\"Two\",[]]}");
}
