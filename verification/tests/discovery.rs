use p4net::discovery::{
    determine_ip, ip_is_defined, BasicTransmitter, HubIndex, ModuleNeighborInfo, Sysmodule,
    Transmitter,
};
use p4net::wire::Ipv4Address;

#[test]
fn hub_octets_and_positions() {
    assert_eq!(HubIndex::One.to_ip_octet(), 192);
    assert_eq!(HubIndex::Two.to_ip_octet(), 193);
    assert_eq!(HubIndex::Three.to_ip_octet(), 194);
    assert_eq!(HubIndex::Four.to_ip_octet(), 195);
    for i in 0..4usize {
        let h = HubIndex::try_from_index(i).unwrap();
        assert_eq!(h.index(), i);
    }
    assert_eq!(HubIndex::try_from_index(2), Ok(HubIndex::Three));
    assert_eq!(HubIndex::try_from_index(4), Err(()));
    assert_eq!(HubIndex::try_from_index(usize::MAX), Err(()));
    let h: Result<HubIndex, ()> = 1usize.try_into();
    assert_eq!(h, Ok(HubIndex::Two));
    let h: Result<HubIndex, ()> = 7usize.try_into();
    assert_eq!(h, Err(()));
    assert_eq!(HubIndex::try_from(3usize), Ok(HubIndex::Four));
}

#[test]
fn sysmodule_octets() {
    assert_eq!(Sysmodule::COM.to_octet(), 1);
    assert_eq!(Sysmodule::PI.to_octet(), 2);
    assert_eq!(Sysmodule::PV.to_octet(), 3);
    assert_eq!(Sysmodule::HMI.to_octet(), 4);
}

#[test]
fn determine_ip_table() {
    let bt = Some(BasicTransmitter());
    let adv = |h, b| ModuleNeighborInfo::Advanced(h, b);
    assert_eq!(
        determine_ip(&Sysmodule::PV, &Transmitter::Basic, &adv(None, bt)),
        Ipv4Address(193, 168, 0, 3)
    );
    assert_eq!(
        determine_ip(&Sysmodule::HMI, &Transmitter::Basic, &adv(Some(HubIndex::Three), None)),
        Ipv4Address(194, 168, 0, 4)
    );
    assert_eq!(
        determine_ip(&Sysmodule::PI, &Transmitter::Basic, &ModuleNeighborInfo::Hub(HubIndex::Four)),
        Ipv4Address(195, 168, 0, 2)
    );
    assert_eq!(
        determine_ip(&Sysmodule::COM, &Transmitter::Basic, &ModuleNeighborInfo::NoNeighbor),
        Ipv4Address(192, 168, 0, 1)
    );
    assert_eq!(
        determine_ip(&Sysmodule::HMI, &Transmitter::Advanced, &adv(None, None)),
        Ipv4Address(192, 168, 0, 4)
    );
    assert_eq!(
        determine_ip(&Sysmodule::PV, &Transmitter::Advanced, &ModuleNeighborInfo::NoNeighbor),
        Ipv4Address(192, 168, 0, 3)
    );
    assert_eq!(
        determine_ip(&Sysmodule::PV, &Transmitter::Advanced, &adv(None, bt)),
        Ipv4Address(192, 168, 1, 3)
    );
    assert_eq!(
        determine_ip(&Sysmodule::HMI, &Transmitter::Advanced, &adv(Some(HubIndex::Two), bt)),
        Ipv4Address(193, 168, 1, 4)
    );
    assert_eq!(
        determine_ip(&Sysmodule::PI, &Transmitter::Advanced, &adv(Some(HubIndex::Two), bt)),
        Ipv4Address(193, 168, 1, 2)
    );
    assert_eq!(
        determine_ip(&Sysmodule::COM, &Transmitter::Hub(HubIndex::Two), &ModuleNeighborInfo::Basic),
        Ipv4Address(193, 168, 3, 1)
    );
}

#[test]
fn undefined_plans_are_reported() {
    let bt = Some(BasicTransmitter());
    assert!(!ip_is_defined(&Transmitter::Hub(HubIndex::One), &ModuleNeighborInfo::NoNeighbor));
    assert!(!ip_is_defined(&Transmitter::Basic, &ModuleNeighborInfo::Basic));
    assert!(!ip_is_defined(&Transmitter::Advanced, &ModuleNeighborInfo::Basic));
    assert!(!ip_is_defined(&Transmitter::Advanced, &ModuleNeighborInfo::Hub(HubIndex::One)));
    assert!(!ip_is_defined(
        &Transmitter::Advanced,
        &ModuleNeighborInfo::Advanced(Some(HubIndex::One), None)
    ));
    assert!(ip_is_defined(&Transmitter::Advanced, &ModuleNeighborInfo::Advanced(Some(HubIndex::One), bt)));
    assert!(ip_is_defined(&Transmitter::Hub(HubIndex::One), &ModuleNeighborInfo::Basic));
    assert!(ip_is_defined(&Transmitter::Basic, &ModuleNeighborInfo::NoNeighbor));
}

#[test]
fn modules_of_one_transmitter_get_distinct_addresses() {
    let info = ModuleNeighborInfo::Advanced(None, Some(BasicTransmitter()));
    let all = [Sysmodule::COM, Sysmodule::PI, Sysmodule::PV, Sysmodule::HMI];
    for a in all.iter() {
        for b in all.iter() {
            let x = determine_ip(a, &Transmitter::Basic, &info);
            let y = determine_ip(b, &Transmitter::Basic, &info);
            assert_eq!(x == y, a == b);
        }
    }
}
