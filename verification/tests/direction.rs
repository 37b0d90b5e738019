use p4net::com::{Com, ComType, Direction};
use p4net::wire::Ipv4Address;

#[test]
fn test_basic_direction() {
    let r = Com::determine_direction_basic(Com::ADVANCED_INDEX, Com::BASIC_INDEX);
    assert!(r.is_some() && r.unwrap() == Direction::Downstream);

    let r = Com::determine_direction_basic(Com::HUB_INDEX, Com::BASIC_INDEX);
    assert!(r.is_some() && r.unwrap() == Direction::Downstream);

    let r = Com::determine_direction_basic(Com::BASIC_INDEX, Com::ADVANCED_INDEX);
    assert!(r.expect("direction expected") == Direction::Upstream);

    let r = Com::determine_direction_basic(Com::BASIC_INDEX, Com::HUB_INDEX);
    assert!(r.expect("direction expected") == Direction::Upstream);

    let r = Com::determine_direction_basic(Com::BASIC_INDEX, Com::BASIC_INDEX);
    assert!(r.is_none());
}

#[test]
fn test_advanced_downstream_direction() {
    let r = Com::determine_direction_advanced_downstream(Com::ADVANCED_INDEX, Com::BASIC_INDEX);
    assert!(r.is_some() && r.unwrap() == Direction::Downstream);

    let r = Com::determine_direction_advanced_downstream(Com::ADVANCED_INDEX, Com::HUB_INDEX);
    assert!(r.is_none());

    let r = Com::determine_direction_advanced_downstream(Com::ADVANCED_INDEX, Com::ADVANCED_INDEX);
    assert!(r.is_none());

    let r = Com::determine_direction_advanced_downstream(Com::BASIC_INDEX, Com::ADVANCED_INDEX);
    assert!(r.expect("direction should be given") == Direction::Upstream);

    let r = Com::determine_direction_advanced_downstream(Com::BASIC_INDEX, Com::HUB_INDEX);
    assert!(r.expect("direction should be given") == Direction::Upstream);

    let r = Com::determine_direction_advanced_downstream(Com::HUB_INDEX, Com::BASIC_INDEX);
    assert!(r.expect("direction should be given") == Direction::Downstream);

    let r = Com::determine_direction_advanced_downstream(Com::HUB_INDEX, Com::ADVANCED_INDEX);
    assert!(r.is_none());
}

#[test]
fn test_advanced_upstream_direction() {
    let r = Com::determine_direction_advanced_upstream(Com::ADVANCED_INDEX, Com::BASIC_INDEX);
    assert!(r.is_none());

    let r = Com::determine_direction_advanced_upstream(Com::ADVANCED_INDEX, Com::HUB_INDEX);
    assert!(r.expect("should be upstream") == Direction::Upstream);

    let r = Com::determine_direction_advanced_upstream(Com::ADVANCED_INDEX, Com::ADVANCED_INDEX);
    assert!(r.is_none());

    let r = Com::determine_direction_advanced_upstream(Com::BASIC_INDEX, Com::ADVANCED_INDEX);
    assert!(r.is_none());

    let r = Com::determine_direction_advanced_upstream(Com::BASIC_INDEX, Com::HUB_INDEX);
    assert!(r.expect("direction should be given") == Direction::Upstream);

    let r = Com::determine_direction_advanced_upstream(Com::HUB_INDEX, Com::BASIC_INDEX);
    assert!(r.expect("direction should be given") == Direction::Downstream);

    let r = Com::determine_direction_advanced_upstream(Com::HUB_INDEX, Com::ADVANCED_INDEX);
    assert!(r.unwrap() == Direction::Downstream);
}

#[test]
fn test_hub_direction() {
    let r = Com::determine_direction_hub(Com::HUB_INDEX, Com::BASIC_INDEX);
    assert!(r.expect("should be a value") == Direction::Downstream);

    let r = Com::determine_direction_hub(Com::ADVANCED_INDEX, Com::HUB_INDEX);
    assert!(r.expect("should be upstream") == Direction::Upstream);

    let r = Com::determine_direction_hub(Com::HUB_INDEX, Com::HUB_INDEX);
    assert!(r.is_none());

    let r = Com::determine_direction_hub(Com::BASIC_INDEX, Com::HUB_INDEX);
    assert!(r.expect("direction should be given") == Direction::Upstream);

    let r = Com::determine_direction_hub(Com::HUB_INDEX, Com::BASIC_INDEX);
    assert!(r.expect("direction should be given") == Direction::Downstream);

    let r = Com::determine_direction_hub(Com::HUB_INDEX, Com::ADVANCED_INDEX);
    assert!(r.unwrap() == Direction::Downstream);
}

#[test]
fn determine_direction_reads_the_subnet_octet() {
    let basic_hmi = Ipv4Address(193, 168, 0, 4);
    let advanced_pv = Ipv4Address(192, 168, 1, 3);
    assert_eq!(
        Com::determine_direction(ComType::Basic, &basic_hmi, &advanced_pv),
        Some(Direction::Upstream)
    );
    assert_eq!(
        Com::determine_direction(ComType::AdvDownstream, &basic_hmi, &advanced_pv),
        Some(Direction::Upstream)
    );
    assert_eq!(
        Com::determine_direction(ComType::AdvDownstream, &advanced_pv, &basic_hmi),
        Some(Direction::Downstream)
    );
    assert_eq!(
        Com::determine_direction(ComType::Basic, &advanced_pv, &basic_hmi),
        Some(Direction::Downstream)
    );
    assert_eq!(
        Com::determine_direction(ComType::AdvUpstream, &advanced_pv, &Ipv4Address(192, 168, 3, 1)),
        Some(Direction::Upstream)
    );
    assert_eq!(
        Com::determine_direction(ComType::HubCom(p4net::discovery::HubIndex::One), &advanced_pv, &Ipv4Address(10, 0, 1, 9)),
        None
    );
    assert_eq!(Com::device_index(&Ipv4Address(1, 2, 3, 4)), 3);
}

fn ipv4_header(src: [u8; 4], dst: [u8; 4]) -> Vec<u8> {
    let mut p = vec![0x45u8, 0, 0, 28, 0, 0, 0, 0, 64, 17, 0, 0];
    p.extend_from_slice(&src);
    p.extend_from_slice(&dst);
    p.extend_from_slice(&[0u8; 8]);
    p
}

#[test]
fn route_packet_uses_the_header_addresses() {
    let com = Com::new(ComType::Basic);
    let up = ipv4_header([193, 168, 0, 4], [192, 168, 1, 3]);
    assert_eq!(com.route_packet(&up), Ok(Some(Direction::Upstream)));
    let down = ipv4_header([192, 168, 1, 3], [193, 168, 0, 4]);
    assert_eq!(com.route_packet(&down), Ok(Some(Direction::Downstream)));
    let local = ipv4_header([193, 168, 0, 4], [193, 168, 0, 3]);
    assert_eq!(com.route_packet(&local), Ok(None));
}

#[test]
fn route_packet_refuses_malformed_headers() {
    let com = Com::new(ComType::Basic);
    let up = ipv4_header([193, 168, 0, 4], [192, 168, 1, 3]);
    // shorter than a header
    assert_eq!(com.route_packet(&up[..19]), Err(()));
    // total length beyond the buffer
    let mut long = up.clone();
    long[3] = 200;
    assert_eq!(com.route_packet(&long), Err(()));
    // header length beyond the total length
    let mut hl = up.clone();
    hl[0] = 0x4f;
    assert_eq!(com.route_packet(&hl), Err(()));
    assert_eq!(com.route_packet(&[]), Err(()));
    // the smallest accepted packet: a bare 20-octet header
    let mut bare = up[..20].to_vec();
    bare[3] = 20;
    assert_eq!(com.route_packet(&bare), Ok(Some(Direction::Upstream)));
}

#[test]
fn route_addresses_follows_the_header() {
    let h = Some((Ipv4Address(192, 168, 0, 1), Ipv4Address(192, 168, 2, 1)));
    assert_eq!(Com::route_addresses(ComType::HubCom(p4net::discovery::HubIndex::Two), h), Ok(Some(Direction::Upstream)));
    assert_eq!(Com::route_addresses(ComType::Basic, None), Err(()));
}
