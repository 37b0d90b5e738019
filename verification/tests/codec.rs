use p4net::codec::parse_discovery_message;
use p4net::discovery::{BasicTransmitter, HubIndex, ModuleNeighborInfo};
use serde_json::Value;

fn all_infos() -> Vec<ModuleNeighborInfo> {
    let mut v = vec![ModuleNeighborInfo::NoNeighbor, ModuleNeighborInfo::Basic];
    let hubs = [HubIndex::One, HubIndex::Two, HubIndex::Three, HubIndex::Four];
    for h in hubs.iter() {
        v.push(ModuleNeighborInfo::Hub(*h));
    }
    let opt_hubs = [None, Some(HubIndex::One), Some(HubIndex::Two), Some(HubIndex::Three), Some(HubIndex::Four)];
    for h in opt_hubs.iter() {
        v.push(ModuleNeighborInfo::Advanced(*h, None));
        v.push(ModuleNeighborInfo::Advanced(*h, Some(BasicTransmitter())));
    }
    v
}

fn hub_name(h: HubIndex) -> &'static str {
    match h {
        HubIndex::One => "One",
        HubIndex::Two => "Two",
        HubIndex::Three => "Three",
        HubIndex::Four => "Four",
    }
}

fn as_json_value(i: ModuleNeighborInfo) -> Value {
    let tagged = |name: &str, v: Value| {
        let mut m = serde_json::Map::new();
        m.insert(name.to_string(), v);
        Value::Object(m)
    };
    match i {
        ModuleNeighborInfo::NoNeighbor => Value::String("NoNeighbor".to_string()),
        ModuleNeighborInfo::Basic => Value::String("Basic".to_string()),
        ModuleNeighborInfo::Hub(h) => tagged("Hub", Value::String(hub_name(h).to_string())),
        ModuleNeighborInfo::Advanced(h, b) => {
            let hv = match h {
                Some(h) => Value::String(hub_name(h).to_string()),
                None => Value::Null,
            };
            let bv = match b {
                Some(_) => Value::Array(vec![]),
                None => Value::Null,
            };
            tagged("Advanced", Value::Array(vec![hv, bv]))
        }
    }
}

#[test]
fn messages_are_compact_json() {
    assert_eq!(ModuleNeighborInfo::NoNeighbor.into_vec(), b"\"NoNeighbor\"".to_vec());
    assert_eq!(ModuleNeighborInfo::Basic.into_vec(), b"\"Basic\"".to_vec());
    assert_eq!(ModuleNeighborInfo::Hub(HubIndex::Three).into_vec(), b"{\"Hub\":\"Three\"}".to_vec());
    assert_eq!(
        ModuleNeighborInfo::Advanced(None, Some(BasicTransmitter())).into_vec(),
        b"{\"Advanced\":[null,[]]}".to_vec()
    );
    assert_eq!(
        ModuleNeighborInfo::Advanced(Some(HubIndex::Four), None).into_vec(),
        b"{\"Advanced\":[\"Four\",null]}".to_vec()
    );
}

#[test]
fn messages_agree_with_serde_json() {
    for i in all_infos() {
        let expected = serde_json::to_vec(&as_json_value(i)).unwrap();
        assert_eq!(i.into_vec(), expected);
    }
}

#[test]
fn every_message_reads_back() {
    let infos = all_infos();
    assert_eq!(infos.len(), 16);
    for i in infos.iter() {
        assert_eq!(parse_discovery_message(&i.into_vec()), Ok(*i));
    }
    for a in infos.iter() {
        for b in infos.iter() {
            assert_eq!(a.into_vec() == b.into_vec(), a == b);
        }
    }
}

#[test]
fn whitespace_escapes_and_tagged_units_are_read() {
    let bt = Some(BasicTransmitter());
    assert_eq!(parse_discovery_message(b" \"Basic\""), Ok(ModuleNeighborInfo::Basic));
    assert_eq!(parse_discovery_message(b"\"Basic\" \n"), Ok(ModuleNeighborInfo::Basic));
    assert_eq!(
        parse_discovery_message(b"\t{ \"Hub\" :\r\n\"Two\" }"),
        Ok(ModuleNeighborInfo::Hub(HubIndex::Two))
    );
    assert_eq!(
        parse_discovery_message(b"{\"Advanced\" : [ null , [ ] ] }"),
        Ok(ModuleNeighborInfo::Advanced(None, bt))
    );
    assert_eq!(
        parse_discovery_message(b"{\"Advanced\":[\"Three\",null]}"),
        Ok(ModuleNeighborInfo::Advanced(Some(HubIndex::Three), None))
    );
    assert_eq!(parse_discovery_message(b"\"\\u0042asic\""), Ok(ModuleNeighborInfo::Basic));
    assert_eq!(
        parse_discovery_message(b"{\"H\\u0075b\":\"\\u004fne\"}"),
        Ok(ModuleNeighborInfo::Hub(HubIndex::One))
    );
    assert_eq!(parse_discovery_message(b"\"No\\u004Eeighbor\""), Ok(ModuleNeighborInfo::NoNeighbor));
    assert_eq!(parse_discovery_message(b"{\"Basic\":null}"), Ok(ModuleNeighborInfo::Basic));
    assert_eq!(parse_discovery_message(b"{ \"NoNeighbor\" : null }"), Ok(ModuleNeighborInfo::NoNeighbor));
    assert_eq!(
        parse_discovery_message(b"{\"Hub\":{\"Four\":null}}"),
        Ok(ModuleNeighborInfo::Hub(HubIndex::Four))
    );
    assert_eq!(
        parse_discovery_message(b"{\"Advanced\":[{\"Two\" : null},[]]}"),
        Ok(ModuleNeighborInfo::Advanced(Some(HubIndex::Two), bt))
    );
}

#[test]
fn other_bytes_are_refused() {
    assert_eq!(parse_discovery_message(b""), Err(()));
    assert_eq!(parse_discovery_message(b"   "), Err(()));
    assert_eq!(parse_discovery_message(b"\"Basi\""), Err(()));
    assert_eq!(parse_discovery_message(b"\"basic\""), Err(()));
    assert_eq!(parse_discovery_message(b"{\"Hub\":\"Five\"}"), Err(()));
    assert_eq!(parse_discovery_message(b"not json"), Err(()));
    // trailing characters, trailing comma, wrong array lengths
    assert_eq!(parse_discovery_message(b"\"Basic\" x"), Err(()));
    assert_eq!(parse_discovery_message(b"\"Basic\"\"Basic\""), Err(()));
    assert_eq!(parse_discovery_message(b"{\"Advanced\":[null,null,]}"), Err(()));
    assert_eq!(parse_discovery_message(b"{\"Advanced\":[null]}"), Err(()));
    assert_eq!(parse_discovery_message(b"{\"Advanced\":[null,null,null]}"), Err(()));
    assert_eq!(parse_discovery_message(b"{\"Advanced\":[null,[null]]}"), Err(()));
    // variants with content have no string form; units need null in the tagged form
    assert_eq!(parse_discovery_message(b"\"Hub\""), Err(()));
    assert_eq!(parse_discovery_message(b"\"Advanced\""), Err(()));
    assert_eq!(parse_discovery_message(b"{\"Basic\":[]}"), Err(()));
    assert_eq!(parse_discovery_message(b"{\"Basic\":nul}"), Err(()));
    // a second entry in the tagged form, a missing brace
    assert_eq!(parse_discovery_message(b"{\"Hub\":\"One\",\"x\":1}"), Err(()));
    assert_eq!(parse_discovery_message(b"{\"Hub\":\"One\""), Err(()));
    // escapes that do not spell a name, bad escapes
    assert_eq!(parse_discovery_message(b"\"Basic\\n\""), Err(()));
    assert_eq!(parse_discovery_message(b"\"\\u00zzasic\""), Err(()));
    assert_eq!(parse_discovery_message(b"\"\\U0042asic\""), Err(()));
}
