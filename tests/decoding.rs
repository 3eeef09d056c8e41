use iwd_scan::bundle::{decode_object, Bundle};
use iwd_scan::fields::{DecodeError, DecodeFault};
use iwd_scan::records::{Adapter, Device, KnownNetwork, Network, Station};
use iwd_scan::schema::{DeviceMode, NetworkType, StationState};
use iwd_scan::value::{lookup, Bag, PropValue};

fn s(t: &str) -> String {
    t.to_string()
}

fn text(t: &str) -> PropValue {
    PropValue::Str(t.to_string())
}

fn path(t: &str) -> PropValue {
    PropValue::Path(t.to_string())
}

fn station_bag(state: &str, scanning: bool) -> Bag {
    vec![
        (s("State"), text(state)),
        (s("ConnectedNetwork"), path("/net/connman/iwd/0/3/abc_psk")),
        (s("Scanning"), PropValue::Bool(scanning)),
    ]
}

fn device_bag() -> Bag {
    vec![
        (s("Name"), text("wlan0")),
        (s("Address"), text("00:11:22:33:44:55")),
        (s("Powered"), PropValue::Bool(true)),
        (s("Adapter"), path("/net/connman/iwd/0")),
        (s("Mode"), text("station")),
    ]
}

fn network_bag(name: &str) -> Bag {
    vec![
        (s("Name"), text(name)),
        (s("Type"), text("psk")),
        (s("Connected"), PropValue::Bool(false)),
        (s("Device"), path("/net/connman/iwd/0/3")),
    ]
}

fn sorted(mut b: Bag) -> Vec<(String, String)> {
    let mut out: Vec<(String, String)> = b.drain(..).map(|(k, v)| (k, format!("{:?}", v))).collect();
    out.sort();
    out
}

fn error_of<T: std::fmt::Debug>(r: Result<T, DecodeError>) -> DecodeError {
    match r {
        Ok(v) => panic!("expected an error, got {:?}", v),
        Err(e) => e,
    }
}

#[test]
fn station_round_trip_reproduces_bag() {
    let bag = station_bag("connected", true);
    let st = Station::decode(&bag).unwrap();
    assert_eq!(st.state, StationState::Connected);
    assert_eq!(st.connected_network.as_deref(), Some("/net/connman/iwd/0/3/abc_psk"));
    assert!(st.scanning);
    assert_eq!(sorted(st.encode()), sorted(bag));
}

#[test]
fn station_without_connected_network_decodes_to_none() {
    let bag: Bag = vec![(s("State"), text("disconnected")), (s("Scanning"), PropValue::Bool(false))];
    let st = Station::decode(&bag).unwrap();
    assert_eq!(st.state, StationState::Disconnected);
    assert_eq!(st.connected_network, None);
    assert_eq!(sorted(st.encode()), sorted(bag));
}

#[test]
fn device_round_trip_reproduces_bag() {
    let bag = device_bag();
    let d = Device::decode(&bag).unwrap();
    assert_eq!(d.name, "wlan0");
    assert_eq!(d.mode, DeviceMode::Station);
    assert_eq!(d.adapter, "/net/connman/iwd/0");
    assert_eq!(sorted(d.encode()), sorted(bag));
}

#[test]
fn network_round_trip_reproduces_bag() {
    let mut bag = network_bag("Foo");
    bag.push((s("KnownNetwork"), path("/net/connman/iwd/466f6f_psk")));
    let n = Network::decode(&bag).unwrap();
    assert_eq!(n.name, "Foo");
    assert_eq!(n.type_, NetworkType::Psk);
    assert!(!n.connected);
    assert_eq!(n.known_network.as_deref(), Some("/net/connman/iwd/466f6f_psk"));
    assert_eq!(sorted(n.encode()), sorted(bag));
}

#[test]
fn known_network_round_trip_reproduces_bag() {
    let bag: Bag = vec![
        (s("Name"), text("Home")),
        (s("Type"), text("8021x")),
        (s("Hidden"), PropValue::Bool(false)),
        (s("LastConnectedTime"), text("2024-01-02T03:04:05Z")),
        (s("AutoConnect"), PropValue::Bool(true)),
    ];
    let k = KnownNetwork::decode(&bag).unwrap();
    assert_eq!(k.type_, NetworkType::Eap);
    assert_eq!(k.last_connected_time, "2024-01-02T03:04:05Z");
    assert!(k.auto_connect);
    assert_eq!(sorted(k.encode()), sorted(bag));
}

#[test]
fn adapter_round_trip_reproduces_bag() {
    let bag: Bag = vec![
        (s("Name"), text("phy0")),
        (s("Powered"), PropValue::Bool(true)),
        (s("Vendor"), text("Intel")),
        (s("SupportedModes"), PropValue::StrList(vec![s("ad-hoc"), s("station"), s("ap")])),
    ];
    let a = Adapter::decode(&bag).unwrap();
    assert_eq!(a.model, None);
    assert_eq!(a.vendor.as_deref(), Some("Intel"));
    assert_eq!(a.supported_modes, vec![DeviceMode::AdHoc, DeviceMode::Station, DeviceMode::Ap]);
    assert_eq!(sorted(a.encode()), sorted(bag));
}

#[test]
fn encode_writes_wire_spellings() {
    let n = Network::decode(&network_bag("Bar")).unwrap();
    let b = n.encode();
    assert!(matches!(lookup(&b, "Type"), Some(PropValue::Str(t)) if t == "psk"));
    let k = KnownNetwork {
        name: s("x"),
        type_: NetworkType::Hotspot,
        hidden: true,
        last_connected_time: s("t"),
        auto_connect: false,
    };
    assert!(matches!(lookup(&k.encode(), "Type"), Some(PropValue::Str(t)) if t == "hotspot"));
}

#[test]
fn unknown_state_is_a_decode_error() {
    let e = error_of(Station::decode(&station_bag("unknown-state", false)));
    assert_eq!(e.interface, "net.connman.iwd.Station");
    assert_eq!(e.field, "State");
    assert!(matches!(e.fault, DecodeFault::Invalid(PropValue::Str(ref t)) if t == "unknown-state"));
}

#[test]
fn enum_spelling_is_case_sensitive() {
    let e = error_of(Station::decode(&station_bag("Connected", false)));
    assert_eq!(e.field, "State");
    assert_eq!(StationState::parse("roaming"), Some(StationState::Roaming));
    assert_eq!(StationState::parse("Roaming"), None);
    assert_eq!(NetworkType::parse("8021x"), Some(NetworkType::Eap));
    assert_eq!(DeviceMode::parse("ad-hoc"), Some(DeviceMode::AdHoc));
    assert_eq!(DeviceMode::parse("adhoc"), None);
}

#[test]
fn missing_field_names_field_and_interface() {
    let bag: Bag = vec![(s("Name"), text("wlan0"))];
    let e = error_of(Device::decode(&bag));
    assert_eq!(e.interface, "net.connman.iwd.Device");
    assert_eq!(e.field, "Address");
    assert!(matches!(e.fault, DecodeFault::Missing));
}

#[test]
fn wrong_shape_is_invalid() {
    let mut bag = device_bag();
    bag[2] = (s("Powered"), text("yes"));
    let e = error_of(Device::decode(&bag));
    assert_eq!(e.field, "Powered");
    assert!(matches!(e.fault, DecodeFault::Invalid(PropValue::Str(ref t)) if t == "yes"));
    let mut bag = network_bag("n");
    bag[3] = (s("Device"), text("/not/a/path/value"));
    let e = error_of(Network::decode(&bag));
    assert_eq!(e.field, "Device");
}

#[test]
fn bad_mode_in_list_rejects_adapter() {
    let bag: Bag = vec![
        (s("Name"), text("phy0")),
        (s("Powered"), PropValue::Bool(true)),
        (s("SupportedModes"), PropValue::StrList(vec![s("station"), s("mesh")])),
    ];
    let e = error_of(Adapter::decode(&bag));
    assert_eq!(e.interface, "net.connman.iwd.Adapter");
    assert_eq!(e.field, "SupportedModes");
}

#[test]
fn later_bag_entry_wins() {
    let mut bag = station_bag("connected", false);
    bag.push((s("Scanning"), PropValue::Bool(true)));
    assert!(Station::decode(&bag).unwrap().scanning);
}

fn bundle_of(ifaces: Vec<(String, Bag)>) -> Bundle {
    decode_object(ifaces).unwrap()
}

#[test]
fn residual_keeps_only_unrecognized_interfaces() {
    let b = bundle_of(vec![
        (s("org.freedesktop.DBus.Properties"), vec![]),
        (s("net.connman.iwd.Station"), station_bag("roaming", false)),
        (s("net.connman.iwd.Device"), device_bag()),
        (
            s("net.connman.iwd.SimpleConfiguration"),
            vec![(s("X"), PropValue::Int(-3)), (s("Y"), PropValue::Double(2.5f64.to_bits()))],
        ),
    ]);
    assert!(b.station.is_some());
    assert!(b.device.is_some());
    let names: Vec<&str> = b.rest.iter().map(|(n, _)| n.as_str()).collect();
    assert_eq!(names, vec!["org.freedesktop.DBus.Properties", "net.connman.iwd.SimpleConfiguration"]);
    assert!(matches!(b.rest[1].1[0].1, PropValue::Int(-3)));
    assert!(matches!(b.rest[1].1[1].1, PropValue::Double(bits) if f64::from_bits(bits) == 2.5));
}

#[test]
fn interface_given_twice_keeps_the_later_one() {
    let b = bundle_of(vec![
        (s("net.connman.iwd.Station"), station_bag("connecting", false)),
        (s("net.connman.iwd.Station"), station_bag("disconnecting", true)),
    ]);
    let st = b.station.unwrap();
    assert_eq!(st.state, StationState::Disconnecting);
    assert!(st.scanning);
}

#[test]
fn decode_error_fails_the_whole_object() {
    let e = error_of(decode_object(vec![
        (s("net.connman.iwd.Device"), device_bag()),
        (s("net.connman.iwd.Station"), station_bag("unknown-state", false)),
        (s("net.connman.iwd.Network"), network_bag("n")),
    ]));
    assert_eq!(e.interface, "net.connman.iwd.Station");
    assert_eq!(e.field, "State");
}

#[test]
fn empty_object_gives_empty_bundle() {
    let b = bundle_of(vec![]);
    assert!(b.station.is_none() && b.device.is_none() && b.network.is_none());
    assert!(b.known_network.is_none() && b.adapter.is_none() && b.rest.is_empty());
}

#[test]
fn unrecognized_interface_given_twice_keeps_the_later_bag() {
    let b = bundle_of(vec![
        (s("org.example.Extra"), vec![(s("V"), PropValue::Int(1))]),
        (s("org.example.Other"), vec![]),
        (s("org.example.Extra"), vec![(s("V"), PropValue::Int(2))]),
    ]);
    assert_eq!(b.rest.len(), 2);
    assert_eq!(b.rest[0].0, "org.example.Extra");
    assert!(matches!(b.rest[0].1[0].1, PropValue::Int(2)));
    assert_eq!(b.rest[1].0, "org.example.Other");
}

#[test]
fn station_and_device_in_any_order_fill_both_slots() {
    let b = bundle_of(vec![
        (s("org.example.Extra"), vec![]),
        (s("net.connman.iwd.Device"), device_bag()),
        (s("org.freedesktop.DBus.Properties"), vec![]),
        (s("net.connman.iwd.Station"), station_bag("connected", false)),
    ]);
    assert!(b.station.is_some() && b.device.is_some());
    assert_eq!(b.rest.len(), 2);
}

#[test]
fn network_only_object_has_no_station_or_device() {
    let b = bundle_of(vec![
        (s("org.example.Extra"), vec![]),
        (s("net.connman.iwd.Network"), network_bag("n")),
    ]);
    assert!(b.network.is_some());
    assert!(b.station.is_none() && b.device.is_none());
}

#[test]
fn bad_station_fails_whatever_the_order() {
    let e = error_of(decode_object(vec![
        (s("net.connman.iwd.Station"), station_bag("unknown-state", false)),
        (s("org.example.Extra"), vec![]),
        (s("net.connman.iwd.Device"), device_bag()),
    ]));
    assert_eq!(e.interface, "net.connman.iwd.Station");
    assert_eq!(e.field, "State");
}
