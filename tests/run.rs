use iwd_scan::bundle::{decode_object, Bundle};
use iwd_scan::catalog::{build_catalog, join, path_precedes, Catalog};
use iwd_scan::handle::{OPath, StationTag};
use iwd_scan::records::Network;
use iwd_scan::schema::NetworkType;
use iwd_scan::session::{Action, Event, Phase, Session};
use iwd_scan::value::{Bag, PropValue};

fn s(t: &str) -> String {
    t.to_string()
}

fn net(name: &str) -> Network {
    Network {
        name: s(name),
        type_: NetworkType::Open,
        connected: false,
        device: s("/d"),
        known_network: None,
    }
}

fn station_bag() -> Bag {
    vec![(s("State"), PropValue::Str(s("disconnected"))), (s("Scanning"), PropValue::Bool(false))]
}

fn device_bag() -> Bag {
    vec![
        (s("Name"), PropValue::Str(s("wlan0"))),
        (s("Address"), PropValue::Str(s("aa"))),
        (s("Powered"), PropValue::Bool(true)),
        (s("Adapter"), PropValue::Path(s("/a"))),
        (s("Mode"), PropValue::Str(s("station"))),
    ]
}

fn network_bag(name: &str) -> Bag {
    vec![
        (s("Name"), PropValue::Str(s(name))),
        (s("Type"), PropValue::Str(s("open"))),
        (s("Connected"), PropValue::Bool(false)),
        (s("Device"), PropValue::Path(s("/d"))),
    ]
}

fn object(ifaces: Vec<(&str, Bag)>) -> Bundle {
    decode_object(ifaces.into_iter().map(|(n, b)| (s(n), b)).collect()).unwrap()
}

fn lookup_ab() -> Vec<(String, Network)> {
    vec![(s("A"), net("Foo")), (s("C"), net("Bar"))]
}

fn ranked() -> Vec<(String, i16)> {
    vec![(s("A"), 90), (s("B"), 70), (s("C"), 50)]
}

#[test]
fn join_keeps_order_and_skips_unknown() {
    assert_eq!(join(&ranked(), &lookup_ab()), vec![s("Foo"), s("Bar")]);
}

#[test]
fn join_does_not_resort() {
    let order = vec![(s("C"), -80), (s("A"), -20)];
    assert_eq!(join(&order, &lookup_ab()), vec![s("Bar"), s("Foo")]);
    assert!(join(&vec![], &lookup_ab()).is_empty());
}

#[test]
fn station_and_device_object_is_the_station() {
    let objects = vec![
        (s("/net/connman/iwd/0/3/a"), object(vec![("net.connman.iwd.Network", network_bag("Foo"))])),
        (
            s("/net/connman/iwd/0/3"),
            object(vec![
                ("net.connman.iwd.Station", station_bag()),
                ("net.connman.iwd.Device", device_bag()),
                ("org.freedesktop.DBus.Introspectable", vec![]),
            ]),
        ),
        (s("/net/connman/iwd/0"), object(vec![("net.connman.iwd.Device", device_bag())])),
    ];
    let c = build_catalog(objects);
    assert_eq!(c.station.unwrap().into_path(), "/net/connman/iwd/0/3");
    assert_eq!(c.networks.len(), 1);
    assert_eq!(c.networks[0].0, "/net/connman/iwd/0/3/a");
    assert_eq!(c.networks[0].1.name, "Foo");
}

#[test]
fn network_only_object_is_never_the_station() {
    let objects = vec![(s("/n"), object(vec![("net.connman.iwd.Network", network_bag("Foo"))]))];
    let c = build_catalog(objects);
    assert!(c.station.is_none());
    assert_eq!(c.networks.len(), 1);
}

#[test]
fn least_path_station_wins_in_any_order() {
    let st = || object(vec![("net.connman.iwd.Station", station_bag()), ("net.connman.iwd.Device", device_bag())]);
    let c = build_catalog(vec![(s("/two"), st()), (s("/one"), st())]);
    assert_eq!(c.station.unwrap().as_path(), "/one");
    let c = build_catalog(vec![(s("/one"), st()), (s("/two"), st())]);
    assert_eq!(c.station.unwrap().as_path(), "/one");
}

#[test]
fn path_order_is_lexicographic() {
    assert!(path_precedes("/a", "/b"));
    assert!(!path_precedes("/b", "/a"));
    assert!(path_precedes("/net", "/net/x"));
    assert!(!path_precedes("/net/x", "/net"));
    assert!(!path_precedes("/same", "/same"));
    assert!(path_precedes("", "/"));
}

#[test]
fn path_handle_round_trips() {
    let h: OPath<StationTag> = OPath::from_path(s("/net/connman/iwd/0/3"));
    assert_eq!(h.as_path(), "/net/connman/iwd/0/3");
    assert_eq!(h.into_path(), "/net/connman/iwd/0/3");
}

fn lines(a: Action) -> Vec<String> {
    match a {
        Action::Finish(l) => l,
        other => panic!("expected Finish, got {:?}", other),
    }
}

fn run_to_listing(scan_ok: bool) -> Session {
    let catalog = Catalog { station: Some(OPath::from_path(s("/st"))), networks: lookup_ab() };
    let (mut session, first) = Session::start(catalog);
    assert!(matches!(first, Action::Resolve(ref h) if h.as_path() == "/st"));
    assert_eq!(session.phase, Phase::Resolving);
    assert!(matches!(session.step(Event::Resolved), Action::Scan));
    assert!(matches!(session.step(Event::Scanned { ok: scan_ok }), Action::ListOrdered));
    assert_eq!(session.phase, Phase::Listing);
    session
}

#[test]
fn scan_failure_does_not_stop_listing() {
    let mut failed = run_to_listing(false);
    let mut fine = run_to_listing(true);
    let a = lines(failed.step(Event::Listed(ranked())));
    let b = lines(fine.step(Event::Listed(ranked())));
    assert_eq!(a, vec![s("Foo"), s("Bar")]);
    assert_eq!(a, b);
    assert_eq!(failed.phase, Phase::Done);
}

#[test]
fn no_station_means_no_scan_and_no_output() {
    let catalog = Catalog { station: None, networks: lookup_ab() };
    let (session, first) = Session::start(catalog);
    assert_eq!(session.phase, Phase::Done);
    assert!(lines(first).is_empty());
}

#[test]
fn failed_listing_aborts() {
    let mut session = run_to_listing(true);
    assert!(matches!(session.step(Event::CallFailed), Action::Abort));
    assert_eq!(session.phase, Phase::Done);
}

#[test]
fn failed_resolution_aborts() {
    let catalog = Catalog { station: Some(OPath::from_path(s("/st"))), networks: vec![] };
    let (mut session, _) = Session::start(catalog);
    assert!(matches!(session.step(Event::CallFailed), Action::Abort));
}

#[test]
fn unexpected_event_aborts() {
    let catalog = Catalog { station: Some(OPath::from_path(s("/st"))), networks: vec![] };
    let (mut session, _) = Session::start(catalog);
    assert!(matches!(session.step(Event::Listed(vec![])), Action::Abort));
}

#[test]
fn later_network_with_same_path_replaces_earlier() {
    let objects = vec![
        (s("/n"), object(vec![("net.connman.iwd.Network", network_bag("Old"))])),
        (s("/m"), object(vec![("net.connman.iwd.Network", network_bag("Other"))])),
        (s("/n"), object(vec![("net.connman.iwd.Network", network_bag("New"))])),
    ];
    let c = build_catalog(objects);
    assert_eq!(c.networks.len(), 2);
    assert_eq!(c.networks[0].0, "/n");
    assert_eq!(c.networks[0].1.name, "New");
    assert_eq!(join(&vec![(s("/n"), 1)], &c.networks), vec![s("New")]);
}
