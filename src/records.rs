//! The five record types: how each is decoded from a bag and written back.
use vstd::prelude::*;
use crate::value::{Bag, PropValue, PropView, bag_map, bag_view, lemma_bag_map_push, lookup, texts_view};
use crate::fields::{
    DecodeError, ErrorView, fail_invalid, fail_missing, get_bool, get_opt_path, get_opt_str, get_path, get_str,
    invalid, missing, maybe_path, maybe_str, want_bool, want_path, want_str,
};
use crate::schema::{
    ADAPTER_INTERFACE, DEVICE_INTERFACE, DeviceMode, KNOWN_NETWORK_INTERFACE, NETWORK_INTERFACE,
    NetworkType, STATION_INTERFACE, StationState, get_mode, get_state, get_type,
    lemma_bag_view_insert, mode_from, mode_text, state_text, type_text, want_mode, want_state,
    want_type,
};

verus! {

fn empty_bag() -> (b: Bag)
    ensures
        b@.len() == 0,
        bag_view(bag_map(b@)) == Map::<Seq<char>, PropView>::empty(),
{
    let b: Bag = Vec::new();
    assert(bag_view(bag_map(b@)) =~= Map::<Seq<char>, PropView>::empty());
    b
}

fn put(b: &mut Bag, key: &str, v: PropValue)
    ensures
        bag_view(bag_map(final(b)@)) == bag_view(bag_map(old(b)@)).insert(key@, v@),
{
    let k = String::from_str(key);
    proof {
        lemma_bag_map_push(b@, k, v);
        lemma_bag_view_insert(bag_map(b@), k@, v);
    }
    b.push((k, v));
}

/// The station record: a radio's connection-management state.
#[derive(Clone, Debug)]
pub struct Station {
    pub state: StationState,
    pub connected_network: Option<String>,
    pub scanning: bool,
}

pub open spec fn station_keys() -> Set<Seq<char>> {
    set!["State"@, "ConnectedNetwork"@, "Scanning"@]
}

/// What a station bag decodes to, or the first field that fails.
pub open spec fn station_from(m: Map<Seq<char>, PropValue>) -> Result<Station, ErrorView> {
    let i = STATION_INTERFACE@;
    match want_state(m, i, "State"@) {
        Err(e) => Err(e),
        Ok(state) => match maybe_path(m, i, "ConnectedNetwork"@) {
            Err(e) => Err(e),
            Ok(connected_network) => match want_bool(m, i, "Scanning"@) {
                Err(e) => Err(e),
                Ok(scanning) => Ok(Station { state, connected_network, scanning }),
            },
        },
    }
}

/// The fields that a station record is written as.
pub open spec fn station_fields(s: Station) -> Map<Seq<char>, PropView> {
    let a = Map::<Seq<char>, PropView>::empty().insert("State"@, PropView::Str(state_text(s.state)));
    let b = match s.connected_network {
        Some(p) => a.insert("ConnectedNetwork"@, PropView::Path(p@)),
        None => a,
    };
    b.insert("Scanning"@, PropView::Bool(s.scanning))
}

impl Station {
    /// Decodes a station bag; fields the schema does not name are ignored.
    pub fn decode(bag: &Bag) -> (r: Result<Station, DecodeError>)
        ensures
            r matches Ok(s) ==> station_from(bag_map(bag@)) == Ok::<Station, ErrorView>(s),
            r matches Err(e) ==> station_from(bag_map(bag@)) == Err::<Station, ErrorView>(e@),
    {
        let state = get_state(bag, STATION_INTERFACE, "State")?;
        let connected_network = get_opt_path(bag, STATION_INTERFACE, "ConnectedNetwork")?;
        let scanning = get_bool(bag, STATION_INTERFACE, "Scanning")?;
        Ok(Station { state, connected_network, scanning })
    }

    /// Writes the record back as a bag.
    pub fn encode(&self) -> (b: Bag)
        ensures
            bag_view(bag_map(b@)) == station_fields(*self),
    {
        let mut b = empty_bag();
        put(&mut b, "State", PropValue::Str(String::from_str(self.state.as_text())));
        match &self.connected_network {
            Some(p) => put(&mut b, "ConnectedNetwork", PropValue::Path(p.clone())),
            None => {},
        }
        put(&mut b, "Scanning", PropValue::Bool(self.scanning));
        b
    }
}

/// Decoding a well-formed station bag and writing the record back gives the
/// bag's own values for every field of the schema, and no other field.
pub proof fn station_round_trip(m: Map<Seq<char>, PropValue>)
    requires
        station_from(m) is Ok,
    ensures
        station_fields(station_from(m)->Ok_0) == bag_view(m.restrict(station_keys())),
{
    reveal_strlit("State");
    reveal_strlit("ConnectedNetwork");
    reveal_strlit("Scanning");
    assert(station_fields(station_from(m)->Ok_0) =~= bag_view(m.restrict(station_keys())));
}


/// The device record: a wireless interface.
#[derive(Clone, Debug)]
pub struct Device {
    pub name: String,
    pub address: String,
    pub powered: bool,
    pub adapter: String,
    pub mode: DeviceMode,
}

pub open spec fn device_keys() -> Set<Seq<char>> {
    set!["Name"@, "Address"@, "Powered"@, "Adapter"@, "Mode"@]
}

/// What a device bag decodes to, or the first field that fails.
pub open spec fn device_from(m: Map<Seq<char>, PropValue>) -> Result<Device, ErrorView> {
    let i = DEVICE_INTERFACE@;
    match want_str(m, i, "Name"@) {
        Err(e) => Err(e),
        Ok(name) => match want_str(m, i, "Address"@) {
            Err(e) => Err(e),
            Ok(address) => match want_bool(m, i, "Powered"@) {
                Err(e) => Err(e),
                Ok(powered) => match want_path(m, i, "Adapter"@) {
                    Err(e) => Err(e),
                    Ok(adapter) => match want_mode(m, i, "Mode"@) {
                        Err(e) => Err(e),
                        Ok(mode) => Ok(Device { name, address, powered, adapter, mode }),
                    },
                },
            },
        },
    }
}

/// The fields that a device record is written as.
pub open spec fn device_fields(d: Device) -> Map<Seq<char>, PropView> {
    Map::<Seq<char>, PropView>::empty().insert("Name"@, PropView::Str(d.name@)).insert(
        "Address"@,
        PropView::Str(d.address@),
    ).insert("Powered"@, PropView::Bool(d.powered)).insert(
        "Adapter"@,
        PropView::Path(d.adapter@),
    ).insert("Mode"@, PropView::Str(mode_text(d.mode)))
}

impl Device {
    /// Decodes a device bag; fields the schema does not name are ignored.
    pub fn decode(bag: &Bag) -> (r: Result<Device, DecodeError>)
        ensures
            r matches Ok(d) ==> device_from(bag_map(bag@)) == Ok::<Device, ErrorView>(d),
            r matches Err(e) ==> device_from(bag_map(bag@)) == Err::<Device, ErrorView>(e@),
    {
        let name = get_str(bag, DEVICE_INTERFACE, "Name")?;
        let address = get_str(bag, DEVICE_INTERFACE, "Address")?;
        let powered = get_bool(bag, DEVICE_INTERFACE, "Powered")?;
        let adapter = get_path(bag, DEVICE_INTERFACE, "Adapter")?;
        let mode = get_mode(bag, DEVICE_INTERFACE, "Mode")?;
        Ok(Device { name, address, powered, adapter, mode })
    }

    /// Writes the record back as a bag.
    pub fn encode(&self) -> (b: Bag)
        ensures
            bag_view(bag_map(b@)) == device_fields(*self),
    {
        let mut b = empty_bag();
        put(&mut b, "Name", PropValue::Str(self.name.clone()));
        put(&mut b, "Address", PropValue::Str(self.address.clone()));
        put(&mut b, "Powered", PropValue::Bool(self.powered));
        put(&mut b, "Adapter", PropValue::Path(self.adapter.clone()));
        put(&mut b, "Mode", PropValue::Str(String::from_str(self.mode.as_text())));
        b
    }
}

/// Decoding a well-formed device bag and writing the record back gives the
/// bag's own values for every field of the schema, and no other field.
pub proof fn device_round_trip(m: Map<Seq<char>, PropValue>)
    requires
        device_from(m) is Ok,
    ensures
        device_fields(device_from(m)->Ok_0) == bag_view(m.restrict(device_keys())),
{
    reveal_strlit("Name");
    reveal_strlit("Address");
    reveal_strlit("Powered");
    reveal_strlit("Adapter");
    reveal_strlit("Mode");
    assert(device_fields(device_from(m)->Ok_0) =~= bag_view(m.restrict(device_keys())));
}

/// The network record: one network in range.
#[derive(Clone, Debug)]
pub struct Network {
    pub name: String,
    pub type_: NetworkType,
    pub connected: bool,
    pub device: String,
    pub known_network: Option<String>,
}

pub open spec fn network_keys() -> Set<Seq<char>> {
    set!["Name"@, "Type"@, "Connected"@, "Device"@, "KnownNetwork"@]
}

/// What a network bag decodes to, or the first field that fails.
pub open spec fn network_from(m: Map<Seq<char>, PropValue>) -> Result<Network, ErrorView> {
    let i = NETWORK_INTERFACE@;
    match want_str(m, i, "Name"@) {
        Err(e) => Err(e),
        Ok(name) => match want_type(m, i, "Type"@) {
            Err(e) => Err(e),
            Ok(type_) => match want_bool(m, i, "Connected"@) {
                Err(e) => Err(e),
                Ok(connected) => match want_path(m, i, "Device"@) {
                    Err(e) => Err(e),
                    Ok(device) => match maybe_path(m, i, "KnownNetwork"@) {
                        Err(e) => Err(e),
                        Ok(known_network) => Ok(
                            Network { name, type_, connected, device, known_network },
                        ),
                    },
                },
            },
        },
    }
}

/// The fields that a network record is written as.
pub open spec fn network_fields(n: Network) -> Map<Seq<char>, PropView> {
    let a = Map::<Seq<char>, PropView>::empty().insert("Name"@, PropView::Str(n.name@)).insert(
        "Type"@,
        PropView::Str(type_text(n.type_)),
    ).insert("Connected"@, PropView::Bool(n.connected)).insert(
        "Device"@,
        PropView::Path(n.device@),
    );
    match n.known_network {
        Some(p) => a.insert("KnownNetwork"@, PropView::Path(p@)),
        None => a,
    }
}

impl Network {
    /// Decodes a network bag; fields the schema does not name are ignored.
    pub fn decode(bag: &Bag) -> (r: Result<Network, DecodeError>)
        ensures
            r matches Ok(n) ==> network_from(bag_map(bag@)) == Ok::<Network, ErrorView>(n),
            r matches Err(e) ==> network_from(bag_map(bag@)) == Err::<Network, ErrorView>(e@),
    {
        let name = get_str(bag, NETWORK_INTERFACE, "Name")?;
        let type_ = get_type(bag, NETWORK_INTERFACE, "Type")?;
        let connected = get_bool(bag, NETWORK_INTERFACE, "Connected")?;
        let device = get_path(bag, NETWORK_INTERFACE, "Device")?;
        let known_network = get_opt_path(bag, NETWORK_INTERFACE, "KnownNetwork")?;
        Ok(Network { name, type_, connected, device, known_network })
    }

    /// Writes the record back as a bag.
    pub fn encode(&self) -> (b: Bag)
        ensures
            bag_view(bag_map(b@)) == network_fields(*self),
    {
        let mut b = empty_bag();
        put(&mut b, "Name", PropValue::Str(self.name.clone()));
        put(&mut b, "Type", PropValue::Str(String::from_str(self.type_.as_text())));
        put(&mut b, "Connected", PropValue::Bool(self.connected));
        put(&mut b, "Device", PropValue::Path(self.device.clone()));
        match &self.known_network {
            Some(p) => put(&mut b, "KnownNetwork", PropValue::Path(p.clone())),
            None => {},
        }
        b
    }
}

/// Decoding a well-formed network bag and writing the record back gives the
/// bag's own values for every field of the schema, and no other field.
pub proof fn network_round_trip(m: Map<Seq<char>, PropValue>)
    requires
        network_from(m) is Ok,
    ensures
        network_fields(network_from(m)->Ok_0) == bag_view(m.restrict(network_keys())),
{
    reveal_strlit("Name");
    reveal_strlit("Type");
    reveal_strlit("Connected");
    reveal_strlit("Device");
    reveal_strlit("KnownNetwork");
    assert(network_fields(network_from(m)->Ok_0) =~= bag_view(m.restrict(network_keys())));
}

/// The known-network record: the stored profile of a network joined before.
#[derive(Clone, Debug)]
pub struct KnownNetwork {
    pub name: String,
    pub type_: NetworkType,
    pub hidden: bool,
    pub last_connected_time: String,
    pub auto_connect: bool,
}

pub open spec fn known_network_keys() -> Set<Seq<char>> {
    set!["Name"@, "Type"@, "Hidden"@, "LastConnectedTime"@, "AutoConnect"@]
}

/// What a known-network bag decodes to, or the first field that fails.
pub open spec fn known_network_from(m: Map<Seq<char>, PropValue>) -> Result<
    KnownNetwork,
    ErrorView,
> {
    let i = KNOWN_NETWORK_INTERFACE@;
    match want_str(m, i, "Name"@) {
        Err(e) => Err(e),
        Ok(name) => match want_type(m, i, "Type"@) {
            Err(e) => Err(e),
            Ok(type_) => match want_bool(m, i, "Hidden"@) {
                Err(e) => Err(e),
                Ok(hidden) => match want_str(m, i, "LastConnectedTime"@) {
                    Err(e) => Err(e),
                    Ok(last_connected_time) => match want_bool(m, i, "AutoConnect"@) {
                        Err(e) => Err(e),
                        Ok(auto_connect) => Ok(
                            KnownNetwork { name, type_, hidden, last_connected_time, auto_connect },
                        ),
                    },
                },
            },
        },
    }
}

/// The fields that a known-network record is written as.
pub open spec fn known_network_fields(k: KnownNetwork) -> Map<Seq<char>, PropView> {
    Map::<Seq<char>, PropView>::empty().insert("Name"@, PropView::Str(k.name@)).insert(
        "Type"@,
        PropView::Str(type_text(k.type_)),
    ).insert("Hidden"@, PropView::Bool(k.hidden)).insert(
        "LastConnectedTime"@,
        PropView::Str(k.last_connected_time@),
    ).insert("AutoConnect"@, PropView::Bool(k.auto_connect))
}

impl KnownNetwork {
    /// Decodes a known-network bag; fields the schema does not name are ignored.
    pub fn decode(bag: &Bag) -> (r: Result<KnownNetwork, DecodeError>)
        ensures
            r matches Ok(k) ==> known_network_from(bag_map(bag@)) == Ok::<KnownNetwork, ErrorView>(
                k,
            ),
            r matches Err(e) ==> known_network_from(bag_map(bag@)) == Err::<
                KnownNetwork,
                ErrorView,
            >(e@),
    {
        let name = get_str(bag, KNOWN_NETWORK_INTERFACE, "Name")?;
        let type_ = get_type(bag, KNOWN_NETWORK_INTERFACE, "Type")?;
        let hidden = get_bool(bag, KNOWN_NETWORK_INTERFACE, "Hidden")?;
        let last_connected_time = get_str(bag, KNOWN_NETWORK_INTERFACE, "LastConnectedTime")?;
        let auto_connect = get_bool(bag, KNOWN_NETWORK_INTERFACE, "AutoConnect")?;
        Ok(KnownNetwork { name, type_, hidden, last_connected_time, auto_connect })
    }

    /// Writes the record back as a bag.
    pub fn encode(&self) -> (b: Bag)
        ensures
            bag_view(bag_map(b@)) == known_network_fields(*self),
    {
        let mut b = empty_bag();
        put(&mut b, "Name", PropValue::Str(self.name.clone()));
        put(&mut b, "Type", PropValue::Str(String::from_str(self.type_.as_text())));
        put(&mut b, "Hidden", PropValue::Bool(self.hidden));
        put(&mut b, "LastConnectedTime", PropValue::Str(self.last_connected_time.clone()));
        put(&mut b, "AutoConnect", PropValue::Bool(self.auto_connect));
        b
    }
}

/// Decoding a well-formed known-network bag and writing the record back gives
/// the bag's own values for every field of the schema, and no other field.
pub proof fn known_network_round_trip(m: Map<Seq<char>, PropValue>)
    requires
        known_network_from(m) is Ok,
    ensures
        known_network_fields(known_network_from(m)->Ok_0) == bag_view(
            m.restrict(known_network_keys()),
        ),
{
    reveal_strlit("Name");
    reveal_strlit("Type");
    reveal_strlit("Hidden");
    reveal_strlit("LastConnectedTime");
    reveal_strlit("AutoConnect");
    assert(known_network_fields(known_network_from(m)->Ok_0) =~= bag_view(
        m.restrict(known_network_keys()),
    ));
}


/// The modes that a list of texts reads as, when every text is a mode.
pub open spec fn modes_from(t: Seq<Seq<char>>) -> Option<Seq<DeviceMode>> {
    if forall|j: int| 0 <= j < t.len() ==> (#[trigger] mode_from(t[j])) is Some {
        Some(t.map_values(|x: Seq<char>| mode_from(x)->Some_0))
    } else {
        None
    }
}

/// A required list of device modes.
pub open spec fn want_modes(m: Map<Seq<char>, PropValue>, i: Seq<char>, k: Seq<char>) -> Result<
    Seq<DeviceMode>,
    ErrorView,
> {
    if !m.contains_key(k) {
        Err(missing(i, k))
    } else {
        match m[k] {
            PropValue::StrList(l) => match modes_from(texts_view(l@)) {
                Some(s) => Ok(s),
                None => Err(invalid(i, k, PropValue::StrList(l))),
            },
            v => Err(invalid(i, k, v)),
        }
    }
}

fn get_modes(bag: &Bag, iface: &str, key: &str) -> (r: Result<Vec<DeviceMode>, DecodeError>)
    ensures
        r matches Ok(x) ==> want_modes(bag_map(bag@), iface@, key@) == Ok::<
            Seq<DeviceMode>,
            ErrorView,
        >(x@),
        r matches Err(e) ==> want_modes(bag_map(bag@), iface@, key@) == Err::<
            Seq<DeviceMode>,
            ErrorView,
        >(e@),
{
    match lookup(bag, key) {
        None => Err(fail_missing(iface, key)),
        Some(v) => match v {
            PropValue::StrList(l) => {
                let ghost t = texts_view(l@);
                let mut out: Vec<DeviceMode> = Vec::new();
                let mut i: usize = 0;
                while i < l.len()
                    invariant
                        i <= l.len(),
                        t == texts_view(l@),
                        *v == PropValue::StrList(*l),
                        bag_map(bag@).contains_key(key@) && bag_map(bag@)[key@] == *v,
                        out@.len() == i,
                        forall|j: int| 0 <= j < i ==> mode_from(t[j]) == Some(out@[j]),
                    decreases l.len() - i,
                {
                    match DeviceMode::parse(l[i].as_str()) {
                        Some(x) => out.push(x),
                        None => {
                            assert(mode_from(t[i as int]) is None);
                            assert(modes_from(t) is None);
                            return Err(fail_invalid(iface, key, v));
                        },
                    }
                    i = i + 1;
                }
                assert(out@ =~= t.map_values(|x: Seq<char>| mode_from(x)->Some_0));
                Ok(out)
            },
            _ => Err(fail_invalid(iface, key, v)),
        },
    }
}

/// The adapter record: the physical radio hardware.
#[derive(Clone, Debug)]
pub struct Adapter {
    pub name: String,
    pub powered: bool,
    pub model: Option<String>,
    pub vendor: Option<String>,
    pub supported_modes: Vec<DeviceMode>,
}

/// An adapter record with its list of modes as a sequence.
pub struct AdapterView {
    pub name: String,
    pub powered: bool,
    pub model: Option<String>,
    pub vendor: Option<String>,
    pub supported_modes: Seq<DeviceMode>,
}

impl Adapter {
    pub open spec fn view(&self) -> AdapterView {
        AdapterView {
            name: self.name,
            powered: self.powered,
            model: self.model,
            vendor: self.vendor,
            supported_modes: self.supported_modes@,
        }
    }
}

pub open spec fn adapter_keys() -> Set<Seq<char>> {
    set!["Name"@, "Powered"@, "Model"@, "Vendor"@, "SupportedModes"@]
}

/// What an adapter bag decodes to, or the first field that fails.
pub open spec fn adapter_from(m: Map<Seq<char>, PropValue>) -> Result<AdapterView, ErrorView> {
    let i = ADAPTER_INTERFACE@;
    match want_str(m, i, "Name"@) {
        Err(e) => Err(e),
        Ok(name) => match want_bool(m, i, "Powered"@) {
            Err(e) => Err(e),
            Ok(powered) => match maybe_str(m, i, "Model"@) {
                Err(e) => Err(e),
                Ok(model) => match maybe_str(m, i, "Vendor"@) {
                    Err(e) => Err(e),
                    Ok(vendor) => match want_modes(m, i, "SupportedModes"@) {
                        Err(e) => Err(e),
                        Ok(supported_modes) => Ok(
                            AdapterView { name, powered, model, vendor, supported_modes },
                        ),
                    },
                },
            },
        },
    }
}

/// The fields that an adapter record is written as.
pub open spec fn adapter_fields(a: AdapterView) -> Map<Seq<char>, PropView> {
    let m0 = Map::<Seq<char>, PropView>::empty().insert("Name"@, PropView::Str(a.name@)).insert(
        "Powered"@,
        PropView::Bool(a.powered),
    );
    let m1 = match a.model {
        Some(t) => m0.insert("Model"@, PropView::Str(t@)),
        None => m0,
    };
    let m2 = match a.vendor {
        Some(t) => m1.insert("Vendor"@, PropView::Str(t@)),
        None => m1,
    };
    m2.insert(
        "SupportedModes"@,
        PropView::StrList(a.supported_modes.map_values(|x: DeviceMode| mode_text(x))),
    )
}

impl Adapter {
    /// Decodes an adapter bag; fields the schema does not name are ignored.
    pub fn decode(bag: &Bag) -> (r: Result<Adapter, DecodeError>)
        ensures
            r matches Ok(a) ==> adapter_from(bag_map(bag@)) == Ok::<AdapterView, ErrorView>(a@),
            r matches Err(e) ==> adapter_from(bag_map(bag@)) == Err::<AdapterView, ErrorView>(e@),
    {
        let name = get_str(bag, ADAPTER_INTERFACE, "Name")?;
        let powered = get_bool(bag, ADAPTER_INTERFACE, "Powered")?;
        let model = get_opt_str(bag, ADAPTER_INTERFACE, "Model")?;
        let vendor = get_opt_str(bag, ADAPTER_INTERFACE, "Vendor")?;
        let supported_modes = get_modes(bag, ADAPTER_INTERFACE, "SupportedModes")?;
        Ok(Adapter { name, powered, model, vendor, supported_modes })
    }

    /// Writes the record back as a bag.
    pub fn encode(&self) -> (b: Bag)
        ensures
            bag_view(bag_map(b@)) == adapter_fields(self@),
    {
        let mut b = empty_bag();
        put(&mut b, "Name", PropValue::Str(self.name.clone()));
        put(&mut b, "Powered", PropValue::Bool(self.powered));
        match &self.model {
            Some(t) => put(&mut b, "Model", PropValue::Str(t.clone())),
            None => {},
        }
        match &self.vendor {
            Some(t) => put(&mut b, "Vendor", PropValue::Str(t.clone())),
            None => {},
        }
        let mut texts: Vec<String> = Vec::new();
        let mut i: usize = 0;
        while i < self.supported_modes.len()
            invariant
                i <= self.supported_modes.len(),
                texts@.len() == i,
                forall|j: int| 0 <= j < i ==> texts@[j]@ == mode_text(self.supported_modes@[j]),
            decreases self.supported_modes.len() - i,
        {
            texts.push(String::from_str(self.supported_modes[i].as_text()));
            i = i + 1;
        }
        assert(texts_view(texts@) =~= self.supported_modes@.map_values(
            |x: DeviceMode| mode_text(x),
        ));
        put(&mut b, "SupportedModes", PropValue::StrList(texts));
        b
    }
}

/// Decoding a well-formed adapter bag and writing the record back gives the
/// bag's own values for every field of the schema, and no other field.
pub proof fn adapter_round_trip(m: Map<Seq<char>, PropValue>)
    requires
        adapter_from(m) is Ok,
    ensures
        adapter_fields(adapter_from(m)->Ok_0) == bag_view(m.restrict(adapter_keys())),
{
    reveal_strlit("Name");
    reveal_strlit("Powered");
    reveal_strlit("Model");
    reveal_strlit("Vendor");
    reveal_strlit("SupportedModes");
    let k = "SupportedModes"@;
    if let PropValue::StrList(l) = m[k] {
        let t = texts_view(l@);
        let modes = modes_from(t)->Some_0;
        assert(modes.map_values(|x: DeviceMode| mode_text(x)) =~= t) by {
            assert forall|j: int| 0 <= j < t.len() implies mode_text(modes[j]) == t[j] by {
                assert(mode_from(t[j]) is Some);
            }
        }
    }
    assert(adapter_fields(adapter_from(m)->Ok_0) =~= bag_view(m.restrict(adapter_keys())));
}

} // verus!
