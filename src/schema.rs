//! The five recognized interface names and the enumerations with their
//! wire spellings.
use vstd::prelude::*;
use crate::value::{Bag, PropValue, bag_map, bag_view, same_text};
use crate::fields::{DecodeError, ErrorView, fail_invalid, get_str, invalid, want_str};

verus! {

pub const STATION_INTERFACE: &'static str = "net.connman.iwd.Station";
pub const DEVICE_INTERFACE: &'static str = "net.connman.iwd.Device";
pub const NETWORK_INTERFACE: &'static str = "net.connman.iwd.Network";
pub const KNOWN_NETWORK_INTERFACE: &'static str = "net.connman.iwd.KnownNetwork";
pub const ADAPTER_INTERFACE: &'static str = "net.connman.iwd.Adapter";

/// Connection state of a station.
#[derive(Clone, Copy, PartialEq, Eq, Structural, Debug)]
pub enum StationState {
    Connected,
    Disconnected,
    Connecting,
    Disconnecting,
    Roaming,
}

/// Operating mode of a device.
#[derive(Clone, Copy, PartialEq, Eq, Structural, Debug)]
pub enum DeviceMode {
    AdHoc,
    Station,
    Ap,
}

/// Security type of a network.
#[derive(Clone, Copy, PartialEq, Eq, Structural, Debug)]
pub enum NetworkType {
    Open,
    Wep,
    Psk,
    Eap,
    Hotspot,
}

pub open spec fn state_text(s: StationState) -> Seq<char> {
    match s {
        StationState::Connected => "connected"@,
        StationState::Disconnected => "disconnected"@,
        StationState::Connecting => "connecting"@,
        StationState::Disconnecting => "disconnecting"@,
        StationState::Roaming => "roaming"@,
    }
}

pub open spec fn state_from(t: Seq<char>) -> Option<StationState> {
    if t == "connected"@ {
        Some(StationState::Connected)
    } else if t == "disconnected"@ {
        Some(StationState::Disconnected)
    } else if t == "connecting"@ {
        Some(StationState::Connecting)
    } else if t == "disconnecting"@ {
        Some(StationState::Disconnecting)
    } else if t == "roaming"@ {
        Some(StationState::Roaming)
    } else {
        None
    }
}

pub open spec fn mode_text(m: DeviceMode) -> Seq<char> {
    match m {
        DeviceMode::AdHoc => "ad-hoc"@,
        DeviceMode::Station => "station"@,
        DeviceMode::Ap => "ap"@,
    }
}

pub open spec fn mode_from(t: Seq<char>) -> Option<DeviceMode> {
    if t == "ad-hoc"@ {
        Some(DeviceMode::AdHoc)
    } else if t == "station"@ {
        Some(DeviceMode::Station)
    } else if t == "ap"@ {
        Some(DeviceMode::Ap)
    } else {
        None
    }
}

pub open spec fn type_text(n: NetworkType) -> Seq<char> {
    match n {
        NetworkType::Open => "open"@,
        NetworkType::Wep => "wep"@,
        NetworkType::Psk => "psk"@,
        NetworkType::Eap => "8021x"@,
        NetworkType::Hotspot => "hotspot"@,
    }
}

pub open spec fn type_from(t: Seq<char>) -> Option<NetworkType> {
    if t == "open"@ {
        Some(NetworkType::Open)
    } else if t == "wep"@ {
        Some(NetworkType::Wep)
    } else if t == "psk"@ {
        Some(NetworkType::Psk)
    } else if t == "8021x"@ {
        Some(NetworkType::Eap)
    } else if t == "hotspot"@ {
        Some(NetworkType::Hotspot)
    } else {
        None
    }
}

impl StationState {
    /// The wire spelling of the state.
    pub fn as_text(self) -> (r: &'static str)
        ensures
            r@ == state_text(self),
    {
        match self {
            StationState::Connected => "connected",
            StationState::Disconnected => "disconnected",
            StationState::Connecting => "connecting",
            StationState::Disconnecting => "disconnecting",
            StationState::Roaming => "roaming",
        }
    }

    /// Reads a state from its wire spelling; the match is case-sensitive.
    pub fn parse(t: &str) -> (r: Option<StationState>)
        ensures
            r == state_from(t@),
    {
        if same_text(t, "connected") {
            Some(StationState::Connected)
        } else if same_text(t, "disconnected") {
            Some(StationState::Disconnected)
        } else if same_text(t, "connecting") {
            Some(StationState::Connecting)
        } else if same_text(t, "disconnecting") {
            Some(StationState::Disconnecting)
        } else if same_text(t, "roaming") {
            Some(StationState::Roaming)
        } else {
            None
        }
    }
}

impl DeviceMode {
    /// The wire spelling of the mode.
    pub fn as_text(self) -> (r: &'static str)
        ensures
            r@ == mode_text(self),
    {
        match self {
            DeviceMode::AdHoc => "ad-hoc",
            DeviceMode::Station => "station",
            DeviceMode::Ap => "ap",
        }
    }

    /// Reads a mode from its wire spelling; the match is case-sensitive.
    pub fn parse(t: &str) -> (r: Option<DeviceMode>)
        ensures
            r == mode_from(t@),
    {
        if same_text(t, "ad-hoc") {
            Some(DeviceMode::AdHoc)
        } else if same_text(t, "station") {
            Some(DeviceMode::Station)
        } else if same_text(t, "ap") {
            Some(DeviceMode::Ap)
        } else {
            None
        }
    }
}

impl NetworkType {
    /// The wire spelling of the security type.
    pub fn as_text(self) -> (r: &'static str)
        ensures
            r@ == type_text(self),
    {
        match self {
            NetworkType::Open => "open",
            NetworkType::Wep => "wep",
            NetworkType::Psk => "psk",
            NetworkType::Eap => "8021x",
            NetworkType::Hotspot => "hotspot",
        }
    }

    /// Reads a security type from its wire spelling; the match is case-sensitive.
    pub fn parse(t: &str) -> (r: Option<NetworkType>)
        ensures
            r == type_from(t@),
    {
        if same_text(t, "open") {
            Some(NetworkType::Open)
        } else if same_text(t, "wep") {
            Some(NetworkType::Wep)
        } else if same_text(t, "psk") {
            Some(NetworkType::Psk)
        } else if same_text(t, "8021x") {
            Some(NetworkType::Eap)
        } else if same_text(t, "hotspot") {
            Some(NetworkType::Hotspot)
        } else {
            None
        }
    }
}

/// A required station-state field.
pub open spec fn want_state(m: Map<Seq<char>, PropValue>, i: Seq<char>, k: Seq<char>) -> Result<
    StationState,
    ErrorView,
> {
    match want_str(m, i, k) {
        Err(e) => Err(e),
        Ok(s) => match state_from(s@) {
            Some(x) => Ok(x),
            None => Err(invalid(i, k, PropValue::Str(s))),
        },
    }
}

/// A required device-mode field.
pub open spec fn want_mode(m: Map<Seq<char>, PropValue>, i: Seq<char>, k: Seq<char>) -> Result<
    DeviceMode,
    ErrorView,
> {
    match want_str(m, i, k) {
        Err(e) => Err(e),
        Ok(s) => match mode_from(s@) {
            Some(x) => Ok(x),
            None => Err(invalid(i, k, PropValue::Str(s))),
        },
    }
}

/// A required security-type field.
pub open spec fn want_type(m: Map<Seq<char>, PropValue>, i: Seq<char>, k: Seq<char>) -> Result<
    NetworkType,
    ErrorView,
> {
    match want_str(m, i, k) {
        Err(e) => Err(e),
        Ok(s) => match type_from(s@) {
            Some(x) => Ok(x),
            None => Err(invalid(i, k, PropValue::Str(s))),
        },
    }
}

pub fn get_state(bag: &Bag, iface: &str, key: &str) -> (r: Result<StationState, DecodeError>)
    ensures
        r matches Ok(x) ==> want_state(bag_map(bag@), iface@, key@) == Ok::<
            StationState,
            ErrorView,
        >(x),
        r matches Err(e) ==> want_state(bag_map(bag@), iface@, key@) == Err::<
            StationState,
            ErrorView,
        >(e@),
{
    let s = get_str(bag, iface, key)?;
    match StationState::parse(s.as_str()) {
        Some(x) => Ok(x),
        None => Err(fail_invalid(iface, key, &PropValue::Str(s))),
    }
}

pub fn get_mode(bag: &Bag, iface: &str, key: &str) -> (r: Result<DeviceMode, DecodeError>)
    ensures
        r matches Ok(x) ==> want_mode(bag_map(bag@), iface@, key@) == Ok::<DeviceMode, ErrorView>(
            x,
        ),
        r matches Err(e) ==> want_mode(bag_map(bag@), iface@, key@) == Err::<
            DeviceMode,
            ErrorView,
        >(e@),
{
    let s = get_str(bag, iface, key)?;
    match DeviceMode::parse(s.as_str()) {
        Some(x) => Ok(x),
        None => Err(fail_invalid(iface, key, &PropValue::Str(s))),
    }
}

pub fn get_type(bag: &Bag, iface: &str, key: &str) -> (r: Result<NetworkType, DecodeError>)
    ensures
        r matches Ok(x) ==> want_type(bag_map(bag@), iface@, key@) == Ok::<
            NetworkType,
            ErrorView,
        >(x),
        r matches Err(e) ==> want_type(bag_map(bag@), iface@, key@) == Err::<
            NetworkType,
            ErrorView,
        >(e@),
{
    let s = get_str(bag, iface, key)?;
    match NetworkType::parse(s.as_str()) {
        Some(x) => Ok(x),
        None => Err(fail_invalid(iface, key, &PropValue::Str(s))),
    }
}

pub proof fn lemma_bag_view_insert(m: Map<Seq<char>, PropValue>, k: Seq<char>, v: PropValue)
    ensures
        bag_view(m.insert(k, v)) == bag_view(m).insert(k, v@),
{
    assert(bag_view(m.insert(k, v)) =~= bag_view(m).insert(k, v@));
}

} // verus!
