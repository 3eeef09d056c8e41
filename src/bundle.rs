//! Decoding all the interfaces of one object into a capability bundle.
use vstd::prelude::*;
use crate::value::{Bag, bag_map, same_text};
use crate::keyed::{lemma_slot_of, lemma_upsert_unique, names_unique, slot_of, upsert, upserted};
use crate::fields::{DecodeError, ErrorView};
use crate::schema::{
    ADAPTER_INTERFACE, DEVICE_INTERFACE, KNOWN_NETWORK_INTERFACE, NETWORK_INTERFACE,
    STATION_INTERFACE,
};
use crate::records::{
    Adapter, AdapterView, Device, KnownNetwork, Network, Station, adapter_from, device_from,
    known_network_from, network_from, station_from,
};

verus! {

/// Everything one object offers: at most one record per recognized
/// interface, and for every other interface name the last bag given.
#[derive(Debug)]
pub struct Bundle {
    pub station: Option<Station>,
    pub device: Option<Device>,
    pub network: Option<Network>,
    pub known_network: Option<KnownNetwork>,
    pub adapter: Option<Adapter>,
    pub rest: Vec<(String, Bag)>,
}

pub struct BundleView {
    pub station: Option<Station>,
    pub device: Option<Device>,
    pub network: Option<Network>,
    pub known_network: Option<KnownNetwork>,
    pub adapter: Option<AdapterView>,
    pub rest: Seq<(String, Bag)>,
}

impl Bundle {
    pub open spec fn view(&self) -> BundleView {
        BundleView {
            station: self.station,
            device: self.device,
            network: self.network,
            known_network: self.known_network,
            adapter: match self.adapter {
                Some(a) => Some(a@),
                None => None,
            },
            rest: self.rest@,
        }
    }

    /// A bundle with no interface at all.
    pub fn empty() -> (b: Bundle)
        ensures
            b@ == empty_bundle(),
    {
        Bundle {
            station: None,
            device: None,
            network: None,
            known_network: None,
            adapter: None,
            rest: Vec::new(),
        }
    }
}

pub open spec fn empty_bundle() -> BundleView {
    BundleView {
        station: None,
        device: None,
        network: None,
        known_network: None,
        adapter: None,
        rest: Seq::empty(),
    }
}

/// Whether an interface name is one of the five that have a schema.
pub open spec fn is_recognized(n: Seq<char>) -> bool {
    n == STATION_INTERFACE@ || n == DEVICE_INTERFACE@ || n == NETWORK_INTERFACE@ || n
        == KNOWN_NETWORK_INTERFACE@ || n == ADAPTER_INTERFACE@
}

/// One interface added to a bundle: a recognized one is decoded into its
/// slot, replacing what was there; any other is put in the residual, where
/// it replaces an earlier bag of the same name.
pub open spec fn add_interface(b: BundleView, n: Seq<char>, name: String, bag: Bag) -> Result<
    BundleView,
    ErrorView,
> {
    let m = bag_map(bag@);
    if n == STATION_INTERFACE@ {
        match station_from(m) {
            Ok(s) => Ok(BundleView { station: Some(s), ..b }),
            Err(e) => Err(e),
        }
    } else if n == DEVICE_INTERFACE@ {
        match device_from(m) {
            Ok(d) => Ok(BundleView { device: Some(d), ..b }),
            Err(e) => Err(e),
        }
    } else if n == NETWORK_INTERFACE@ {
        match network_from(m) {
            Ok(w) => Ok(BundleView { network: Some(w), ..b }),
            Err(e) => Err(e),
        }
    } else if n == KNOWN_NETWORK_INTERFACE@ {
        match known_network_from(m) {
            Ok(k) => Ok(BundleView { known_network: Some(k), ..b }),
            Err(e) => Err(e),
        }
    } else if n == ADAPTER_INTERFACE@ {
        match adapter_from(m) {
            Ok(a) => Ok(BundleView { adapter: Some(a), ..b }),
            Err(e) => Err(e),
        }
    } else {
        Ok(BundleView { rest: upserted(b.rest, name, bag), ..b })
    }
}

/// The bundle that a list of (interface, bag) pairs decodes to, taken in
/// order; the first interface that fails to decode fails the whole object.
pub open spec fn bundle_from(s: Seq<(String, Bag)>) -> Result<BundleView, ErrorView>
    decreases s.len(),
{
    if s.len() == 0 {
        Ok(empty_bundle())
    } else {
        match bundle_from(s.drop_last()) {
            Err(e) => Err(e),
            Ok(b) => add_interface(b, s.last().0@, s.last().0, s.last().1),
        }
    }
}

proof fn lemma_error_stays(s: Seq<(String, Bag)>, k: int)
    requires
        0 <= k <= s.len(),
        bundle_from(s.take(k)) is Err,
    ensures
        bundle_from(s) == bundle_from(s.take(k)),
    decreases s.len(),
{
    if k == s.len() {
        assert(s.take(k) =~= s);
    } else {
        assert(s.drop_last().take(k) =~= s.take(k));
        lemma_error_stays(s.drop_last(), k);
    }
}

/// Adds one interface to a bundle, as `add_interface` says.
fn add_to(acc: &mut Bundle, name: String, bag: Bag) -> (r: Result<(), DecodeError>)
    ensures
        r is Ok ==> add_interface(old(acc)@, name@, name, bag) == Ok::<BundleView, ErrorView>(
            final(acc)@,
        ),
        r matches Err(e) ==> add_interface(old(acc)@, name@, name, bag) == Err::<
            BundleView,
            ErrorView,
        >(e@),
{
    let n = name.as_str();
    if same_text(n, STATION_INTERFACE) {
        acc.station = Some(Station::decode(&bag)?);
    } else if same_text(n, DEVICE_INTERFACE) {
        acc.device = Some(Device::decode(&bag)?);
    } else if same_text(n, NETWORK_INTERFACE) {
        acc.network = Some(Network::decode(&bag)?);
    } else if same_text(n, KNOWN_NETWORK_INTERFACE) {
        acc.known_network = Some(KnownNetwork::decode(&bag)?);
    } else if same_text(n, ADAPTER_INTERFACE) {
        acc.adapter = Some(Adapter::decode(&bag)?);
    } else {
        upsert(&mut acc.rest, name, bag);
    }
    Ok(())
}

/// Decodes one object's interfaces into its bundle.
pub fn decode_object(ifaces: Vec<(String, Bag)>) -> (r: Result<Bundle, DecodeError>)
    ensures
        r matches Ok(b) ==> bundle_from(ifaces@) == Ok::<BundleView, ErrorView>(b@),
        r matches Err(e) ==> bundle_from(ifaces@) == Err::<BundleView, ErrorView>(e@),
{
    let ghost orig = ifaces@;
    let mut todo = ifaces;
    let mut acc = Bundle::empty();
    let mut done: usize = 0;
    assert(todo.len() <= usize::MAX);
    while todo.len() > 0
        invariant
            done <= orig.len() <= usize::MAX,
            orig == ifaces@,
            todo@ == orig.subrange(done as int, orig.len() as int),
            bundle_from(orig.take(done as int)) == Ok::<BundleView, ErrorView>(acc@),
        decreases todo.len(),
    {
        let (name, bag) = todo.remove(0);
        proof {
            assert(orig.take(done + 1).drop_last() =~= orig.take(done as int));
            assert(orig[done as int] == (name, bag));
        }
        match add_to(&mut acc, name, bag) {
            Ok(()) => {},
            Err(e) => {
                proof {
                    lemma_error_stays(orig, done + 1);
                }
                return Err(e);
            },
        }
        done = done + 1;
    }
    assert(orig.take(done as int) =~= orig);
    Ok(acc)
}

/// The bag of the last entry with the given interface name, if any.
pub open spec fn last_bag(s: Seq<(String, Bag)>, n: Seq<char>) -> Option<Bag>
    decreases s.len(),
{
    if s.len() == 0 {
        None
    } else if s.last().0@ == n {
        Some(s.last().1)
    } else {
        last_bag(s.drop_last(), n)
    }
}

/// For all objects that decode, the residual part of the bundle holds none
/// of the five recognized interface names.
pub proof fn residual_unrecognized(s: Seq<(String, Bag)>)
    requires
        bundle_from(s) is Ok,
    ensures
        forall|i: int|
            0 <= i < (bundle_from(s)->Ok_0).rest.len() ==> !is_recognized(
                #[trigger] (bundle_from(s)->Ok_0).rest[i].0@,
            ),
    decreases s.len(),
{
    if s.len() > 0 {
        residual_unrecognized(s.drop_last());
        lemma_slot_of((bundle_from(s.drop_last())->Ok_0).rest, s.last().0@);
    }
}

/// Last write wins: each slot of the bundle holds the decoding of the last
/// bag given for its interface, whatever came before it.
pub proof fn last_write_wins(s: Seq<(String, Bag)>)
    requires
        bundle_from(s) is Ok,
    ensures
        (bundle_from(s)->Ok_0).station == match last_bag(s, STATION_INTERFACE@) {
            Some(bag) => Some(station_from(bag_map(bag@))->Ok_0),
            None => None,
        },
        (bundle_from(s)->Ok_0).device == match last_bag(s, DEVICE_INTERFACE@) {
            Some(bag) => Some(device_from(bag_map(bag@))->Ok_0),
            None => None,
        },
        (bundle_from(s)->Ok_0).network == match last_bag(s, NETWORK_INTERFACE@) {
            Some(bag) => Some(network_from(bag_map(bag@))->Ok_0),
            None => None,
        },
        (bundle_from(s)->Ok_0).known_network == match last_bag(s, KNOWN_NETWORK_INTERFACE@) {
            Some(bag) => Some(known_network_from(bag_map(bag@))->Ok_0),
            None => None,
        },
        (bundle_from(s)->Ok_0).adapter == match last_bag(s, ADAPTER_INTERFACE@) {
            Some(bag) => Some(adapter_from(bag_map(bag@))->Ok_0),
            None => None,
        },
    decreases s.len(),
{
    reveal_strlit("net.connman.iwd.Station");
    reveal_strlit("net.connman.iwd.Device");
    reveal_strlit("net.connman.iwd.Network");
    reveal_strlit("net.connman.iwd.KnownNetwork");
    reveal_strlit("net.connman.iwd.Adapter");
    assert(STATION_INTERFACE@.len() != DEVICE_INTERFACE@.len());
    assert(STATION_INTERFACE@[16] != NETWORK_INTERFACE@[16]);
    assert(STATION_INTERFACE@[16] != ADAPTER_INTERFACE@[16]);
    assert(NETWORK_INTERFACE@[16] != ADAPTER_INTERFACE@[16]);
    assert(KNOWN_NETWORK_INTERFACE@.len() != STATION_INTERFACE@.len());
    assert(KNOWN_NETWORK_INTERFACE@.len() != DEVICE_INTERFACE@.len());
    if s.len() > 0 {
        last_write_wins(s.drop_last());
    }
}

/// The residual is a mapping: no name occurs twice in it, each entry holds
/// the last bag given under its name, and every unrecognized name that was
/// given has its entry.
pub proof fn residual_is_mapping(s: Seq<(String, Bag)>)
    requires
        bundle_from(s) is Ok,
    ensures
        names_unique((bundle_from(s)->Ok_0).rest),
        forall|i: int|
            0 <= i < (bundle_from(s)->Ok_0).rest.len() ==> last_bag(
                s,
                #[trigger] (bundle_from(s)->Ok_0).rest[i].0@,
            ) == Some((bundle_from(s)->Ok_0).rest[i].1),
        forall|n: Seq<char>|
            !is_recognized(n) && #[trigger] last_bag(s, n) is Some ==> exists|i: int|
                0 <= i < (bundle_from(s)->Ok_0).rest.len() && (bundle_from(s)->Ok_0).rest[i].0@
                    == n,
    decreases s.len(),
{
    if s.len() > 0 {
        let t = s.drop_last();
        residual_is_mapping(t);
        let old_rest = (bundle_from(t)->Ok_0).rest;
        let new_rest = (bundle_from(s)->Ok_0).rest;
        let (name, bag) = s.last();
        if !is_recognized(name@) {
            lemma_slot_of(old_rest, name@);
            lemma_upsert_unique(old_rest, name, bag);
            assert(new_rest == upserted(old_rest, name, bag));
        } else {
            assert(new_rest == old_rest);
        }
        residual_unrecognized(t);
        assert forall|i: int| 0 <= i < new_rest.len() implies last_bag(
            s,
            #[trigger] new_rest[i].0@,
        ) == Some(new_rest[i].1) by {
            if new_rest[i].0@ == name@ {
                if !is_recognized(name@) {
                    match slot_of(old_rest, name@) {
                        Some(k) => {
                            assert(new_rest[k].0@ == name@);
                        },
                        None => {
                            assert(new_rest[old_rest.len() as int].0@ == name@);
                        },
                    }
                } else {
                    assert(!is_recognized(old_rest[i].0@));
                }
            } else {
                assert(new_rest[i] == old_rest[i]);
                assert(last_bag(t, old_rest[i].0@) == Some(old_rest[i].1));
            }
        }
        assert forall|n: Seq<char>|
            !is_recognized(n) && #[trigger] last_bag(s, n) is Some implies exists|i: int|
                0 <= i < new_rest.len() && new_rest[i].0@ == n by {
            if n == name@ {
                match slot_of(old_rest, name@) {
                    Some(k) => assert(new_rest[k].0@ == n),
                    None => assert(new_rest[old_rest.len() as int].0@ == n),
                }
            } else {
                assert(last_bag(t, n) is Some);
                let i = choose|i: int| 0 <= i < old_rest.len() && old_rest[i].0@ == n;
                assert(new_rest[i].0@ == n);
            }
        }
    }
}

/// Whether one (interface, bag) entry decodes: a recognized interface's bag
/// under its schema; any other entry always.
pub open spec fn entry_ok(n: Seq<char>, bag: Bag) -> bool {
    let m = bag_map(bag@);
    if n == STATION_INTERFACE@ {
        station_from(m) is Ok
    } else if n == DEVICE_INTERFACE@ {
        device_from(m) is Ok
    } else if n == NETWORK_INTERFACE@ {
        network_from(m) is Ok
    } else if n == KNOWN_NETWORK_INTERFACE@ {
        known_network_from(m) is Ok
    } else if n == ADAPTER_INTERFACE@ {
        adapter_from(m) is Ok
    } else {
        true
    }
}

/// An object decodes exactly when every one of its entries does, in
/// whatever order they come; one bad recognized bag fails the whole object,
/// so no partial bundle is ever produced.
pub proof fn decodes_iff_entries_ok(s: Seq<(String, Bag)>)
    ensures
        bundle_from(s) is Ok <==> forall|i: int|
            0 <= i < s.len() ==> entry_ok(#[trigger] s[i].0@, s[i].1),
    decreases s.len(),
{
    if s.len() > 0 {
        let t = s.drop_last();
        decodes_iff_entries_ok(t);
        assert forall|i: int| 0 <= i < t.len() implies t[i] == s[i] by {}
        if bundle_from(s) is Ok {
            assert forall|i: int| 0 <= i < s.len() implies entry_ok(
                #[trigger] s[i].0@,
                s[i].1,
            ) by {
                if i < t.len() {
                    assert(entry_ok(t[i].0@, t[i].1));
                }
            }
        } else if bundle_from(t) is Err {
            let i = choose|i: int| 0 <= i < t.len() && !entry_ok(#[trigger] t[i].0@, t[i].1);
            assert(!entry_ok(s[i].0@, s[i].1));
        } else {
            assert(!entry_ok(s[s.len() - 1].0@, s[s.len() - 1].1));
        }
    }
}

/// `last_bag` finds a bag exactly when some entry has the name.
pub proof fn lemma_last_bag_some(s: Seq<(String, Bag)>, n: Seq<char>)
    ensures
        last_bag(s, n) is Some <==> exists|i: int| 0 <= i < s.len() && s[i].0@ == n,
    decreases s.len(),
{
    if s.len() > 0 {
        let t = s.drop_last();
        lemma_last_bag_some(t, n);
        if exists|i: int| 0 <= i < s.len() && s[i].0@ == n {
            let i = choose|i: int| 0 <= i < s.len() && s[i].0@ == n;
            if i < t.len() {
                assert(t[i].0@ == n);
            }
        }
        if exists|i: int| 0 <= i < t.len() && t[i].0@ == n {
            let i = choose|i: int| 0 <= i < t.len() && t[i].0@ == n;
            assert(s[i].0@ == n);
        }
    }
}

/// An object that gives a station and a device interface, in any order,
/// beside any other entries that all decode, fills both slots, and so is a
/// station candidate.
pub proof fn station_and_device_fill_both(s: Seq<(String, Bag)>, i: int, j: int)
    requires
        forall|k: int| 0 <= k < s.len() ==> entry_ok(#[trigger] s[k].0@, s[k].1),
        0 <= i < s.len(),
        s[i].0@ == STATION_INTERFACE@,
        0 <= j < s.len(),
        s[j].0@ == DEVICE_INTERFACE@,
    ensures
        bundle_from(s) is Ok,
        (bundle_from(s)->Ok_0).station is Some,
        (bundle_from(s)->Ok_0).device is Some,
{
    decodes_iff_entries_ok(s);
    lemma_last_bag_some(s, STATION_INTERFACE@);
    lemma_last_bag_some(s, DEVICE_INTERFACE@);
    last_write_wins(s);
}

/// An object whose only recognized interface is a network, beside any
/// unrecognized entries, decodes with its network slot filled and its
/// station and device slots empty, so it is never a station candidate.
pub proof fn network_only_object(s: Seq<(String, Bag)>, i: int)
    requires
        forall|k: int| 0 <= k < s.len() ==> entry_ok(#[trigger] s[k].0@, s[k].1),
        forall|k: int|
            0 <= k < s.len() && is_recognized(#[trigger] s[k].0@) ==> s[k].0@
                == NETWORK_INTERFACE@,
        0 <= i < s.len(),
        s[i].0@ == NETWORK_INTERFACE@,
    ensures
        bundle_from(s) is Ok,
        (bundle_from(s)->Ok_0).network is Some,
        (bundle_from(s)->Ok_0).station is None,
        (bundle_from(s)->Ok_0).device is None,
{
    decodes_iff_entries_ok(s);
    lemma_last_bag_some(s, NETWORK_INTERFACE@);
    lemma_last_bag_some(s, STATION_INTERFACE@);
    lemma_last_bag_some(s, DEVICE_INTERFACE@);
    reveal_strlit("net.connman.iwd.Station");
    reveal_strlit("net.connman.iwd.Device");
    reveal_strlit("net.connman.iwd.Network");
    assert(STATION_INTERFACE@[16] != NETWORK_INTERFACE@[16]);
    assert(STATION_INTERFACE@.len() != DEVICE_INTERFACE@.len());
    assert(NETWORK_INTERFACE@.len() != DEVICE_INTERFACE@.len());
    assert forall|k: int| 0 <= k < s.len() implies s[k].0@ != STATION_INTERFACE@ && s[k].0@
        != DEVICE_INTERFACE@ by {
        if s[k].0@ == STATION_INTERFACE@ || s[k].0@ == DEVICE_INTERFACE@ {
            assert(is_recognized(s[k].0@));
        }
    }
    last_write_wins(s);
}

} // verus!
