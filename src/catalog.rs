//! Picking out the station and the networks, and joining the ranked list
//! with the networks' names.
use vstd::prelude::*;
use crate::value::same_text;
use crate::keyed::{lemma_upsert_unique, names_unique, upsert, upserted};
use crate::records::Network;
use crate::bundle::Bundle;
use crate::handle::{OPath, StationTag};

verus! {

/// Whether a bundle offers both the station and the device interface.
pub open spec fn is_station(b: Bundle) -> bool {
    b.station is Some && b.device is Some
}

/// Strict lexicographic order on paths, character by character; a proper
/// prefix comes first.
pub open spec fn path_less(a: Seq<char>, b: Seq<char>) -> bool
    decreases a.len(),
{
    if a.len() == 0 {
        b.len() > 0
    } else if b.len() == 0 {
        false
    } else if a[0] != b[0] {
        (a[0] as u32) < (b[0] as u32)
    } else {
        path_less(a.drop_first(), b.drop_first())
    }
}

/// The index of the station object: of all the objects that qualify, the
/// one with the least path (the first of equal ones), so that the choice
/// does not depend on the order in which objects are listed.
pub open spec fn station_index(s: Seq<(String, Bundle)>) -> Option<int>
    decreases s.len(),
{
    if s.len() == 0 {
        None
    } else {
        let r = station_index(s.drop_last());
        if is_station(s.last().1) && (r is None || path_less(
            s.last().0@,
            s[r->Some_0].0@,
        )) {
            Some(s.len() - 1)
        } else {
            r
        }
    }
}

pub proof fn lemma_path_less_transitive(a: Seq<char>, b: Seq<char>, c: Seq<char>)
    requires
        path_less(a, b),
        path_less(b, c),
    ensures
        path_less(a, c),
    decreases a.len(),
{
    if a.len() > 0 && b.len() > 0 && c.len() > 0 && a[0] == b[0] && b[0] == c[0] {
        lemma_path_less_transitive(a.drop_first(), b.drop_first(), c.drop_first());
    }
}

/// Compares two paths in the order of `path_less`.
pub fn path_precedes(a: &str, b: &str) -> (r: bool)
    ensures
        r == path_less(a@, b@),
{
    let n = a.unicode_len();
    let m = b.unicode_len();
    let mut i: usize = 0;
    assert(a@.skip(0) =~= a@);
    assert(b@.skip(0) =~= b@);
    while i < n && i < m
        invariant
            i <= n,
            i <= m,
            n == a@.len(),
            m == b@.len(),
            path_less(a@, b@) == path_less(a@.skip(i as int), b@.skip(i as int)),
        decreases n - i,
    {
        let x = a.get_char(i);
        let y = b.get_char(i);
        if x != y {
            return (x as u32) < (y as u32);
        }
        assert(a@.skip(i as int).drop_first() =~= a@.skip(i + 1));
        assert(b@.skip(i as int).drop_first() =~= b@.skip(i + 1));
        i = i + 1;
    }
    i < m
}

/// The network lookup: every object that is not the station kind and has a
/// network record, with that record, in the order given; a later object
/// with the same path replaces the earlier one.
pub open spec fn networks_of(s: Seq<(String, Bundle)>) -> Seq<(String, Network)>
    decreases s.len(),
{
    if s.len() == 0 {
        Seq::empty()
    } else {
        let rest = networks_of(s.drop_last());
        let (path, b) = s.last();
        if !is_station(b) && b.network is Some {
            upserted(rest, path, b.network->Some_0)
        } else {
            rest
        }
    }
}

/// What one enumeration yields: the station, if any object qualifies, and
/// the networks by path.
#[derive(Debug)]
pub struct Catalog {
    pub station: Option<OPath<StationTag>>,
    pub networks: Vec<(String, Network)>,
}

/// Sorts the decoded objects into the station and the network lookup.
pub fn build_catalog(objects: Vec<(String, Bundle)>) -> (c: Catalog)
    ensures
        c.networks@ == networks_of(objects@),
        match station_index(objects@) {
            Some(i) => c.station matches Some(h) && h@ == objects@[i].0@,
            None => c.station is None,
        },
{
    let ghost orig = objects@;
    let mut todo = objects;
    let mut station: Option<OPath<StationTag>> = None;
    let mut networks: Vec<(String, Network)> = Vec::new();
    let mut done: usize = 0;
    assert(todo.len() <= usize::MAX);
    while todo.len() > 0
        invariant
            done <= orig.len() <= usize::MAX,
            orig == objects@,
            todo@ == orig.subrange(done as int, orig.len() as int),
            networks@ == networks_of(orig.take(done as int)),
            match station_index(orig.take(done as int)) {
                Some(i) => station matches Some(h) && h@ == orig[i].0@ && 0 <= i < done,
                None => station is None,
            },
        decreases todo.len(),
    {
        let (path, b) = todo.remove(0);
        proof {
            assert(orig.take(done + 1).drop_last() =~= orig.take(done as int));
            assert(orig[done as int] == (path, b));
        }
        if b.station.is_some() && b.device.is_some() {
            let replace = match &station {
                None => true,
                Some(h) => path_precedes(path.as_str(), h.as_path().as_str()),
            };
            if replace {
                station = Some(OPath::from_path(path));
            }
        } else {
            match b.network {
                Some(n) => upsert(&mut networks, path, n),
                None => {},
            }
        }
        done = done + 1;
    }
    assert(orig.take(done as int) =~= orig);
    Catalog { station, networks }
}

/// The name of the first network with the given path.
pub open spec fn name_at(nets: Seq<(String, Network)>, p: Seq<char>) -> Option<String>
    decreases nets.len(),
{
    if nets.len() == 0 {
        None
    } else if nets[0].0@ == p {
        Some(nets[0].1.name)
    } else {
        name_at(nets.skip(1), p)
    }
}

/// The names of the ranked networks that the lookup knows, in rank order.
pub open spec fn joined(order: Seq<(String, i16)>, nets: Seq<(String, Network)>) -> Seq<String>
    decreases order.len(),
{
    if order.len() == 0 {
        Seq::empty()
    } else {
        let rest = joined(order.drop_last(), nets);
        match name_at(nets, order.last().0@) {
            Some(n) => rest.push(n),
            None => rest,
        }
    }
}

fn find_name(nets: &Vec<(String, Network)>, p: &String) -> (r: Option<String>)
    ensures
        r == name_at(nets@, p@),
{
    let mut i: usize = 0;
    assert(nets@.skip(0) =~= nets@);
    while i < nets.len()
        invariant
            i <= nets.len(),
            name_at(nets@, p@) == name_at(nets@.skip(i as int), p@),
        decreases nets.len() - i,
    {
        let ghost tail = nets@.skip(i as int);
        assert(tail.skip(1) =~= nets@.skip(i + 1));
        if same_text(nets[i].0.as_str(), p.as_str()) {
            return Some(nets[i].1.name.clone());
        }
        i = i + 1;
    }
    None
}

/// Joins the station's ranked (path, signal) pairs with the network lookup:
/// the name of each known network, in the given order; unknown paths are
/// left out.
pub fn join(order: &Vec<(String, i16)>, nets: &Vec<(String, Network)>) -> (r: Vec<String>)
    ensures
        r@ == joined(order@, nets@),
{
    let mut out: Vec<String> = Vec::new();
    let mut i: usize = 0;
    while i < order.len()
        invariant
            i <= order.len(),
            out@ == joined(order@.take(i as int), nets@),
        decreases order.len() - i,
    {
        assert(order@.take(i + 1).drop_last() =~= order@.take(i as int));
        match find_name(nets, &order[i].0) {
            Some(n) => out.push(n),
            None => {},
        }
        i = i + 1;
    }
    assert(order@.take(i as int) =~= order@);
    out
}

/// Station classification: a station is chosen exactly when some object
/// offers both the station and the device interface; the one chosen always
/// does, and no qualifying object has a lesser path. So an object without
/// them, such as one that offers only a network, is never chosen.
pub proof fn station_choice(s: Seq<(String, Bundle)>)
    ensures
        (exists|i: int| 0 <= i < s.len() && is_station(#[trigger] s[i].1)) <==> station_index(
            s,
        ) is Some,
        station_index(s) matches Some(j) ==> {
            &&& 0 <= j < s.len()
            &&& is_station(s[j].1)
            &&& forall|k: int|
                0 <= k < s.len() && is_station(#[trigger] s[k].1) ==> !path_less(s[k].0@, s[j].0@)
        },
    decreases s.len(),
{
    if s.len() > 0 {
        let t = s.drop_last();
        station_choice(t);
        assert forall|i: int| 0 <= i < t.len() implies t[i] == s[i] by {}
        let last = s.len() - 1;
        if exists|i: int| 0 <= i < s.len() && is_station(#[trigger] s[i].1) {
            let i = choose|i: int| 0 <= i < s.len() && is_station(#[trigger] s[i].1);
            if i < t.len() {
                assert(is_station(t[i].1));
            }
        }
        match station_index(s) {
            Some(j) => {
                if j == last {
                    assert forall|k: int|
                        0 <= k < s.len() && is_station(#[trigger] s[k].1) implies !path_less(
                        s[k].0@,
                        s[j].0@,
                    ) by {
                        if k < last && path_less(s[k].0@, s[j].0@) {
                            let r = station_index(t)->Some_0;
                            assert(is_station(t[k].1));
                            lemma_path_less_transitive(s[k].0@, s[j].0@, s[r].0@);
                        }
                        if k == last {
                            lemma_path_less_irreflexive(s[k].0@);
                        }
                    }
                } else {
                    assert forall|k: int|
                        0 <= k < s.len() && is_station(#[trigger] s[k].1) implies !path_less(
                        s[k].0@,
                        s[j].0@,
                    ) by {
                        if k < last {
                            assert(is_station(t[k].1));
                        }
                    }
                }
            },
            None => {},
        }
    }
}

pub proof fn lemma_path_less_irreflexive(a: Seq<char>)
    ensures
        !path_less(a, a),
    decreases a.len(),
{
    if a.len() > 0 {
        lemma_path_less_irreflexive(a.drop_first());
    }
}

/// The network lookup is a mapping: no path occurs twice in it.
pub proof fn networks_unique(s: Seq<(String, Bundle)>)
    ensures
        names_unique(networks_of(s)),
    decreases s.len(),
{
    if s.len() > 0 {
        networks_unique(s.drop_last());
        let (path, b) = s.last();
        if !is_station(b) && b.network is Some {
            lemma_upsert_unique(networks_of(s.drop_last()), path, b.network->Some_0);
        }
    }
}

} // verus!
