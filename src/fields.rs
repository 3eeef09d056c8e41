//! Decode errors and the readers of single fields of a bag.
use vstd::prelude::*;
use crate::value::{Bag, PropValue, PropView, bag_map, lookup, texts_view};

verus! {

/// Why a recognized interface's bag could not be decoded.
#[derive(Clone, Debug)]
pub enum DecodeFault {
    /// A required field is absent.
    Missing,
    /// A field holds a value of the wrong shape, or a text outside its set.
    Invalid(PropValue),
}

/// A decode failure, naming the interface and the field.
#[derive(Clone, Debug)]
pub struct DecodeError {
    pub interface: String,
    pub field: String,
    pub fault: DecodeFault,
}

pub enum FaultView {
    Missing,
    Invalid(PropView),
}

pub struct ErrorView {
    pub interface: Seq<char>,
    pub field: Seq<char>,
    pub fault: FaultView,
}

impl DecodeError {
    pub open spec fn view(&self) -> ErrorView {
        ErrorView {
            interface: self.interface@,
            field: self.field@,
            fault: match self.fault {
                DecodeFault::Missing => FaultView::Missing,
                DecodeFault::Invalid(v) => FaultView::Invalid(v@),
            },
        }
    }
}

pub open spec fn missing(i: Seq<char>, k: Seq<char>) -> ErrorView {
    ErrorView { interface: i, field: k, fault: FaultView::Missing }
}

pub open spec fn invalid(i: Seq<char>, k: Seq<char>, v: PropValue) -> ErrorView {
    ErrorView { interface: i, field: k, fault: FaultView::Invalid(v@) }
}

/// A copy of a property value; the copy has the same view.
pub fn copy_value(v: &PropValue) -> (r: PropValue)
    ensures
        r@ == v@,
{
    match v {
        PropValue::Bool(b) => PropValue::Bool(*b),
        PropValue::Int(i) => PropValue::Int(*i),
        PropValue::UInt(u) => PropValue::UInt(*u),
        PropValue::Double(d) => PropValue::Double(*d),
        PropValue::Str(s) => PropValue::Str(s.clone()),
        PropValue::Path(p) => PropValue::Path(p.clone()),
        PropValue::Other(t) => PropValue::Other(t.clone()),
        PropValue::StrList(l) => {
            let mut out: Vec<String> = Vec::new();
            let mut i: usize = 0;
            while i < l.len()
                invariant
                    i <= l.len(),
                    out@.len() == i,
                    forall|j: int| 0 <= j < i ==> out@[j]@ == l@[j]@,
                decreases l.len() - i,
            {
                out.push(l[i].clone());
                i = i + 1;
            }
            assert(texts_view(out@) =~= texts_view(l@));
            PropValue::StrList(out)
        },
    }
}

pub fn fail_missing(iface: &str, key: &str) -> (e: DecodeError)
    ensures
        e@ == missing(iface@, key@),
{
    DecodeError {
        interface: String::from_str(iface),
        field: String::from_str(key),
        fault: DecodeFault::Missing,
    }
}

pub fn fail_invalid(iface: &str, key: &str, v: &PropValue) -> (e: DecodeError)
    ensures
        e@ == invalid(iface@, key@, *v),
{
    DecodeError {
        interface: String::from_str(iface),
        field: String::from_str(key),
        fault: DecodeFault::Invalid(copy_value(v)),
    }
}

/// A required text field.
pub open spec fn want_str(m: Map<Seq<char>, PropValue>, i: Seq<char>, k: Seq<char>) -> Result<
    String,
    ErrorView,
> {
    if !m.contains_key(k) {
        Err(missing(i, k))
    } else {
        match m[k] {
            PropValue::Str(s) => Ok(s),
            v => Err(invalid(i, k, v)),
        }
    }
}

/// A required flag.
pub open spec fn want_bool(m: Map<Seq<char>, PropValue>, i: Seq<char>, k: Seq<char>) -> Result<
    bool,
    ErrorView,
> {
    if !m.contains_key(k) {
        Err(missing(i, k))
    } else {
        match m[k] {
            PropValue::Bool(b) => Ok(b),
            v => Err(invalid(i, k, v)),
        }
    }
}

/// A required object reference.
pub open spec fn want_path(m: Map<Seq<char>, PropValue>, i: Seq<char>, k: Seq<char>) -> Result<
    String,
    ErrorView,
> {
    if !m.contains_key(k) {
        Err(missing(i, k))
    } else {
        match m[k] {
            PropValue::Path(p) => Ok(p),
            v => Err(invalid(i, k, v)),
        }
    }
}

/// An optional object reference: absent is `None`.
pub open spec fn maybe_path(m: Map<Seq<char>, PropValue>, i: Seq<char>, k: Seq<char>) -> Result<
    Option<String>,
    ErrorView,
> {
    if !m.contains_key(k) {
        Ok(None)
    } else {
        match m[k] {
            PropValue::Path(p) => Ok(Some(p)),
            v => Err(invalid(i, k, v)),
        }
    }
}

/// An optional text field: absent is `None`.
pub open spec fn maybe_str(m: Map<Seq<char>, PropValue>, i: Seq<char>, k: Seq<char>) -> Result<
    Option<String>,
    ErrorView,
> {
    if !m.contains_key(k) {
        Ok(None)
    } else {
        match m[k] {
            PropValue::Str(s) => Ok(Some(s)),
            v => Err(invalid(i, k, v)),
        }
    }
}

pub fn get_str(bag: &Bag, iface: &str, key: &str) -> (r: Result<String, DecodeError>)
    ensures
        r matches Ok(x) ==> want_str(bag_map(bag@), iface@, key@) == Ok::<String, ErrorView>(x),
        r matches Err(e) ==> want_str(bag_map(bag@), iface@, key@) == Err::<String, ErrorView>(e@),
{
    match lookup(bag, key) {
        None => Err(fail_missing(iface, key)),
        Some(PropValue::Str(s)) => Ok(s.clone()),
        Some(v) => Err(fail_invalid(iface, key, v)),
    }
}

pub fn get_bool(bag: &Bag, iface: &str, key: &str) -> (r: Result<bool, DecodeError>)
    ensures
        r matches Ok(x) ==> want_bool(bag_map(bag@), iface@, key@) == Ok::<bool, ErrorView>(x),
        r matches Err(e) ==> want_bool(bag_map(bag@), iface@, key@) == Err::<bool, ErrorView>(e@),
{
    match lookup(bag, key) {
        None => Err(fail_missing(iface, key)),
        Some(PropValue::Bool(b)) => Ok(*b),
        Some(v) => Err(fail_invalid(iface, key, v)),
    }
}

pub fn get_path(bag: &Bag, iface: &str, key: &str) -> (r: Result<String, DecodeError>)
    ensures
        r matches Ok(x) ==> want_path(bag_map(bag@), iface@, key@) == Ok::<String, ErrorView>(x),
        r matches Err(e) ==> want_path(bag_map(bag@), iface@, key@) == Err::<String, ErrorView>(e@),
{
    match lookup(bag, key) {
        None => Err(fail_missing(iface, key)),
        Some(PropValue::Path(p)) => Ok(p.clone()),
        Some(v) => Err(fail_invalid(iface, key, v)),
    }
}

pub fn get_opt_path(bag: &Bag, iface: &str, key: &str) -> (r: Result<Option<String>, DecodeError>)
    ensures
        r matches Ok(x) ==> maybe_path(bag_map(bag@), iface@, key@) == Ok::<
            Option<String>,
            ErrorView,
        >(x),
        r matches Err(e) ==> maybe_path(bag_map(bag@), iface@, key@) == Err::<
            Option<String>,
            ErrorView,
        >(e@),
{
    match lookup(bag, key) {
        None => Ok(None),
        Some(PropValue::Path(p)) => Ok(Some(p.clone())),
        Some(v) => Err(fail_invalid(iface, key, v)),
    }
}

pub fn get_opt_str(bag: &Bag, iface: &str, key: &str) -> (r: Result<Option<String>, DecodeError>)
    ensures
        r matches Ok(x) ==> maybe_str(bag_map(bag@), iface@, key@) == Ok::<
            Option<String>,
            ErrorView,
        >(x),
        r matches Err(e) ==> maybe_str(bag_map(bag@), iface@, key@) == Err::<
            Option<String>,
            ErrorView,
        >(e@),
{
    match lookup(bag, key) {
        None => Ok(None),
        Some(PropValue::Str(s)) => Ok(Some(s.clone())),
        Some(v) => Err(fail_invalid(iface, key, v)),
    }
}

} // verus!
