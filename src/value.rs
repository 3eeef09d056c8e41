//! Property values and property bags, with the mapping a bag denotes.
use vstd::prelude::*;

verus! {

/// One dynamically typed property value, as carried in a property bag.
#[derive(Clone, Debug)]
pub enum PropValue {
    Bool(bool),
    Int(i64),
    UInt(u64),
    /// A double, held as its IEEE-754 bit pattern.
    Double(u64),
    Str(String),
    Path(String),
    StrList(Vec<String>),
    /// A value of a kind that no schema reads, kept by its textual form.
    Other(String),
}

/// The mathematical form of a property value: strings become sequences of
/// characters.
pub enum PropView {
    Bool(bool),
    Int(i64),
    UInt(u64),
    Double(u64),
    Str(Seq<char>),
    Path(Seq<char>),
    StrList(Seq<Seq<char>>),
    Other(Seq<char>),
}

pub open spec fn texts_view(s: Seq<String>) -> Seq<Seq<char>> {
    s.map_values(|t: String| t@)
}

impl PropValue {
    pub open spec fn view(&self) -> PropView {
        match self {
            PropValue::Bool(b) => PropView::Bool(*b),
            PropValue::Int(i) => PropView::Int(*i),
            PropValue::UInt(u) => PropView::UInt(*u),
            PropValue::Double(d) => PropView::Double(*d),
            PropValue::Str(s) => PropView::Str(s@),
            PropValue::Path(p) => PropView::Path(p@),
            PropValue::StrList(l) => PropView::StrList(texts_view(l@)),
            PropValue::Other(t) => PropView::Other(t@),
        }
    }
}

/// A property bag: field names with their values, as received.
pub type Bag = Vec<(String, PropValue)>;

/// The mapping that a bag denotes; where a name occurs twice the later
/// entry wins.
pub open spec fn bag_map(s: Seq<(String, PropValue)>) -> Map<Seq<char>, PropValue>
    decreases s.len(),
{
    if s.len() == 0 {
        Map::empty()
    } else {
        bag_map(s.drop_last()).insert(s.last().0@, s.last().1)
    }
}

/// The same mapping with every value replaced by its view.
pub open spec fn bag_view(m: Map<Seq<char>, PropValue>) -> Map<Seq<char>, PropView> {
    m.map_values(|v: PropValue| v@)
}

/// Whether two strings hold the same characters.
pub fn same_text(a: &str, b: &str) -> (r: bool)
    ensures
        r == (a@ == b@),
{
    let x = a.to_owned();
    let y = b.to_owned();
    x.eq(&y)
}

pub proof fn lemma_bag_map_push(s: Seq<(String, PropValue)>, k: String, v: PropValue)
    ensures
        bag_map(s.push((k, v))) == bag_map(s).insert(k@, v),
{
    assert(s.push((k, v)).drop_last() =~= s);
}

/// Finds the value that a bag gives to a field name.
pub fn lookup<'a>(bag: &'a Bag, key: &str) -> (r: Option<&'a PropValue>)
    ensures
        r matches Some(v) ==> bag_map(bag@).contains_key(key@) && bag_map(bag@)[key@] == *v,
        r is None ==> !bag_map(bag@).contains_key(key@),
{
    let mut i: usize = bag.len();
    assert(bag@.take(i as int) =~= bag@);
    while i > 0
        invariant
            i <= bag.len(),
            bag_map(bag@.take(i as int)).contains_key(key@) == bag_map(bag@).contains_key(key@),
            bag_map(bag@.take(i as int)).contains_key(key@) ==> bag_map(bag@.take(i as int))[key@]
                == bag_map(bag@)[key@],
        decreases i,
    {
        let j: usize = i - 1;
        let ghost pre = bag@.take(i as int);
        assert(pre.drop_last() =~= bag@.take(j as int));
        let entry = &bag[j];
        if same_text(entry.0.as_str(), key) {
            return Some(&entry.1);
        }
        i = j;
    }
    None
}

} // verus!
