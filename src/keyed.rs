//! Lists of (name, value) pairs kept as mappings: one entry per name, a
//! later value replacing the earlier one in place.
use vstd::prelude::*;
use crate::value::same_text;

verus! {

/// The index of the first entry with the given name, if any.
pub open spec fn slot_of<V>(s: Seq<(String, V)>, n: Seq<char>) -> Option<int>
    decreases s.len(),
{
    if s.len() == 0 {
        None
    } else {
        match slot_of(s.drop_last(), n) {
            Some(i) => Some(i),
            None => if s.last().0@ == n {
                Some(s.len() - 1)
            } else {
                None
            },
        }
    }
}

/// The list with `(k, x)` put in: an entry with the same name is replaced
/// where it stands, else the pair is appended.
pub open spec fn upserted<V>(s: Seq<(String, V)>, k: String, x: V) -> Seq<(String, V)> {
    match slot_of(s, k@) {
        Some(i) => s.update(i, (k, x)),
        None => s.push((k, x)),
    }
}

/// No two entries share a name.
pub open spec fn names_unique<V>(s: Seq<(String, V)>) -> bool {
    forall|i: int, j: int| 0 <= i < j < s.len() ==> s[i].0@ != s[j].0@
}

/// `slot_of` finds an entry exactly when one has the name, and then the
/// first such.
pub proof fn lemma_slot_of<V>(s: Seq<(String, V)>, n: Seq<char>)
    ensures
        slot_of(s, n) is None <==> forall|i: int| 0 <= i < s.len() ==> s[i].0@ != n,
        slot_of(s, n) matches Some(i) ==> 0 <= i < s.len() && s[i].0@ == n && forall|j: int|
            0 <= j < i ==> s[j].0@ != n,
    decreases s.len(),
{
    if s.len() > 0 {
        let t = s.drop_last();
        lemma_slot_of(t, n);
        assert forall|i: int| 0 <= i < t.len() implies t[i] == s[i] by {}
    }
}

/// Putting a pair in keeps the names unique.
pub proof fn lemma_upsert_unique<V>(s: Seq<(String, V)>, k: String, x: V)
    requires
        names_unique(s),
    ensures
        names_unique(upserted(s, k, x)),
{
    lemma_slot_of(s, k@);
}

/// The index of the first entry named `n`.
pub fn find_slot<V>(s: &Vec<(String, V)>, n: &str) -> (r: Option<usize>)
    ensures
        r matches Some(i) ==> slot_of(s@, n@) == Some(i as int),
        r is None ==> slot_of(s@, n@) is None,
{
    proof {
        lemma_slot_of(s@, n@);
    }
    let mut i: usize = 0;
    while i < s.len()
        invariant
            i <= s.len(),
            forall|j: int| 0 <= j < i ==> s@[j].0@ != n@,
            slot_of(s@, n@) is None <==> forall|j: int| 0 <= j < s@.len() ==> s@[j].0@ != n@,
            slot_of(s@, n@) matches Some(k) ==> 0 <= k < s@.len() && s@[k].0@ == n@ && forall|
                j: int,
            | 0 <= j < k ==> s@[j].0@ != n@,
        decreases s.len() - i,
    {
        if same_text(s[i].0.as_str(), n) {
            return Some(i);
        }
        i = i + 1;
    }
    None
}

/// Puts `(k, x)` into the list, replacing an entry of the same name.
pub fn upsert<V>(s: &mut Vec<(String, V)>, k: String, x: V)
    ensures
        final(s)@ == upserted(old(s)@, k, x),
{
    proof {
        lemma_slot_of(s@, k@);
    }
    match find_slot(s, k.as_str()) {
        Some(i) => s.set(i, (k, x)),
        None => s.push((k, x)),
    }
}

} // verus!
