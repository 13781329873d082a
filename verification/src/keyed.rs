//! Lists of values keyed by name, where a later entry of a name replaces an earlier one.
use vstd::prelude::*;

verus! {

/// The value of the given key; where several entries have it, the last one's.
pub open spec fn lookup<V>(s: Seq<(Seq<char>, V)>, k: Seq<char>) -> Option<V>
    decreases s.len(),
{
    if s.len() == 0 {
        None
    } else if s.last().0 == k {
        Some(s.last().1)
    } else {
        lookup(s.drop_last(), k)
    }
}

/// The list without the entries of the given key.
pub open spec fn remove_key<V>(s: Seq<(Seq<char>, V)>, k: Seq<char>) -> Seq<(Seq<char>, V)>
    decreases s.len(),
{
    if s.len() == 0 {
        s
    } else if s.last().0 == k {
        remove_key(s.drop_last(), k)
    } else {
        remove_key(s.drop_last(), k).push(s.last())
    }
}

/// The list after `(k, v)` has been put in: any entry of key `k` is replaced.
pub open spec fn insert_key<V>(s: Seq<(Seq<char>, V)>, k: Seq<char>, v: V) -> Seq<(Seq<char>, V)> {
    remove_key(s, k).push((k, v))
}

/// The entries of a list, each put in turn into an empty list.
pub open spec fn from_entries<V>(s: Seq<(Seq<char>, V)>) -> Seq<(Seq<char>, V)>
    decreases s.len(),
{
    if s.len() == 0 {
        Seq::empty()
    } else {
        insert_key(from_entries(s.drop_last()), s.last().0, s.last().1)
    }
}

/// No two entries share a key.
pub open spec fn unique_keys<V>(s: Seq<(Seq<char>, V)>) -> bool {
    forall|i: int, j: int| 0 <= i < j < s.len() ==> s[i].0 != s[j].0
}

/// The keys, in order.
pub open spec fn keys<V>(s: Seq<(Seq<char>, V)>) -> Seq<Seq<char>> {
    s.map_values(|e: (Seq<char>, V)| e.0)
}

/// The view of a list of named exec values.
pub open spec fn entries_view<T: View>(v: Seq<(String, T)>) -> Seq<(Seq<char>, T::V)> {
    v.map_values(|e: (String, T)| (e.0@, e.1@))
}

pub proof fn lemma_lookup_at<V>(s: Seq<(Seq<char>, V)>, i: int)
    requires
        unique_keys(s),
        0 <= i < s.len(),
    ensures
        lookup(s, s[i].0) == Some(s[i].1),
    decreases s.len(),
{
    if i != s.len() - 1 {
        lemma_lookup_at(s.drop_last(), i);
    }
}

pub proof fn lemma_lookup_absent<V>(s: Seq<(Seq<char>, V)>, k: Seq<char>)
    ensures
        (lookup(s, k) is None) <==> (forall|j: int| 0 <= j < s.len() ==> s[j].0 != k),
    decreases s.len(),
{
    if s.len() > 0 {
        lemma_lookup_absent(s.drop_last(), k);
        if s.last().0 != k {
            assert forall|j: int| 0 <= j < s.len() - 1 implies s[j] == s.drop_last()[j] by {}
        }
    }
}

pub proof fn lemma_remove_absent<V>(s: Seq<(Seq<char>, V)>, k: Seq<char>)
    requires
        forall|j: int| 0 <= j < s.len() ==> s[j].0 != k,
    ensures
        remove_key(s, k) == s,
    decreases s.len(),
{
    if s.len() > 0 {
        lemma_remove_absent(s.drop_last(), k);
        assert(s.drop_last().push(s.last()) =~= s);
    }
}

pub proof fn lemma_remove_at<V>(s: Seq<(Seq<char>, V)>, i: int)
    requires
        unique_keys(s),
        0 <= i < s.len(),
    ensures
        s.remove(i) == remove_key(s, s[i].0),
    decreases s.len(),
{
    let k = s[i].0;
    if i == s.len() - 1 {
        lemma_remove_absent(s.drop_last(), k);
        assert(s.remove(i) =~= s.drop_last());
    } else {
        lemma_remove_at(s.drop_last(), i);
        assert(s.remove(i) =~= s.drop_last().remove(i).push(s.last()));
    }
}

pub proof fn lemma_remove_lookup<V>(s: Seq<(Seq<char>, V)>, k: Seq<char>, m: Seq<char>)
    requires
        k != m,
    ensures
        lookup(remove_key(s, k), m) == lookup(s, m),
    decreases s.len(),
{
    if s.len() > 0 {
        lemma_remove_lookup(s.drop_last(), k, m);
        if s.last().0 != k {
            assert(remove_key(s, k).drop_last() =~= remove_key(s.drop_last(), k));
        }
    }
}

/// Putting in `(k, v)` makes `k` give `v` and leaves every other key as it was.
pub proof fn law_insert_lookup<V>(s: Seq<(Seq<char>, V)>, k: Seq<char>, v: V, m: Seq<char>)
    ensures
        lookup(insert_key(s, k, v), m) == if k == m {
            Some(v)
        } else {
            lookup(s, m)
        },
{
    assert(insert_key(s, k, v).drop_last() =~= remove_key(s, k));
    if k != m {
        lemma_remove_lookup(s, k, m);
    }
}

/// Putting the entries of a list in turn finds, for each key, the last entry of that key.
pub proof fn law_from_entries_lookup<V>(s: Seq<(Seq<char>, V)>, m: Seq<char>)
    ensures
        lookup(from_entries(s), m) == lookup(s, m),
    decreases s.len(),
{
    if s.len() > 0 {
        law_from_entries_lookup(s.drop_last(), m);
        law_insert_lookup(from_entries(s.drop_last()), s.last().0, s.last().1, m);
    }
}

/// The position of the entry of the given key, if there is one.
pub fn find_key<T: View>(v: &Vec<(String, T)>, k: &String) -> (r: Option<usize>)
    ensures
        match r {
            Some(i) => i < v@.len() && entries_view(v@)[i as int].0 == k@,
            None => forall|j: int| 0 <= j < v@.len() ==> entries_view(v@)[j].0 != k@,
        },
{
    let mut i: usize = 0;
    while i < v.len()
        invariant
            i <= v@.len(),
            forall|j: int| 0 <= j < i ==> entries_view(v@)[j].0 != k@,
        decreases v@.len() - i,
    {
        if v[i].0 == *k {
            return Some(i);
        }
        i = i + 1;
    }
    None
}

/// Finds the value of a key, using that keys are unique.
pub fn get_key<'a, T: View>(v: &'a Vec<(String, T)>, k: &String) -> (r: Option<&'a T>)
    requires
        unique_keys(entries_view(v@)),
    ensures
        match r {
            Some(x) => lookup(entries_view(v@), k@) == Some(x@),
            None => lookup(entries_view(v@), k@) is None,
        },
{
    proof {
        lemma_lookup_absent(entries_view(v@), k@);
    }
    match find_key(v, k) {
        Some(i) => {
            proof {
                lemma_lookup_at(entries_view(v@), i as int);
            }
            Some(&v[i].1)
        },
        None => None,
    }
}

/// Puts `(k, x)` in, replacing any entry of key `k`.
pub fn put_key<T: View>(v: &mut Vec<(String, T)>, k: String, x: T)
    requires
        unique_keys(entries_view(old(v)@)),
    ensures
        entries_view(final(v)@) == insert_key(entries_view(old(v)@), k@, x@),
        unique_keys(entries_view(final(v)@)),
{
    let ghost old_view = entries_view(v@);
    match find_key(v, &k) {
        Some(i) => {
            proof {
                lemma_remove_at(old_view, i as int);
            }
            v.remove(i);
            assert(entries_view(v@) =~= old_view.remove(i as int));
        },
        None => {
            proof {
                lemma_remove_absent(old_view, k@);
            }
        },
    }
    let ghost removed = entries_view(v@);
    assert forall|j: int| 0 <= j < removed.len() implies removed[j].0 != k@ by {}
    v.push((k, x));
    assert(entries_view(v@) =~= removed.push((k@, x@)));
}

} // verus!
