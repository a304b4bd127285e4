use vstd::prelude::*;

verus! {

broadcast use vstd::seq_lib::group_seq_properties;

/// Whether `v` holds `x`.
pub fn contains_value(v: &Vec<usize>, x: usize) -> (r: bool)
    ensures
        r == v@.contains(x),
{
    let mut i: usize = 0;
    while i < v.len()
        invariant
            i <= v@.len(),
            forall|j: int| 0 <= j < i ==> v@[j] != x,
        decreases v@.len() - i,
    {
        if v[i] == x {
            return true;
        }
        i = i + 1;
    }
    false
}

/// Adds `x` to the set that `v` holds, keeping `v` free of duplicates.
pub fn insert_value(v: &mut Vec<usize>, x: usize)
    requires
        old(v)@.no_duplicates(),
    ensures
        final(v)@.no_duplicates(),
        final(v)@.to_set() == old(v)@.to_set().insert(x),
{
    let ghost start = v@;
    if !contains_value(v, x) {
        v.push(x);
    } else {
        assert(start.to_set() =~= start.to_set().insert(x));
    }
}

/// Adds every value of `src` to the set that `dst` holds.
pub fn union_into(dst: &mut Vec<usize>, src: &Vec<usize>)
    requires
        old(dst)@.no_duplicates(),
    ensures
        final(dst)@.no_duplicates(),
        final(dst)@.to_set() == old(dst)@.to_set().union(src@.to_set()),
{
    let ghost start = dst@.to_set();
    let mut i: usize = 0;
    while i < src.len()
        invariant
            i <= src@.len(),
            dst@.no_duplicates(),
            dst@.to_set() == start.union(src@.subrange(0, i as int).to_set()),
        decreases src@.len() - i,
    {
        insert_value(dst, src[i]);
        assert(src@.subrange(0, i + 1).to_set() =~= src@.subrange(0, i as int).to_set().insert(
            src@[i as int],
        )) by {
            assert(src@.subrange(0, i + 1) =~= src@.subrange(0, i as int).push(src@[i as int]));
        }
        assert(dst@.to_set() =~= start.union(src@.subrange(0, i + 1).to_set()));
        i = i + 1;
    }
    assert(src@.subrange(0, src@.len() as int) =~= src@);
}

/// The values of `a` that `b` does not hold, each once where `a` has each once.
pub fn difference(a: &Vec<usize>, b: &Vec<usize>) -> (r: Vec<usize>)
    ensures
        r@.to_set() == a@.to_set().difference(b@.to_set()),
        a@.no_duplicates() ==> r@.no_duplicates(),
{
    let mut r: Vec<usize> = Vec::new();
    let mut i: usize = 0;
    while i < a.len()
        invariant
            i <= a@.len(),
            r@.to_set() == a@.subrange(0, i as int).to_set().difference(b@.to_set()),
            a@.no_duplicates() ==> r@.no_duplicates(),
            forall|k: int| 0 <= k < r@.len() ==> a@.subrange(0, i as int).contains(#[trigger] r@[k]),
        decreases a@.len() - i,
    {
        let x = a[i];
        let ghost r0 = r@;
        let ghost pre = a@.subrange(0, i as int);
        assert(a@.subrange(0, i + 1) =~= pre.push(x));
        assert(pre.push(x).to_set() == pre.to_set().insert(x));
        if !contains_value(b, x) {
            proof {
                if a@.no_duplicates() {
                    assert forall|k: int| 0 <= k < r@.len() implies r@[k] != x by {
                        let j = choose|j: int| 0 <= j < i && a@[j] == r@[k];
                        assert(a@.subrange(0, i as int)[j] == r@[k]);
                    }
                }
            }
            r.push(x);
            assert(r@ == r0.push(x));
            assert(r0.push(x).to_set() == r0.to_set().insert(x));
        }
        assert(r@.to_set() =~= a@.subrange(0, i + 1).to_set().difference(b@.to_set()));
        assert forall|k: int| 0 <= k < r@.len() implies a@.subrange(0, i + 1).contains(
            #[trigger] r@[k],
        ) by {
            if k < r@.len() - 1 || !(r@[k] == x) {
                let j = choose|j: int| 0 <= j < i && a@.subrange(0, i as int)[j] == r@[k];
                assert(a@.subrange(0, i + 1)[j] == r@[k]);
            } else {
                assert(a@.subrange(0, i + 1)[i as int] == x);
            }
        }
        i = i + 1;
    }
    assert(a@.subrange(0, a@.len() as int) =~= a@);
    r
}

} // verus!

verus! {

/// The keys of a list of entries, as character sequences.
pub open spec fn entry_keys<X>(entries: Seq<(String, X)>) -> Seq<Seq<char>> {
    entries.map_values(|e: (String, X)| e.0@)
}

/// `i` is the first position of `k` in `keys`.
pub open spec fn is_first(keys: Seq<Seq<char>>, k: Seq<char>, i: int) -> bool {
    &&& 0 <= i < keys.len()
    &&& keys[i] == k
    &&& forall|j: int| 0 <= j < i ==> keys[j] != k
}

/// The position of the first entry keyed by `k`, if any.
pub fn find_entry<X>(entries: &Vec<(String, X)>, k: &String) -> (r: Option<usize>)
    ensures
        r matches Some(i) ==> is_first(entry_keys(entries@), k@, i as int),
        r is None ==> !entry_keys(entries@).contains(k@),
{
    let mut i: usize = 0;
    while i < entries.len()
        invariant
            i <= entries@.len(),
            forall|j: int| 0 <= j < i ==> entry_keys(entries@)[j] != k@,
        decreases entries@.len() - i,
    {
        if entries[i].0 == *k {
            return Some(i);
        }
        i = i + 1;
    }
    None
}

} // verus!
