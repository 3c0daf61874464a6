//! Sets of account ids and amounts keyed by account id, kept in vectors without repeats.
use vstd::prelude::*;

verus! {

/// The ids held in `v`.
pub open spec fn spec_id_set(v: Seq<String>) -> Set<Seq<char>> {
    Set::new(|x: Seq<char>| exists|i: int| 0 <= i < v.len() && (#[trigger] v[i])@ == x)
}

/// Whether no id occurs twice in `v`.
pub open spec fn spec_unique_ids(v: Seq<String>) -> bool {
    forall|i: int, j: int| 0 <= i < j < v.len() ==> (#[trigger] v[i])@ != (#[trigger] v[j])@
}

/// Whether no id is keyed twice in `v`.
pub open spec fn spec_unique_keys(v: Seq<(String, u128)>) -> bool {
    forall|i: int, j: int| 0 <= i < j < v.len() ==> (#[trigger] v[i]).0@ != (#[trigger] v[j]).0@
}

/// The amounts of `v` by id.
pub open spec fn spec_key_map(v: Seq<(String, u128)>) -> Map<Seq<char>, u128> {
    Map::new(
        |x: Seq<char>| exists|i: int| 0 <= i < v.len() && (#[trigger] v[i]).0@ == x,
        |x: Seq<char>| v[choose|i: int| 0 <= i < v.len() && (#[trigger] v[i]).0@ == x].1,
    )
}

/// The amount of an entry is what the map holds for its id.
pub proof fn lemma_key_map_at(v: Seq<(String, u128)>, i: int)
    requires
        spec_unique_keys(v),
        0 <= i < v.len(),
    ensures
        spec_key_map(v).contains_key(v[i].0@),
        spec_key_map(v)[v[i].0@] == v[i].1,
{
    let x = v[i].0@;
    assert(v[i].0@ == x);
    let j = choose|j: int| 0 <= j < v.len() && (#[trigger] v[j]).0@ == x;
    if j < i {
        assert(v[j].0@ != v[i].0@);
    } else if i < j {
        assert(v[i].0@ != v[j].0@);
    }
}

/// The position of `id` in `v`, if it is there.
pub fn find_id(v: &Vec<String>, id: &String) -> (r: Option<usize>)
    ensures
        match r {
            Some(i) => i < v.len() && v@[i as int]@ == id@,
            None => !spec_id_set(v@).contains(id@),
        },
{
    let mut i: usize = 0;
    while i < v.len()
        invariant
            i <= v.len(),
            forall|k: int| 0 <= k < i ==> (#[trigger] v@[k])@ != id@,
        decreases v.len() - i,
    {
        if v[i] == *id {
            return Some(i);
        }
        i = i + 1;
    }
    None
}

/// Adds `id` to the set `v`.
pub fn insert_id(v: &mut Vec<String>, id: String)
    requires
        spec_unique_ids(old(v)@),
    ensures
        spec_unique_ids(final(v)@),
        spec_id_set(final(v)@) == spec_id_set(old(v)@).insert(id@),
{
    match find_id(v, &id) {
        Some(i) => {
            assert(spec_id_set(v@) =~= spec_id_set(v@).insert(id@)) by {
                assert(v@[i as int]@ == id@);
            }
        },
        None => {
            let ghost before = v@;
            let ghost x = id@;
            v.push(id);
            assert(v@[before.len() as int]@ == x);
            assert(spec_id_set(v@) =~= spec_id_set(before).insert(x)) by {
                assert forall|y: Seq<char>| spec_id_set(before).contains(y) implies spec_id_set(v@).contains(y) by {
                    let k = choose|k: int| 0 <= k < before.len() && (#[trigger] before[k])@ == y;
                    assert(v@[k] == before[k]);
                }
                assert forall|y: Seq<char>| spec_id_set(v@).contains(y) && y != x implies spec_id_set(before).contains(y) by {
                    let k = choose|k: int| 0 <= k < v@.len() && (#[trigger] v@[k])@ == y;
                    assert(before[k] == v@[k]);
                }
            }
        },
    }
}

/// Takes `id` out of the set `v`; whether it was there.
pub fn remove_id(v: &mut Vec<String>, id: &String) -> (b: bool)
    requires
        spec_unique_ids(old(v)@),
    ensures
        spec_unique_ids(final(v)@),
        spec_id_set(final(v)@) == spec_id_set(old(v)@).remove(id@),
        b == spec_id_set(old(v)@).contains(id@),
{
    match find_id(v, id) {
        Some(i) => {
            let ghost before = v@;
            v.remove(i);
            assert(before[i as int]@ == id@);
            assert(spec_id_set(v@) =~= spec_id_set(before).remove(id@)) by {
                assert forall|y: Seq<char>| spec_id_set(before).contains(y) && y != id@ implies spec_id_set(v@).contains(y) by {
                    let k = choose|k: int| 0 <= k < before.len() && (#[trigger] before[k])@ == y;
                    if k < i {
                        assert(v@[k] == before[k]);
                    } else {
                        assert(v@[k - 1] == before[k]);
                    }
                }
                assert forall|y: Seq<char>| spec_id_set(v@).contains(y) implies spec_id_set(before).contains(y) && y != id@ by {
                    let k = choose|k: int| 0 <= k < v@.len() && (#[trigger] v@[k])@ == y;
                    if k < i {
                        assert(v@[k] == before[k]);
                    } else {
                        assert(v@[k] == before[k + 1]);
                    }
                }
            }
            assert(spec_unique_ids(v@)) by {
                assert forall|a: int, c: int| 0 <= a < c < v@.len() implies (#[trigger] v@[a])@ != (#[trigger] v@[c])@ by {
                    let a0 = if a < i { a } else { a + 1 };
                    let c0 = if c < i { c } else { c + 1 };
                    assert(v@[a] == before[a0] && v@[c] == before[c0]);
                    assert(before[a0]@ != before[c0]@);
                }
            }
            true
        },
        None => {
            assert(spec_id_set(v@) =~= spec_id_set(v@).remove(id@));
            false
        },
    }
}

/// The position of the entry of `id` in `v`, if there is one.
pub fn find_key(v: &Vec<(String, u128)>, id: &String) -> (r: Option<usize>)
    ensures
        match r {
            Some(i) => i < v.len() && v@[i as int].0@ == id@,
            None => !spec_key_map(v@).contains_key(id@),
        },
{
    let mut i: usize = 0;
    while i < v.len()
        invariant
            i <= v.len(),
            forall|k: int| 0 <= k < i ==> (#[trigger] v@[k]).0@ != id@,
        decreases v.len() - i,
    {
        if v[i].0 == *id {
            return Some(i);
        }
        i = i + 1;
    }
    None
}

/// The amount of `id`, if it has one.
pub fn get_amount(v: &Vec<(String, u128)>, id: &String) -> (r: Option<u128>)
    requires
        spec_unique_keys(v@),
    ensures
        r == (if spec_key_map(v@).contains_key(id@) { Some(spec_key_map(v@)[id@]) } else { None }),
{
    match find_key(v, id) {
        Some(i) => {
            proof { lemma_key_map_at(v@, i as int); }
            Some(v[i].1)
        },
        None => None,
    }
}

/// Sets the amount of `id` to `amount`.
pub fn insert_amount(v: &mut Vec<(String, u128)>, id: String, amount: u128)
    requires
        spec_unique_keys(old(v)@),
    ensures
        spec_unique_keys(final(v)@),
        spec_key_map(final(v)@) == spec_key_map(old(v)@).insert(id@, amount),
{
    let ghost before = v@;
    let ghost x = id@;
    let found = find_key(v, &id);
    let ghost i0: int = match found { Some(i) => i as int, None => before.len() as int };
    match found {
        Some(i) => {
            v.set(i, (id, amount));
        },
        None => {
            v.push((id, amount));
        },
    }
    assert(v@[i0].0@ == x && v@[i0].1 == amount);
    assert(forall|k: int| 0 <= k < v@.len() && k != i0 ==> #[trigger] v@[k] == before[k]);
    assert(spec_unique_keys(v@)) by {
        assert forall|a: int, c: int| 0 <= a < c < v@.len() implies (#[trigger] v@[a]).0@ != (#[trigger] v@[c]).0@ by {
            if a == i0 {
                assert(v@[c] == before[c]);
                if found is Some {
                    assert(before[a].0@ != before[c].0@);
                } else {
                    assert(before[c].0@ != x);
                }
            } else if c == i0 {
                assert(v@[a] == before[a]);
                if found is Some {
                    assert(before[a].0@ != before[c].0@);
                } else {
                    assert(before[a].0@ != x);
                }
            } else {
                assert(v@[a] == before[a] && v@[c] == before[c]);
            }
        }
    }
    assert(spec_key_map(v@) =~= spec_key_map(before).insert(x, amount)) by {
        lemma_key_map_at(v@, i0);
        assert forall|y: Seq<char>| #[trigger] spec_key_map(before).contains_key(y) && y != x implies
            spec_key_map(v@).contains_key(y) && spec_key_map(v@)[y] == spec_key_map(before)[y] by {
            let k = choose|k: int| 0 <= k < before.len() && (#[trigger] before[k]).0@ == y;
            assert(k != i0);
            assert(v@[k] == before[k]);
            lemma_key_map_at(before, k);
            lemma_key_map_at(v@, k);
        }
        assert forall|y: Seq<char>| #[trigger] spec_key_map(v@).contains_key(y) && y != x implies
            spec_key_map(before).contains_key(y) by {
            let k = choose|k: int| 0 <= k < v@.len() && (#[trigger] v@[k]).0@ == y;
            assert(k != i0);
            assert(v@[k] == before[k]);
        }
    }
}

/// Takes the entry of `id` out of `v`; its amount, if it had one.
pub fn remove_amount(v: &mut Vec<(String, u128)>, id: &String) -> (r: Option<u128>)
    requires
        spec_unique_keys(old(v)@),
    ensures
        spec_unique_keys(final(v)@),
        spec_key_map(final(v)@) == spec_key_map(old(v)@).remove(id@),
        r == (if spec_key_map(old(v)@).contains_key(id@) { Some(spec_key_map(old(v)@)[id@]) } else { None }),
{
    match find_key(v, id) {
        Some(i) => {
            let ghost before = v@;
            proof { lemma_key_map_at(before, i as int); }
            let (_, amount) = v.remove(i);
            assert(spec_unique_keys(v@)) by {
                assert forall|a: int, c: int| 0 <= a < c < v@.len() implies (#[trigger] v@[a]).0@ != (#[trigger] v@[c]).0@ by {
                    let a0 = if a < i { a } else { a + 1 };
                    let c0 = if c < i { c } else { c + 1 };
                    assert(v@[a] == before[a0] && v@[c] == before[c0]);
                    assert(before[a0].0@ != before[c0].0@);
                }
            }
            assert(spec_key_map(v@) =~= spec_key_map(before).remove(id@)) by {
                assert forall|y: Seq<char>| #[trigger] spec_key_map(before).contains_key(y) && y != id@ implies
                    spec_key_map(v@).contains_key(y) && spec_key_map(v@)[y] == spec_key_map(before)[y] by {
                    let k = choose|k: int| 0 <= k < before.len() && (#[trigger] before[k]).0@ == y;
                    let k1 = if k < i { k } else { k - 1 };
                    assert(k != i);
                    assert(v@[k1] == before[k]);
                    lemma_key_map_at(before, k);
                    lemma_key_map_at(v@, k1);
                }
                assert forall|y: Seq<char>| #[trigger] spec_key_map(v@).contains_key(y) implies
                    spec_key_map(before).contains_key(y) && y != id@ by {
                    let k = choose|k: int| 0 <= k < v@.len() && (#[trigger] v@[k]).0@ == y;
                    let k0 = if k < i { k } else { k + 1 };
                    assert(v@[k] == before[k0]);
                    assert(k0 != i);
                    if k0 < i {
                        assert(before[k0].0@ != before[i as int].0@);
                    } else {
                        assert(before[i as int].0@ != before[k0].0@);
                    }
                }
            }
            Some(amount)
        },
        None => {
            assert(spec_key_map(v@) =~= spec_key_map(v@).remove(id@));
            None
        },
    }
}

} // verus!
