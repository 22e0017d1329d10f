//! Lists of identifiers, read as sets.

use vstd::prelude::*;

verus! {

/// The identifiers in a list, as a set.
pub open spec fn id_set(ids: Seq<Seq<char>>) -> Set<Seq<char>> {
    ids.to_set()
}

/// Whether `id` is in the list.
pub fn contains_id(ids: &Vec<String>, id: &String) -> (found: bool)
    ensures
        found == id_set(ids.deep_view()).contains(id@),
{
    let mut i: usize = 0;
    while i < ids.len()
        invariant
            i <= ids.len(),
            forall|k: int| 0 <= k < i ==> ids.deep_view()[k] != id@,
        decreases ids.len() - i,
    {
        if ids[i] == *id {
            assert(ids.deep_view()[i as int] == id@);
            return true;
        }
        assert(ids.deep_view()[i as int] == ids[i as int]@);
        i += 1;
    }
    false
}

/// Takes `id` out of the list, wherever it stands.
pub fn remove_id(ids: &mut Vec<String>, id: &String)
    ensures
        id_set(final(ids).deep_view()) == id_set(old(ids).deep_view()).remove(id@),
{
    let mut kept: Vec<String> = Vec::new();
    let mut i: usize = 0;
    assert(id_set(kept.deep_view()) =~= id_set(ids.deep_view().take(0)).remove(id@));
    while i < ids.len()
        invariant
            i <= ids.len(),
            ids == old(ids),
            id_set(kept.deep_view()) == id_set(ids.deep_view().take(i as int)).remove(id@),
        decreases ids.len() - i,
    {
        let ghost before = kept.deep_view();
        let ghost seen = ids.deep_view().take(i as int);
        proof {
            assert(ids.deep_view().take(i + 1) =~= seen.push(ids[i as int]@));
            seen.lemma_push_to_set_commute(ids[i as int]@);
        }
        if ids[i] != *id {
            kept.push(ids[i].clone());
            proof {
                assert(kept.deep_view() =~= before.push(ids[i as int]@));
                before.lemma_push_to_set_commute(ids[i as int]@);
                assert(id_set(kept.deep_view()) =~= id_set(seen.push(ids[i as int]@)).remove(id@));
            }
        } else {
            assert(id_set(kept.deep_view()) =~= id_set(seen.push(ids[i as int]@)).remove(id@));
        }
        i += 1;
    }
    assert(ids.deep_view().take(i as int) =~= ids.deep_view());
    *ids = kept;
}

/// Puts `id` into the list, unless it is there.
pub fn insert_id(ids: &mut Vec<String>, id: String)
    ensures
        id_set(final(ids).deep_view()) == id_set(old(ids).deep_view()).insert(id@),
{
    if !contains_id(ids, &id) {
        let ghost before = ids.deep_view();
        ids.push(id);
        proof {
            assert(ids.deep_view() =~= before.push(id@));
            before.lemma_push_to_set_commute(id@);
        }
    } else {
        assert(id_set(ids.deep_view()) =~= id_set(ids.deep_view()).insert(id@));
    }
}

} // verus!
