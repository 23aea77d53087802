//! The order in which chunk coordinates are kept: by `x`, then `y`, then `z`.

use vstd::prelude::*;
use vstd::std_specs::cmp::OrdSpec;

verus! {

/// Whether the chunk at `a` comes before the chunk at `b`.
pub open spec fn key_less(a: (i32, i32, i32), b: (i32, i32, i32)) -> bool {
    a.0 < b.0 || (a.0 == b.0 && (a.1 < b.1 || (a.1 == b.1 && a.2 < b.2)))
}

/// Whether the coordinates stand in strictly ascending order.
pub open spec fn ascending(keys: Seq<(i32, i32, i32)>) -> bool {
    forall|i: int, j: int| 0 <= i < j < keys.len() ==> key_less(keys[i], keys[j])
}

/// Coordinate triples are ordered as the standard collections expect of a
/// key.
pub proof fn lemma_keys_are_ordered()
    ensures
        vstd::laws_cmp::obeys_cmp::<(i32, i32, i32)>(),
        vstd::std_specs::btree::key_obeys_cmp_spec::<(i32, i32, i32)>(),
{
    broadcast use vstd::laws_cmp::group_laws_cmp;
    broadcast use vstd::std_specs::btree::group_btree_axioms;

    assert(vstd::laws_cmp::obeys_cmp::<i32>());
    assert(vstd::laws_cmp::obeys_cmp::<(i32, i32, i32)>());
}

/// What an ordered map calls increasing is ascending by `x`, then `y`, then
/// `z`.
pub proof fn lemma_increasing_is_ascending(keys: Seq<(i32, i32, i32)>)
    requires
        vstd::std_specs::btree::increasing_seq(keys),
    ensures
        ascending(keys),
{
    broadcast use vstd::std_specs::btree::group_btree_axioms;

    lemma_keys_are_ordered();
    assert forall|i: int, j: int| 0 <= i < j < keys.len() implies key_less(keys[i], keys[j]) by {
        let a = keys[i];
        let b = keys[j];
        assert(a.cmp_spec(&b) is Less);
        assert(a.0.cmp_spec(&b.0) is Less <==> a.0 < b.0);
        assert(a.1.cmp_spec(&b.1) is Less <==> a.1 < b.1);
        assert(a.2.cmp_spec(&b.2) is Less <==> a.2 < b.2);
    }
}

} // verus!
