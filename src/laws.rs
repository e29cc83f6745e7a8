use vstd::prelude::*;

use crate::registry::RoomRegistry;

verus! {

/// The map that a run of inserts leaves behind when applied in order to `m`.
/// Concurrent callers are serialised by the registry's lock, so every
/// interleaving of their inserts is one such run.
pub open spec fn apply_inserts<H>(m: Map<i32, H>, ops: Seq<(i32, H)>) -> Map<i32, H>
    decreases ops.len(),
{
    if ops.len() == 0 {
        m
    } else {
        apply_inserts(m, ops.drop_last()).insert(ops.last().0, ops.last().1)
    }
}

/// Whether some insert of the run uses identifier `k`.
pub open spec fn inserts_id<H>(ops: Seq<(i32, H)>, k: i32) -> bool {
    exists|i: int| 0 <= i < ops.len() && (#[trigger] ops[i]).0 == k
}

/// An identifier that no insert of the run uses keeps whatever `m` had for it:
/// absent stays absent, and a handle stays the same handle.
pub proof fn lemma_untouched_id<H>(m: Map<i32, H>, ops: Seq<(i32, H)>, k: i32)
    requires
        !inserts_id(ops, k),
    ensures
        apply_inserts(m, ops).contains_key(k) == m.contains_key(k),
        m.contains_key(k) ==> apply_inserts(m, ops)[k] == m[k],
    decreases ops.len(),
{
    if ops.len() > 0 {
        let front = ops.drop_last();
        assert(!inserts_id(front, k)) by {
            if inserts_id(front, k) {
                let i = choose|i: int| 0 <= i < front.len() && (#[trigger] front[i]).0 == k;
                assert(ops[i] == front[i]);
            }
        }
        assert(ops[ops.len() - 1] == ops.last());
        lemma_untouched_id(m, front, k);
    }
}

/// Lookup before and after insert: an identifier that was never inserted is
/// absent; once `h` is inserted under `k`, `k` maps to `h` for as long as no
/// later insert uses `k`.
pub proof fn lemma_lookup_after_insert<H>(
    m: Map<i32, H>,
    k: i32,
    h: H,
    earlier: Seq<(i32, H)>,
    later: Seq<(i32, H)>,
)
    requires
        !inserts_id(later, k),
    ensures
        !inserts_id(earlier, k) ==> !apply_inserts(Map::<i32, H>::empty(), earlier).contains_key(k),
        apply_inserts(m.insert(k, h), later).contains_key(k),
        apply_inserts(m.insert(k, h), later)[k] == h,
{
    if !inserts_id(earlier, k) {
        lemma_untouched_id(Map::<i32, H>::empty(), earlier, k);
    }
    lemma_untouched_id(m.insert(k, h), later, k);
}

/// No insert is lost: after a run of inserts under distinct identifiers, in
/// whatever order the lock let them through, every identifier maps to the
/// handle inserted under it.
pub proof fn lemma_no_insert_lost<H>(m: Map<i32, H>, ops: Seq<(i32, H)>)
    requires
        forall|i: int, j: int| 0 <= i < j < ops.len() ==> ops[i].0 != ops[j].0,
    ensures
        forall|i: int|
            0 <= i < ops.len() ==> apply_inserts(m, ops).contains_key(#[trigger] ops[i].0)
                && apply_inserts(m, ops)[ops[i].0] == ops[i].1,
    decreases ops.len(),
{
    if ops.len() > 0 {
        let front = ops.drop_last();
        lemma_no_insert_lost(m, front);
        assert forall|i: int| 0 <= i < ops.len() implies apply_inserts(m, ops).contains_key(
            #[trigger] ops[i].0,
        ) && apply_inserts(m, ops)[ops[i].0] == ops[i].1 by {
            if i < ops.len() - 1 {
                assert(ops[i] == front[i]);
            }
        }
    }
}

/// Two inserts under distinct identifiers give the same registry in either
/// order.
pub proof fn lemma_distinct_inserts_commute<H>(m: Map<i32, H>, a: i32, ha: H, b: i32, hb: H)
    requires
        a != b,
    ensures
        m.insert(a, ha).insert(b, hb) == m.insert(b, hb).insert(a, ha),
{
    assert(m.insert(a, ha).insert(b, hb) =~= m.insert(b, hb).insert(a, ha));
}

/// The keys after a run of inserts into an empty registry are exactly the
/// identifiers that the run inserted.
pub proof fn lemma_keys_are_inserted<H>(ops: Seq<(i32, H)>, k: i32)
    ensures
        apply_inserts(Map::<i32, H>::empty(), ops).contains_key(k) == inserts_id(ops, k),
    decreases ops.len(),
{
    if ops.len() > 0 {
        let front = ops.drop_last();
        lemma_keys_are_inserted(front, k);
        if inserts_id(front, k) {
            let i = choose|i: int| 0 <= i < front.len() && (#[trigger] front[i]).0 == k;
            assert(ops[i] == front[i]);
        }
        if inserts_id(ops, k) && ops.last().0 != k {
            let i = choose|i: int| 0 <= i < ops.len() && (#[trigger] ops[i]).0 == k;
            assert(ops[i] == front[i]);
        }
    }
}

/// Enumeration of a registry built from empty by a run of inserts lists an
/// identifier exactly when some insert of the run used it, and lists it once.
pub proof fn lemma_enumeration_reflects_inserts<H>(rooms: &RoomRegistry<H>, ops: Seq<(i32, H)>)
    requires
        rooms.wf(),
        rooms@ == apply_inserts(Map::<i32, H>::empty(), ops),
    ensures
        rooms.ids().no_duplicates(),
        forall|k: i32| rooms.ids().contains(k) <==> inserts_id(ops, k),
{
    rooms.lemma_ids_are_keys();
    assert forall|k: i32| rooms.ids().contains(k) <==> inserts_id(ops, k) by {
        lemma_keys_are_inserted(ops, k);
        assert(rooms.ids().to_set().contains(k) == rooms.ids().contains(k));
    }
}

} // verus!
