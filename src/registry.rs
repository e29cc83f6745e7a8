use std::collections::HashMap;
use vstd::prelude::*;

verus! {

broadcast use vstd::std_specs::hash::group_hash_axioms;

/// The directory of live rooms: each room identifier maps to the handle of the
/// session worker that runs that room.
///
/// Besides the map itself the registry remembers the identifiers in the order
/// in which they first appeared, so that enumeration is a plain walk over a
/// vector whose contents are exactly the map's keys.
pub struct RoomRegistry<H> {
    rooms: HashMap<i32, H>,
    order: Vec<i32>,
}

impl<H> View for RoomRegistry<H> {
    type V = Map<i32, H>;

    closed spec fn view(&self) -> Map<i32, H> {
        self.rooms@
    }
}

impl<H> RoomRegistry<H> {
    /// The identifiers in the order in which they were first inserted.
    pub closed spec fn ids(&self) -> Seq<i32> {
        self.order@
    }

    /// Well-formedness: the ordered identifiers are the map's keys, each once.
    pub closed spec fn wf(&self) -> bool {
        &&& self.order@.no_duplicates()
        &&& forall|i: int| 0 <= i < self.order@.len() ==> self.rooms@.contains_key(#[trigger] self.order@[i])
        &&& forall|k: i32| #[trigger] self.rooms@.contains_key(k) ==> self.order@.contains(k)
    }

    /// An empty registry.
    pub fn new() -> (r: Self)
        ensures
            r.wf(),
            r@ == Map::<i32, H>::empty(),
            r.ids() == Seq::<i32>::empty(),
    {
        let r = RoomRegistry { rooms: HashMap::new(), order: Vec::new() };
        assert(r.rooms@ =~= Map::<i32, H>::empty());
        assert(r.order@ =~= Seq::<i32>::empty());
        r
    }

    /// The handle registered under `room_id`, if any.
    pub fn lookup(&self, room_id: i32) -> (r: Option<&H>)
        requires
            self.wf(),
        ensures
            match r {
                Some(h) => self@.contains_key(room_id) && *h == self@[room_id],
                None => !self@.contains_key(room_id),
            },
    {
        self.rooms.get(&room_id)
    }

    /// Whether a room is registered under `room_id`.
    pub fn contains(&self, room_id: i32) -> (r: bool)
        requires
            self.wf(),
        ensures
            r == self@.contains_key(room_id),
    {
        self.rooms.contains_key(&room_id)
    }

    /// Registers `handle` under `room_id`, replacing any handle that was there.
    /// The replaced handle, if any, is handed back so that the caller can
    /// decide what becomes of its worker.
    pub fn insert(&mut self, room_id: i32, handle: H) -> (r: Option<H>)
        requires
            old(self).wf(),
        ensures
            final(self).wf(),
            final(self)@ == old(self)@.insert(room_id, handle),
            match r {
                Some(h) => old(self)@.contains_key(room_id) && h == old(self)@[room_id],
                None => !old(self)@.contains_key(room_id),
            },
            old(self)@.contains_key(room_id) ==> final(self).ids() == old(self).ids(),
            !old(self)@.contains_key(room_id) ==> final(self).ids() == old(self).ids().push(room_id),
    {
        let present = self.rooms.contains_key(&room_id);
        if !present {
            proof {
                assert(!self.order@.contains(room_id));
            }
            self.order.push(room_id);
        }
        let r = self.rooms.insert(room_id, handle);
        proof {
            assert forall|k: i32| #[trigger] self.rooms@.contains_key(k) implies self.order@.contains(k) by {
                if k != room_id {
                    assert(old(self).rooms@.contains_key(k));
                    let j = choose|j: int| 0 <= j < old(self).order@.len() && old(self).order@[j] == k;
                    assert(self.order@[j] == k);
                } else if present {
                    let j = choose|j: int| 0 <= j < old(self).order@.len() && old(self).order@[j] == k;
                    assert(self.order@[j] == k);
                } else {
                    assert(self.order@[self.order@.len() - 1] == k);
                }
            }
        }
        r
    }

    /// The number of registered rooms.
    pub fn len(&self) -> (r: usize)
        requires
            self.wf(),
        ensures
            r == self@.dom().len(),
    {
        proof {
            self.lemma_ids_are_keys();
            self.order@.unique_seq_to_set();
        }
        self.order.len()
    }

    /// A snapshot of every registered identifier, each exactly once, in the
    /// order in which the rooms were first created.
    pub fn enumerate(&self) -> (r: Vec<i32>)
        requires
            self.wf(),
        ensures
            r@ == self.ids(),
            r@.no_duplicates(),
            r@.to_set() == self@.dom(),
            r@.len() == self@.dom().len(),
    {
        let mut r: Vec<i32> = Vec::new();
        let mut i: usize = 0;
        while i < self.order.len()
            invariant
                i <= self.order@.len(),
                r@ == self.order@.subrange(0, i as int),
            decreases self.order@.len() - i,
        {
            r.push(self.order[i]);
            i = i + 1;
            assert(r@ =~= self.order@.subrange(0, i as int));
        }
        assert(r@ =~= self.order@);
        proof {
            self.lemma_ids_are_keys();
            self.order@.unique_seq_to_set();
        }
        r
    }

    /// The ordered identifiers of a well-formed registry are its keys.
    pub proof fn lemma_ids_are_keys(&self)
        requires
            self.wf(),
        ensures
            self.ids().to_set() == self@.dom(),
            self.ids().no_duplicates(),
    {
        assert forall|k: i32| self.ids().to_set().contains(k) <==> self@.dom().contains(k) by {
            if self.ids().to_set().contains(k) {
                let j = choose|j: int| 0 <= j < self.order@.len() && self.order@[j] == k;
                assert(self.rooms@.contains_key(self.order@[j]));
            }
        }
        assert(self.ids().to_set() =~= self@.dom());
    }
}

} // verus!
