use crate::order::{Order, OrderId, OrderView};
use vstd::prelude::*;

verus! {

/// One stored record: an order and the identifier it is kept under.
struct Entry {
    key: OrderId,
    order: Order,
}

/// A mapping from order identifiers to orders.
///
/// At most one order is kept under an identifier. Its view is the map from
/// each identifier in use to the value of the order kept under it.
pub struct OrderStore {
    entries: Vec<Entry>,
}

/// Whether position `at` of `entries` holds the record kept under `key`.
spec fn holds(entries: Seq<Entry>, at: int, key: Seq<char>) -> bool {
    0 <= at < entries.len() && entries[at].key@ == key
}

impl View for OrderStore {
    type V = Map<Seq<char>, OrderView>;

    closed spec fn view(&self) -> Map<Seq<char>, OrderView> {
        Map::new(
            |key: Seq<char>| exists|at: int| holds(self.entries@, at, key),
            |key: Seq<char>| self.entries@[choose|at: int| holds(self.entries@, at, key)].order@,
        )
    }
}

impl OrderStore {
    /// No identifier occurs in two records.
    pub closed spec fn wf(&self) -> bool {
        forall|i: int, j: int|
            0 <= i < j < self.entries@.len() ==> self.entries@[i].key@ != self.entries@[j].key@
    }

    /// An empty store.
    pub fn new() -> (store: Self)
        ensures
            store.wf(),
            store@ == Map::<Seq<char>, OrderView>::empty(),
    {
        let store = OrderStore { entries: Vec::new() };
        assert(store@ =~= Map::<Seq<char>, OrderView>::empty());
        store
    }

    /// The position of the record kept under `order_id`, if there is one.
    fn position(&self, order_id: &OrderId) -> (found: Option<usize>)
        requires
            self.wf(),
        ensures
            match found {
                Some(at) => holds(self.entries@, at as int, order_id@),
                None => forall|at: int| !holds(self.entries@, at, order_id@),
            },
    {
        let mut at: usize = 0;
        while at < self.entries.len()
            invariant
                at <= self.entries@.len(),
                forall|before: int| 0 <= before < at ==> !holds(self.entries@, before, order_id@),
            decreases self.entries@.len() - at,
        {
            if self.entries[at].key == *order_id {
                return Some(at);
            }
            at += 1;
        }
        None
    }

    /// In a well-formed store the record at a position is the one the view
    /// gives for its identifier.
    proof fn lemma_view_at(&self, at: int)
        requires
            self.wf(),
            0 <= at < self.entries@.len(),
        ensures
            self@.contains_key(self.entries@[at].key@),
            self@[self.entries@[at].key@] == self.entries@[at].order@,
    {
        let key = self.entries@[at].key@;
        assert(holds(self.entries@, at, key));
        let chosen = choose|other: int| holds(self.entries@, other, key);
        assert(chosen == at);
    }

    /// Returns a copy of the order kept under `order_id`, or `None` where
    /// there is none.
    pub fn get(&self, order_id: &OrderId) -> (found: Option<Order>)
        requires
            self.wf(),
        ensures
            match found {
                Some(order) => self@.contains_key(order_id@) && order@ == self@[order_id@],
                None => !self@.contains_key(order_id@),
            },
    {
        match self.position(order_id) {
            Some(at) => {
                proof {
                    self.lemma_view_at(at as int);
                }
                Some(self.entries[at].order.clone())
            },
            None => None,
        }
    }

    /// Keeps `order` under `order_id`, in place of any order kept there
    /// before. Every other identifier keeps its order.
    pub fn insert(&mut self, order_id: OrderId, order: Order)
        requires
            old(self).wf(),
        ensures
            final(self).wf(),
            final(self)@ == old(self)@.insert(order_id@, order@),
    {
        let ghost before = self.entries@;
        let found = self.position(&order_id);
        let entry = Entry { key: order_id, order };
        match found {
            Some(at) => {
                self.entries[at] = entry;
            },
            None => {
                self.entries.push(entry);
            },
        }
        proof {
            let after = self.entries@;
            let key = entry.key@;
            let target = old(self)@.insert(key, entry.order@);
            let place = if found is Some { found->0 as int } else { before.len() as int };
            assert(after[place] == entry);
            assert forall|i: int, j: int| 0 <= i < j < after.len() implies after[i].key@ != after[j].key@ by {
                if found is Some {
                    assert(after[i].key@ == before[i].key@);
                    assert(after[j].key@ == before[j].key@);
                } else if j == before.len() {
                    assert(!holds(before, i, key));
                }
            }
            assert forall|k: Seq<char>| target.contains_key(k) <==> #[trigger] self@.contains_key(k) by {
                if k == key {
                    assert(holds(after, place, k));
                } else if old(self)@.contains_key(k) {
                    let at = choose|at: int| holds(before, at, k);
                    assert(holds(after, at, k));
                } else if self@.contains_key(k) {
                    let at = choose|at: int| holds(after, at, k);
                    assert(holds(before, at, k));
                }
            }
            assert forall|k: Seq<char>| target.contains_key(k) implies target[k] == #[trigger] self@[k] by {
                if k == key {
                    self.lemma_view_at(place);
                } else {
                    let at = choose|at: int| holds(before, at, k);
                    assert(holds(before, at, k));
                    old(self).lemma_view_at(at);
                    assert(after[at] == before[at]);
                    self.lemma_view_at(at);
                }
            }
            assert(self@ =~= target);
        }
    }
}

} // verus!
