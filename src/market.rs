//! The marketplace service: the identifier counter and the item table, with
//! the five operations on them, and the snapshot that rebuilds one.

use std::collections::BTreeMap;
use vstd::prelude::*;

use crate::item::{Item, ItemPayload, MarketError};

verus! {

broadcast use vstd::laws_cmp::group_laws_cmp;

/// What a marketplace holds, as mathematics: the last identifier handed out
/// (0 before the first) and the table from identifier to record.
pub struct MarketState {
    pub counter: u64,
    pub table: Map<u64, Item>,
}

impl MarketState {
    /// Every stored record sits under its own identifier, and that identifier
    /// was handed out by the counter.
    pub open spec fn wf(self) -> bool {
        forall|k: u64|
            #[trigger] self.table.contains_key(k) ==> 1 <= k <= self.counter && self.table[k].id
                == k
    }
}

/// The record that a creation builds.
pub open spec fn new_record(id: u64, p: ItemPayload, now: u64) -> Item {
    Item {
        id,
        name: p.name,
        description: p.description,
        owner: p.owner,
        rental_price: p.rental_price,
        available: true,
        created_at: now,
        updated_at: None,
    }
}

/// A record with its mutable fields rewritten from a payload.
pub open spec fn updated_record(old: Item, p: ItemPayload, now: u64) -> Item {
    Item {
        name: p.name,
        description: p.description,
        owner: p.owner,
        rental_price: p.rental_price,
        updated_at: Some(now),
        ..old
    }
}

/// A record with its availability flipped.
pub open spec fn toggled_record(old: Item, now: u64) -> Item {
    Item { available: !old.available, updated_at: Some(now), ..old }
}

/// Looking up an identifier.
pub open spec fn get_step(s: MarketState, id: u64) -> Result<Item, MarketError> {
    if s.table.contains_key(id) {
        Ok(s.table[id])
    } else {
        Err(MarketError::NotFound(id))
    }
}

/// Creating a record under the next identifier.
pub open spec fn add_step(s: MarketState, p: ItemPayload, now: u64) -> (MarketState, Item) {
    let id = (s.counter + 1) as u64;
    let item = new_record(id, p, now);
    (MarketState { counter: id, table: s.table.insert(id, item) }, item)
}

/// Rewriting the mutable fields of a record.
pub open spec fn update_step(s: MarketState, id: u64, p: ItemPayload, now: u64) -> (
    MarketState,
    Result<Item, MarketError>,
) {
    if s.table.contains_key(id) {
        let item = updated_record(s.table[id], p, now);
        (MarketState { table: s.table.insert(id, item), ..s }, Ok(item))
    } else {
        (s, Err(MarketError::NotFound(id)))
    }
}

/// Removing a record.
pub open spec fn delete_step(s: MarketState, id: u64) -> (MarketState, Result<Item, MarketError>) {
    if s.table.contains_key(id) {
        (MarketState { table: s.table.remove(id), ..s }, Ok(s.table[id]))
    } else {
        (s, Err(MarketError::NotFound(id)))
    }
}

/// Flipping the availability of a record.
pub open spec fn toggle_step(s: MarketState, id: u64, now: u64) -> (
    MarketState,
    Result<Item, MarketError>,
) {
    if s.table.contains_key(id) {
        let item = toggled_record(s.table[id], now);
        (MarketState { table: s.table.insert(id, item), ..s }, Ok(item))
    } else {
        (s, Err(MarketError::NotFound(id)))
    }
}

/// The stored records with identifiers 1 to `n`, in increasing order of
/// identifier.
pub open spec fn records_up_to(table: Map<u64, Item>, n: nat) -> Seq<Item>
    decreases n,
{
    if n == 0 {
        Seq::empty()
    } else {
        let prev = records_up_to(table, (n - 1) as nat);
        if table.contains_key(n as u64) {
            prev.push(table[n as u64])
        } else {
            prev
        }
    }
}

/// The table that storing `records` one after another, each under its own
/// identifier, builds.
pub open spec fn table_of(records: Seq<Item>) -> Map<u64, Item>
    decreases records.len(),
{
    if records.len() == 0 {
        Map::empty()
    } else {
        table_of(records.drop_last()).insert(records.last().id, records.last())
    }
}

/// Each record of a built table sits under its own identifier, which is one of
/// the records' identifiers.
proof fn lemma_table_of_keys(records: Seq<Item>)
    ensures
        forall|k: u64| #[trigger]
            table_of(records).contains_key(k) ==> table_of(records)[k].id == k && exists|i: int|
                0 <= i < records.len() && records[i].id == k,
    decreases records.len(),
{
    if records.len() > 0 {
        let prev = records.drop_last();
        lemma_table_of_keys(prev);
        assert forall|k: u64| #[trigger]
            table_of(records).contains_key(k) implies table_of(records)[k].id == k && exists|i: int|
                0 <= i < records.len() && records[i].id == k by {
            if k != records.last().id {
                let i = choose|i: int| 0 <= i < prev.len() && prev[i].id == k;
                assert(records[i] == prev[i]);
            } else {
                assert(records[records.len() - 1].id == k);
            }
        }
    }
}

/// The identifier counter and the item table of one marketplace.
pub struct Marketplace {
    counter: u64,
    items: BTreeMap<u64, Item>,
}

impl View for Marketplace {
    type V = MarketState;

    closed spec fn view(&self) -> MarketState {
        MarketState { counter: self.counter, table: self.items@ }
    }
}

impl Marketplace {
    /// An empty marketplace whose first item will get identifier 1.
    pub fn new() -> (r: Marketplace)
        ensures
            r@.counter == 0,
            r@.table == Map::<u64, Item>::empty(),
            r@.wf(),
    {
        Marketplace { counter: 0, items: BTreeMap::new() }
    }

    /// The last identifier handed out, 0 before the first creation.
    pub fn last_id(&self) -> (r: u64)
        ensures
            r == self@.counter,
    {
        self.counter
    }

    /// Advances the counter by one and returns its new value.
    pub fn next_id(&mut self) -> (r: u64)
        requires
            old(self)@.counter < u64::MAX,
        ensures
            r == old(self)@.counter + 1,
            final(self)@.counter == r,
            final(self)@.table == old(self)@.table,
    {
        self.counter = self.counter + 1;
        self.counter
    }

    /// A copy of the record stored under `id`, or `NotFound(id)`.
    pub fn get_item(&self, id: u64) -> (r: Result<Item, MarketError>)
        ensures
            r == get_step(self@, id),
    {
        match self.items.get(&id) {
            Some(item) => Ok(item.duplicate()),
            None => Err(MarketError::NotFound(id)),
        }
    }

    /// Stores a new, available record under the next identifier, stamped with
    /// `now`, and returns it.
    pub fn add_item(&mut self, payload: ItemPayload, now: u64) -> (r: Item)
        requires
            old(self)@.wf(),
            old(self)@.counter < u64::MAX,
        ensures
            (final(self)@, r) == add_step(old(self)@, payload, now),
            !old(self)@.table.contains_key(r.id),
            final(self)@.wf(),
    {
        let id = self.next_id();
        let item = Item {
            id,
            name: payload.name,
            description: payload.description,
            owner: payload.owner,
            rental_price: payload.rental_price,
            available: true,
            created_at: now,
            updated_at: None,
        };
        self.items.insert(id, item.duplicate());
        item
    }

    /// Rewrites the name, description, owner and price of the record under
    /// `id`, stamps it with `now` and returns it; `NotFound(id)` and no change
    /// when there is none.
    pub fn update_item(&mut self, id: u64, payload: ItemPayload, now: u64) -> (r: Result<
        Item,
        MarketError,
    >)
        requires
            old(self)@.wf(),
        ensures
            (final(self)@, r) == update_step(old(self)@, id, payload, now),
            final(self)@.wf(),
    {
        match self.items.get(&id) {
            Some(stored) => {
                let item = Item {
                    id: stored.id,
                    name: payload.name,
                    description: payload.description,
                    owner: payload.owner,
                    rental_price: payload.rental_price,
                    available: stored.available,
                    created_at: stored.created_at,
                    updated_at: Some(now),
                };
                self.items.insert(id, item.duplicate());
                Ok(item)
            },
            None => Err(MarketError::NotFound(id)),
        }
    }

    /// Removes the record under `id` and returns it; `NotFound(id)` and no
    /// change when there is none. The identifier is never handed out again.
    pub fn delete_item(&mut self, id: u64) -> (r: Result<Item, MarketError>)
        requires
            old(self)@.wf(),
        ensures
            (final(self)@, r) == delete_step(old(self)@, id),
            final(self)@.wf(),
    {
        match self.items.remove(&id) {
            Some(item) => Ok(item),
            None => {
                assert(self.items@ =~= old(self).items@);
                Err(MarketError::NotFound(id))
            },
        }
    }

    /// Flips the availability of the record under `id`, stamps it with `now`
    /// and returns it; `NotFound(id)` and no change when there is none.
    pub fn toggle_availability(&mut self, id: u64, now: u64) -> (r: Result<Item, MarketError>)
        requires
            old(self)@.wf(),
        ensures
            (final(self)@, r) == toggle_step(old(self)@, id, now),
            final(self)@.wf(),
    {
        match self.items.get(&id) {
            Some(stored) => {
                let mut item = stored.duplicate();
                item.available = !item.available;
                item.updated_at = Some(now);
                self.items.insert(id, item.duplicate());
                Ok(item)
            },
            None => Err(MarketError::NotFound(id)),
        }
    }
    /// Every stored record, in increasing order of identifier: what
    /// `restore` needs, with the counter, to rebuild this marketplace.
    pub fn snapshot(&self) -> (r: Vec<Item>)
        ensures
            r@ == records_up_to(self@.table, self@.counter as nat),
    {
        let mut r: Vec<Item> = Vec::new();
        let mut i: u64 = 0;
        while i < self.counter
            invariant
                i <= self.counter,
                r@ == records_up_to(self.items@, i as nat),
            decreases self.counter - i,
        {
            i = i + 1;
            match self.items.get(&i) {
                Some(item) => r.push(item.duplicate()),
                None => {},
            }
        }
        r
    }

    /// Rebuilds a marketplace from a counter and records, each stored under its
    /// own identifier (a later record wins over an earlier one with the same
    /// identifier). `None` when some identifier is 0 or beyond the counter,
    /// since the counter could hand it out again.
    pub fn restore(counter: u64, records: Vec<Item>) -> (r: Option<Marketplace>)
        ensures
            r is Some <==> forall|i: int|
                0 <= i < records@.len() ==> 1 <= #[trigger] records@[i].id <= counter,
            r matches Some(m) ==> m@ == (MarketState { counter, table: table_of(records@) }),
            r matches Some(m) ==> m@.wf(),
    {
        let mut items: BTreeMap<u64, Item> = BTreeMap::new();
        let mut i: usize = 0;
        while i < records.len()
            invariant
                i <= records@.len(),
                items@ == table_of(records@.take(i as int)),
                forall|j: int| 0 <= j < i ==> 1 <= #[trigger] records@[j].id <= counter,
            decreases records@.len() - i,
        {
            let id = records[i].id;
            if id < 1 || id > counter {
                return None;
            }
            items.insert(id, records[i].duplicate());
            proof {
                assert(records@.take(i + 1).drop_last() =~= records@.take(i as int));
            }
            i = i + 1;
        }
        proof {
            assert(records@.take(i as int) =~= records@);
            lemma_table_of_keys(records@);
        }
        Some(Marketplace { counter, items })
    }
}

} // verus!
