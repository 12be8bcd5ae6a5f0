//! Laws that relate several operations of the marketplace, proved over the
//! step functions that the operations' own contracts are stated with.

use vstd::prelude::*;

use crate::item::{ItemPayload, Item, MarketError};
use crate::market::{
    MarketState,
    add_step,
    delete_step,
    get_step,
    records_up_to,
    table_of,
    toggle_step,
    update_step,
};

verus! {

/// Runs creations one after another from `s`, each with a payload and a time;
/// gives the state at the end and the records returned, in order.
pub open spec fn add_all(s: MarketState, ps: Seq<(ItemPayload, u64)>) -> (MarketState, Seq<Item>)
    decreases ps.len(),
{
    if ps.len() == 0 {
        (s, Seq::empty())
    } else {
        let (s1, item) = add_step(s, ps[0].0, ps[0].1);
        let (s2, rest) = add_all(s1, ps.drop_first());
        (s2, seq![item] + rest)
    }
}

/// The `i`-th of a run of creations gets the identifier that follows the
/// counter by `i + 1`, and the counter ends past them all.
proof fn lemma_add_all_ids(s: MarketState, ps: Seq<(ItemPayload, u64)>)
    requires
        s.counter + ps.len() <= u64::MAX,
    ensures
        add_all(s, ps).1.len() == ps.len(),
        add_all(s, ps).0.counter == s.counter + ps.len(),
        forall|i: int| 0 <= i < ps.len() ==> #[trigger] add_all(s, ps).1[i].id == s.counter + 1 + i,
    decreases ps.len(),
{
    if ps.len() > 0 {
        let (s1, item) = add_step(s, ps[0].0, ps[0].1);
        lemma_add_all_ids(s1, ps.drop_first());
        let rest = add_all(s1, ps.drop_first()).1;
        assert forall|i: int| 0 <= i < ps.len() implies #[trigger] add_all(s, ps).1[i].id == s.counter
            + 1 + i by {
            if i > 0 {
                assert(add_all(s, ps).1[i] == rest[i - 1]);
            }
        }
    }
}

/// Any run of creations returns identifiers that strictly increase, so no two
/// are equal, and none of them names a record that was stored before the run.
pub proof fn lemma_add_ids_increase(s: MarketState, ps: Seq<(ItemPayload, u64)>)
    requires
        s.wf(),
        s.counter + ps.len() <= u64::MAX,
    ensures
        add_all(s, ps).1.len() == ps.len(),
        forall|i: int, j: int|
            0 <= i < j < ps.len() ==> #[trigger] add_all(s, ps).1[i].id < #[trigger] add_all(
                s,
                ps,
            ).1[j].id,
        forall|i: int, j: int|
            0 <= i < ps.len() && 0 <= j < ps.len() && i != j ==> #[trigger] add_all(s, ps).1[i].id
                != #[trigger] add_all(s, ps).1[j].id,
        forall|i: int|
            0 <= i < ps.len() ==> !s.table.contains_key(#[trigger] add_all(s, ps).1[i].id),
{
    lemma_add_all_ids(s, ps);
}

/// Looking up the identifier that a creation returned gives back the very
/// record it returned, never updated yet.
pub proof fn lemma_get_after_add(s: MarketState, p: ItemPayload, now: u64)
    requires
        s.counter < u64::MAX,
    ensures
        get_step(add_step(s, p, now).0, add_step(s, p, now).1.id) == Ok::<Item, MarketError>(
            add_step(s, p, now).1,
        ),
        add_step(s, p, now).1.updated_at is None,
        add_step(s, p, now).1.available,
{
}

/// An update of a stored record succeeds, takes the payload's name,
/// description, owner and price, keeps the identifier, creation time and
/// availability, and stamps it no earlier than its last change when the clock
/// has not gone back.
pub proof fn lemma_update_fields(s: MarketState, id: u64, p: ItemPayload, now: u64)
    requires
        s.table.contains_key(id),
        now >= s.table[id].last_stamp(),
    ensures
        update_step(s, id, p, now).1 is Ok,
        ({
            let old_item = s.table[id];
            let new_item = update_step(s, id, p, now).1->Ok_0;
            &&& new_item.updated_at == Some(now)
            &&& new_item.last_stamp() >= old_item.last_stamp()
            &&& new_item.name == p.name
            &&& new_item.description == p.description
            &&& new_item.owner == p.owner
            &&& new_item.rental_price == p.rental_price
            &&& new_item.id == old_item.id
            &&& new_item.created_at == old_item.created_at
            &&& new_item.available == old_item.available
        }),
{
}

/// Toggling a stored record twice succeeds both times: the first flips its
/// availability and the second restores it.
pub proof fn lemma_toggle_twice(s: MarketState, id: u64, now1: u64, now2: u64)
    requires
        s.table.contains_key(id),
    ensures
        toggle_step(s, id, now1).1 is Ok,
        toggle_step(toggle_step(s, id, now1).0, id, now2).1 is Ok,
        toggle_step(s, id, now1).1->Ok_0.available == !s.table[id].available,
        toggle_step(toggle_step(s, id, now1).0, id, now2).1->Ok_0.available
            == s.table[id].available,
{
}

/// After a deletion the identifier is gone: a lookup and a second deletion
/// both report it missing. The deletion itself returns the stored record
/// exactly when there was one.
pub proof fn lemma_delete_then_missing(s: MarketState, id: u64)
    ensures
        s.table.contains_key(id) ==> delete_step(s, id).1 == Ok::<Item, MarketError>(s.table[id]),
        !s.table.contains_key(id) ==> delete_step(s, id).1 == Err::<Item, MarketError>(
            MarketError::NotFound(id),
        ),
        get_step(delete_step(s, id).0, id) == Err::<Item, MarketError>(MarketError::NotFound(id)),
        delete_step(delete_step(s, id).0, id).1 == Err::<Item, MarketError>(
            MarketError::NotFound(id),
        ),
{
}

/// Every operation on an identifier that names no record reports it missing
/// and leaves the table and the counter as they were.
pub proof fn lemma_missing_id(s: MarketState, id: u64, p: ItemPayload, now: u64)
    requires
        !s.table.contains_key(id),
    ensures
        get_step(s, id) == Err::<Item, MarketError>(MarketError::NotFound(id)),
        update_step(s, id, p, now) == (s, Err::<Item, MarketError>(MarketError::NotFound(id))),
        delete_step(s, id) == (s, Err::<Item, MarketError>(MarketError::NotFound(id))),
        toggle_step(s, id, now) == (s, Err::<Item, MarketError>(MarketError::NotFound(id))),
{
}

/// An identifier beyond the counter was never handed out, so it names no
/// record.
pub proof fn lemma_beyond_counter_missing(s: MarketState, id: u64)
    requires
        s.wf(),
        id > s.counter,
    ensures
        !s.table.contains_key(id),
{
}

/// The records with identifiers 1 to `n` of a well-formed table carry
/// identifiers in that range, and build exactly that part of the table.
proof fn lemma_records_up_to(s: MarketState, n: nat)
    requires
        s.wf(),
        n <= s.counter,
    ensures
        forall|i: int|
            0 <= i < records_up_to(s.table, n).len() ==> 1 <= #[trigger] records_up_to(
                s.table,
                n,
            )[i].id <= n,
        table_of(records_up_to(s.table, n)) == s.table.restrict(Set::new(|k: u64| 1 <= k <= n)),
    decreases n,
{
    if n > 0 {
        let prev = records_up_to(s.table, (n - 1) as nat);
        let rs = records_up_to(s.table, n);
        lemma_records_up_to(s, (n - 1) as nat);
        if s.table.contains_key(n as u64) {
            assert(rs.drop_last() =~= prev);
        }
        assert(table_of(rs) =~= s.table.restrict(Set::new(|k: u64| 1 <= k <= n)));
    }
}

/// Restoring from a well-formed marketplace's counter and snapshot succeeds
/// and rebuilds exactly its table.
pub proof fn lemma_restore_snapshot(s: MarketState)
    requires
        s.wf(),
    ensures
        forall|i: int|
            0 <= i < records_up_to(s.table, s.counter as nat).len() ==> 1
                <= #[trigger] records_up_to(s.table, s.counter as nat)[i].id <= s.counter,
        table_of(records_up_to(s.table, s.counter as nat)) == s.table,
{
    lemma_records_up_to(s, s.counter as nat);
    assert(s.table.restrict(Set::new(|k: u64| 1 <= k <= s.counter)) =~= s.table);
}

} // verus!
