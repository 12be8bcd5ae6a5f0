use rewardrobe::item::{Item, ItemPayload, MarketError};
use rewardrobe::market::Marketplace;

fn payload(name: &str, description: &str, owner: &str, rental_price: u64) -> ItemPayload {
    ItemPayload::new(
        name.to_string(),
        description.to_string(),
        owner.to_string(),
        rental_price,
    )
}

#[test]
fn jacket_lifecycle() {
    let mut m = Marketplace::new();
    let added = m.add_item(payload("Jacket", "Leather", "alice", 100), 10);
    assert_eq!(added.id, 1);
    assert!(added.available);
    assert_eq!(added.updated_at, None);
    assert_eq!(added.name, "Jacket");
    assert_eq!(added.description, "Leather");
    assert_eq!(added.owner, "alice");
    assert_eq!(added.rental_price, 100);
    assert_eq!(added.created_at, 10);

    let toggled = m.toggle_availability(1, 20).unwrap();
    assert_eq!(toggled.id, 1);
    assert!(!toggled.available);
    assert_eq!(toggled.updated_at, Some(20));

    let deleted = m.delete_item(1).unwrap();
    assert_eq!(deleted, toggled);
    assert_eq!(m.get_item(1), Err(MarketError::NotFound(1)));
}

#[test]
fn ids_strictly_increase() {
    let mut m = Marketplace::new();
    let mut last: u64 = 0;
    for k in 0..5u64 {
        let item = m.add_item(payload("Hat", "Wool", "bob", k), k);
        assert!(item.id > last);
        last = item.id;
    }
    assert_eq!(last, 5);
    assert_eq!(m.last_id(), 5);
}

#[test]
fn ids_not_reused_after_delete() {
    let mut m = Marketplace::new();
    let a = m.add_item(payload("A", "a", "x", 1), 1);
    let b = m.add_item(payload("B", "b", "y", 2), 2);
    m.delete_item(b.id).unwrap();
    let c = m.add_item(payload("C", "c", "z", 3), 3);
    assert_eq!(a.id, 1);
    assert_eq!(b.id, 2);
    assert_eq!(c.id, 3);
    assert_eq!(m.get_item(2), Err(MarketError::NotFound(2)));
}

#[test]
fn get_after_add_returns_same_record() {
    let mut m = Marketplace::new();
    let added = m.add_item(payload("Dress", "Silk", "carol", 250), 42);
    let got = m.get_item(added.id).unwrap();
    assert_eq!(got, added);
    assert_eq!(got.updated_at, None);
}

#[test]
fn update_rewrites_fields_and_stamps() {
    let mut m = Marketplace::new();
    let added = m.add_item(payload("Coat", "Wool", "dave", 80), 100);
    m.toggle_availability(added.id, 150).unwrap();
    let updated = m
        .update_item(added.id, payload("Parka", "Down", "erin", 120), 200)
        .unwrap();
    assert_eq!(updated.id, added.id);
    assert_eq!(updated.name, "Parka");
    assert_eq!(updated.description, "Down");
    assert_eq!(updated.owner, "erin");
    assert_eq!(updated.rental_price, 120);
    assert_eq!(updated.created_at, 100);
    assert!(!updated.available);
    assert_eq!(updated.updated_at, Some(200));
    assert_eq!(m.get_item(added.id), Ok(updated));
}

#[test]
fn first_update_stamp_not_before_creation() {
    let mut m = Marketplace::new();
    let added = m.add_item(payload("Boots", "Rubber", "fay", 30), 500);
    let updated = m
        .update_item(added.id, payload("Boots", "Rubber", "fay", 35), 500)
        .unwrap();
    assert!(updated.updated_at.unwrap() >= added.created_at);
}

#[test]
fn toggle_twice_restores() {
    let mut m = Marketplace::new();
    let added = m.add_item(payload("Scarf", "Cotton", "gil", 5), 1);
    let first = m.toggle_availability(added.id, 2).unwrap();
    let second = m.toggle_availability(added.id, 3).unwrap();
    assert!(!first.available);
    assert!(second.available);
    assert_eq!(second.updated_at, Some(3));
}

#[test]
fn delete_twice_reports_not_found() {
    let mut m = Marketplace::new();
    let added = m.add_item(payload("Belt", "Leather", "hal", 7), 1);
    assert_eq!(m.delete_item(added.id), Ok(added.clone()));
    assert_eq!(m.get_item(added.id), Err(MarketError::NotFound(added.id)));
    assert_eq!(m.delete_item(added.id), Err(MarketError::NotFound(added.id)));
}

#[test]
fn missing_id_leaves_state_unchanged() {
    let mut m = Marketplace::new();
    let added = m.add_item(payload("Gloves", "Fleece", "ivy", 9), 1);
    let missing: u64 = 999999;
    assert_eq!(m.get_item(missing), Err(MarketError::NotFound(missing)));
    assert_eq!(
        m.update_item(missing, payload("X", "Y", "Z", 1), 2),
        Err(MarketError::NotFound(missing))
    );
    assert_eq!(m.delete_item(missing), Err(MarketError::NotFound(missing)));
    assert_eq!(
        m.toggle_availability(missing, 3),
        Err(MarketError::NotFound(missing))
    );
    assert_eq!(m.last_id(), 1);
    assert_eq!(m.get_item(added.id), Ok(added));
}

#[test]
fn not_found_message_text() {
    assert_eq!(
        MarketError::NotFound(999999).message(),
        "NFT item with ID 999999 not found"
    );
    assert_eq!(
        MarketError::NotFound(0).message(),
        "NFT item with ID 0 not found"
    );
    assert_eq!(MarketError::NotFound(42).id(), 42);
}

#[test]
fn next_id_advances_counter() {
    let mut m = Marketplace::new();
    assert_eq!(m.last_id(), 0);
    assert_eq!(m.next_id(), 1);
    assert_eq!(m.next_id(), 2);
    let item = m.add_item(payload("Cap", "Denim", "jo", 3), 1);
    assert_eq!(item.id, 3);
}

#[test]
fn duplicate_copies_every_field() {
    let item = Item {
        id: 7,
        name: "Vest".to_string(),
        description: "Knit".to_string(),
        owner: "kim".to_string(),
        rental_price: 12,
        available: false,
        created_at: 3,
        updated_at: Some(4),
    };
    assert_eq!(item.duplicate(), item);
}

#[test]
fn empty_payload_fields_are_accepted() {
    let mut m = Marketplace::new();
    let added = m.add_item(payload("", "", "", 0), 0);
    assert_eq!(added.id, 1);
    assert_eq!(added.name, "");
    assert_eq!(added.rental_price, 0);
}

#[test]
fn snapshot_lists_records_by_id() {
    let mut m = Marketplace::new();
    m.add_item(payload("A", "a", "x", 1), 1);
    m.add_item(payload("B", "b", "y", 2), 2);
    m.add_item(payload("C", "c", "z", 3), 3);
    m.delete_item(2).unwrap();
    let ids: Vec<u64> = m.snapshot().iter().map(|i| i.id).collect();
    assert_eq!(ids, vec![1, 3]);
    assert!(Marketplace::new().snapshot().is_empty());
}

#[test]
fn restore_of_snapshot_rebuilds_marketplace() {
    let mut m = Marketplace::new();
    m.add_item(payload("A", "a", "x", 1), 1);
    m.add_item(payload("B", "b", "y", 2), 2);
    m.toggle_availability(1, 5).unwrap();
    m.delete_item(2).unwrap();
    let mut back = Marketplace::restore(m.last_id(), m.snapshot()).unwrap();
    assert_eq!(back.last_id(), 2);
    assert_eq!(back.get_item(1), m.get_item(1));
    assert_eq!(back.get_item(2), Err(MarketError::NotFound(2)));
    let next = back.add_item(payload("D", "d", "w", 4), 6);
    assert_eq!(next.id, 3);
}

#[test]
fn restore_rejects_ids_outside_counter() {
    let mut m = Marketplace::new();
    let a = m.add_item(payload("A", "a", "x", 1), 1);
    let mut zero = a.clone();
    zero.id = 0;
    assert!(Marketplace::restore(1, vec![zero]).is_none());
    assert!(Marketplace::restore(0, vec![a.clone()]).is_none());
    assert!(Marketplace::restore(1, vec![a]).is_some());
}

#[test]
fn restore_later_record_wins() {
    let mut m = Marketplace::new();
    let a = m.add_item(payload("A", "a", "x", 1), 1);
    let mut b = a.clone();
    b.name = "B".to_string();
    let back = Marketplace::restore(1, vec![a, b.clone()]).unwrap();
    assert_eq!(back.get_item(1), Ok(b));
    assert_eq!(back.snapshot().len(), 1);
}
