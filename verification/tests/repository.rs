//! The repository operations against a freshly seeded in-memory store:
//! round trips, empty listings, absent ids, and rejected writes.
use restaurant_orders::dbsetup::setup;
use restaurant_orders::repository::{
    delete_order, get_order_by_id, get_orders, get_orders_for_table, insert_order, OrderQuery,
    RepoError,
};

#[test]
fn create_then_get_returns_matching_order() {
    let mut db = setup(":memory:").unwrap();
    let created = insert_order(&mut db, 3, 2).unwrap();
    assert_eq!(created.table_id, 3);
    assert_eq!(created.item_id, 2);
    assert!(5 <= created.cook_time_minutes && created.cook_time_minutes <= 15);
    let fetched = get_order_by_id(&db, created.order_id).unwrap();
    assert_eq!(fetched, Some(created));
}

#[test]
fn table_with_no_orders_lists_empty() {
    let db = setup(":memory:").unwrap();
    let orders = get_orders_for_table(&db, 42).unwrap();
    assert!(orders.is_empty());
    let also = get_orders(&db, OrderQuery::ByTableId(42)).unwrap();
    assert!(also.is_empty());
}

#[test]
fn absent_id_is_not_found_and_deletes_zero() {
    let mut db = setup(":memory:").unwrap();
    assert_eq!(get_order_by_id(&db, 777).unwrap(), None);
    assert_eq!(delete_order(&mut db, 777).unwrap(), 0);
}

#[test]
fn delete_then_get_is_not_found_and_delete_is_idempotent() {
    let mut db = setup(":memory:").unwrap();
    let created = insert_order(&mut db, 7, 4).unwrap();
    assert_eq!(delete_order(&mut db, created.order_id).unwrap(), 1);
    assert_eq!(get_order_by_id(&db, created.order_id).unwrap(), None);
    assert_eq!(delete_order(&mut db, created.order_id).unwrap(), 0);
}

#[test]
fn deleted_id_is_never_reused() {
    let mut db = setup(":memory:").unwrap();
    let first = insert_order(&mut db, 1, 1).unwrap();
    assert_eq!(delete_order(&mut db, first.order_id).unwrap(), 1);
    let second = insert_order(&mut db, 1, 1).unwrap();
    assert!(second.order_id > first.order_id);
}

#[test]
fn unknown_references_are_rejected_as_constraints() {
    let mut db = setup(":memory:").unwrap();
    let bad_table = insert_order(&mut db, 101, 1);
    assert!(matches!(bad_table, Err(RepoError::Constraint(_))));
    let bad_item = insert_order(&mut db, 1, 5);
    assert!(matches!(bad_item, Err(RepoError::Constraint(_))));
    assert_eq!(get_order_by_id(&db, 1).unwrap(), None);
}

#[test]
fn point_query_returns_at_most_one_row() {
    let mut db = setup(":memory:").unwrap();
    let created = insert_order(&mut db, 9, 1).unwrap();
    let rows = get_orders(&db, OrderQuery::ByOrderId(created.order_id)).unwrap();
    assert_eq!(rows.len(), 1);
    assert_eq!(rows[0], created);
}
