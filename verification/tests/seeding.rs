//! The seeding contract, observed through the store itself: a file-backed
//! database is seeded, reopened with the store's own client, and read back.
use restaurant_orders::dbsetup::setup;
use restaurant_orders::repository::insert_order;

#[test]
fn seeding_populates_four_items_and_one_hundred_tables() {
    let path = "/tmp/restaurant_orders_seeding_test.db";
    {
        let db = setup(path).unwrap();
        drop(db);
    }
    let conn = rusqlite::Connection::open(path).unwrap();
    let mut stmt = conn.prepare("SELECT item_id, name FROM items ORDER BY item_id").unwrap();
    let items: Vec<(i64, String)> = stmt
        .query_map([], |row| Ok((row.get(0)?, row.get(1)?)))
        .unwrap()
        .map(|r| r.unwrap())
        .collect();
    assert_eq!(
        items,
        vec![
            (1, "Fish".to_string()),
            (2, "Meat".to_string()),
            (3, "Spaghetti".to_string()),
            (4, "Bread".to_string()),
        ]
    );
    let mut stmt = conn.prepare("SELECT table_id, seats FROM tables ORDER BY table_id").unwrap();
    let tables: Vec<(i64, i64)> = stmt
        .query_map([], |row| Ok((row.get(0)?, row.get(1)?)))
        .unwrap()
        .map(|r| r.unwrap())
        .collect();
    assert_eq!(tables.len(), 100);
    for (i, (table_id, seats)) in tables.iter().enumerate() {
        assert_eq!(*table_id, i as i64 + 1);
        assert!((1..=3).contains(seats), "table {table_id} seats {seats}");
    }
    let orders: i64 =
        conn.query_row("SELECT COUNT(*) FROM orders", [], |row| row.get(0)).unwrap();
    assert_eq!(orders, 0);
}

#[test]
fn reseeding_resets_the_store_instead_of_duplicating() {
    let path = "/tmp/restaurant_orders_reseeding_test.db";
    {
        let mut db = setup(path).unwrap();
        insert_order(&mut db, 1, 1).unwrap();
    }
    {
        let db = setup(path).unwrap();
        drop(db);
    }
    let conn = rusqlite::Connection::open(path).unwrap();
    let items: i64 = conn.query_row("SELECT COUNT(*) FROM items", [], |row| row.get(0)).unwrap();
    assert_eq!(items, 4);
    let orders: i64 =
        conn.query_row("SELECT COUNT(*) FROM orders", [], |row| row.get(0)).unwrap();
    assert_eq!(orders, 0);
}

#[test]
fn seeded_boundaries_accept_and_reject_creates() {
    let mut db = setup(":memory:").unwrap();
    assert!(insert_order(&mut db, 100, 4).is_ok());
    assert!(insert_order(&mut db, 101, 4).is_err());
    assert!(insert_order(&mut db, 100, 5).is_err());
    assert!(insert_order(&mut db, 0, 1).is_err());
    assert!(insert_order(&mut db, 1, 0).is_err());
}
