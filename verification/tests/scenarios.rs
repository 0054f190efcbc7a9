//! End-to-end scenarios over a freshly seeded in-memory store, exercising
//! the handlers exactly as the wire layer does.
use restaurant_orders::dbsetup::setup;
use restaurant_orders::handler::{
    create_order_handler, delete_order_handler, get_order_handler, get_orders_for_table_handler,
    health_checker_handler, Reply,
};
use restaurant_orders::model::OrderJson;

#[test]
fn health_check_reports_healthy() {
    let r = health_checker_handler();
    assert_eq!(r.status, "success");
    assert_eq!(r.message, "Healthy");
}

#[test]
fn create_first_order_on_fresh_store() {
    let mut db = setup(":memory:").unwrap();
    let r = create_order_handler(&mut db, OrderJson { table_id: 1, item_id: 1 });
    match r {
        Reply::Single(code, resp) => {
            assert_eq!(code, 201);
            assert_eq!(resp.status, "success");
            assert_eq!(resp.data.order.order_id, 1);
            assert_eq!(resp.data.order.table_id, 1);
            assert_eq!(resp.data.order.item_id, 1);
            assert!(5 <= resp.data.order.cook_time_minutes);
            assert!(resp.data.order.cook_time_minutes <= 15);
        }
        _ => panic!("expected a created order"),
    }
}

#[test]
fn get_unknown_order_names_the_id() {
    let db = setup(":memory:").unwrap();
    let r = get_order_handler(&db, 9999);
    match r {
        Reply::Generic(code, resp) => {
            assert_eq!(code, 409);
            assert_eq!(resp.status, "fail");
            assert!(resp.message.contains("9999"));
            assert_eq!(resp.message, "No order exists with given ID: 9999");
        }
        _ => panic!("expected a failure envelope"),
    }
}

#[test]
fn list_returns_both_orders_of_a_table() {
    let mut db = setup(":memory:").unwrap();
    let first = match create_order_handler(&mut db, OrderJson { table_id: 5, item_id: 2 }) {
        Reply::Single(_, resp) => resp.data.order,
        _ => panic!("expected a created order"),
    };
    let second = match create_order_handler(&mut db, OrderJson { table_id: 5, item_id: 3 }) {
        Reply::Single(_, resp) => resp.data.order,
        _ => panic!("expected a created order"),
    };
    let r = get_orders_for_table_handler(&db, 5);
    match r {
        Reply::List(code, resp) => {
            assert_eq!(code, 200);
            assert_eq!(resp.status, "success");
            assert_eq!(resp.results, 2);
            assert_eq!(resp.orders.len(), 2);
            assert!(resp.orders.iter().any(|d| d.order == first));
            assert!(resp.orders.iter().any(|d| d.order == second));
        }
        _ => panic!("expected a listing"),
    }
}

#[test]
fn delete_twice_reports_one_then_zero() {
    let mut db = setup(":memory:").unwrap();
    match create_order_handler(&mut db, OrderJson { table_id: 1, item_id: 1 }) {
        Reply::Single(_, resp) => assert_eq!(resp.data.order.order_id, 1),
        _ => panic!("expected a created order"),
    }
    match delete_order_handler(&mut db, 1) {
        Reply::Generic(code, resp) => {
            assert_eq!(code, 200);
            assert_eq!(resp.status, "success");
            assert_eq!(resp.message, "Deleted 1 order(s) with id: 1");
        }
        _ => panic!("expected a message envelope"),
    }
    match delete_order_handler(&mut db, 1) {
        Reply::Generic(code, resp) => {
            assert_eq!(code, 200);
            assert_eq!(resp.status, "success");
            assert_eq!(resp.message, "Deleted 0 order(s) with id: 1");
        }
        _ => panic!("expected a message envelope"),
    }
}

#[test]
fn create_with_unknown_references_fails_and_inserts_nothing() {
    let mut db = setup(":memory:").unwrap();
    let r = create_order_handler(&mut db, OrderJson { table_id: 101, item_id: 1 });
    match r {
        Reply::Generic(code, resp) => {
            assert_eq!(code, 409);
            assert_eq!(resp.status, "fail");
        }
        _ => panic!("expected a failure envelope"),
    }
    let r = create_order_handler(&mut db, OrderJson { table_id: 1, item_id: 5 });
    match r {
        Reply::Generic(code, resp) => {
            assert_eq!(code, 409);
            assert_eq!(resp.status, "fail");
        }
        _ => panic!("expected a failure envelope"),
    }
    match get_orders_for_table_handler(&db, 101) {
        Reply::List(_, resp) => assert_eq!(resp.results, 0),
        _ => panic!("expected a listing"),
    }
    match get_order_handler(&db, 1) {
        Reply::Generic(code, _) => assert_eq!(code, 409),
        _ => panic!("expected not-found: nothing was inserted"),
    }
}
