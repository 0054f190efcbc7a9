//! The response shaping and message wording, fed each repository outcome
//! directly, plus the decimal rendering behind the messages.
use restaurant_orders::handler::{
    create_order_reply, delete_order_reply, get_order_reply, list_orders_reply, Reply,
};
use restaurant_orders::model::Order;
use restaurant_orders::repository::RepoError;
use restaurant_orders::text::{i32_to_string, u64_to_string, usize_to_string};
use restaurant_orders::AppConfig;

#[test]
fn decimal_rendering_is_exact() {
    assert_eq!(u64_to_string(0), "0");
    assert_eq!(u64_to_string(7), "7");
    assert_eq!(u64_to_string(10), "10");
    assert_eq!(u64_to_string(9999), "9999");
    assert_eq!(u64_to_string(u64::MAX), "18446744073709551615");
    assert_eq!(i32_to_string(0), "0");
    assert_eq!(i32_to_string(-1), "-1");
    assert_eq!(i32_to_string(i32::MIN), "-2147483648");
    assert_eq!(i32_to_string(i32::MAX), "2147483647");
    assert_eq!(usize_to_string(42), "42");
}

#[test]
fn created_order_is_wrapped_unchanged() {
    let o = Order { order_id: 12, table_id: 5, item_id: 2, cook_time_minutes: 9 };
    match create_order_reply(Ok(o)) {
        Reply::Single(code, resp) => {
            assert_eq!(code, 201);
            assert_eq!(resp.status, "success");
            assert_eq!(resp.data.order, o);
        }
        _ => panic!("expected a created envelope"),
    }
}

#[test]
fn create_failure_carries_the_store_text() {
    let e = RepoError::Constraint("FOREIGN KEY constraint failed".to_string());
    match create_order_reply(Err(e)) {
        Reply::Generic(code, resp) => {
            assert_eq!(code, 409);
            assert_eq!(resp.status, "fail");
            assert_eq!(resp.message, "Could not create order: FOREIGN KEY constraint failed");
        }
        _ => panic!("expected a failure envelope"),
    }
}

#[test]
fn get_outcomes_are_shaped_exactly() {
    let o = Order { order_id: 3, table_id: 1, item_id: 4, cook_time_minutes: 5 };
    match get_order_reply(3, Ok(Some(o))) {
        Reply::Single(code, resp) => {
            assert_eq!(code, 200);
            assert_eq!(resp.status, "success");
            assert_eq!(resp.data.order, o);
        }
        _ => panic!("expected a found envelope"),
    }
    match get_order_reply(-7, Ok(None)) {
        Reply::Generic(code, resp) => {
            assert_eq!(code, 409);
            assert_eq!(resp.message, "No order exists with given ID: -7");
        }
        _ => panic!("expected a not-found envelope"),
    }
    match get_order_reply(8, Err(RepoError::Store("disk I/O error".to_string()))) {
        Reply::Generic(code, resp) => {
            assert_eq!(code, 409);
            assert_eq!(resp.message, "Could not get order with id: 8. Error: disk I/O error");
        }
        _ => panic!("expected a failure envelope"),
    }
}

#[test]
fn list_outcomes_are_shaped_exactly() {
    let a = Order { order_id: 1, table_id: 2, item_id: 1, cook_time_minutes: 6 };
    let b = Order { order_id: 4, table_id: 2, item_id: 3, cook_time_minutes: 15 };
    match list_orders_reply(2, Ok(vec![a, b])) {
        Reply::List(code, resp) => {
            assert_eq!(code, 200);
            assert_eq!(resp.status, "success");
            assert_eq!(resp.results, 2);
            assert_eq!(resp.orders[0].order, a);
            assert_eq!(resp.orders[1].order, b);
        }
        _ => panic!("expected a listing envelope"),
    }
    match list_orders_reply(2, Ok(vec![])) {
        Reply::List(code, resp) => {
            assert_eq!(code, 200);
            assert_eq!(resp.results, 0);
            assert!(resp.orders.is_empty());
        }
        _ => panic!("expected a listing envelope"),
    }
    match list_orders_reply(9, Err(RepoError::Store("locked".to_string()))) {
        Reply::Generic(code, resp) => {
            assert_eq!(code, 409);
            assert_eq!(
                resp.message,
                "Could not get orders for table with id: 9. Error: locked"
            );
        }
        _ => panic!("expected a failure envelope"),
    }
}

#[test]
fn delete_outcomes_are_shaped_exactly() {
    match delete_order_reply(31, Ok(1)) {
        Reply::Generic(code, resp) => {
            assert_eq!(code, 200);
            assert_eq!(resp.status, "success");
            assert_eq!(resp.message, "Deleted 1 order(s) with id: 31");
        }
        _ => panic!("expected a message envelope"),
    }
    match delete_order_reply(31, Err(RepoError::Store("busy".to_string()))) {
        Reply::Generic(code, resp) => {
            assert_eq!(code, 409);
            assert_eq!(resp.message, "Could not delete order with id: 31. Error: busy");
        }
        _ => panic!("expected a failure envelope"),
    }
}

#[test]
fn repo_error_message_hands_out_its_text() {
    assert_eq!(RepoError::Constraint("a".to_string()).message(), "a");
    assert_eq!(RepoError::Store("b".to_string()).message(), "b");
}

#[test]
fn default_config_names_the_fallback_store() {
    let cfg = AppConfig::default();
    assert_eq!(cfg.db_filename, "restaurant.db");
}
