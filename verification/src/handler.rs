//! The business-logic half of the request handlers: validate and derive
//! request data, invoke the repository, and shape the outcome into the
//! uniform response envelope with its status code. The wire layer around
//! this translates each `Reply` into an HTTP response unchanged.
use vstd::prelude::*;
use crate::db::{
    Db, items_of, tables_of, orders_of, order_seq, order_ids_below_seq, ref_data_unchanged,
    db_unchanged, delete_count, rows_match_table,
};
use crate::model::{Order, OrderJson};
use crate::repository;
use crate::repository::RepoError;
use crate::response::{GenericResponse, OrderData, OrderListResponse, SingleOrderResponse};
use crate::text;

verus! {

/// A shaped handler outcome: the HTTP status code to send and the envelope
/// to serialize. Success codes are 200 (or 201 for a creation); every
/// failure — not found, rejected write, store failure — is a 409 with a
/// generic envelope, one uniform shape for every cause.
pub enum Reply {
    /// A single fetched or created order.
    Single(u16, SingleOrderResponse),
    /// A listing of a table's orders.
    List(u16, OrderListResponse),
    /// A message-only outcome: deletions and every failure.
    Generic(u16, GenericResponse),
}

/// The orders carried by a listing envelope, in order.
pub open spec fn orders_in(rows: Seq<OrderData>) -> Seq<Order> {
    rows.map_values(|d: OrderData| d.order)
}

/// Confirms the service is reachable and responsive.
pub fn health_checker_handler() -> (r: GenericResponse)
    ensures
        r.status@ == "success"@,
        r.message@ == text::msg_healthy(),
{
    GenericResponse { status: "success".to_owned(), message: "Healthy".to_owned() }
}

/// Shapes the outcome of a creation: the stored order under 201, or the
/// failure text under 409.
pub fn create_order_reply(res: Result<Order, RepoError>) -> (r: Reply)
    ensures
        res matches Ok(o) ==> (r matches Reply::Single(code, resp) && code == 201
            && resp.status@ == "success"@ && resp.data.order == o),
        res matches Err(e) ==> (r matches Reply::Generic(code, resp) && code == 409
            && resp.status@ == "fail"@ && resp.message@ == text::msg_create_err(e.text())),
{
    match res {
        Ok(o) => Reply::Single(
            201,
            SingleOrderResponse { status: "success".to_owned(), data: OrderData { order: o } },
        ),
        Err(e) => {
            let m = e.message();
            Reply::Generic(
                409,
                GenericResponse {
                    status: "fail".to_owned(),
                    message: text::create_err_message(&m),
                },
            )
        },
    }
}

/// Shapes the outcome of a point lookup: the order under 200, an explicit
/// not-found message under 409, or the failure text under 409.
pub fn get_order_reply(order_id: i32, res: Result<Option<Order>, RepoError>) -> (r: Reply)
    ensures
        res matches Ok(Some(o)) ==> (r matches Reply::Single(code, resp) && code == 200
            && resp.status@ == "success"@ && resp.data.order == o),
        res matches Ok(None) ==> (r matches Reply::Generic(code, resp) && code == 409
            && resp.status@ == "fail"@ && resp.message@ == text::msg_no_order(order_id as int)),
        res matches Err(e) ==> (r matches Reply::Generic(code, resp) && code == 409
            && resp.status@ == "fail"@ && resp.message@ == text::msg_get_order_err(
            order_id as int,
            e.text(),
        )),
{
    match res {
        Ok(Some(o)) => Reply::Single(
            200,
            SingleOrderResponse { status: "success".to_owned(), data: OrderData { order: o } },
        ),
        Ok(None) => Reply::Generic(
            409,
            GenericResponse {
                status: "fail".to_owned(),
                message: text::no_order_message(order_id),
            },
        ),
        Err(e) => {
            let m = e.message();
            Reply::Generic(
                409,
                GenericResponse {
                    status: "fail".to_owned(),
                    message: text::get_order_err_message(order_id, &m),
                },
            )
        },
    }
}

/// Shapes the outcome of a listing: the rows and their count under 200 —
/// an empty listing is a success, not an error — or the failure text
/// under 409.
pub fn list_orders_reply(table_id: i32, res: Result<Vec<Order>, RepoError>) -> (r: Reply)
    ensures
        res matches Ok(v) ==> (r matches Reply::List(code, resp) && code == 200
            && resp.status@ == "success"@ && resp.results == v@.len() && orders_in(resp.orders@)
            == v@),
        res matches Err(e) ==> (r matches Reply::Generic(code, resp) && code == 409
            && resp.status@ == "fail"@ && resp.message@ == text::msg_list_err(
            table_id as int,
            e.text(),
        )),
{
    match res {
        Ok(v) => {
            let mut orders: Vec<OrderData> = Vec::new();
            let mut i: usize = 0;
            while i < v.len()
                invariant
                    i <= v@.len(),
                    orders@.len() == i as int,
                    forall|j: int| 0 <= j < i ==> #[trigger] orders@[j].order == v@[j],
                decreases v@.len() - i,
            {
                orders.push(OrderData { order: v[i] });
                i = i + 1;
            }
            let results = orders.len();
            proof {
                assert(orders_in(orders@) =~= v@);
            }
            Reply::List(
                200,
                OrderListResponse { status: "success".to_owned(), results, orders },
            )
        },
        Err(e) => {
            let m = e.message();
            Reply::Generic(
                409,
                GenericResponse {
                    status: "fail".to_owned(),
                    message: text::list_err_message(table_id, &m),
                },
            )
        },
    }
}

/// Shapes the outcome of a deletion: the count removed — zero or one, both
/// a success — under 200, or the failure text under 409.
pub fn delete_order_reply(order_id: i32, res: Result<usize, RepoError>) -> (r: Reply)
    ensures
        res matches Ok(n) ==> (r matches Reply::Generic(code, resp) && code == 200
            && resp.status@ == "success"@ && resp.message@ == text::msg_deleted(
            n as nat,
            order_id as int,
        )),
        res matches Err(e) ==> (r matches Reply::Generic(code, resp) && code == 409
            && resp.status@ == "fail"@ && resp.message@ == text::msg_delete_err(
            order_id as int,
            e.text(),
        )),
{
    match res {
        Ok(n) => Reply::Generic(
            200,
            GenericResponse {
                status: "success".to_owned(),
                message: text::deleted_message(n, order_id),
            },
        ),
        Err(e) => {
            let m = e.message();
            Reply::Generic(
                409,
                GenericResponse {
                    status: "fail".to_owned(),
                    message: text::delete_err_message(order_id, &m),
                },
            )
        },
    }
}

/// Creates an order from the request body and shapes the outcome. The cook
/// time is derived through the repository's generation policy, never taken
/// from the request. An unknown table or item cannot end in a created
/// order: the store rejects the write, nothing is inserted, and the reply
/// is the uniform failure envelope.
pub fn create_order_handler(db: &mut Db, body: OrderJson) -> (r: Reply)
    requires
        order_seq(*old(db)) < 0x7fff_ffff,
        order_ids_below_seq(*old(db)),
    ensures
        ref_data_unchanged(*old(db), *final(db)),
        order_ids_below_seq(*final(db)),
        r matches Reply::Single(code, resp) ==> code == 201 && resp.status@ == "success"@ && {
            let o = resp.data.order;
            &&& o.table_id == body.table_id
            &&& o.item_id == body.item_id
            &&& 5 <= o.cook_time_minutes <= 15
            &&& tables_of(*old(db)).dom().contains(body.table_id as int)
            &&& items_of(*old(db)).dom().contains(body.item_id as int)
            &&& o.order_id as int == order_seq(*old(db)) + 1
            &&& !orders_of(*old(db)).dom().contains(o.order_id as int)
            &&& orders_of(*final(db)) == orders_of(*old(db)).insert(o.order_id as int, o.row())
            &&& order_seq(*final(db)) == o.order_id as int
        },
        r matches Reply::Generic(code, resp) ==> code == 409 && resp.status@ == "fail"@
            && db_unchanged(*old(db), *final(db)),
        !(r matches Reply::List(..)),
        !(tables_of(*old(db)).dom().contains(body.table_id as int) && items_of(
            *old(db),
        ).dom().contains(body.item_id as int)) ==> r matches Reply::Generic(..),
{
    let res = repository::insert_order(db, body.table_id, body.item_id);
    create_order_reply(res)
}

/// Fetches one order by id and shapes the outcome.
pub fn get_order_handler(db: &Db, order_id: i32) -> (r: Reply)
    ensures
        r matches Reply::Single(code, resp) ==> code == 200 && resp.status@ == "success"@ && {
            let o = resp.data.order;
            &&& o.order_id == order_id
            &&& orders_of(*db).dom().contains(order_id as int)
            &&& o.row() == orders_of(*db)[order_id as int]
        },
        r matches Reply::Generic(code, resp) ==> code == 409 && resp.status@ == "fail"@ && (
        (resp.message@ == text::msg_no_order(order_id as int) && !orders_of(
            *db,
        ).dom().contains(order_id as int)) || (exists|e: Seq<char>|
            resp.message@ == text::msg_get_order_err(order_id as int, e))),
        !(r matches Reply::List(..)),
{
    let res = repository::get_order_by_id(db, order_id);
    get_order_reply(order_id, res)
}

/// Lists a table's orders and shapes the outcome.
pub fn get_orders_for_table_handler(db: &Db, table_id: i32) -> (r: Reply)
    ensures
        r matches Reply::List(code, resp) ==> code == 200 && resp.status@ == "success"@
            && resp.results == resp.orders@.len() && rows_match_table(
            orders_of(*db),
            table_id as int,
            orders_in(resp.orders@),
        ),
        r matches Reply::Generic(code, resp) ==> code == 409 && resp.status@ == "fail"@ && (
        exists|e: Seq<char>| resp.message@ == text::msg_list_err(table_id as int, e)),
        !(r matches Reply::Single(..)),
{
    let res = repository::get_orders_for_table(db, table_id);
    list_orders_reply(table_id, res)
}

/// Deletes one order by id and shapes the outcome. Deleting an id that no
/// longer — or never did — name an order is a success that removed zero
/// rows, and says so.
pub fn delete_order_handler(db: &mut Db, order_id: i32) -> (r: Reply)
    ensures
        ref_data_unchanged(*old(db), *final(db)),
        r matches Reply::Generic(code, resp) ==> (code == 200 || code == 409) && (code == 200
            ==> resp.status@ == "success"@ && resp.message@ == text::msg_deleted(
            delete_count(orders_of(*old(db)), order_id as int) as nat,
            order_id as int,
        ) && orders_of(*final(db)) == orders_of(*old(db)).remove(order_id as int)
            && order_seq(*final(db)) == order_seq(*old(db))) && (code == 409 ==> resp.status@
            == "fail"@ && db_unchanged(*old(db), *final(db))),
        r matches Reply::Generic(..),
{
    let res = repository::delete_order(db, order_id);
    delete_order_reply(order_id, res)
}

} // verus!
