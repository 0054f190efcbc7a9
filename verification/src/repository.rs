//! The order repository: sole owner of every read and write against the
//! `orders` table. Each operation runs one parameterized statement through
//! the store handle and is specified exactly over the modelled contents.
use vstd::prelude::*;
use crate::db::{
    Db, items_of, tables_of, orders_of, order_seq, order_ids_below_seq, ref_data_unchanged,
    db_unchanged, delete_count, rows_match_table, rows_match_point,
};
use crate::model::{Order, OrderNew};
use crate::rng::sample_range;

verus! {

/// Why a repository operation failed, with the store's own description.
#[derive(Debug, Clone)]
pub enum RepoError {
    /// The store rejected a write: an unknown reference or a duplicate name.
    Constraint(String),
    /// The store could not be reached or failed while executing.
    Store(String),
}

impl RepoError {
    /// The human-readable text carried into failure envelopes.
    pub open spec fn text(self) -> Seq<char> {
        match self {
            RepoError::Constraint(m) => m@,
            RepoError::Store(m) => m@,
        }
    }

    /// Hands out the carried text.
    pub fn message(&self) -> (s: String)
        ensures
            s@ == self.text(),
    {
        match self {
            RepoError::Constraint(m) => m.clone(),
            RepoError::Store(m) => m.clone(),
        }
    }
}

/// Sorts a store failure into the repository's taxonomy, keeping its text.
fn from_store_error(e: rusqlite::Error) -> RepoError {
    let text = crate::db::sqlite_error_text(&e);
    if crate::db::is_constraint_violation(&e) {
        RepoError::Constraint(text)
    } else {
        RepoError::Store(text)
    }
}

/// The two shapes of query the subsystem runs against `orders`.
#[derive(Debug, Clone, Copy, PartialEq, Eq, Structural)]
pub enum OrderQuery {
    ByOrderId(i32),
    ByTableId(i32),
}

/// Runs the given query against `orders` and returns the matching rows.
pub fn get_orders(db: &Db, query: OrderQuery) -> (r: Result<Vec<Order>, RepoError>)
    ensures
        r matches Ok(v) ==> (match query {
            OrderQuery::ByOrderId(id) => rows_match_point(orders_of(*db), id as int, v@),
            OrderQuery::ByTableId(t) => rows_match_table(orders_of(*db), t as int, v@),
        }),
{
    let res = match query {
        OrderQuery::ByOrderId(id) => db.exec_select_orders_by_order_id(id),
        OrderQuery::ByTableId(t) => db.exec_select_orders_by_table_id(t),
    };
    match res {
        Ok(v) => Ok(v),
        Err(e) => Err(from_store_error(e)),
    }
}

/// All orders whose table is `table_id`, in store order. A table with no
/// orders, or an unknown table, yields an empty list, never an error.
pub fn get_orders_for_table(db: &Db, table_id: i32) -> (r: Result<Vec<Order>, RepoError>)
    ensures
        r matches Ok(v) ==> rows_match_table(orders_of(*db), table_id as int, v@),
{
    get_orders(db, OrderQuery::ByTableId(table_id))
}

/// The order with the given id, or explicitly none: zero rows and one row
/// are told apart, and neither is an error.
pub fn get_order_by_id(db: &Db, order_id: i32) -> (r: Result<Option<Order>, RepoError>)
    ensures
        r matches Ok(found) ==> (match found {
            Some(o) => orders_of(*db).dom().contains(order_id as int) && o.order_id == order_id
                && o.row() == orders_of(*db)[order_id as int],
            None => !orders_of(*db).dom().contains(order_id as int),
        }),
{
    match get_orders(db, OrderQuery::ByOrderId(order_id)) {
        Ok(v) => {
            if v.len() == 0 {
                Ok(None)
            } else {
                Ok(Some(v[0]))
            }
        },
        Err(e) => Err(e),
    }
}

/// Creates an order for the given table and item. The cook time is drawn
/// here, uniformly in `[5, 15]` minutes, never taken from the caller; the
/// store assigns the next identifier. Returns the stored row. An unknown
/// table or item makes the store reject the write and nothing is inserted.
pub fn insert_order(db: &mut Db, table_id: i32, item_id: i32) -> (r: Result<Order, RepoError>)
    requires
        order_seq(*old(db)) < 0x7fff_ffff,
        order_ids_below_seq(*old(db)),
    ensures
        order_ids_below_seq(*final(db)),
        r matches Ok(o) ==> {
            &&& o.table_id == table_id
            &&& o.item_id == item_id
            &&& 5 <= o.cook_time_minutes <= 15
            &&& tables_of(*old(db)).dom().contains(table_id as int)
            &&& items_of(*old(db)).dom().contains(item_id as int)
            &&& o.order_id as int == order_seq(*old(db)) + 1
            &&& 1 <= o.order_id
            &&& !orders_of(*old(db)).dom().contains(o.order_id as int)
            &&& (forall|k: int|
                orders_of(*old(db)).dom().contains(k) ==> k < o.order_id as int)
            &&& orders_of(*final(db)) == orders_of(*old(db)).insert(o.order_id as int, o.row())
            &&& order_seq(*final(db)) == o.order_id as int
            &&& ref_data_unchanged(*old(db), *final(db))
        },
        r is Err ==> db_unchanged(*old(db), *final(db)),
        !(tables_of(*old(db)).dom().contains(table_id as int) && items_of(
            *old(db),
        ).dom().contains(item_id as int)) ==> r is Err,
{
    let order_new = OrderNew { table_id, item_id, cook_time_minutes: sample_range(5, 16) };
    match db.exec_insert_order(order_new.table_id, order_new.item_id, order_new.cook_time_minutes) {
        Ok(id) => {
            let order_id = id as i32;
            Ok(Order {
                order_id,
                table_id: order_new.table_id,
                item_id: order_new.item_id,
                cook_time_minutes: order_new.cook_time_minutes,
            })
        },
        Err(e) => Err(from_store_error(e)),
    }
}

/// Deletes the order with the given id and reports how many rows went: one
/// when it existed, zero when it did not; zero is not an error.
pub fn delete_order(db: &mut Db, order_id: i32) -> (r: Result<usize, RepoError>)
    ensures
        r matches Ok(n) ==> n as int == delete_count(orders_of(*old(db)), order_id as int)
            && orders_of(*final(db)) == orders_of(*old(db)).remove(order_id as int)
            && order_seq(*final(db)) == order_seq(*old(db)) && ref_data_unchanged(
            *old(db),
            *final(db),
        ),
        r is Err ==> db_unchanged(*old(db), *final(db)),
{
    match db.exec_delete_order(order_id) {
        Ok(n) => Ok(n),
        Err(e) => Err(from_store_error(e)),
    }
}

} // verus!
