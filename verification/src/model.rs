//! Entity types shared by the whole subsystem: menu items, seated tables,
//! and food orders in their stored and not-yet-stored forms.
use vstd::prelude::*;

verus! {

/// A menu item as stored: a generated identifier and a unique name.
#[derive(Debug, Clone)]
pub struct Item {
    pub item_id: i32,
    pub name: String,
}

/// A restaurant table as stored: a generated identifier and a seat count.
#[derive(Debug, Clone, Copy, PartialEq, Eq, Structural)]
pub struct Table {
    pub table_id: i32,
    pub seats: i32,
}

/// An order as stored: a generated identifier, references to a table and a
/// menu item, and the server-assigned cook time in minutes.
#[derive(Debug, Clone, Copy, PartialEq, Eq, Structural)]
pub struct Order {
    pub order_id: i32,
    pub table_id: i32,
    pub item_id: i32,
    pub cook_time_minutes: i32,
}

/// Order details ready to store, before the store has assigned an identifier.
#[derive(Debug, Clone, Copy, PartialEq, Eq, Structural)]
pub struct OrderNew {
    pub table_id: i32,
    pub item_id: i32,
    pub cook_time_minutes: i32,
}

/// Order details as received in a create request: the caller names a table
/// and a menu item; the cook time is never taken from the caller.
#[derive(Debug, Clone, Copy, PartialEq, Eq, Structural)]
pub struct OrderJson {
    pub table_id: i32,
    pub item_id: i32,
}

impl Order {
    /// The stored row behind an order, as the mathematical triple
    /// `(table_id, item_id, cook_time_minutes)` keyed elsewhere by `order_id`.
    pub open spec fn row(self) -> (int, int, int) {
        (self.table_id as int, self.item_id as int, self.cook_time_minutes as int)
    }
}

} // verus!
