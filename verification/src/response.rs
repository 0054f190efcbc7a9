//! The uniform response envelopes every handler operation produces.
use vstd::prelude::*;
use crate::model::Order;

verus! {

/// The envelope for an outcome with nothing but a message: health checks,
/// deletions, and every failure.
#[derive(Debug, Clone)]
pub struct GenericResponse {
    pub status: String,
    pub message: String,
}

/// One order as carried inside a success envelope.
#[derive(Debug, Clone, Copy, PartialEq, Eq, Structural)]
pub struct OrderData {
    pub order: Order,
}

/// The envelope for a single fetched or created order.
#[derive(Debug, Clone)]
pub struct SingleOrderResponse {
    pub status: String,
    pub data: OrderData,
}

/// The envelope for a listing of a table's orders, empty lists included.
#[derive(Debug, Clone)]
pub struct OrderListResponse {
    pub status: String,
    pub results: usize,
    pub orders: Vec<OrderData>,
}

} // verus!
