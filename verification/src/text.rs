//! Decimal rendering of identifiers and counts, and the exact wording of
//! every message the handlers put in a response envelope.
use vstd::prelude::*;

verus! {

/// The decimal digit character for `d` in `[0, 9]`.
pub open spec fn digit_char(d: int) -> char {
    if d == 0 {
        '0'
    } else if d == 1 {
        '1'
    } else if d == 2 {
        '2'
    } else if d == 3 {
        '3'
    } else if d == 4 {
        '4'
    } else if d == 5 {
        '5'
    } else if d == 6 {
        '6'
    } else if d == 7 {
        '7'
    } else if d == 8 {
        '8'
    } else {
        '9'
    }
}

/// The decimal rendering of a natural number, most significant digit first.
pub open spec fn dec_digits(n: nat) -> Seq<char>
    decreases n,
{
    if n < 10 {
        seq![digit_char(n as int)]
    } else {
        dec_digits(n / 10).push(digit_char((n % 10) as int))
    }
}

/// The decimal rendering of a possibly negative integer.
pub open spec fn dec_int(n: int) -> Seq<char> {
    if n < 0 {
        seq!['-'] + dec_digits((-n) as nat)
    } else {
        dec_digits(n as nat)
    }
}

/// The single-character string for a decimal digit.
fn digit_str(d: u64) -> (r: &'static str)
    requires
        d < 10,
    ensures
        r@ == seq![digit_char(d as int)],
{
    proof {
        reveal_strlit("0");
        reveal_strlit("1");
        reveal_strlit("2");
        reveal_strlit("3");
        reveal_strlit("4");
        reveal_strlit("5");
        reveal_strlit("6");
        reveal_strlit("7");
        reveal_strlit("8");
        reveal_strlit("9");
    }
    let r = if d == 0 {
        "0"
    } else if d == 1 {
        "1"
    } else if d == 2 {
        "2"
    } else if d == 3 {
        "3"
    } else if d == 4 {
        "4"
    } else if d == 5 {
        "5"
    } else if d == 6 {
        "6"
    } else if d == 7 {
        "7"
    } else if d == 8 {
        "8"
    } else {
        "9"
    };
    proof {
        assert(r@ =~= seq![digit_char(d as int)]);
    }
    r
}

/// Renders an unsigned number in decimal.
pub fn u64_to_string(n: u64) -> (s: String)
    ensures
        s@ == dec_digits(n as nat),
    decreases n,
{
    if n < 10 {
        digit_str(n).to_owned()
    } else {
        let mut s = u64_to_string(n / 10);
        s.append(digit_str(n % 10));
        proof {
            assert(s@ =~= dec_digits((n / 10) as nat).push(digit_char((n % 10) as int)));
        }
        s
    }
}

/// Renders a signed 32-bit number in decimal, with a leading minus sign
/// when it is negative.
pub fn i32_to_string(n: i32) -> (s: String)
    ensures
        s@ == dec_int(n as int),
{
    if n >= 0 {
        u64_to_string(n as u64)
    } else {
        let magnitude: u64 = (-(n as i64)) as u64;
        let mut s = "-".to_owned();
        let digits = u64_to_string(magnitude);
        s.append(digits.as_str());
        proof {
            reveal_strlit("-");
            assert(s@ =~= seq!['-'] + dec_digits((-(n as int)) as nat));
        }
        s
    }
}

/// Renders a count in decimal.
pub fn usize_to_string(n: usize) -> (s: String)
    ensures
        s@ == dec_digits(n as nat),
{
    u64_to_string(n as u64)
}

/// Message reported by the health check.
pub open spec fn msg_healthy() -> Seq<char> {
    "Healthy"@
}

/// Message for a point lookup that matched no order.
pub open spec fn msg_no_order(id: int) -> Seq<char> {
    "No order exists with given ID: "@ + dec_int(id)
}

/// Message for a completed deletion, whatever the count removed.
pub open spec fn msg_deleted(n: nat, id: int) -> Seq<char> {
    "Deleted "@ + dec_digits(n) + " order(s) with id: "@ + dec_int(id)
}

/// Message for a store failure while fetching one order.
pub open spec fn msg_get_order_err(id: int, e: Seq<char>) -> Seq<char> {
    "Could not get order with id: "@ + dec_int(id) + ". Error: "@ + e
}

/// Message for a store failure while listing a table's orders.
pub open spec fn msg_list_err(table_id: int, e: Seq<char>) -> Seq<char> {
    "Could not get orders for table with id: "@ + dec_int(table_id) + ". Error: "@ + e
}

/// Message for a store failure while deleting an order.
pub open spec fn msg_delete_err(id: int, e: Seq<char>) -> Seq<char> {
    "Could not delete order with id: "@ + dec_int(id) + ". Error: "@ + e
}

/// Message for a failed creation, constraint violations included.
pub open spec fn msg_create_err(e: Seq<char>) -> Seq<char> {
    "Could not create order: "@ + e
}

/// Builds the not-found message for a point lookup.
pub fn no_order_message(order_id: i32) -> (s: String)
    ensures
        s@ == msg_no_order(order_id as int),
{
    let mut s = "No order exists with given ID: ".to_owned();
    let id = i32_to_string(order_id);
    s.append(id.as_str());
    s
}

/// Builds the message acknowledging a deletion of `n` rows.
pub fn deleted_message(n: usize, order_id: i32) -> (s: String)
    ensures
        s@ == msg_deleted(n as nat, order_id as int),
{
    let mut s = "Deleted ".to_owned();
    let count = usize_to_string(n);
    s.append(count.as_str());
    s.append(" order(s) with id: ");
    let id = i32_to_string(order_id);
    s.append(id.as_str());
    s
}

/// Builds the failure message for a fetch of one order.
pub fn get_order_err_message(order_id: i32, e: &String) -> (s: String)
    ensures
        s@ == msg_get_order_err(order_id as int, e@),
{
    let mut s = "Could not get order with id: ".to_owned();
    let id = i32_to_string(order_id);
    s.append(id.as_str());
    s.append(". Error: ");
    s.append(e.as_str());
    s
}

/// Builds the failure message for a listing of a table's orders.
pub fn list_err_message(table_id: i32, e: &String) -> (s: String)
    ensures
        s@ == msg_list_err(table_id as int, e@),
{
    let mut s = "Could not get orders for table with id: ".to_owned();
    let id = i32_to_string(table_id);
    s.append(id.as_str());
    s.append(". Error: ");
    s.append(e.as_str());
    s
}

/// Builds the failure message for a deletion.
pub fn delete_err_message(order_id: i32, e: &String) -> (s: String)
    ensures
        s@ == msg_delete_err(order_id as int, e@),
{
    let mut s = "Could not delete order with id: ".to_owned();
    let id = i32_to_string(order_id);
    s.append(id.as_str());
    s.append(". Error: ");
    s.append(e.as_str());
    s
}

/// Builds the failure message for a creation.
pub fn create_err_message(e: &String) -> (s: String)
    ensures
        s@ == msg_create_err(e@),
{
    let mut s = "Could not create order: ".to_owned();
    s.append(e.as_str());
    s
}

} // verus!
