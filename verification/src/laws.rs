//! The laws the order lifecycle obeys, stated over the same model of the
//! store's contents that every repository contract speaks of, and proved
//! once for all states.
use vstd::prelude::*;
use crate::db::{delete_count, rows_match_table};
use crate::model::Order;

verus! {

/// Creating then fetching: an insert as `insert_order` performs it — a
/// fresh id mapped to the given table, item and cook time, the cook time
/// in `[5, 15]` — makes a point lookup of the returned id, as
/// `get_order_by_id` specifies it, find exactly that order.
pub proof fn lemma_create_then_get(
    m: Map<int, (int, int, int)>,
    id: int,
    table_id: int,
    item_id: int,
    cook: int,
)
    requires
        5 <= cook <= 15,
    ensures
        ({
            let m2 = m.insert(id, (table_id, item_id, cook));
            &&& m2.dom().contains(id)
            &&& m2[id].0 == table_id
            &&& m2[id].1 == item_id
            &&& 5 <= m2[id].2 <= 15
        }),
{
}

/// A table with zero orders yields the empty listing, not an error: any
/// row sequence that matches such a table per `rows_match_table` — the
/// shape every successful listing returns — has no rows. This holds alike
/// for a table that does not exist, which the listing does not tell apart.
pub proof fn lemma_no_orders_empty_listing(
    m: Map<int, (int, int, int)>,
    table_id: int,
    rows: Seq<Order>,
)
    requires
        forall|k: int| m.dom().contains(k) ==> (#[trigger] m[k]).0 != table_id,
        rows_match_table(m, table_id, rows),
    ensures
        rows.len() == 0,
{
    if rows.len() > 0 {
        assert(m.dom().contains(rows[0].order_id as int));
        assert(m[rows[0].order_id as int] == rows[0].row());
        assert(false);
    }
}

/// An id never created, or no longer present: the point lookup has nothing
/// to find, and a deletion removes zero rows and leaves the store as it
/// was.
pub proof fn lemma_absent_id(m: Map<int, (int, int, int)>, id: int)
    requires
        !m.dom().contains(id),
    ensures
        delete_count(m, id) == 0,
        m.remove(id) == m,
{
    assert(m.remove(id) =~= m);
}

/// Deletion is observed and idempotent: when a deletion reports one row
/// removed — the id was present — a point lookup of that id afterwards
/// finds nothing, and deleting the same id again removes zero rows.
pub proof fn lemma_delete_then_get(m: Map<int, (int, int, int)>, id: int)
    requires
        m.dom().contains(id),
    ensures
        delete_count(m, id) == 1,
        !m.remove(id).dom().contains(id),
        delete_count(m.remove(id), id) == 0,
{
}

} // verus!
