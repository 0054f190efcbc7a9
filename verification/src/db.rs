//! The store handle and the trusted boundary to it.
//!
//! `Db` owns one sqlite connection (through the rusqlite crate) with
//! referential integrity enforcement switched on. The contents of the three
//! tables behind the handle are modelled by four uninterpreted spec
//! functions; every statement the subsystem ever runs against the store is
//! wrapped in exactly one function below whose contract states, over that
//! model, what the statement does.
use vstd::prelude::*;
use crate::model::Order;

verus! {

/// A handle to the relational store holding `items`, `tables` and `orders`.
#[verifier::external_body]
pub struct Db {
    conn: rusqlite::Connection,
}

#[verifier::external_type_specification]
#[verifier::external_body]
pub struct ExSqliteError(rusqlite::Error);

/// The menu items behind the handle: `item_id` to name.
pub uninterp spec fn items_of(db: Db) -> Map<int, Seq<char>>;

/// The restaurant tables behind the handle: `table_id` to seat count.
pub uninterp spec fn tables_of(db: Db) -> Map<int, int>;

/// The orders behind the handle: `order_id` to
/// `(table_id, item_id, cook_time_minutes)`.
pub uninterp spec fn orders_of(db: Db) -> Map<int, (int, int, int)>;

/// The automatic-id high-water mark the store records for `orders`: the
/// largest order id it has ever assigned there, `0` for a freshly created
/// table. The store assigns identifiers above it, never lowers it, and so
/// never reuses an order id after a deletion.
pub uninterp spec fn order_seq(db: Db) -> int;

/// Every order id behind the handle is at or below the recorded high-water
/// mark. This holds of every store this subsystem builds — ids are only
/// ever assigned by the store itself — and the insert contract asks for it.
pub open spec fn order_ids_below_seq(db: Db) -> bool {
    forall|k: int| orders_of(db).dom().contains(k) ==> k <= order_seq(db)
}

/// No menu items are behind the handle.
pub open spec fn items_empty(db: Db) -> bool {
    items_of(db) == Map::<int, Seq<char>>::empty()
}

/// No restaurant tables are behind the handle.
pub open spec fn tables_empty(db: Db) -> bool {
    tables_of(db) == Map::<int, int>::empty()
}

/// No orders are behind the handle.
pub open spec fn orders_empty(db: Db) -> bool {
    orders_of(db) == Map::<int, (int, int, int)>::empty()
}

/// Both reference tables read the same through two handles' states.
pub open spec fn ref_data_unchanged(a: Db, b: Db) -> bool {
    &&& items_of(b) == items_of(a)
    &&& tables_of(b) == tables_of(a)
}

/// The orders table reads the same through two handles' states.
pub open spec fn orders_unchanged(a: Db, b: Db) -> bool {
    &&& orders_of(b) == orders_of(a)
    &&& order_seq(b) == order_seq(a)
}

/// Nothing behind the handle changed between two states.
pub open spec fn db_unchanged(a: Db, b: Db) -> bool {
    &&& ref_data_unchanged(a, b)
    &&& orders_unchanged(a, b)
}

/// How many rows a deletion of `id` removes from `m`.
pub open spec fn delete_count(m: Map<int, (int, int, int)>, id: int) -> int {
    if m.dom().contains(id) {
        1
    } else {
        0
    }
}

/// `rows` holds exactly the orders of `m` whose table is `tid`, each exactly
/// once, in no particular sequence.
pub open spec fn rows_match_table(m: Map<int, (int, int, int)>, tid: int, rows: Seq<Order>) -> bool {
    &&& (forall|i: int|
        #![trigger rows[i]]
        0 <= i < rows.len() ==> {
            &&& m.dom().contains(rows[i].order_id as int)
            &&& m[rows[i].order_id as int] == rows[i].row()
            &&& rows[i].table_id as int == tid
        })
    &&& (forall|k: int|
        #![trigger m.dom().contains(k)]
        m.dom().contains(k) && m[k].0 == tid ==> exists|i: int|
            #![auto]
            0 <= i < rows.len() && rows[i].order_id as int == k)
    &&& (forall|i: int, j: int|
        #![trigger rows[i], rows[j]]
        0 <= i < j < rows.len() ==> rows[i].order_id != rows[j].order_id)
}

/// `rows` holds exactly the order of `m` keyed `id`, or nothing.
pub open spec fn rows_match_point(m: Map<int, (int, int, int)>, id: int, rows: Seq<Order>) -> bool {
    &&& (m.dom().contains(id) ==> rows.len() == 1 && rows[0].order_id as int == id
        && rows[0].row() == m[id])
    &&& (!m.dom().contains(id) ==> rows.len() == 0)
}

impl Db {
    /// Relies on rusqlite's `Connection::open`, which opens the database at
    /// `path` (creating the file if absent), and on the `foreign_keys`
    /// pragma: every later statement on this handle has referential
    /// integrity enforced by the store. What the file already holds is
    /// unknown, so nothing is promised of the fresh handle's contents.
    #[verifier::external_body]
    pub(crate) fn open(path: &str) -> (r: Result<Db, rusqlite::Error>) {
        let conn = rusqlite::Connection::open(path)?;
        conn.pragma_update(None, "foreign_keys", true)?;
        Ok(Db { conn })
    }

    /// Relies on `Connection::execute` running `DROP TABLE IF EXISTS orders`:
    /// afterwards no orders exist and the row-id high-water mark for
    /// `orders` is gone with the table; the reference tables are untouched.
    /// A failed single statement leaves the store as it was.
    #[verifier::external_body]
    pub(crate) fn exec_drop_orders(&mut self) -> (r: Result<(), rusqlite::Error>)
        ensures
            r is Ok ==> orders_empty(*final(self)) && order_seq(*final(self)) == 0
                && ref_data_unchanged(*old(self), *final(self)),
            r is Err ==> db_unchanged(*old(self), *final(self)),
    {
        self.conn.execute("DROP TABLE IF EXISTS orders", ())?;
        Ok(())
    }

    /// Relies on `Connection::execute` running `DROP TABLE IF EXISTS items`.
    #[verifier::external_body]
    pub(crate) fn exec_drop_items(&mut self) -> (r: Result<(), rusqlite::Error>)
        ensures
            r is Ok ==> items_empty(*final(self)) && tables_of(*final(self)) == tables_of(
                *old(self),
            ) && orders_unchanged(*old(self), *final(self)),
            r is Err ==> db_unchanged(*old(self), *final(self)),
    {
        self.conn.execute("DROP TABLE IF EXISTS items", ())?;
        Ok(())
    }

    /// Relies on `Connection::execute` running `DROP TABLE IF EXISTS tables`.
    #[verifier::external_body]
    pub(crate) fn exec_drop_tables(&mut self) -> (r: Result<(), rusqlite::Error>)
        ensures
            r is Ok ==> tables_empty(*final(self)) && items_of(*final(self)) == items_of(
                *old(self),
            ) && orders_unchanged(*old(self), *final(self)),
            r is Err ==> db_unchanged(*old(self), *final(self)),
    {
        self.conn.execute("DROP TABLE IF EXISTS tables", ())?;
        Ok(())
    }

    /// Relies on `Connection::execute` running `CREATE TABLE IF NOT EXISTS`
    /// for `items` (`item_id` as the integer primary key, `name` text,
    /// non-null and unique). Creating a table adds no rows and touches no
    /// other table, so the modelled contents are unchanged either way.
    #[verifier::external_body]
    pub(crate) fn exec_create_items(&mut self) -> (r: Result<(), rusqlite::Error>)
        ensures
            db_unchanged(*old(self), *final(self)),
    {
        self.conn.execute(
            "CREATE TABLE IF NOT EXISTS items (
                item_id INTEGER PRIMARY KEY,
                name TEXT NOT NULL UNIQUE
            )",
            (),
        )?;
        Ok(())
    }

    /// Relies on `Connection::execute` running `CREATE TABLE IF NOT EXISTS`
    /// for `tables` (`table_id` as the integer primary key, `seats` integer,
    /// non-null).
    #[verifier::external_body]
    pub(crate) fn exec_create_tables(&mut self) -> (r: Result<(), rusqlite::Error>)
        ensures
            db_unchanged(*old(self), *final(self)),
    {
        self.conn.execute(
            "CREATE TABLE IF NOT EXISTS tables (
                table_id INTEGER PRIMARY KEY,
                seats INTEGER NOT NULL
            )",
            (),
        )?;
        Ok(())
    }

    /// Relies on `Connection::execute` running `CREATE TABLE IF NOT EXISTS`
    /// for `orders`: `order_id` is an autoincrement integer primary key, so
    /// the store assigns each new order an identifier above every one it
    /// ever assigned before and never reuses one; `table_id` and `item_id`
    /// reference the two seeded tables.
    #[verifier::external_body]
    pub(crate) fn exec_create_orders(&mut self) -> (r: Result<(), rusqlite::Error>)
        ensures
            db_unchanged(*old(self), *final(self)),
    {
        self.conn.execute(
            "CREATE TABLE IF NOT EXISTS orders (
                order_id INTEGER PRIMARY KEY AUTOINCREMENT,
                table_id INTEGER NOT NULL REFERENCES tables(table_id),
                item_id INTEGER NOT NULL REFERENCES items(item_id),
                cook_time_minutes INTEGER NOT NULL
            )",
            (),
        )?;
        Ok(())
    }

    /// Relies on `Connection::execute` inserting one row into `items` and on
    /// `Connection::last_insert_rowid`. Without an explicit row id the store
    /// picks an unused one: `1` for an empty table, else one more than the
    /// largest in use (as the sqlite documentation states for tables whose
    /// largest row id is below the maximum). The unique constraint on
    /// `name` makes a duplicate insert fail, and a failed statement changes
    /// nothing.
    #[verifier::external_body]
    pub(crate) fn exec_insert_item(&mut self, name: &str) -> (r: Result<i64, rusqlite::Error>)
        ensures
            r matches Ok(id) ==> {
                let m = items_of(*old(self));
                &&& !m.dom().contains(id as int)
                &&& ((forall|k: int| m.dom().contains(k) ==> 1 <= k < 0x7fff_ffff_ffff_ffff)
                    ==> 1 <= id && (m.dom() == Set::<int>::empty() ==> id == 1) && (m.dom()
                    != Set::<int>::empty() ==> m.dom().contains(id - 1) && (forall|k: int|
                    m.dom().contains(k) ==> k < id)))
                &&& (forall|k: int| m.dom().contains(k) ==> m[k] != name@)
                &&& items_of(*final(self)) == m.insert(id as int, name@)
                &&& tables_of(*final(self)) == tables_of(*old(self))
                &&& orders_unchanged(*old(self), *final(self))
            },
            (exists|k: int|
                items_of(*old(self)).dom().contains(k) && items_of(*old(self))[k]
                    == name@) ==> r is Err,
            r is Err ==> db_unchanged(*old(self), *final(self)),
    {
        self.conn.execute("INSERT INTO items (name) VALUES (?1)", [name])?;
        Ok(self.conn.last_insert_rowid())
    }

    /// Relies on `Connection::execute` inserting one row into `tables` and
    /// on `Connection::last_insert_rowid`; the row id is assigned as for
    /// `items`.
    #[verifier::external_body]
    pub(crate) fn exec_insert_table(&mut self, seats: i32) -> (r: Result<i64, rusqlite::Error>)
        ensures
            r matches Ok(id) ==> {
                let m = tables_of(*old(self));
                &&& !m.dom().contains(id as int)
                &&& ((forall|k: int| m.dom().contains(k) ==> 1 <= k < 0x7fff_ffff_ffff_ffff)
                    ==> 1 <= id && (m.dom() == Set::<int>::empty() ==> id == 1) && (m.dom()
                    != Set::<int>::empty() ==> m.dom().contains(id - 1) && (forall|k: int|
                    m.dom().contains(k) ==> k < id)))
                &&& tables_of(*final(self)) == m.insert(id as int, seats as int)
                &&& items_of(*final(self)) == items_of(*old(self))
                &&& orders_unchanged(*old(self), *final(self))
            },
            r is Err ==> db_unchanged(*old(self), *final(self)),
    {
        self.conn.execute("INSERT INTO tables (seats) VALUES (?1)", [seats])?;
        Ok(self.conn.last_insert_rowid())
    }

    /// Relies on `Connection::execute` inserting one row into `orders` and
    /// on `Connection::last_insert_rowid`. The store checks both references
    /// before anything is written, so an unknown table or item makes the
    /// statement fail and change nothing. On success the autoincrement key
    /// is one more than the larger of the high-water mark and the largest
    /// id in use; with no id above the mark — the statement never supplies
    /// one — that is one more than the mark itself.
    #[verifier::external_body]
    pub(crate) fn exec_insert_order(
        &mut self,
        table_id: i32,
        item_id: i32,
        cook_time_minutes: i32,
    ) -> (r: Result<i64, rusqlite::Error>)
        requires
            order_ids_below_seq(*old(self)),
        ensures
            r matches Ok(id) ==> {
                &&& tables_of(*old(self)).dom().contains(table_id as int)
                &&& items_of(*old(self)).dom().contains(item_id as int)
                &&& order_seq(*old(self)) < 0x7fff_ffff_ffff_ffff
                &&& id as int == order_seq(*old(self)) + 1
                &&& 1 <= id
                &&& !orders_of(*old(self)).dom().contains(id as int)
                &&& (forall|k: int| orders_of(*old(self)).dom().contains(k) ==> k < id as int)
                &&& orders_of(*final(self)) == orders_of(*old(self)).insert(
                    id as int,
                    (table_id as int, item_id as int, cook_time_minutes as int),
                )
                &&& order_seq(*final(self)) == id as int
                &&& ref_data_unchanged(*old(self), *final(self))
            },
            !(tables_of(*old(self)).dom().contains(table_id as int) && items_of(
                *old(self),
            ).dom().contains(item_id as int)) ==> r is Err,
            r is Err ==> db_unchanged(*old(self), *final(self)),
    {
        self.conn.execute(
            "INSERT INTO orders (table_id, item_id, cook_time_minutes) VALUES (?1, ?2, ?3)",
            (table_id, item_id, cook_time_minutes),
        )?;
        Ok(self.conn.last_insert_rowid())
    }

    /// Relies on `Statement::query_map` over `SELECT ... FROM orders WHERE
    /// order_id = ?1`: at most one row matches the primary key, and its
    /// columns are the stored ones. A stored column outside `i32` makes the
    /// row conversion, and so the call, fail rather than return a wrong row.
    #[verifier::external_body]
    pub(crate) fn exec_select_orders_by_order_id(&self, order_id: i32) -> (r: Result<
        Vec<Order>,
        rusqlite::Error,
    >)
        ensures
            r matches Ok(v) ==> rows_match_point(orders_of(*self), order_id as int, v@),
    {
        let mut stmt = self.conn.prepare(
            "SELECT order_id, table_id, item_id, cook_time_minutes FROM orders WHERE order_id=?1",
        )?;
        let rows = stmt.query_map([order_id], |row| {
            Ok(Order {
                order_id: row.get(0)?,
                table_id: row.get(1)?,
                item_id: row.get(2)?,
                cook_time_minutes: row.get(3)?,
            })
        })?;
        rows.collect()
    }

    /// Relies on `Statement::query_map` over `SELECT ... FROM orders WHERE
    /// table_id = ?1`: the matching rows come back each exactly once, in
    /// whatever order the store walks them.
    #[verifier::external_body]
    pub(crate) fn exec_select_orders_by_table_id(&self, table_id: i32) -> (r: Result<
        Vec<Order>,
        rusqlite::Error,
    >)
        ensures
            r matches Ok(v) ==> rows_match_table(orders_of(*self), table_id as int, v@),
    {
        let mut stmt = self.conn.prepare(
            "SELECT order_id, table_id, item_id, cook_time_minutes FROM orders WHERE table_id=?1",
        )?;
        let rows = stmt.query_map([table_id], |row| {
            Ok(Order {
                order_id: row.get(0)?,
                table_id: row.get(1)?,
                item_id: row.get(2)?,
                cook_time_minutes: row.get(3)?,
            })
        })?;
        rows.collect()
    }

    /// Relies on `Connection::execute` running `DELETE FROM orders WHERE
    /// order_id = ?1`, whose result counts the rows removed: one when the
    /// id was present, none otherwise. A deletion never lowers the
    /// autoincrement high-water mark.
    #[verifier::external_body]
    pub(crate) fn exec_delete_order(&mut self, order_id: i32) -> (r: Result<
        usize,
        rusqlite::Error,
    >)
        ensures
            r matches Ok(n) ==> n as int == delete_count(orders_of(*old(self)), order_id as int)
                && orders_of(*final(self)) == orders_of(*old(self)).remove(order_id as int)
                && order_seq(*final(self)) == order_seq(*old(self)) && ref_data_unchanged(
                *old(self),
                *final(self),
            ),
            r is Err ==> db_unchanged(*old(self), *final(self)),
    {
        self.conn.execute("DELETE FROM orders WHERE order_id=?1", [order_id])
    }
}

/// Relies on the Display rendering of rusqlite's error type for the
/// human-readable text the failure envelopes carry; nothing is assumed of
/// its content.
#[verifier::external_body]
pub(crate) fn sqlite_error_text(e: &rusqlite::Error) -> String {
    e.to_string()
}

/// Relies on `Error::sqlite_error_code` to tell a constraint violation
/// (a rejected reference or a duplicate name) apart from other store
/// failures; nothing is assumed of the answer.
#[verifier::external_body]
pub(crate) fn is_constraint_violation(e: &rusqlite::Error) -> bool {
    matches!(e.sqlite_error_code(), Some(rusqlite::ErrorCode::ConstraintViolation))
}

} // verus!
