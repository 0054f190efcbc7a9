//! The schema initializer: brings the store to a known-good state and
//! populates the reference data, once, at process start.
use vstd::prelude::*;
use crate::db::{
    Db, items_of, tables_of, orders_of, order_seq, order_ids_below_seq, items_empty,
    tables_empty, orders_empty, orders_unchanged,
};
use crate::rng::sample_range;

verus! {

/// A startup failure, with the store's own description. Either kind is
/// fatal: the service must not begin serving over an inconsistent store.
#[derive(Debug, Clone)]
pub enum SetupError {
    /// A statement of the schema reset failed.
    Schema(String),
    /// A seed insert failed: a duplicate name, or a store failure.
    Seed(String),
}

/// The fixed menu the store is seeded with.
pub open spec fn seeded_items() -> Map<int, Seq<char>> {
    map![1int => "Fish"@, 2int => "Meat"@, 3int => "Spaghetti"@, 4int => "Bread"@]
}

/// Exactly `count` tables, numbered from 1, each seating between `low` and
/// `high` inclusive.
pub open spec fn tables_seeded(m: Map<int, int>, count: int, low: int, high: int) -> bool {
    &&& m.dom() == Set::new(|k: int| 1 <= k <= count)
    &&& (forall|k: int| m.dom().contains(k) ==> low <= #[trigger] m[k] <= high)
}

/// Drops any existing `orders`, `items` and `tables` (the referencing table
/// first) and creates the three afresh. Destructive: prior data is lost.
fn create_tables(db: &mut Db) -> (r: Result<(), rusqlite::Error>)
    ensures
        r is Ok ==> items_empty(*final(db)) && tables_empty(*final(db)) && orders_empty(
            *final(db),
        ) && order_seq(*final(db)) == 0,
{
    db.exec_drop_orders()?;
    db.exec_drop_items()?;
    db.exec_drop_tables()?;
    db.exec_create_items()?;
    db.exec_create_tables()?;
    db.exec_create_orders()?;
    Ok(())
}

/// Inserts one menu item per name, in order, skipping none; the store keys
/// them `1` up to `names.len()`. Success entails the names were pairwise
/// distinct, for the store rejects a duplicate name.
fn initialize_items(db: &mut Db, names: &Vec<&str>) -> (r: Result<(), rusqlite::Error>)
    requires
        items_empty(*old(db)),
        names@.len() < 0x7fff_ffff_ffff_ffff,
    ensures
        r is Ok ==> {
            &&& items_of(*final(db)).dom() == Set::new(|k: int| 1 <= k <= names@.len())
            &&& (forall|k: int|
                1 <= k <= names@.len() ==> #[trigger] items_of(*final(db))[k] == names@[k - 1]@)
            &&& (forall|a: int, b: int|
                #![trigger names@[a], names@[b]]
                0 <= a < b < names@.len() ==> names@[a]@ != names@[b]@)
            &&& tables_of(*final(db)) == tables_of(*old(db))
            &&& orders_unchanged(*old(db), *final(db))
        },
{
    let mut i: usize = 0;
    while i < names.len()
        invariant
            i <= names@.len(),
            names@.len() < 0x7fff_ffff_ffff_ffff,
            items_of(*db).dom() == Set::new(|k: int| 1 <= k <= i),
            forall|k: int| 1 <= k <= i ==> #[trigger] items_of(*db)[k] == names@[k - 1]@,
            forall|a: int, b: int|
                #![trigger names@[a], names@[b]]
                0 <= a < b < i ==> names@[a]@ != names@[b]@,
            tables_of(*db) == tables_of(*old(db)),
            orders_unchanged(*old(db), *db),
        decreases names@.len() - i,
    {
        let ghost m = items_of(*db);
        match db.exec_insert_item(names[i]) {
            Ok(id) => {
                proof {
                    assert(forall|k: int| m.dom().contains(k) ==> 1 <= k <= i);
                    assert(forall|k: int|
                        m.dom().contains(k) ==> 1 <= k < 0x7fff_ffff_ffff_ffff);
                    if i == 0 {
                        assert(m.dom() =~= Set::<int>::empty());
                    } else {
                        assert(m.dom().contains(i as int));
                        assert(m.dom() != Set::<int>::empty());
                        assert(m.dom().contains(id - 1));
                        assert(id - 1 <= i && i < id);
                    }
                    assert(id == i + 1);
                    assert forall|a: int| 0 <= a < i implies names@[a]@ != names@[i as int]@ by {
                        assert(m.dom().contains(a + 1));
                        assert(m[a + 1] == names@[a]@);
                    }
                    assert(items_of(*db).dom() =~= Set::new(|k: int| 1 <= k <= i + 1));
                }
            },
            Err(e) => {
                return Err(e);
            },
        }
        i = i + 1;
    }
    Ok(())
}

/// Inserts `count` table rows, each with a seat count drawn independently
/// and uniformly from `[low, high]`; the draws are not reproducible and no
/// two initializations need agree. The store keys the tables `1` up to
/// `count`.
fn initialize_tables(db: &mut Db, count: u32, low: i32, high: i32) -> (r: Result<
    (),
    rusqlite::Error,
>)
    requires
        tables_empty(*old(db)),
        low <= high,
        high < 0x7fff_ffff,
    ensures
        r is Ok ==> tables_seeded(tables_of(*final(db)), count as int, low as int, high as int)
            && items_of(*final(db)) == items_of(*old(db)) && orders_unchanged(
            *old(db),
            *final(db),
        ),
{
    let mut number: u32 = 0;
    while number < count
        invariant
            number <= count,
            low <= high < 0x7fff_ffff,
            tables_of(*db).dom() == Set::new(|k: int| 1 <= k <= number),
            forall|k: int|
                tables_of(*db).dom().contains(k) ==> low <= #[trigger] tables_of(*db)[k] <= high,
            items_of(*db) == items_of(*old(db)),
            orders_unchanged(*old(db), *db),
        decreases count - number,
    {
        let ghost m = tables_of(*db);
        let seats = sample_range(low, high + 1);
        match db.exec_insert_table(seats) {
            Ok(id) => {
                proof {
                    assert(forall|k: int| m.dom().contains(k) ==> 1 <= k <= number);
                    assert(forall|k: int|
                        m.dom().contains(k) ==> 1 <= k < 0x7fff_ffff_ffff_ffff);
                    if number == 0 {
                        assert(m.dom() =~= Set::<int>::empty());
                    } else {
                        assert(m.dom().contains(number as int));
                        assert(m.dom() != Set::<int>::empty());
                        assert(m.dom().contains(id - 1));
                        assert(id - 1 <= number && number < id);
                    }
                    assert(id == number + 1);
                    assert(tables_of(*db).dom() =~= Set::new(|k: int| 1 <= k <= number + 1));
                }
            },
            Err(e) => {
                return Err(e);
            },
        }
        number = number + 1;
    }
    Ok(())
}

/// Brings the store to its known-good starting state: a fresh schema, the
/// four fixed menu items keyed `1` to `4`, and one hundred tables keyed `1`
/// to `100`, each seating one to three. Runs once at process start, before
/// any request is served; the first failure aborts and is reported.
pub fn setup(db_filename: &str) -> (r: Result<Db, SetupError>)
    ensures
        r matches Ok(d) ==> {
            &&& items_of(d) == seeded_items()
            &&& tables_seeded(tables_of(d), 100, 1, 3)
            &&& orders_empty(d)
            &&& order_seq(d) == 0
            &&& order_ids_below_seq(d)
        },
{
    let mut db = match Db::open(db_filename) {
        Ok(db) => db,
        Err(e) => {
            return Err(SetupError::Schema(crate::db::sqlite_error_text(&e)));
        },
    };
    match create_tables(&mut db) {
        Ok(_) => {},
        Err(e) => {
            return Err(SetupError::Schema(crate::db::sqlite_error_text(&e)));
        },
    }
    let names: Vec<&str> = vec!["Fish", "Meat", "Spaghetti", "Bread"];
    match initialize_items(&mut db, &names) {
        Ok(_) => {},
        Err(e) => {
            return Err(SetupError::Seed(crate::db::sqlite_error_text(&e)));
        },
    }
    match initialize_tables(&mut db, 100, 1, 3) {
        Ok(_) => {},
        Err(e) => {
            return Err(SetupError::Seed(crate::db::sqlite_error_text(&e)));
        },
    }
    proof {
        let m = items_of(db);
        assert(names@.len() == 4);
        assert(m.dom().contains(1int) && m.dom().contains(2int) && m.dom().contains(3int)
            && m.dom().contains(4int));
        assert(m[1] == names@[0]@ && m[2] == names@[1]@ && m[3] == names@[2]@ && m[4]
            == names@[3]@);
        assert(m =~~= seeded_items());
    }
    Ok(db)
}

} // verus!
