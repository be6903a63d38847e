//! The persistent store: two tables of an embedded transactional database,
//! both keyed by text.
//!
//! The configuration table `salus_config` holds `INITIALIZED`, `NUM_SHARES`
//! and `THRESHOLD`. The value table `salus_store` holds the sentinel
//! `CHECK_KEY` and every value that a client stores.
//!
//! The database itself is not verified. What this library takes for granted
//! of it is stated on the functions of this file that have no verified body:
//! a write that succeeds adds its rows, a write that fails has added all of
//! its rows or none, and a read sees what the last write left.
//!
//! A handle holds its file under an exclusive lock for as long as it lives,
//! so that nothing but the writes made through it changes what it sees.
//! That is why the contracts can speak of the rows of a handle.

use vstd::prelude::*;
use redb::Database;
use redb::ReadableDatabase;
use redb::ReadableTable;
use redb::TableDefinition;
use redb::TableError;

verus! {

#[verifier::external_type_specification]
#[verifier::external_body]
pub struct ExDatabase(Database);

#[verifier::external_type_specification]
#[verifier::external_body]
pub struct ExStorageError(redb::Error);

/// The rows of the configuration table `salus_config` as the handle `db`
/// sees them. A table that was never written has no rows.
pub uninterp spec fn config_rows(db: Database) -> Map<Seq<char>, Seq<u8>>;

/// The rows of the value table `salus_store` as the handle `db` sees them.
/// A table that was never written has no rows.
pub uninterp spec fn value_rows(db: Database) -> Map<Seq<char>, Seq<u8>>;

/// The key of the row that says whether the store was initialised.
pub open spec fn initialized_key() -> Seq<char> {
    "INITIALIZED"@
}

/// The key of the row that holds the number of shares.
pub open spec fn num_shares_key() -> Seq<char> {
    "NUM_SHARES"@
}

/// The key of the row that holds the threshold.
pub open spec fn threshold_key() -> Seq<char> {
    "THRESHOLD"@
}

/// The key of the sentinel row in the value table.
pub open spec fn check_key() -> Seq<char> {
    "CHECK_KEY"@
}

/// The row under `key` in `rows`, if there is one.
pub open spec fn lookup(rows: Map<Seq<char>, Seq<u8>>, key: Seq<char>) -> Option<Seq<u8>> {
    if rows.contains_key(key) {
        Some(rows[key])
    } else {
        None
    }
}

/// The bytes in `row`, if there are any.
pub open spec fn row_view(row: Option<Vec<u8>>) -> Option<Seq<u8>> {
    match row {
        Some(bytes) => Some(bytes@),
        None => None,
    }
}

/// The three configuration keys are different texts.
pub proof fn lemma_config_keys_differ()
    ensures
        initialized_key() != num_shares_key(),
        initialized_key() != threshold_key(),
        num_shares_key() != threshold_key(),
{
    reveal_strlit("INITIALIZED");
    reveal_strlit("NUM_SHARES");
    reveal_strlit("THRESHOLD");
    assert(initialized_key().len() == 11);
    assert(num_shares_key().len() == 10);
    assert(threshold_key().len() == 9);
}

/// `Database::begin_read`, `ReadTransaction::open_table` and
/// `ReadOnlyTable::get` of `redb`: reads the row under `key` in the
/// configuration table. When the call succeeds, it gives the row that the
/// table holds under `key`, and nothing where the table holds none or does
/// not exist yet. Of a call that fails nothing is claimed.
#[verifier::external_body]
pub(crate) fn read_config(db: &Database, key: &str) -> (r: Result<Option<Vec<u8>>, redb::Error>)
    ensures
        r matches Ok(row) ==> row_view(row) == lookup(config_rows(*db), key@),
{
    let txn = db.begin_read()?;
    let table = match txn.open_table(TableDefinition::<&str, &[u8]>::new("salus_config")) {
        Ok(table) => table,
        Err(TableError::TableDoesNotExist(_)) => return Ok(None),
        Err(e) => return Err(e.into()),
    };
    let row = table.get(key)?.map(|guard| guard.value().to_vec());
    Ok(row)
}

/// `Database::begin_read`, `ReadTransaction::open_table` and
/// `ReadOnlyTable::get` of `redb`: reads the row under `key` in the value
/// table. When the call succeeds, it gives the row that the table holds
/// under `key`, and nothing where the table holds none or does not exist
/// yet. Of a call that fails nothing is claimed.
#[verifier::external_body]
pub(crate) fn read_value(db: &Database, key: &str) -> (r: Result<Option<Vec<u8>>, redb::Error>)
    ensures
        r matches Ok(row) ==> row_view(row) == lookup(value_rows(*db), key@),
{
    let txn = db.begin_read()?;
    let table = match txn.open_table(TableDefinition::<&str, &[u8]>::new("salus_store")) {
        Ok(table) => table,
        Err(TableError::TableDoesNotExist(_)) => return Ok(None),
        Err(e) => return Err(e.into()),
    };
    let row = table.get(key)?.map(|guard| guard.value().to_vec());
    Ok(row)
}

/// `Database::begin_write`, `WriteTransaction::open_table`, `Table::insert`
/// and `WriteTransaction::commit` of `redb`: one transaction that puts `row`
/// under `key` in the configuration table, in place of what was there. The
/// value table stays as it is. After success the row is there; after a
/// failure the table is as before or the row is there.
#[verifier::external_body]
pub(crate) fn write_config(db: &mut Database, key: &str, row: &[u8]) -> (r: Result<
    (),
    redb::Error,
>)
    ensures
        value_rows(*final(db)) == value_rows(*old(db)),
        r is Ok ==> config_rows(*final(db)) == config_rows(*old(db)).insert(key@, row@),
        r is Err ==> config_rows(*final(db)) == config_rows(*old(db)) || config_rows(*final(db))
            == config_rows(*old(db)).insert(key@, row@),
{
    let txn = db.begin_write()?;
    {
        let mut table = txn.open_table(TableDefinition::<&str, &[u8]>::new("salus_config"))?;
        table.insert(key, row)?;
    }
    txn.commit()?;
    Ok(())
}

/// `Database::begin_write`, `WriteTransaction::open_table`, `Table::insert`
/// and `WriteTransaction::commit` of `redb`: one transaction that puts `row`
/// under `key` in the value table, in place of what was there. The
/// configuration table stays as it is. After success the row is there; after
/// a failure the table is as before or the row is there.
#[verifier::external_body]
pub(crate) fn write_value(db: &mut Database, key: &str, row: &[u8]) -> (r: Result<
    (),
    redb::Error,
>)
    ensures
        config_rows(*final(db)) == config_rows(*old(db)),
        r is Ok ==> value_rows(*final(db)) == value_rows(*old(db)).insert(key@, row@),
        r is Err ==> value_rows(*final(db)) == value_rows(*old(db)) || value_rows(*final(db))
            == value_rows(*old(db)).insert(key@, row@),
{
    let txn = db.begin_write()?;
    {
        let mut table = txn.open_table(TableDefinition::<&str, &[u8]>::new("salus_store"))?;
        table.insert(key, row)?;
    }
    txn.commit()?;
    Ok(())
}

/// `Database::begin_write`, `WriteTransaction::open_table`, `Table::insert`
/// and `WriteTransaction::commit` of `redb`: one transaction that puts `row`
/// under `key` in the value table and `flag` under `flag_key` in the
/// configuration table. After success both rows are there; after a failure
/// both tables are as before or both rows are there.
#[verifier::external_body]
pub(crate) fn write_value_and_config(
    db: &mut Database,
    key: &str,
    row: &[u8],
    flag_key: &str,
    flag: &[u8],
) -> (r: Result<(), redb::Error>)
    ensures
        r is Ok ==> value_rows(*final(db)) == value_rows(*old(db)).insert(key@, row@)
            && config_rows(*final(db)) == config_rows(*old(db)).insert(flag_key@, flag@),
        r is Err ==> (value_rows(*final(db)) == value_rows(*old(db)) && config_rows(*final(db))
            == config_rows(*old(db))) || (value_rows(*final(db)) == value_rows(*old(db)).insert(
            key@,
            row@,
        ) && config_rows(*final(db)) == config_rows(*old(db)).insert(flag_key@, flag@)),
{
    let txn = db.begin_write()?;
    {
        let mut values = txn.open_table(TableDefinition::<&str, &[u8]>::new("salus_store"))?;
        values.insert(key, row)?;
        let mut config = txn.open_table(TableDefinition::<&str, &[u8]>::new("salus_config"))?;
        config.insert(flag_key, flag)?;
    }
    txn.commit()?;
    Ok(())
}

/// `to_string` of `redb::Error`: the text that describes `error`. Nothing is
/// claimed of the text.
#[verifier::external_body]
pub(crate) fn storage_message(error: &redb::Error) -> String {
    error.to_string()
}

} // verus!
