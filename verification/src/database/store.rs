use crate::error::SyncError;
use rusqlite::OptionalExtension;
use vstd::prelude::*;

verus! {

/// A handle on the store, carried through unopened.
#[verifier::external_type_specification]
#[verifier::external_body]
pub struct ExConnection(rusqlite::Connection);

/// The store's own error type, carried through unopened.
#[verifier::external_type_specification]
#[verifier::external_body]
pub struct ExStoreError(rusqlite::Error);

/// The name of the store's file in the working directory.
pub const STORE_FILE: &'static str = ".bushi.db";

/// How many prepared statements a connection keeps.
pub const STATEMENT_CACHE: usize = 64;

/// The first version of the storage engine that knows `ON CONFLICT .. DO UPDATE`.
pub const MIN_BACKEND_VERSION: i32 = 3024000;

/// A value bound to a parameter of a statement.
#[derive(Debug, Clone, PartialEq)]
pub enum SqlValue {
    Null,
    Integer(i64),
    Text(String),
}

/// The mathematical value of a [`SqlValue`].
pub enum SqlModel {
    Null,
    Integer(i64),
    Text(Seq<char>),
}

impl View for SqlValue {
    type V = SqlModel;

    open spec fn view(&self) -> SqlModel {
        match *self {
            SqlValue::Null => SqlModel::Null,
            SqlValue::Integer(i) => SqlModel::Integer(i),
            SqlValue::Text(s) => SqlModel::Text(s@),
        }
    }
}

/// The values of a list of parameters.
pub open spec fn sql_models(v: Seq<SqlValue>) -> Seq<SqlModel> {
    Seq::new(v.len(), |i: int| v[i]@)
}

/// An integer that is absent where it is `None`.
pub fn nullable(value: Option<i64>) -> (bound: SqlValue)
    ensures
        bound@ == match value {
            Some(i) => SqlModel::Integer(i),
            None => SqlModel::Null,
        },
{
    match value {
        Some(i) => SqlValue::Integer(i),
        None => SqlValue::Null,
    }
}

/// `Connection::prepare_cached`, then `Statement::execute` with the values
/// bound in order: the number of rows changed, or the store's error. What
/// comes back depends on what the store holds, so nothing is claimed of it.
#[verifier::external_body]
pub(crate) fn execute(conn: &rusqlite::Connection, sql: &str, params: &Vec<SqlValue>) -> Result<
    usize,
    rusqlite::Error,
> {
    let values = params.iter().map(
        |p|
            match p {
                SqlValue::Null => rusqlite::types::Value::Null,
                SqlValue::Integer(i) => rusqlite::types::Value::Integer(*i),
                SqlValue::Text(s) => rusqlite::types::Value::Text(s.clone()),
            },
    );
    conn.prepare_cached(sql)?.execute(rusqlite::params_from_iter(values))
}

/// `Connection::prepare_cached`, then `Statement::insert` with the values
/// bound in order: the row id of the one row inserted, or the store's error.
/// What comes back depends on what the store holds, so nothing is claimed of it.
#[verifier::external_body]
pub(crate) fn insert(conn: &rusqlite::Connection, sql: &str, params: &Vec<SqlValue>) -> Result<
    i64,
    rusqlite::Error,
> {
    let values = params.iter().map(
        |p|
            match p {
                SqlValue::Null => rusqlite::types::Value::Null,
                SqlValue::Integer(i) => rusqlite::types::Value::Integer(*i),
                SqlValue::Text(s) => rusqlite::types::Value::Text(s.clone()),
            },
    );
    conn.prepare_cached(sql)?.insert(rusqlite::params_from_iter(values))
}

/// `Connection::prepare_cached`, then `Statement::query_row` and
/// `OptionalExtension::optional`, with the first `columns` columns of the
/// row read by `Row::get` as integers: `None` where the query gives no row.
/// A row that comes back has `columns` entries; which row it is depends on
/// what the store holds.
#[verifier::external_body]
pub(crate) fn query_integers(
    conn: &rusqlite::Connection,
    sql: &str,
    params: &Vec<SqlValue>,
    columns: usize,
) -> (found: Result<Option<Vec<i64>>, rusqlite::Error>)
    ensures
        found matches Ok(Some(row)) ==> row@.len() == columns,
{
    let values = params.iter().map(
        |p|
            match p {
                SqlValue::Null => rusqlite::types::Value::Null,
                SqlValue::Integer(i) => rusqlite::types::Value::Integer(*i),
                SqlValue::Text(s) => rusqlite::types::Value::Text(s.clone()),
            },
    );
    conn.prepare_cached(sql)?.query_row(
        rusqlite::params_from_iter(values),
        |row| (0..columns).map(|i| row.get::<usize, i64>(i)).collect(),
    ).optional()
}

/// `Connection::prepare_cached`, then `Statement::query_row` and
/// `OptionalExtension::optional`, with the first column of the row read by
/// `Row::get` as text: `None` where the query gives no row. What comes back
/// depends on what the store holds, so nothing is claimed of it.
#[verifier::external_body]
pub(crate) fn query_text(conn: &rusqlite::Connection, sql: &str, params: &Vec<SqlValue>) -> Result<
    Option<String>,
    rusqlite::Error,
> {
    let values = params.iter().map(
        |p|
            match p {
                SqlValue::Null => rusqlite::types::Value::Null,
                SqlValue::Integer(i) => rusqlite::types::Value::Integer(*i),
                SqlValue::Text(s) => rusqlite::types::Value::Text(s.clone()),
            },
    );
    conn.prepare_cached(sql)?.query_row(
        rusqlite::params_from_iter(values),
        |row| row.get::<usize, String>(0),
    ).optional()
}

/// `Connection::execute_batch`: runs statements that are parted by semicolons.
#[verifier::external_body]
pub(crate) fn execute_batch(conn: &rusqlite::Connection, sql: &str) -> Result<(), rusqlite::Error> {
    conn.execute_batch(sql)
}

/// `Connection::open`: opens the store in the given file, and creates the
/// file where there is none.
#[verifier::external_body]
pub(crate) fn open_connection(path: &str) -> Result<rusqlite::Connection, rusqlite::Error> {
    rusqlite::Connection::open(path)
}

/// `Connection::pragma_update` on the main schema.
#[verifier::external_body]
pub(crate) fn pragma_update(conn: &rusqlite::Connection, name: &str, value: &str) -> Result<
    (),
    rusqlite::Error,
> {
    conn.pragma_update(None, name, value)
}

/// `Connection::set_prepared_statement_cache_capacity`.
#[verifier::external_body]
pub(crate) fn set_statement_cache(conn: &rusqlite::Connection, capacity: usize) {
    conn.set_prepared_statement_cache_capacity(capacity)
}

/// `rusqlite::version_number`: the version of the storage engine that is
/// linked in, as one number. It depends on the machine, so nothing is
/// claimed of it.
#[verifier::external_body]
pub(crate) fn backend_version() -> i32 {
    rusqlite::version_number()
}

/// Whether a storage engine of the given version knows upsert.
pub fn backend_supported(version: i32) -> (supported: bool)
    ensures
        supported == (version >= MIN_BACKEND_VERSION),
{
    version >= MIN_BACKEND_VERSION
}

/// Refuses a storage engine that is too old to know upsert: the verdict of
/// [`backend_verdict`] on the version of the engine that is linked in. Which
/// version that is, the engine says.
pub fn check_backend() -> (r: Result<(), SyncError>)
    ensures
        r is Err ==> r == Err::<(), SyncError>(SyncError::UnsupportedBackend),
{
    backend_verdict(backend_version())
}

/// `rusqlite::Error::IntegralValueOutOfRange`: the store's error for a
/// column whose value lies outside the range asked for.
#[verifier::external_body]
pub(crate) fn out_of_range(column: usize, value: i64) -> rusqlite::Error {
    rusqlite::Error::IntegralValueOutOfRange(column, value)
}

/// An id as the store gives it: a positive number. Any other number is
/// refused as out of range.
pub fn positive_id(id: i64) -> (r: Result<i64, SyncError>)
    ensures
        id > 0 ==> r == Ok::<i64, SyncError>(id),
        id <= 0 ==> r matches Err(SyncError::StorageIo(_)),
{
    if id > 0 {
        Ok(id)
    } else {
        Err(SyncError::StorageIo(out_of_range(0, id)))
    }
}

/// The id that a lookup found: the first column of its row.
pub fn found_id(row: &Vec<i64>) -> (r: Result<i64, SyncError>)
    requires
        row@.len() >= 1,
    ensures
        row@[0] > 0 ==> r == Ok::<i64, SyncError>(row@[0]),
        row@[0] <= 0 ==> r matches Err(SyncError::StorageIo(_)),
{
    positive_id(row[0])
}

/// Looks up the id that a table gives a name, and inserts the name where
/// the table does not hold it. What is handed out is the id in the table:
/// it is positive. The store decides: the lookup is bound to
/// [`name_values`] and its answer read by [`lookup_id`]; where that says
/// that the name is missing, the insert is bound to the same values and its
/// answer read by [`inserted_id`].
pub fn get_or_insert(conn: &rusqlite::Connection, select: &str, insert_new: &str, name: &str) -> (r:
    Result<i64, SyncError>)
    ensures
        r matches Ok(id) ==> id > 0,
        r matches Err(e) ==> e is StorageIo,
{
    let params = name_values(name);
    match lookup_id(query_integers(conn, select, &params, 1)) {
        Err(e) => Err(e),
        Ok(Some(id)) => Ok(id),
        Ok(None) => inserted_id(self::insert(conn, insert_new, &params)),
    }
}

/// What an answer of the store comes to: its value, or its error as `StorageIo`.
pub open spec fn spec_stored<T>(answer: Result<T, rusqlite::Error>) -> Result<T, SyncError> {
    match answer {
        Ok(value) => Ok(value),
        Err(e) => Err(SyncError::StorageIo(e)),
    }
}

/// Takes an answer of the store: its value, or its error as `StorageIo`.
pub fn stored<T>(answer: Result<T, rusqlite::Error>) -> (r: Result<T, SyncError>)
    ensures
        r == spec_stored(answer),
{
    match answer {
        Ok(value) => Ok(value),
        Err(e) => Err(SyncError::StorageIo(e)),
    }
}

/// The verdict on a storage engine of the given version: it is refused as
/// `UnsupportedBackend` exactly where it is too old to know upsert.
pub open spec fn spec_backend_verdict(version: i32) -> Result<(), SyncError> {
    if version >= MIN_BACKEND_VERSION {
        Ok(())
    } else {
        Err(SyncError::UnsupportedBackend)
    }
}

/// Gives the verdict on a storage engine of the given version.
pub fn backend_verdict(version: i32) -> (r: Result<(), SyncError>)
    ensures
        r == spec_backend_verdict(version),
{
    if backend_supported(version) {
        Ok(())
    } else {
        Err(SyncError::UnsupportedBackend)
    }
}

/// The one value that a lookup by name binds: the name, as text.
pub fn name_values(name: &str) -> (values: Vec<SqlValue>)
    ensures
        sql_models(values@) == seq![SqlModel::Text(name@)],
{
    let mut values: Vec<SqlValue> = Vec::new();
    values.push(SqlValue::Text(name.to_owned()));
    assert(sql_models(values@) =~= seq![SqlModel::Text(name@)]);
    values
}

/// The one value that a statement on one row binds: the row's id.
pub fn id_values(id: i64) -> (values: Vec<SqlValue>)
    ensures
        sql_models(values@) == seq![SqlModel::Integer(id)],
{
    let mut values: Vec<SqlValue> = Vec::new();
    values.push(SqlValue::Integer(id));
    assert(sql_models(values@) =~= seq![SqlModel::Integer(id)]);
    values
}

/// Reads the answer to a lookup of an id. No row means that the id is
/// missing. A row holds the id in its first column; an id is positive, and
/// any other number is refused as out of range. An error of the store is
/// handed on as `StorageIo`.
pub fn lookup_id(found: Result<Option<Vec<i64>>, rusqlite::Error>) -> (r: Result<
    Option<i64>,
    SyncError,
>)
    requires
        found matches Ok(Some(row)) ==> row@.len() >= 1,
    ensures
        found matches Err(e) ==> r == Err::<Option<i64>, SyncError>(SyncError::StorageIo(e)),
        found matches Ok(None) ==> r == Ok::<Option<i64>, SyncError>(None),
        found matches Ok(Some(row)) ==> if row@[0] > 0 {
            r == Ok::<Option<i64>, SyncError>(Some(row@[0]))
        } else {
            r matches Err(SyncError::StorageIo(_))
        },
{
    match found {
        Err(e) => Err(SyncError::StorageIo(e)),
        Ok(None) => Ok(None),
        Ok(Some(row)) => match found_id(&row) {
            Ok(id) => Ok(Some(id)),
            Err(e) => Err(e),
        },
    }
}

/// Reads the answer to the insert of a name: the id that the store gave it,
/// which is positive; any other number is refused as out of range. An error
/// of the store is handed on as `StorageIo`.
pub fn inserted_id(inserted: Result<i64, rusqlite::Error>) -> (r: Result<i64, SyncError>)
    ensures
        inserted matches Err(e) ==> r == Err::<i64, SyncError>(SyncError::StorageIo(e)),
        inserted matches Ok(id) ==> if id > 0 {
            r == Ok::<i64, SyncError>(id)
        } else {
            r matches Err(SyncError::StorageIo(_))
        },
{
    match inserted {
        Err(e) => Err(SyncError::StorageIo(e)),
        Ok(id) => positive_id(id),
    }
}

/// What the answer to a statement that hands out nothing comes to: done
/// where the statement ran, whatever the number of rows it changed, else the
/// store's error as `StorageIo`.
pub open spec fn spec_done(last: Result<usize, rusqlite::Error>) -> Result<(), SyncError> {
    match last {
        Ok(_) => Ok(()),
        Err(e) => Err(SyncError::StorageIo(e)),
    }
}

/// Reads the answer to a statement that hands out nothing.
pub fn done(last: Result<usize, rusqlite::Error>) -> (r: Result<(), SyncError>)
    ensures
        r == spec_done(last),
{
    match last {
        Ok(_) => Ok(()),
        Err(e) => Err(SyncError::StorageIo(e)),
    }
}

} // verus!
