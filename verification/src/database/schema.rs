use crate::database::store::{
    execute_batch, open_connection, pragma_update, set_statement_cache, stored, STATEMENT_CACHE,
};
use crate::error::SyncError;
use vstd::prelude::*;

verus! {

/// The tables and indexes of the store. Every statement can be run again on
/// a store that already has them.
pub const SCHEMA: &'static str = "
CREATE TABLE IF NOT EXISTS repositories (
    repo_id INTEGER PRIMARY KEY AUTOINCREMENT,
    name TEXT NOT NULL
);
CREATE UNIQUE INDEX IF NOT EXISTS repositories_name ON repositories(name);

CREATE TABLE IF NOT EXISTS files (
    file_id INTEGER PRIMARY KEY AUTOINCREMENT,
    name TEXT NOT NULL
);
CREATE UNIQUE INDEX IF NOT EXISTS files_name ON files(name);

CREATE TABLE IF NOT EXISTS commits (
    commit_id INTEGER PRIMARY KEY AUTOINCREMENT,
    repo_id INTEGER NOT NULL,
    commit_hash TEXT NOT NULL,
    commit_mark INTEGER NOT NULL,
    parent_mark INTEGER,
    parent_id INTEGER,
    depth INTEGER NOT NULL
);
CREATE UNIQUE INDEX IF NOT EXISTS commits_repo_hash ON commits(repo_id, commit_hash);
CREATE UNIQUE INDEX IF NOT EXISTS commits_repo_mark ON commits(repo_id, commit_mark);

CREATE TABLE IF NOT EXISTS commit_files (
    commit_id INTEGER NOT NULL,
    file_id INTEGER NOT NULL,
    PRIMARY KEY (commit_id, file_id)
);

CREATE TABLE IF NOT EXISTS ancestors (
    commit_id INTEGER NOT NULL,
    ancestor_id INTEGER NOT NULL,
    level INTEGER NOT NULL,
    PRIMARY KEY (commit_id, level)
);

CREATE TABLE IF NOT EXISTS refs (
    repo_id INTEGER NOT NULL,
    full_name TEXT NOT NULL,
    short_name TEXT NOT NULL,
    commit_id INTEGER NOT NULL,
    commit_hash TEXT NOT NULL,
    time INTEGER NOT NULL,
    is_tag INTEGER NOT NULL,
    PRIMARY KEY (repo_id, full_name)
);
";

/// Writes the skip-list rows of one commit. Level 0 is the parent; level
/// `k + 1` is the ancestor at level `k` of the ancestor at level `k`, read
/// from the rows that ancestor already has. So a commit gets a row for each
/// `k` for which it has an ancestor `2^k` steps up.
pub const MATERIALIZE_ANCESTORS: &'static str = "
WITH RECURSIVE up(ancestor_id, level) AS (
    SELECT parent_id, 0 FROM commits WHERE commit_id = ?1 AND parent_id IS NOT NULL
    UNION ALL
    SELECT a.ancestor_id, up.level + 1
    FROM up JOIN ancestors a ON a.commit_id = up.ancestor_id AND a.level = up.level
)
INSERT INTO ancestors(commit_id, ancestor_id, level)
SELECT ?1, ancestor_id, level FROM up
";

/// Creates the tables and indexes that the store lacks, by running
/// [`SCHEMA`]. Whether that succeeds, the store decides; its error comes as
/// `StorageIo`.
pub fn init_schema(conn: &rusqlite::Connection) -> (r: Result<(), SyncError>)
    ensures
        r matches Err(e) ==> e is StorageIo,
{
    stored(execute_batch(conn, SCHEMA))
}

/// Prepares a connection for bulk ingestion: no waiting for the disk, the
/// journal in memory, the schema in place, and room for the statements that
/// ingestion prepares. A crash loses nothing that a new run does not bring
/// back. The first step that the store refuses ends the work, and its error
/// comes as `StorageIo`.
pub fn configure(conn: &rusqlite::Connection) -> (r: Result<(), SyncError>)
    ensures
        r matches Err(e) ==> e is StorageIo,
{
    match stored(pragma_update(conn, SYNCHRONOUS, SYNCHRONOUS_OFF)) {
        Ok(()) => {},
        Err(e) => {
            return Err(e);
        },
    }
    match stored(pragma_update(conn, JOURNAL_MODE, JOURNAL_IN_MEMORY)) {
        Ok(()) => {},
        Err(e) => {
            return Err(e);
        },
    }
    match init_schema(conn) {
        Ok(()) => {},
        Err(e) => {
            return Err(e);
        },
    }
    set_statement_cache(conn, STATEMENT_CACHE);
    Ok(())
}

/// Opens the store in the given file and prepares it for ingestion as
/// [`configure`] does. Whether the file can be opened, the store decides;
/// its error comes as `StorageIo`.
pub fn open_store(file: &str) -> (r: Result<rusqlite::Connection, SyncError>)
    ensures
        r matches Err(e) ==> e is StorageIo,
{
    match stored(open_connection(file)) {
        Err(e) => Err(e),
        Ok(conn) => match configure(&conn) {
            Ok(()) => Ok(conn),
            Err(e) => Err(e),
        },
    }
}

/// The setting that says how long a write waits for the disk.
pub const SYNCHRONOUS: &'static str = "synchronous";

/// No waiting for the disk.
pub const SYNCHRONOUS_OFF: &'static str = "OFF";

/// The setting that says where the journal of a transaction is kept.
pub const JOURNAL_MODE: &'static str = "journal_mode";

/// The journal in memory.
pub const JOURNAL_IN_MEMORY: &'static str = "MEMORY";

} // verus!
