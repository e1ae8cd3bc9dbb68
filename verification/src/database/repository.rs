use crate::database::store::get_or_insert;
use crate::error::SyncError;
use vstd::prelude::*;

verus! {

/// Finds a repository by its name.
pub const SELECT_REPOSITORY: &'static str =
    "SELECT repo_id FROM repositories WHERE name = ?1 LIMIT 1";

/// Enters a repository under its name.
pub const INSERT_REPOSITORY: &'static str = "INSERT OR IGNORE INTO repositories(name) VALUES (?1)";

/// A repository as the store knows it.
#[derive(Debug, Clone, PartialEq)]
pub struct Repository {
    /// The store's id of the repository; zero until it is known.
    pub repo_id: i64,
    pub name: String,
}

impl From<&String> for Repository {
    fn from(name: &String) -> (repo: Repository) {
        Repository { repo_id: 0, name: name.clone() }
    }
}

impl vstd::std_specs::convert::FromSpecImpl<&String> for Repository {
    open spec fn obeys_from_spec() -> bool {
        true
    }

    open spec fn from_spec(name: &String) -> Repository {
        Repository { repo_id: 0, name: *name }
    }
}

impl Repository {
    /// The id of the repository: the one it already bears, else the one the
    /// store holds for its name, else the one the store gives it now. The id
    /// is kept, so that the store is asked once.
    pub fn get_id_by_name(&mut self, conn: &rusqlite::Connection) -> (r: Result<i64, SyncError>)
        ensures
            final(self).name == old(self).name,
            old(self).repo_id != 0 ==> r == Ok::<i64, SyncError>(old(self).repo_id),
            old(self).repo_id == 0 ==> (r matches Ok(id) ==> id > 0),
            r matches Ok(id) ==> final(self).repo_id == id,
            r matches Err(e) ==> e is StorageIo && final(self).repo_id == old(self).repo_id,
    {
        if self.repo_id != 0 {
            return Ok(self.repo_id);
        }
        match get_or_insert(conn, SELECT_REPOSITORY, INSERT_REPOSITORY, self.name.as_str()) {
            Ok(id) => {
                self.repo_id = id;
                Ok(id)
            },
            Err(e) => Err(e),
        }
    }
}

} // verus!
