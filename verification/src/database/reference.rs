use crate::database::commit::Commit;
use crate::database::oid::{oid_text_of, zero_bytes, SqlOid};
use crate::database::store::{done, execute, sql_models, SqlModel, SqlValue};
use crate::error::SyncError;
use vstd::prelude::*;

verus! {

/// Enters a reference, or rewrites the one that its repository already has
/// under the same full name.
pub const UPSERT_REFERENCE: &'static str = "
INSERT INTO refs (full_name, short_name, commit_id, commit_hash, time, repo_id, is_tag)
VALUES (?1, ?2, ?3, ?4, ?5, ?6, ?7)
ON CONFLICT(repo_id, full_name) DO UPDATE SET
    short_name = excluded.short_name,
    commit_id = excluded.commit_id,
    commit_hash = excluded.commit_hash,
    time = excluded.time,
    is_tag = excluded.is_tag
";

/// A branch or a tag as the store knows it.
#[derive(Debug, Clone, PartialEq)]
pub struct Reference {
    pub full_name: String,
    pub short_name: String,
    /// The store's id of the tip; zero until it is resolved.
    pub commit_id: i64,
    pub commit_hash: SqlOid,
    /// When the tip was committed, in seconds since the epoch.
    pub time: i64,
    pub repo_id: i64,
    pub is_tag: bool,
}

/// The mathematical value of a [`Reference`].
pub struct ReferenceModel {
    pub full_name: Seq<char>,
    pub short_name: Seq<char>,
    pub commit_id: i64,
    pub commit_hash: Seq<u8>,
    pub time: i64,
    pub repo_id: i64,
    pub is_tag: bool,
}

impl View for Reference {
    type V = ReferenceModel;

    open spec fn view(&self) -> ReferenceModel {
        ReferenceModel {
            full_name: self.full_name@,
            short_name: self.short_name@,
            commit_id: self.commit_id,
            commit_hash: self.commit_hash@,
            time: self.time,
            repo_id: self.repo_id,
            is_tag: self.is_tag,
        }
    }
}

/// The row that enters a reference: full name, short name, tip, the tip's
/// hash as text, time, repository, and one for a tag or zero for a branch.
pub open spec fn spec_upsert_values(reference: ReferenceModel) -> Seq<SqlModel> {
    seq![
        SqlModel::Text(reference.full_name),
        SqlModel::Text(reference.short_name),
        SqlModel::Integer(reference.commit_id),
        SqlModel::Text(oid_text_of(reference.commit_hash)),
        SqlModel::Integer(reference.time),
        SqlModel::Integer(reference.repo_id),
        SqlModel::Integer(
            if reference.is_tag {
                1
            } else {
                0
            },
        ),
    ]
}

impl Reference {
    /// The values that enter the reference.
    pub fn upsert_values(&self) -> (values: Vec<SqlValue>)
        ensures
            sql_models(values@) == spec_upsert_values(self@),
    {
        let mut values: Vec<SqlValue> = Vec::new();
        values.push(SqlValue::Text(self.full_name.clone()));
        values.push(SqlValue::Text(self.short_name.clone()));
        values.push(SqlValue::Integer(self.commit_id));
        values.push(SqlValue::Text(self.commit_hash.to_string()));
        values.push(SqlValue::Integer(self.time));
        values.push(SqlValue::Integer(self.repo_id));
        values.push(
            SqlValue::Integer(
                if self.is_tag {
                    1
                } else {
                    0
                },
            ),
        );
        assert(sql_models(values@) =~= spec_upsert_values(self@));
        values
    }

    /// Enters the reference into the store, in place of the one that its
    /// repository has under the same full name, if it has one. A tip that is
    /// not resolved yet is looked up by its hash first and kept; a hash that
    /// the store does not hold for the repository gives `UnknownCommit`, and
    /// so does the zero hash, which stands for no commit. Where the tip is
    /// not resolved, the reference stays as it was and the store is not
    /// asked to enter it. The answer of the lookup is read by
    /// [`Reference::resolved`], the statement is bound to
    /// [`Reference::upsert_values`], and its answer is read by [`done`].
    pub fn upsert(&mut self, conn: &rusqlite::Connection) -> (r: Result<(), SyncError>)
        requires
            old(self).repo_id != 0,
        ensures
            final(self)@ == (ReferenceModel { commit_id: final(self).commit_id, ..old(self)@ }),
            old(self).commit_id != 0 ==> final(self).commit_id == old(self).commit_id,
            old(self).commit_id == 0 && final(self).commit_id != 0 ==> final(self).commit_id > 0,
            r is Ok ==> final(self).commit_id != 0,
            r matches Err(SyncError::UnknownCommit) ==> final(self).commit_id == old(
                self,
            ).commit_id,
            old(self).commit_id == 0 && old(self).commit_hash@ == zero_bytes() ==> r == Err::<
                (),
                SyncError,
            >(SyncError::UnknownCommit),
            r matches Err(e) ==> e is StorageIo || e is UnknownCommit,
            old(self).commit_id != 0 ==> (r matches Err(e) ==> e is StorageIo),
    {
        if self.commit_id == 0 {
            let found = Commit::fetch_id_by_hash(self.repo_id, &self.commit_hash, conn);
            match Reference::resolved(found) {
                Ok(id) => {
                    self.commit_id = id;
                },
                Err(e) => {
                    return Err(e);
                },
            }
        }
        let values = self.upsert_values();
        done(execute(conn, UPSERT_REFERENCE, &values))
    }

    /// Reads the answer to the lookup of a tip. An id of zero means that
    /// there is no commit to point at: `UnknownCommit`. Any other id is the
    /// tip, and an error stays as it is.
    pub fn resolved(found: Result<i64, SyncError>) -> (r: Result<i64, SyncError>)
        ensures
            r == spec_resolved(found),
    {
        match found {
            Ok(id) => {
                if id == 0 {
                    Err(SyncError::UnknownCommit)
                } else {
                    Ok(id)
                }
            },
            Err(e) => Err(e),
        }
    }
}

/// What the answer to the lookup of a tip says: see [`Reference::resolved`].
pub open spec fn spec_resolved(found: Result<i64, SyncError>) -> Result<i64, SyncError> {
    match found {
        Ok(id) => if id == 0 {
            Err(SyncError::UnknownCommit)
        } else {
            Ok(id)
        },
        Err(e) => Err(e),
    }
}

} // verus!
