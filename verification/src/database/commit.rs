use crate::database::oid::{is_oid_text, oid_bytes_of, oid_text_of, zero_bytes, SqlOid};
use crate::database::schema::MATERIALIZE_ANCESTORS;
use crate::database::store::{
    execute, found_id, get_or_insert, id_values, nullable, query_integers, query_text,
    sql_models, stored, SqlModel, SqlValue,
};
use crate::error::SyncError;
use crate::text::{integer_text, integer_to_string, pad_left, padded, push_integer, push_text};
use vstd::prelude::*;

verus! {

/// The texts that a list of strings holds.
pub open spec fn texts(v: Seq<String>) -> Seq<Seq<char>> {
    Seq::new(v.len(), |i: int| v[i]@)
}

/// A commit as the store knows it.
#[derive(Debug, Clone, PartialEq)]
pub struct Commit {
    /// The store's id of the commit; `None` until it is inserted.
    pub commit_id: Option<i64>,
    pub commit_hash: SqlOid,
    /// The exporter's mark: unique within the repository.
    pub commit_mark: i64,
    /// The mark of the first parent; `None` for a root.
    pub parent_mark: Option<i64>,
    pub repo_id: i64,
    /// Distance from the root along first parents; `None` until it is inserted.
    pub depth: Option<i64>,
    /// The paths that the commit touches.
    pub files: Vec<String>,
}

/// The mathematical value of a [`Commit`].
pub struct CommitModel {
    pub commit_id: Option<i64>,
    pub commit_hash: Seq<u8>,
    pub commit_mark: i64,
    pub parent_mark: Option<i64>,
    pub repo_id: i64,
    pub depth: Option<i64>,
    pub files: Seq<Seq<char>>,
}

impl View for Commit {
    type V = CommitModel;

    open spec fn view(&self) -> CommitModel {
        CommitModel {
            commit_id: self.commit_id,
            commit_hash: self.commit_hash@,
            commit_mark: self.commit_mark,
            parent_mark: self.parent_mark,
            repo_id: self.repo_id,
            depth: self.depth,
            files: texts(self.files@),
        }
    }
}

/// Finds a file by its name.
pub const SELECT_FILE: &'static str = "SELECT file_id FROM files WHERE name = ?1 LIMIT 1";

/// Enters a file under its name.
pub const INSERT_FILE: &'static str = "INSERT INTO files(name) VALUES (?1)";

/// Finds a commit of a repository by its mark: its id and its depth.
pub const SELECT_BY_MARK: &'static str =
    "SELECT commit_id, depth FROM commits WHERE repo_id = ?1 AND commit_mark = ?2 LIMIT 1";

/// Finds a commit of a repository by its hash.
pub const SELECT_BY_HASH: &'static str =
    "SELECT commit_id FROM commits WHERE repo_id = ?1 AND commit_hash = ?2 LIMIT 1";

/// Reads the numbers of a commit; a root's parent mark reads as zero.
pub const SELECT_COMMIT: &'static str =
    "SELECT commit_id, commit_mark, IFNULL(parent_mark, 0), depth, repo_id FROM commits WHERE commit_id = ?1 LIMIT 1";

/// Reads the hash of a commit.
pub const SELECT_COMMIT_HASH: &'static str =
    "SELECT commit_hash FROM commits WHERE commit_id = ?1 LIMIT 1";

/// Enters a commit.
pub const INSERT_COMMIT: &'static str =
    "INSERT INTO commits(commit_hash, commit_mark, parent_mark, repo_id, parent_id, depth) VALUES (?1, ?2, ?3, ?4, ?5, ?6)";

/// Notes that a commit touches a file, once.
pub const INSERT_COMMIT_FILE: &'static str =
    "INSERT OR IGNORE INTO commit_files(commit_id, file_id) VALUES (?1, ?2)";

/// Opens the transaction of an insert.
pub const BEGIN: &'static str = "BEGIN TRANSACTION";

/// Makes what an insert wrote lasting.
pub const COMMIT: &'static str = "COMMIT";

/// Undoes what an insert wrote so far.
pub const ROLLBACK: &'static str = "ROLLBACK";

/// A file as the store knows it.
#[derive(Debug, Clone, PartialEq)]
pub struct File {
    /// The store's id of the file; zero until it is known.
    pub file_id: i64,
    pub name: String,
}

impl File {
    /// The id of the file: the one it already bears, else the one the store
    /// holds for its name, else the one the store gives it now. The id is
    /// kept, so that the store is asked once.
    pub fn get_id_by_name(&mut self, conn: &rusqlite::Connection) -> (r: Result<i64, SyncError>)
        ensures
            final(self).name == old(self).name,
            old(self).file_id != 0 ==> r == Ok::<i64, SyncError>(old(self).file_id),
            old(self).file_id == 0 ==> (r matches Ok(id) ==> id > 0),
            r matches Ok(id) ==> final(self).file_id == id,
            r matches Err(e) ==> e is StorageIo && final(self).file_id == old(self).file_id,
    {
        if self.file_id != 0 {
            return Ok(self.file_id);
        }
        match get_or_insert(conn, SELECT_FILE, INSERT_FILE, self.name.as_str()) {
            Ok(id) => {
                self.file_id = id;
                Ok(id)
            },
            Err(e) => Err(e),
        }
    }
}

/// Where a commit stands in the history of its repository.
#[derive(Debug, Clone, Copy, PartialEq, Eq)]
pub struct Placement {
    /// The store's id of the first parent; `None` for a root.
    pub parent_id: Option<i64>,
    /// Distance from the root along first parents.
    pub depth: i64,
}

/// Whether a parent mark says that the commit is a root: there is none, or
/// it is zero.
pub open spec fn is_root_mark(parent_mark: Option<i64>) -> bool {
    match parent_mark {
        None => true,
        Some(mark) => mark == 0,
    }
}

/// The depth rule. A root has no parent and depth zero. Any other commit
/// stands one below its parent, which the store must hold with a positive id
/// and a depth that leaves room for one more.
pub open spec fn spec_placement(parent_mark: Option<i64>, found: Option<(i64, i64)>) -> Result<
    Placement,
    SyncError,
> {
    if is_root_mark(parent_mark) {
        Ok(Placement { parent_id: None, depth: 0 })
    } else {
        match found {
            Some((id, depth)) => if id > 0 && 0 <= depth < i64::MAX {
                Ok(Placement { parent_id: Some(id), depth: (depth + 1) as i64 })
            } else {
                Err(SyncError::UnknownCommit)
            },
            None => Err(SyncError::UnknownCommit),
        }
    }
}

/// The row that enters a commit: hash as text, mark, parent mark, repository,
/// parent and depth. A root has neither parent mark nor parent.
pub open spec fn spec_insert_values(commit: CommitModel, place: Placement) -> Seq<SqlModel> {
    seq![
        SqlModel::Text(oid_text_of(commit.commit_hash)),
        SqlModel::Integer(commit.commit_mark),
        if is_root_mark(commit.parent_mark) {
            SqlModel::Null
        } else {
            SqlModel::Integer(commit.parent_mark->0)
        },
        SqlModel::Integer(commit.repo_id),
        match place.parent_id {
            Some(id) => SqlModel::Integer(id),
            None => SqlModel::Null,
        },
        SqlModel::Integer(place.depth),
    ]
}

/// The commit that a stored row describes. A parent mark of zero in the row
/// means that the commit is a root.
pub open spec fn spec_from_row(row: Seq<i64>, hash: Seq<u8>) -> CommitModel {
    CommitModel {
        commit_id: Some(row[0]),
        commit_hash: hash,
        commit_mark: row[1],
        parent_mark: if row[2] == 0 {
            None
        } else {
            Some(row[2])
        },
        repo_id: row[4],
        depth: Some(row[3]),
        files: Seq::empty(),
    }
}

/// How a commit is announced: its hash, its id or zero where it has none, its
/// mark set to the right of seven places, and its parent mark or `-1` where
/// it has none.
pub open spec fn spec_commit_text(commit: CommitModel) -> Seq<char> {
    oid_text_of(commit.commit_hash) + " id: "@ + integer_text(
        match commit.commit_id {
            Some(id) => id as int,
            None => 0,
        },
    ) + ", mark: "@ + padded(integer_text(commit.commit_mark as int), 7) + ", from: "@
        + integer_text(
        match commit.parent_mark {
            Some(mark) => mark as int,
            None => -1,
        },
    )
}

impl Commit {
    /// The line that announces the commit.
    pub fn to_string(&self) -> (text: String)
        ensures
            text@ == spec_commit_text(self@),
    {
        let mut text = self.commit_hash.to_string();
        push_text(&mut text, " id: ");
        push_integer(
            &mut text,
            match self.commit_id {
                Some(id) => id,
                None => 0,
            },
        );
        push_text(&mut text, ", mark: ");
        let mark = integer_to_string(self.commit_mark);
        let field = pad_left(mark.as_str(), 7);
        push_text(&mut text, field.as_str());
        push_text(&mut text, ", from: ");
        push_integer(
            &mut text,
            match self.parent_mark {
                Some(mark) => mark,
                None => -1,
            },
        );
        text
    }

    /// Whether the commit is a root: it has no parent mark, or the mark is zero.
    pub fn is_root(&self) -> (root: bool)
        ensures
            root == is_root_mark(self.parent_mark),
    {
        match self.parent_mark {
            None => true,
            Some(mark) => mark == 0,
        }
    }

    /// Places a commit by what the store holds for its parent mark.
    pub fn placement(parent_mark: Option<i64>, found: Option<(i64, i64)>) -> (r: Result<
        Placement,
        SyncError,
    >)
        ensures
            r == spec_placement(parent_mark, found),
    {
        let root = match parent_mark {
            None => true,
            Some(mark) => mark == 0,
        };
        if root {
            return Ok(Placement { parent_id: None, depth: 0 });
        }
        match found {
            Some((id, depth)) => {
                if id > 0 && 0 <= depth && depth < i64::MAX {
                    Ok(Placement { parent_id: Some(id), depth: depth + 1 })
                } else {
                    Err(SyncError::UnknownCommit)
                }
            },
            None => Err(SyncError::UnknownCommit),
        }
    }

    /// The values that enter the commit at the given place.
    pub fn insert_values(&self, place: &Placement) -> (values: Vec<SqlValue>)
        ensures
            sql_models(values@) == spec_insert_values(self@, *place),
    {
        let mut values: Vec<SqlValue> = Vec::new();
        values.push(SqlValue::Text(self.commit_hash.to_string()));
        values.push(SqlValue::Integer(self.commit_mark));
        values.push(
            if self.is_root() {
                SqlValue::Null
            } else {
                nullable(self.parent_mark)
            },
        );
        values.push(SqlValue::Integer(self.repo_id));
        values.push(nullable(place.parent_id));
        values.push(SqlValue::Integer(place.depth));
        assert(sql_models(values@) =~= spec_insert_values(self@, *place));
        values
    }

    /// The commit that a stored row of five numbers and a hash describe:
    /// id, mark, parent mark, depth and repository.
    pub fn from_row(row: &Vec<i64>, hash: SqlOid) -> (commit: Commit)
        requires
            row@.len() == 5,
        ensures
            commit@ == spec_from_row(row@, hash@),
    {
        let files: Vec<String> = Vec::new();
        assert(texts(files@) =~= Seq::<Seq<char>>::empty());
        Commit {
            commit_id: Some(row[0]),
            commit_hash: hash,
            commit_mark: row[1],
            parent_mark: if row[2] == 0 {
                None
            } else {
                Some(row[2])
            },
            repo_id: row[4],
            depth: Some(row[3]),
            files,
        }
    }

    /// Reads a commit from the store, without its files: the commit that the
    /// row found describes, with its id and its depth. An id that the store
    /// does not hold gives `UnknownCommit`; so does zero, which is no id. A
    /// stored hash that is not well-formed gives `BadHash`. Both lookups are
    /// bound to [`id_values`]; their answers are read by
    /// [`Commit::numbers_row`] and [`Commit::stored_hash`].
    pub fn find_by_id(commit_id: i64, conn: &rusqlite::Connection) -> (r: Result<Commit, SyncError>)
        ensures
            commit_id == 0 ==> r matches Err(SyncError::UnknownCommit),
            r matches Ok(commit) ==> exists|row: Seq<i64>, hash: Seq<u8>|
                row.len() == 5 && commit@ == #[trigger] spec_from_row(row, hash),
            r matches Ok(commit) ==> commit@.commit_id is Some && commit@.depth is Some
                && commit@.files == Seq::<Seq<char>>::empty(),
            r matches Err(e) ==> e is StorageIo || e is UnknownCommit || e is BadHash,
    {
        if commit_id == 0 {
            return Err(SyncError::UnknownCommit);
        }
        let params = id_values(commit_id);
        let row = match Commit::numbers_row(query_integers(conn, SELECT_COMMIT, &params, 5)) {
            Ok(row) => row,
            Err(e) => {
                return Err(e);
            },
        };
        let hash = match Commit::stored_hash(query_text(conn, SELECT_COMMIT_HASH, &params)) {
            Ok(hash) => hash,
            Err(e) => {
                return Err(e);
            },
        };
        let commit = Commit::from_row(&row, hash);
        assert(row@.len() == 5 && commit@ == spec_from_row(row@, hash@));
        Ok(commit)
    }

    /// The id of the commit of a repository that has the given hash. The zero
    /// hash stands for no commit and gives zero, without a look at the store.
    /// For any other hash the store decides: the lookup is bound to
    /// [`Commit::hash_values`] and its answer read by [`Commit::hash_row`], so
    /// that a hash that the store does not hold gives `UnknownCommit`.
    pub fn fetch_id_by_hash(repo_id: i64, commit_hash: &SqlOid, conn: &rusqlite::Connection) -> (r:
        Result<i64, SyncError>)
        ensures
            commit_hash@ == zero_bytes() ==> r == Ok::<i64, SyncError>(0),
            commit_hash@ != zero_bytes() ==> (r matches Ok(id) ==> id > 0),
            r matches Err(e) ==> e is StorageIo || e is UnknownCommit,
    {
        if commit_hash.is_zero() {
            return Ok(0);
        }
        let params = Commit::hash_values(repo_id, commit_hash);
        Commit::hash_row(query_integers(conn, SELECT_BY_HASH, &params, 1))
    }

    /// The id of a file name: the store's, found or given as in [`get_or_insert`].
    pub fn fetch_file_id(name: &str, conn: &rusqlite::Connection) -> (r: Result<i64, SyncError>)
        ensures
            r matches Ok(id) ==> id > 0,
            r matches Err(e) ==> e is StorageIo,
    {
        get_or_insert(conn, SELECT_FILE, INSERT_FILE, name)
    }

    /// What the store holds for a mark of a repository: id and depth. The
    /// lookup is bound to [`Commit::mark_values`] and its answer read by
    /// [`Commit::mark_row`].
    fn fetch_by_mark(repo_id: i64, mark: i64, conn: &rusqlite::Connection) -> (r: Result<
        Option<(i64, i64)>,
        SyncError,
    >)
        ensures
            r matches Err(e) ==> e is StorageIo,
    {
        let params = Commit::mark_values(repo_id, mark);
        Commit::mark_row(query_integers(conn, SELECT_BY_MARK, &params, 2))
    }

    /// The statements of an insert, between the start and the end of its
    /// transaction. The store decides each step, and the first step that
    /// fails ends the work. The commit is placed by [`Commit::placement`] on
    /// the answer for its parent mark, entered with
    /// [`Commit::insert_values`], and known by the id that
    /// [`Commit::new_commit_id`] reads from the answer for its own mark.
    fn insert_rows(&self, conn: &rusqlite::Connection) -> (r: Result<i64, SyncError>)
        ensures
            r matches Ok(id) ==> id > 0,
            r matches Err(e) ==> e is StorageIo || e is UnknownCommit,
    {
        let found = if self.is_root() {
            None
        } else {
            match self.parent_mark {
                Some(mark) => match Commit::fetch_by_mark(self.repo_id, mark, conn) {
                    Ok(found) => found,
                    Err(e) => {
                        return Err(e);
                    },
                },
                None => None,
            }
        };
        let place = match Commit::placement(self.parent_mark, found) {
            Ok(place) => place,
            Err(e) => {
                return Err(e);
            },
        };
        let values = self.insert_values(&place);
        match stored(execute(conn, INSERT_COMMIT, &values)) {
            Ok(_) => {},
            Err(e) => {
                return Err(e);
            },
        }
        let entered = match Commit::fetch_by_mark(self.repo_id, self.commit_mark, conn) {
            Ok(entered) => entered,
            Err(e) => {
                return Err(e);
            },
        };
        let commit_id = match Commit::new_commit_id(entered) {
            Ok(id) => id,
            Err(e) => {
                return Err(e);
            },
        };
        let mut i: usize = 0;
        while i < self.files.len()
            invariant
                i <= self.files@.len(),
                commit_id > 0,
            decreases self.files@.len() - i,
        {
            let file_id = match Commit::fetch_file_id(self.files[i].as_str(), conn) {
                Ok(id) => id,
                Err(e) => {
                    return Err(e);
                },
            };
            let edge = Commit::edge_values(commit_id, file_id);
            match stored(execute(conn, INSERT_COMMIT_FILE, &edge)) {
                Ok(_) => {},
                Err(e) => {
                    return Err(e);
                },
            }
            i += 1;
        }
        let tip = id_values(commit_id);
        Commit::sealed(commit_id, execute(conn, MATERIALIZE_ANCESTORS, &tip))
    }

    /// Enters the commit into the store, with its files and its skip-list
    /// rows, in one transaction: the id that the store gave it. Where a step
    /// fails, the transaction is rolled back and the step's error handed out;
    /// a parent mark that the store does not hold gives `UnknownCommit`. The
    /// commit itself stays as it is. Which id comes out, and whether one
    /// does, the store decides.
    pub fn insert(&mut self, conn: &rusqlite::Connection) -> (r: Result<i64, SyncError>)
        requires
            old(self).repo_id != 0,
        ensures
            *final(self) == *old(self),
            r matches Ok(id) ==> id > 0,
            r matches Err(e) ==> e is StorageIo || e is UnknownCommit,
    {
        let none: Vec<SqlValue> = Vec::new();
        match stored(execute(conn, BEGIN, &none)) {
            Ok(_) => {},
            Err(e) => {
                return Err(e);
            },
        }
        let written = match self.insert_rows(conn) {
            Ok(id) => Commit::sealed(id, execute(conn, COMMIT, &none)),
            Err(e) => Err(e),
        };
        if written.is_err() {
            let _ = execute(conn, ROLLBACK, &none);
        }
        written
    }

    /// The two values that a lookup by mark binds: repository and mark.
    pub fn mark_values(repo_id: i64, mark: i64) -> (values: Vec<SqlValue>)
        ensures
            sql_models(values@) == seq![SqlModel::Integer(repo_id), SqlModel::Integer(mark)],
    {
        let mut values: Vec<SqlValue> = Vec::new();
        values.push(SqlValue::Integer(repo_id));
        values.push(SqlValue::Integer(mark));
        assert(sql_models(values@) =~= seq![
            SqlModel::Integer(repo_id),
            SqlModel::Integer(mark),
        ]);
        values
    }

    /// The two values that note a file of a commit: commit and file.
    pub fn edge_values(commit_id: i64, file_id: i64) -> (values: Vec<SqlValue>)
        ensures
            sql_models(values@) == seq![SqlModel::Integer(commit_id), SqlModel::Integer(file_id)],
    {
        let mut values: Vec<SqlValue> = Vec::new();
        values.push(SqlValue::Integer(commit_id));
        values.push(SqlValue::Integer(file_id));
        assert(sql_models(values@) =~= seq![
            SqlModel::Integer(commit_id),
            SqlModel::Integer(file_id),
        ]);
        values
    }

    /// Reads the answer to a lookup by mark: no row where the store does not
    /// hold the mark, else id and depth as the row's two columns give them.
    /// An error of the store is handed on as `StorageIo`.
    pub fn mark_row(found: Result<Option<Vec<i64>>, rusqlite::Error>) -> (r: Result<
        Option<(i64, i64)>,
        SyncError,
    >)
        requires
            found matches Ok(Some(row)) ==> row@.len() >= 2,
        ensures
            r == spec_mark_row(found),
    {
        match found {
            Err(e) => Err(SyncError::StorageIo(e)),
            Ok(None) => Ok(None),
            Ok(Some(row)) => Ok(Some((row[0], row[1]))),
        }
    }

    /// The id of a commit that was just entered, from what the store holds
    /// for its mark: the id where the store holds the mark with a positive
    /// id, else `UnknownCommit`.
    pub fn new_commit_id(entered: Option<(i64, i64)>) -> (r: Result<i64, SyncError>)
        ensures
            r == spec_new_commit_id(entered),
    {
        match entered {
            Some((id, _)) => {
                if id > 0 {
                    Ok(id)
                } else {
                    Err(SyncError::UnknownCommit)
                }
            },
            None => Err(SyncError::UnknownCommit),
        }
    }

    /// What the last statement of a unit makes of the id it worked for: the
    /// id where the statement succeeded, else the store's error as `StorageIo`.
    pub fn sealed(id: i64, last: Result<usize, rusqlite::Error>) -> (r: Result<i64, SyncError>)
        ensures
            r == spec_sealed(id, last),
    {
        match last {
            Ok(_) => Ok(id),
            Err(e) => Err(SyncError::StorageIo(e)),
        }
    }

    /// The two values that a lookup by hash binds: the repository, and the
    /// hash as text.
    pub fn hash_values(repo_id: i64, commit_hash: &SqlOid) -> (values: Vec<SqlValue>)
        ensures
            sql_models(values@) == seq![
                SqlModel::Integer(repo_id),
                SqlModel::Text(oid_text_of(commit_hash@)),
            ],
    {
        let mut values: Vec<SqlValue> = Vec::new();
        values.push(SqlValue::Integer(repo_id));
        values.push(SqlValue::Text(commit_hash.to_string()));
        assert(sql_models(values@) =~= seq![
            SqlModel::Integer(repo_id),
            SqlModel::Text(oid_text_of(commit_hash@)),
        ]);
        values
    }

    /// Reads the answer to a lookup by hash. No row means that the store
    /// does not hold the hash for the repository: `UnknownCommit`. A row
    /// holds the commit's id in its first column; an id is positive, and any
    /// other number is refused as out of range. An error of the store is
    /// handed on as `StorageIo`.
    pub fn hash_row(found: Result<Option<Vec<i64>>, rusqlite::Error>) -> (r: Result<i64, SyncError>)
        requires
            found matches Ok(Some(row)) ==> row@.len() >= 1,
        ensures
            found matches Err(e) ==> r == Err::<i64, SyncError>(SyncError::StorageIo(e)),
            found matches Ok(None) ==> r == Err::<i64, SyncError>(SyncError::UnknownCommit),
            found matches Ok(Some(row)) ==> if row@[0] > 0 {
                r == Ok::<i64, SyncError>(row@[0])
            } else {
                r matches Err(SyncError::StorageIo(_))
            },
    {
        match found {
            Err(e) => Err(SyncError::StorageIo(e)),
            Ok(None) => Err(SyncError::UnknownCommit),
            Ok(Some(row)) => found_id(&row),
        }
    }

    /// Reads the answer to the lookup of a commit's numbers: the row, or
    /// `UnknownCommit` where the store holds no commit of that id. An error
    /// of the store is handed on as `StorageIo`.
    pub fn numbers_row(found: Result<Option<Vec<i64>>, rusqlite::Error>) -> (r: Result<
        Vec<i64>,
        SyncError,
    >)
        ensures
            r == spec_numbers_row(found),
    {
        match found {
            Err(e) => Err(SyncError::StorageIo(e)),
            Ok(None) => Err(SyncError::UnknownCommit),
            Ok(Some(row)) => Ok(row),
        }
    }

    /// Reads the answer to the lookup of a commit's hash: the hash that the
    /// stored text denotes, `BadHash` where the text is not well-formed, and
    /// `UnknownCommit` where the store holds no commit of that id. An error
    /// of the store is handed on as `StorageIo`.
    pub fn stored_hash(found: Result<Option<String>, rusqlite::Error>) -> (r: Result<
        SqlOid,
        SyncError,
    >)
        ensures
            found matches Err(e) ==> r == Err::<SqlOid, SyncError>(SyncError::StorageIo(e)),
            found matches Ok(None) ==> r == Err::<SqlOid, SyncError>(SyncError::UnknownCommit),
            found matches Ok(Some(text)) ==> if is_oid_text(text@) {
                r matches Ok(hash) && hash@ == oid_bytes_of(text@)
            } else {
                r == Err::<SqlOid, SyncError>(SyncError::BadHash)
            },
    {
        match found {
            Err(e) => Err(SyncError::StorageIo(e)),
            Ok(None) => Err(SyncError::UnknownCommit),
            Ok(Some(text)) => SqlOid::from_str(text.as_str()),
        }
    }
}

/// What the answer to the lookup of a commit's numbers says: see
/// [`Commit::numbers_row`].
pub open spec fn spec_numbers_row(found: Result<Option<Vec<i64>>, rusqlite::Error>) -> Result<
    Vec<i64>,
    SyncError,
> {
    match found {
        Err(e) => Err(SyncError::StorageIo(e)),
        Ok(None) => Err(SyncError::UnknownCommit),
        Ok(Some(row)) => Ok(row),
    }
}

/// What the answer to a lookup by mark says: see [`Commit::mark_row`].
pub open spec fn spec_mark_row(found: Result<Option<Vec<i64>>, rusqlite::Error>) -> Result<
    Option<(i64, i64)>,
    SyncError,
> {
    match found {
        Err(e) => Err(SyncError::StorageIo(e)),
        Ok(None) => Ok(None),
        Ok(Some(row)) => Ok(Some((row@[0], row@[1]))),
    }
}

/// The id of a commit that was just entered: see [`Commit::new_commit_id`].
pub open spec fn spec_new_commit_id(entered: Option<(i64, i64)>) -> Result<i64, SyncError> {
    match entered {
        Some((id, _)) => if id > 0 {
            Ok(id)
        } else {
            Err(SyncError::UnknownCommit)
        },
        None => Err(SyncError::UnknownCommit),
    }
}

/// What the last statement of a unit makes of its id: see [`Commit::sealed`].
pub open spec fn spec_sealed(id: i64, last: Result<usize, rusqlite::Error>) -> Result<
    i64,
    SyncError,
> {
    match last {
        Ok(_) => Ok(id),
        Err(e) => Err(SyncError::StorageIo(e)),
    }
}

/// The depth rule keeps depth and parentage in step. A commit is placed at
/// depth zero exactly where it is a root, and exactly there it has no parent;
/// any other commit that is placed stands one below the parent that the store
/// holds for its parent mark.
pub proof fn lemma_depth_rule(parent_mark: Option<i64>, found: Option<(i64, i64)>)
    ensures
        spec_placement(parent_mark, found) matches Ok(place) ==> {
            &&& place.depth == 0 <==> is_root_mark(parent_mark)
            &&& place.parent_id is None <==> is_root_mark(parent_mark)
            &&& !is_root_mark(parent_mark) ==> found == Some((place.parent_id->0, (place.depth - 1) as i64))
        },
        is_root_mark(parent_mark) ==> spec_placement(parent_mark, found) is Ok,
{
}

/// Along a chain whose ids count up from one, depth is id less one: a commit
/// whose parent the store holds at a depth one less than the parent's id
/// stands at the depth that is the parent's id.
pub proof fn lemma_depth_along_chain(parent_mark: i64, parent_id: i64)
    requires
        parent_mark != 0,
        0 < parent_id < i64::MAX,
    ensures
        spec_placement(Some(parent_mark), Some((parent_id, (parent_id - 1) as i64))) == Ok::<
            Placement,
            SyncError,
        >(Placement { parent_id: Some(parent_id), depth: parent_id }),
{
}

} // verus!
