use bushi::database::schema::{configure, init_schema};
use bushi::database::{Commit, File, Reference, Repository, SqlOid};
use bushi::error::SyncError;
use rusqlite::Connection;

fn open_store_in_memory() -> Connection {
    let conn = Connection::open_in_memory().expect("open sqlite in memory");
    init_schema(&conn).expect("init");
    conn
}

/// A linear chain: mark `i` has parent mark `i - 1`, and the first is a root.
/// Each commit has a hash of its own, as the store asks.
fn some_commits(num: i64) -> Vec<Commit> {
    let mut vec_commits = Vec::new();
    for i in 0..num {
        let commit = Commit {
            commit_hash: SqlOid::from_str(&format!("b42cd71ca109b3f5ccf9e401711005fe{:08x}", i))
                .unwrap(),
            commit_mark: i + 1,
            parent_mark: if i == 0 { None } else { Some(i) },
            files: Vec::new(),
            depth: None,
            commit_id: None,
            repo_id: 1,
        };
        vec_commits.push(commit);
    }
    vec_commits
}

fn ancestor_sequence(num: i64) -> Vec<i64> {
    let mut results = Vec::new();
    let mut n = 0;

    loop {
        let pow2 = 1 << n;
        let current = num - pow2;

        if current > 0 {
            results.push(current);
            n += 1;
        } else {
            break;
        }
    }

    results
}

fn ancestors_of(conn: &Connection, commit_id: i64) -> Vec<i64> {
    let mut stmt = conn
        .prepare("SELECT ancestor_id FROM ancestors WHERE commit_id = ? ORDER BY level")
        .unwrap();
    let rows = stmt.query_map([commit_id], |r| r.get::<_, i64>(0)).unwrap();
    rows.map(|r| r.unwrap()).collect()
}

#[test]
fn test_auto_depth() {
    let conn = open_store_in_memory();

    let num = 50;

    let mut commits = some_commits(num);

    for (index, value) in commits.iter_mut().enumerate() {
        let commit_id = value.insert(&conn).unwrap();
        assert_eq!(commit_id, (index + 1) as i64); // commit_id increase from 1

        let commit = Commit::find_by_id(commit_id, &conn).unwrap();
        assert_eq!(commit.depth, Some(commit_id - 1)); // depth increase from 0
    }
}

#[test]
fn test_auto_ancestors() {
    let conn = open_store_in_memory();

    let num = 5000;

    let mut commits = some_commits(num);
    for value in commits.iter_mut() {
        value.insert(&conn).unwrap();
    }

    let ancestors = ancestors_of(&conn, num);

    assert_eq!(ancestors, ancestor_sequence(num));
    assert_eq!(
        ancestors,
        vec![4999, 4998, 4996, 4992, 4984, 4968, 4936, 4872, 4744, 4488, 3976, 2952, 904]
    );
}

#[test]
fn test_file_hashmap() {
    let conn = open_store_in_memory();

    let file = "README.md";

    let id_1 = Commit::fetch_file_id(file, &conn).expect("insert *1");
    assert_eq!(id_1, 1);
    let id_2 = Commit::fetch_file_id(file, &conn).expect("insert *2");
    assert_eq!(id_2, 1);
}

#[test]
fn test_repository() {
    let conn = open_store_in_memory();

    let mut repo = Repository {
        repo_id: 0,
        name: "aports".to_string(),
    };

    let id_1 = repo.get_id_by_name(&conn).expect("insert *1");
    let id_2 = repo.get_id_by_name(&conn).expect("insert *2");
    assert_eq!(id_1, 1);
    assert_eq!(id_2, 1);

    repo = Repository {
        repo_id: 0,
        name: "gcc".to_string(),
    };
    let id_3 = repo.get_id_by_name(&conn).expect("insert *3");
    let id_4 = repo.get_id_by_name(&conn).expect("insert *4");
    assert_eq!(id_3, id_4);
}

#[test]
fn repository_ids_are_stable_and_distinct() {
    let conn = open_store_in_memory();
    let mut first = Repository::from(&"aports".to_string());
    assert_eq!(first.repo_id, 0);
    let one = first.get_id_by_name(&conn).unwrap();
    assert_eq!(first.repo_id, one);
    let mut again = Repository::from(&"aports".to_string());
    assert_eq!(again.get_id_by_name(&conn).unwrap(), one);
    let mut other = Repository::from(&"gcc".to_string());
    let two = other.get_id_by_name(&conn).unwrap();
    assert_ne!(one, two);
    assert!(one > 0 && two > 0);
}

#[test]
fn repository_keeps_the_id_it_bears() {
    let conn = open_store_in_memory();
    let mut repo = Repository { repo_id: 42, name: "aports".to_string() };
    assert_eq!(repo.get_id_by_name(&conn), Ok(42));
    let count: i64 = conn
        .query_row("SELECT COUNT(*) FROM repositories", [], |r| r.get(0))
        .unwrap();
    assert_eq!(count, 0);
}

#[test]
fn file_row_keeps_its_id() {
    let conn = open_store_in_memory();
    let mut file = File { file_id: 0, name: "src/main.rs".to_string() };
    let id = file.get_id_by_name(&conn).unwrap();
    assert_eq!(id, 1);
    assert_eq!(file.file_id, 1);
    assert_eq!(file.get_id_by_name(&conn), Ok(1));
    let mut other = File { file_id: 0, name: "README.md".to_string() };
    assert_eq!(other.get_id_by_name(&conn), Ok(2));
    assert_eq!(Commit::fetch_file_id("src/main.rs", &conn), Ok(1));
}

#[test]
fn root_commit_has_no_ancestors() {
    let conn = open_store_in_memory();
    let mut root = Commit {
        commit_id: None,
        commit_hash: SqlOid::from_str("b42cd71ca109b3f5ccf9e401711005feac383ed4").unwrap(),
        commit_mark: 1,
        parent_mark: None,
        repo_id: 1,
        depth: None,
        files: Vec::new(),
    };
    assert!(root.is_root());
    assert_eq!(root.insert(&conn), Ok(1));
    let row: (i64, i64, Option<i64>, Option<i64>, i64, String) = conn
        .query_row(
            "SELECT commit_id, commit_mark, parent_mark, parent_id, depth, commit_hash FROM commits",
            [],
            |r| Ok((r.get(0)?, r.get(1)?, r.get(2)?, r.get(3)?, r.get(4)?, r.get(5)?)),
        )
        .unwrap();
    assert_eq!(
        row,
        (1, 1, None, None, 0, "b42cd71ca109b3f5ccf9e401711005feac383ed4".to_string())
    );
    assert_eq!(ancestors_of(&conn, 1), Vec::<i64>::new());
    let stored = Commit::find_by_id(1, &conn).unwrap();
    assert_eq!(stored.commit_id, Some(1));
    assert_eq!(stored.parent_mark, None);
    assert_eq!(stored.depth, Some(0));
    assert_eq!(stored.commit_hash, root.commit_hash);
    assert_eq!(stored.repo_id, 1);
}

#[test]
fn child_of_root_has_files_and_one_ancestor() {
    let conn = open_store_in_memory();
    let mut commits = some_commits(2);
    commits[1].commit_hash =
        SqlOid::from_str("aaaaaaaaaaaaaaaaaaaaaaaaaaaaaaaaaaaaaaaa").unwrap();
    commits[1].files = vec!["README.md".to_string(), "README.md".to_string()];
    assert_eq!(commits[0].insert(&conn), Ok(1));
    assert_eq!(commits[1].insert(&conn), Ok(2));
    let file: (i64, String) = conn
        .query_row("SELECT file_id, name FROM files", [], |r| Ok((r.get(0)?, r.get(1)?)))
        .unwrap();
    assert_eq!(file, (1, "README.md".to_string()));
    let edge: (i64, i64) = conn
        .query_row("SELECT commit_id, file_id FROM commit_files", [], |r| {
            Ok((r.get(0)?, r.get(1)?))
        })
        .unwrap();
    assert_eq!(edge, (2, 1));
    let placed: (Option<i64>, i64) = conn
        .query_row("SELECT parent_id, depth FROM commits WHERE commit_id = 2", [], |r| {
            Ok((r.get(0)?, r.get(1)?))
        })
        .unwrap();
    assert_eq!(placed, (Some(1), 1));
    let rows: (i64, i64, i64) = conn
        .query_row("SELECT commit_id, ancestor_id, level FROM ancestors", [], |r| {
            Ok((r.get(0)?, r.get(1)?, r.get(2)?))
        })
        .unwrap();
    assert_eq!(rows, (2, 1, 0));
}

#[test]
fn insert_fails_on_an_unknown_parent_and_leaves_the_store_usable() {
    let conn = open_store_in_memory();
    let mut commits = some_commits(3);
    // The parent, mark 1, is not there yet.
    assert_eq!(commits[1].insert(&conn), Err(SyncError::UnknownCommit));
    let count: i64 = conn.query_row("SELECT COUNT(*) FROM commits", [], |r| r.get(0)).unwrap();
    assert_eq!(count, 0);
    assert_eq!(commits[0].insert(&conn), Ok(1));
    assert_eq!(commits[1].insert(&conn), Ok(2));
}

#[test]
fn insert_rolls_back_when_a_step_fails() {
    let conn = open_store_in_memory();
    let mut commits = some_commits(2);
    assert_eq!(commits[0].insert(&conn), Ok(1));
    // The same mark again breaks the unique index.
    let mut twin = commits[0].clone();
    twin.files = vec!["a.txt".to_string()];
    assert!(matches!(twin.insert(&conn), Err(SyncError::StorageIo(_))));
    assert!(conn.is_autocommit());
    assert_eq!(commits[1].insert(&conn), Ok(2));
    let files: i64 = conn.query_row("SELECT COUNT(*) FROM files", [], |r| r.get(0)).unwrap();
    assert_eq!(files, 0);
}

#[test]
fn find_by_id_refuses_zero_and_unknown_ids() {
    let conn = open_store_in_memory();
    assert_eq!(Commit::find_by_id(0, &conn), Err(SyncError::UnknownCommit));
    assert_eq!(Commit::find_by_id(7, &conn), Err(SyncError::UnknownCommit));
}

#[test]
fn fetch_id_by_hash_finds_the_commit() {
    let conn = open_store_in_memory();
    let mut commits = some_commits(3);
    for c in commits.iter_mut() {
        c.insert(&conn).unwrap();
    }
    assert_eq!(Commit::fetch_id_by_hash(1, &commits[2].commit_hash, &conn), Ok(3));
    assert_eq!(
        Commit::fetch_id_by_hash(2, &commits[2].commit_hash, &conn),
        Err(SyncError::UnknownCommit)
    );
    assert_eq!(Commit::fetch_id_by_hash(1, &SqlOid::zero(), &conn), Ok(0));
}

fn branch(hash: &SqlOid) -> Reference {
    Reference {
        full_name: "refs/heads/main".to_string(),
        short_name: "main".to_string(),
        commit_id: 0,
        commit_hash: *hash,
        time: 1700000000,
        repo_id: 1,
        is_tag: false,
    }
}

fn stored_refs(conn: &Connection) -> Vec<(i64, String, String, i64, String, i64, bool)> {
    let mut stmt = conn
        .prepare(
            "SELECT repo_id, full_name, short_name, commit_id, commit_hash, time, is_tag FROM refs ORDER BY repo_id, full_name",
        )
        .unwrap();
    let rows = stmt
        .query_map([], |r| {
            Ok((r.get(0)?, r.get(1)?, r.get(2)?, r.get(3)?, r.get(4)?, r.get(5)?, r.get(6)?))
        })
        .unwrap();
    rows.map(|r| r.unwrap()).collect()
}

#[test]
fn reference_upsert_rewrites_the_row() {
    let conn = open_store_in_memory();
    let mut commits = some_commits(3);
    commits[1].commit_hash =
        SqlOid::from_str("aaaaaaaaaaaaaaaaaaaaaaaaaaaaaaaaaaaaaaaa").unwrap();
    for c in commits.iter_mut() {
        c.insert(&conn).unwrap();
    }
    let mut first = branch(&commits[1].commit_hash);
    assert_eq!(first.upsert(&conn), Ok(()));
    assert_eq!(first.commit_id, 2);
    assert_eq!(
        stored_refs(&conn),
        vec![(
            1,
            "refs/heads/main".to_string(),
            "main".to_string(),
            2,
            "aaaaaaaaaaaaaaaaaaaaaaaaaaaaaaaaaaaaaaaa".to_string(),
            1700000000,
            false
        )]
    );
    let mut second = branch(&commits[2].commit_hash);
    second.short_name = "trunk".to_string();
    second.time = 1700000500;
    second.is_tag = true;
    assert_eq!(second.upsert(&conn), Ok(()));
    assert_eq!(
        stored_refs(&conn),
        vec![(
            1,
            "refs/heads/main".to_string(),
            "trunk".to_string(),
            3,
            commits[2].commit_hash.to_string(),
            1700000500,
            true
        )]
    );
}

#[test]
fn reference_upsert_refuses_an_unknown_commit() {
    let conn = open_store_in_memory();
    let hash = SqlOid::from_str("aaaaaaaaaaaaaaaaaaaaaaaaaaaaaaaaaaaaaaaa").unwrap();
    let mut unknown = branch(&hash);
    assert_eq!(unknown.upsert(&conn), Err(SyncError::UnknownCommit));
    assert_eq!(unknown.commit_id, 0);
    let mut absent = branch(&SqlOid::zero());
    assert_eq!(absent.upsert(&conn), Err(SyncError::UnknownCommit));
    assert_eq!(stored_refs(&conn).len(), 0);
}

#[test]
fn reference_upsert_keeps_a_resolved_tip() {
    let conn = open_store_in_memory();
    let hash = SqlOid::from_str("aaaaaaaaaaaaaaaaaaaaaaaaaaaaaaaaaaaaaaaa").unwrap();
    let mut known = branch(&hash);
    known.commit_id = 9;
    assert_eq!(known.upsert(&conn), Ok(()));
    assert_eq!(known.commit_id, 9);
    assert_eq!(stored_refs(&conn)[0].3, 9);
}

#[test]
fn schema_can_be_applied_again() {
    let conn = open_store_in_memory();
    let mut repo = Repository::from(&"aports".to_string());
    assert_eq!(repo.get_id_by_name(&conn), Ok(1));
    assert_eq!(init_schema(&conn), Ok(()));
    let count: i64 = conn
        .query_row("SELECT COUNT(*) FROM repositories", [], |r| r.get(0))
        .unwrap();
    assert_eq!(count, 1);
}

#[test]
fn a_connection_is_prepared_for_bulk_ingestion() {
    let conn = Connection::open_in_memory().unwrap();
    assert_eq!(configure(&conn), Ok(()));
    let synchronous: i64 = conn.query_row("PRAGMA synchronous", [], |r| r.get(0)).unwrap();
    assert_eq!(synchronous, 0);
    let journal: String = conn.query_row("PRAGMA journal_mode", [], |r| r.get(0)).unwrap();
    assert_eq!(journal, "memory");
    let mut tables: Vec<String> = conn
        .prepare("SELECT name FROM sqlite_master WHERE type = 'table' AND name NOT LIKE 'sqlite_%'")
        .unwrap()
        .query_map([], |r| r.get(0))
        .unwrap()
        .map(|r| r.unwrap())
        .collect();
    tables.sort();
    assert_eq!(
        tables,
        vec!["ancestors", "commit_files", "commits", "files", "refs", "repositories"]
    );
}

#[test]
fn a_store_is_opened_with_its_schema() {
    let conn = bushi::database::schema::open_store(":memory:").unwrap();
    assert_eq!(Commit::fetch_file_id("README.md", &conn), Ok(1));
    assert!(matches!(
        bushi::database::schema::open_store("/nonexistent-directory/for/the/store/.bushi.db"),
        Err(SyncError::StorageIo(_))
    ));
}

#[test]
fn stores_enforce_unique_hashes_and_marks() {
    let conn = open_store_in_memory();
    let mut commits = some_commits(2);
    assert_eq!(commits[0].insert(&conn), Ok(1));
    let mut same_hash = commits[1].clone();
    same_hash.commit_hash = commits[0].commit_hash;
    assert!(matches!(same_hash.insert(&conn), Err(SyncError::StorageIo(_))));
    // Another repository may hold the same hash and the same mark.
    let mut elsewhere = commits[0].clone();
    elsewhere.repo_id = 2;
    assert_eq!(elsewhere.insert(&conn), Ok(2));
    assert_eq!(commits[1].insert(&conn), Ok(3));
    assert_eq!(Commit::find_by_id(3, &conn).unwrap().depth, Some(1));
}

#[test]
fn a_hash_is_found_only_in_its_own_repository() {
    let conn = open_store_in_memory();
    let mut commits = some_commits(2);
    for c in commits.iter_mut() {
        c.insert(&conn).unwrap();
    }
    let mut elsewhere = branch(&commits[1].commit_hash);
    elsewhere.repo_id = 2;
    assert_eq!(elsewhere.upsert(&conn), Err(SyncError::UnknownCommit));
    assert_eq!(elsewhere.commit_id, 0);
    assert_eq!(stored_refs(&conn).len(), 0);
    let mut here = branch(&commits[1].commit_hash);
    assert_eq!(here.upsert(&conn), Ok(()));
    assert_eq!(here.commit_id, 2);
}

#[test]
fn a_stored_hash_that_is_not_hash_text_is_refused() {
    let conn = open_store_in_memory();
    conn.execute(
        "INSERT INTO commits(commit_hash, commit_mark, repo_id, depth) VALUES ('not-hex', 1, 1, 0)",
        [],
    )
    .unwrap();
    assert_eq!(Commit::find_by_id(1, &conn), Err(SyncError::BadHash));
}
