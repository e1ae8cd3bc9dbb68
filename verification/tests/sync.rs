use bushi::database::schema::init_schema;
use bushi::database::{Commit, SqlOid};
use bushi::error::SyncError;
use bushi::handler::bytes::{bytes_eq, index_of, is_word, parse_decimal};
use bushi::handler::sync::{
    exporter_args, parse_count, parse_export, parse_file, parse_hash, parse_line, parse_mark,
    CommitExportIter, ParseLine, EXPORTER,
};
use rusqlite::Connection;

const ROOT: &str = "commit refs/heads/main\nmark :1\noriginal-oid b42cd71ca109b3f5ccf9e401711005feac383ed4\ndata 0\n\n";
const CHILD: &str = "commit refs/heads/main\nmark :2\noriginal-oid aaaaaaaaaaaaaaaaaaaaaaaaaaaaaaaaaaaaaaaa\nfrom :1\ndata 0\nM 100644 deadbeef README.md\n\n";

fn oid(text: &str) -> SqlOid {
    SqlOid::from_str(text).unwrap()
}

fn commit(mark: i64, parent: Option<i64>, hash: &str, files: &[&str]) -> Commit {
    Commit {
        commit_id: None,
        commit_hash: oid(hash),
        commit_mark: mark,
        parent_mark: parent,
        repo_id: 1,
        depth: None,
        files: files.iter().map(|f| f.to_string()).collect(),
    }
}

#[test]
fn parse_line_reads_each_token() {
    assert_eq!(parse_line(b""), Ok(ParseLine::PartDone));
    assert_eq!(parse_line(b"commit refs/heads/main"), Ok(ParseLine::IsCommit));
    assert_eq!(parse_line(b"commit "), Ok(ParseLine::IsCommit));
    assert_eq!(parse_line(b"mark :17"), Ok(ParseLine::CommitMark(17)));
    assert_eq!(parse_line(b"from :16"), Ok(ParseLine::ParentMark(16)));
    assert_eq!(parse_line(b"data 1234"), Ok(ParseLine::SkipMessage(1234)));
    assert_eq!(
        parse_line(b"original-oid b42cd71ca109b3f5ccf9e401711005feac383ed4"),
        Ok(ParseLine::CommitHash(oid("b42cd71ca109b3f5ccf9e401711005feac383ed4")))
    );
    assert_eq!(
        parse_line(b"M 100644 deadbeef src/a b.rs"),
        Ok(ParseLine::ChangeFile("src/a b.rs".to_string()))
    );
    assert_eq!(
        parse_line("M 100644 deadbeef d\u{e9}j\u{e0}.txt".as_bytes()),
        Ok(ParseLine::ChangeFile("d\u{e9}j\u{e0}.txt".to_string()))
    );
    assert_eq!(parse_line(b"author A U Thor <a@example.com> 0 +0000"), Ok(ParseLine::Continue));
    assert_eq!(parse_line(b"D gone.txt"), Ok(ParseLine::Continue));
    assert_eq!(parse_line(b"Commit x"), Ok(ParseLine::Continue));
    assert_eq!(parse_line(b" commit"), Ok(ParseLine::Continue));
    assert_eq!(parse_line(b"committer \xff\xfe"), Ok(ParseLine::Continue));
}

#[test]
fn parse_line_refuses_what_the_grammar_does_not_admit() {
    assert_eq!(parse_line(b"deleteall"), Err(SyncError::ExporterMalformed));
    assert_eq!(parse_line(b"mark 17"), Err(SyncError::ExporterMalformed));
    assert_eq!(parse_line(b"mark :"), Err(SyncError::ExporterMalformed));
    assert_eq!(parse_line(b"mark :-3"), Err(SyncError::ExporterMalformed));
    assert_eq!(parse_line(b"mark ::3"), Err(SyncError::ExporterMalformed));
    assert_eq!(parse_line(b"mark :9223372036854775808"), Err(SyncError::ExporterMalformed));
    assert_eq!(parse_line(b"from b42cd71c"), Err(SyncError::ExporterMalformed));
    assert_eq!(parse_line(b"data five"), Err(SyncError::ExporterMalformed));
    assert_eq!(parse_line(b"data "), Err(SyncError::ExporterMalformed));
    assert_eq!(parse_line(b"data 99999999999999999999999"), Err(SyncError::ExporterMalformed));
    assert_eq!(parse_line(b"M 100644"), Err(SyncError::ExporterMalformed));
    assert_eq!(parse_line(b"M 100644 deadbeef"), Err(SyncError::ExporterMalformed));
    assert_eq!(parse_line(b"M 100644 deadbeef "), Err(SyncError::ExporterMalformed));
    assert_eq!(parse_line(b"M 100644 deadbeef \xff"), Err(SyncError::ExporterMalformed));
    assert_eq!(parse_line(b"original-oid not-hex"), Err(SyncError::BadHash));
    assert_eq!(parse_line(b"original-oid \xff"), Err(SyncError::BadHash));
    assert_eq!(
        parse_line(b"original-oid B42CD71CA109B3F5CCF9E401711005FEAC383ED4"),
        Err(SyncError::BadHash)
    );
}

#[test]
fn numbers_are_read_exactly() {
    assert_eq!(parse_mark(b":9223372036854775807"), Some(9223372036854775807));
    assert_eq!(parse_mark(b":0"), Some(0));
    assert_eq!(parse_mark(b":007"), Some(7));
    assert_eq!(parse_mark(b""), None);
    assert_eq!(parse_count(b"0"), Some(0));
    assert_eq!(parse_count(b"18446744073709551615"), Some(usize::MAX));
    assert_eq!(parse_count(b"18446744073709551616"), None);
    assert_eq!(parse_count(b"+5"), None);
    assert_eq!(parse_decimal(b"255", 255), Some(255));
    assert_eq!(parse_decimal(b"256", 255), None);
    assert_eq!(parse_decimal(b"12a", 255), None);
    assert_eq!(parse_decimal(b"", 255), None);
    assert_eq!(parse_decimal(b"5", 3), None);
}

#[test]
fn byte_helpers_find_and_compare() {
    assert_eq!(index_of(b"a b c", 0x20, 0), 1);
    assert_eq!(index_of(b"a b c", 0x20, 2), 3);
    assert_eq!(index_of(b"a b c", 0x20, 4), 5);
    assert_eq!(index_of(b"", 0x20, 0), 0);
    assert!(bytes_eq(b"abc", b"abc"));
    assert!(!bytes_eq(b"abc", b"abd"));
    assert!(!bytes_eq(b"abc", b"ab"));
    assert!(is_word(b"commit", "commit"));
    assert!(!is_word(b"commit", "commits"));
    assert!(!is_word("\u{e9}".as_bytes(), "\u{e9}"));
}

#[test]
fn fields_of_a_line_are_read() {
    assert_eq!(
        parse_hash(b"aaaaaaaaaaaaaaaaaaaaaaaaaaaaaaaaaaaaaaaa"),
        Some(oid("aaaaaaaaaaaaaaaaaaaaaaaaaaaaaaaaaaaaaaaa"))
    );
    assert_eq!(parse_hash(b"aaaa"), None);
    assert_eq!(parse_file(b"100644 deadbeef a/b c"), Some("a/b c".to_string()));
    assert_eq!(parse_file(b"100644 deadbeef"), None);
}

#[test]
fn root_commit_is_parsed_and_stored() {
    let (commits, failure) = parse_export(1, ROOT.as_bytes());
    assert_eq!(failure, None);
    assert_eq!(
        commits,
        vec![commit(1, None, "b42cd71ca109b3f5ccf9e401711005feac383ed4", &[])]
    );
    let conn = Connection::open_in_memory().unwrap();
    init_schema(&conn).unwrap();
    for mut c in commits {
        assert_eq!(c.insert(&conn), Ok(1));
    }
    let row: (i64, i64, Option<i64>, i64, String) = conn
        .query_row(
            "SELECT commit_id, commit_mark, parent_mark, depth, commit_hash FROM commits",
            [],
            |r| Ok((r.get(0)?, r.get(1)?, r.get(2)?, r.get(3)?, r.get(4)?)),
        )
        .unwrap();
    assert_eq!(row, (1, 1, None, 0, "b42cd71ca109b3f5ccf9e401711005feac383ed4".to_string()));
    let ancestors: i64 = conn
        .query_row("SELECT COUNT(*) FROM ancestors WHERE commit_id = 1", [], |r| r.get(0))
        .unwrap();
    assert_eq!(ancestors, 0);
}

#[test]
fn child_of_root_is_parsed_and_stored() {
    let stream = format!("{}{}", ROOT, CHILD);
    let (commits, failure) = parse_export(1, stream.as_bytes());
    assert_eq!(failure, None);
    assert_eq!(
        commits,
        vec![
            commit(1, None, "b42cd71ca109b3f5ccf9e401711005feac383ed4", &[]),
            commit(2, Some(1), "aaaaaaaaaaaaaaaaaaaaaaaaaaaaaaaaaaaaaaaa", &["README.md"]),
        ]
    );
    let conn = Connection::open_in_memory().unwrap();
    init_schema(&conn).unwrap();
    for mut c in commits {
        c.insert(&conn).unwrap();
    }
    let file: (i64, String) = conn
        .query_row("SELECT file_id, name FROM files", [], |r| Ok((r.get(0)?, r.get(1)?)))
        .unwrap();
    assert_eq!(file, (1, "README.md".to_string()));
    let edge: (i64, i64) = conn
        .query_row("SELECT commit_id, file_id FROM commit_files", [], |r| {
            Ok((r.get(0)?, r.get(1)?))
        })
        .unwrap();
    assert_eq!(edge, (2, 1));
    let placed: (Option<i64>, i64) = conn
        .query_row("SELECT parent_id, depth FROM commits WHERE commit_id = 2", [], |r| {
            Ok((r.get(0)?, r.get(1)?))
        })
        .unwrap();
    assert_eq!(placed, (Some(1), 1));
    let rows: (i64, i64, i64) = conn
        .query_row("SELECT commit_id, ancestor_id, level FROM ancestors", [], |r| {
            Ok((r.get(0)?, r.get(1)?, r.get(2)?))
        })
        .unwrap();
    assert_eq!(rows, (2, 1, 0));
}

#[test]
fn a_run_that_exports_nothing_new_adds_no_rows() {
    let conn = Connection::open_in_memory().unwrap();
    init_schema(&conn).unwrap();
    let stream = format!("{}{}", ROOT, CHILD);
    for mut c in parse_export(1, stream.as_bytes()).0 {
        c.insert(&conn).unwrap();
    }
    // With its marks read back, the exporter has no commit to write: at most
    // it resets the branches it has already given.
    for again in ["", "reset refs/heads/main\nfrom :2\n\n"] {
        let (commits, failure) = parse_export(1, again.as_bytes());
        assert_eq!(failure, None);
        assert_eq!(commits, Vec::<Commit>::new());
    }
    let count: i64 = conn.query_row("SELECT COUNT(*) FROM commits", [], |r| r.get(0)).unwrap();
    assert_eq!(count, 2);
}

#[test]
fn payload_is_passed_over_byte_for_byte() {
    // Five bytes of payload, then the blank line that ends the record.
    let stream = b"commit refs/heads/main\nmark :1\noriginal-oid b42cd71ca109b3f5ccf9e401711005feac383ed4\ndata 5\nabcde\n";
    let (commits, failure) = parse_export(1, stream);
    assert_eq!(failure, None);
    assert_eq!(commits.len(), 1);
    // The payload may look like lines of the grammar, or like the end of a record.
    let stream = b"commit refs/heads/main\nmark :1\noriginal-oid b42cd71ca109b3f5ccf9e401711005feac383ed4\ndata 19\nmark :9\n\nfrom :3\n\nxfrom :7\n\n";
    let (commits, failure) = parse_export(1, stream);
    assert_eq!(failure, None);
    assert_eq!(
        commits,
        vec![commit(1, Some(7), "b42cd71ca109b3f5ccf9e401711005feac383ed4", &[])]
    );
    // What lies beyond the payload in the same chunk is read as a line.
    let stream = b"commit x\nmark :4\noriginal-oid b42cd71ca109b3f5ccf9e401711005feac383ed4\ndata 5\nabcdefrom :3\n\n";
    let (commits, failure) = parse_export(1, stream);
    assert_eq!(failure, None);
    assert_eq!(
        commits,
        vec![commit(4, Some(3), "b42cd71ca109b3f5ccf9e401711005feac383ed4", &[])]
    );
}

#[test]
fn feed_counts_down_the_payload() {
    let mut iter = CommitExportIter::new(1);
    assert_eq!(iter.feed(b"commit refs/heads/main\n"), Ok(None));
    assert_eq!(iter.feed(b"mark :1\n"), Ok(None));
    assert_eq!(
        iter.feed(b"original-oid b42cd71ca109b3f5ccf9e401711005feac383ed4\n"),
        Ok(None)
    );
    assert_eq!(iter.feed(b"data 5\n"), Ok(None));
    // Two bytes, then three: neither is read as a line.
    assert_eq!(iter.feed(b"\n\n"), Ok(None));
    assert_eq!(iter.feed(b"xx\n"), Ok(None));
    assert_eq!(iter.feed(b""), Ok(None));
    assert_eq!(
        iter.feed(b"\n"),
        Ok(Some(commit(1, None, "b42cd71ca109b3f5ccf9e401711005feac383ed4", &[])))
    );
    assert!(!iter.is_failed());
    // The next record starts anew.
    assert_eq!(iter.feed(b"\n"), Ok(None));
}

#[test]
fn line_endings_are_dropped() {
    let mut iter = CommitExportIter::new(1);
    assert_eq!(iter.feed(b"commit refs/heads/main\r\n"), Ok(None));
    assert_eq!(iter.feed(b"mark :3\r\n"), Ok(None));
    assert_eq!(
        iter.feed(b"original-oid b42cd71ca109b3f5ccf9e401711005feac383ed4\r\n"),
        Ok(None)
    );
    // The last chunk of an output may lack its line feed.
    assert_eq!(iter.feed(b"from :2"), Ok(None));
    assert_eq!(
        iter.feed(b"\r\n"),
        Ok(Some(commit(3, Some(2), "b42cd71ca109b3f5ccf9e401711005feac383ed4", &[])))
    );
    // A carriage return alone ends nothing.
    assert_eq!(iter.feed(b"\r"), Err(SyncError::ExporterMalformed));
}

#[test]
fn records_that_are_no_commits_are_consumed() {
    let stream = b"reset refs/heads/main\nfrom :5\n\ntag v1\nmark :6\nfrom :5\noriginal-oid aaaaaaaaaaaaaaaaaaaaaaaaaaaaaaaaaaaaaaaa\ntagger T <t@example.com> 0 +0000\ndata 4\nv1\n\n\ncommit refs/heads/main\nmark :7\noriginal-oid b42cd71ca109b3f5ccf9e401711005feac383ed4\ndata 0\n\n";
    let (commits, failure) = parse_export(9, stream);
    assert_eq!(failure, None);
    assert_eq!(commits.len(), 1);
    assert_eq!(commits[0].commit_mark, 7);
    assert_eq!(commits[0].parent_mark, None);
    assert_eq!(commits[0].repo_id, 9);
    assert_eq!(commits[0].files, Vec::<String>::new());
}

#[test]
fn a_parent_mark_of_zero_means_a_root() {
    let stream = b"commit x\nmark :1\nfrom :0\noriginal-oid b42cd71ca109b3f5ccf9e401711005feac383ed4\n\n";
    let (commits, failure) = parse_export(1, stream);
    assert_eq!(failure, None);
    assert_eq!(commits[0].parent_mark, None);
    assert!(commits[0].is_root());
}

#[test]
fn a_malformed_hash_ends_the_stream() {
    let stream = format!(
        "{}commit refs/heads/main\nmark :2\noriginal-oid not-hex\ndata 0\n\n{}",
        ROOT, CHILD
    );
    let (commits, failure) = parse_export(1, stream.as_bytes());
    assert_eq!(failure, Some(SyncError::BadHash));
    // What came before the error is handed out all the same.
    assert_eq!(
        commits,
        vec![commit(1, None, "b42cd71ca109b3f5ccf9e401711005feac383ed4", &[])]
    );
}

#[test]
fn a_commit_without_a_hash_is_refused() {
    let (commits, failure) = parse_export(1, b"commit x\nmark :1\n\n");
    assert_eq!(failure, Some(SyncError::BadHash));
    assert_eq!(commits.len(), 0);
}

#[test]
fn a_malformed_line_ends_the_stream() {
    let mut iter = CommitExportIter::new(1);
    assert_eq!(iter.feed(b"commit refs/heads/main\n"), Ok(None));
    assert_eq!(iter.feed(b"nonsense\n"), Err(SyncError::ExporterMalformed));
    assert!(iter.is_failed());
    // Nothing more comes out of a stream that has ended.
    assert_eq!(iter.feed(b"mark :1\n"), Ok(None));
    assert_eq!(iter.feed(b"\n"), Ok(None));
    let (commits, failure) = iter.drain(ROOT.as_bytes());
    assert_eq!(commits.len(), 0);
    assert_eq!(failure, None);
}

#[test]
fn drain_goes_on_where_feed_left_off() {
    let mut iter = CommitExportIter::new(1);
    assert_eq!(iter.feed(b"commit refs/heads/main\n"), Ok(None));
    let (commits, failure) = iter.drain(
        b"mark :1\noriginal-oid b42cd71ca109b3f5ccf9e401711005feac383ed4\nM 100644 0 a\nM 100755 0 b\n\n",
    );
    assert_eq!(failure, None);
    assert_eq!(
        commits,
        vec![commit(1, None, "b42cd71ca109b3f5ccf9e401711005feac383ed4", &["a", "b"])]
    );
}

#[test]
fn exporter_is_asked_for_an_incremental_export() {
    assert_eq!(EXPORTER, "git");
    assert_eq!(
        exporter_args("/srv/marks/aports"),
        vec![
            "fast-export",
            "--signed-tags=strip",
            "--export-marks",
            "/srv/marks/aports",
            "--import-marks",
            "/srv/marks/aports",
            "--mark-tags",
            "--fake-missing-tagger",
            "--no-data",
            "--show-original-ids",
            "--reencode=yes",
            "--branches",
            "--tags",
        ]
    );
}

#[test]
fn a_commit_whose_hash_is_all_zeros_is_handed_out() {
    let stream =
        b"commit x\nmark :1\noriginal-oid 0000000000000000000000000000000000000000\n\n";
    let (commits, failure) = parse_export(1, stream);
    assert_eq!(failure, None);
    assert_eq!(commits.len(), 1);
    assert!(commits[0].commit_hash.is_zero());
    assert_eq!(commits[0].commit_mark, 1);
}

#[test]
fn a_hash_read_for_one_record_does_not_serve_the_next() {
    let stream = b"tag v1\noriginal-oid aaaaaaaaaaaaaaaaaaaaaaaaaaaaaaaaaaaaaaaa\n\ncommit x\nmark :1\n\n";
    let (commits, failure) = parse_export(1, stream);
    assert_eq!(failure, Some(SyncError::BadHash));
    assert_eq!(commits.len(), 0);
}
