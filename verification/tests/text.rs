use bushi::database::{Commit, SqlOid};
use bushi::text::{integer_to_string, pad_left, push_integer, push_natural, push_text};

#[test]
fn integers_are_written_in_decimal() {
    assert_eq!(integer_to_string(0), "0");
    assert_eq!(integer_to_string(7), "7");
    assert_eq!(integer_to_string(10), "10");
    assert_eq!(integer_to_string(-1), "-1");
    assert_eq!(integer_to_string(1234567890), "1234567890");
    assert_eq!(integer_to_string(i64::MAX), "9223372036854775807");
    assert_eq!(integer_to_string(i64::MIN), "-9223372036854775808");
    for n in [-1000i64, -99, -10, -9, 9, 99, 100, 101, 5000] {
        assert_eq!(integer_to_string(n), format!("{}", n));
    }
}

#[test]
fn texts_are_appended() {
    let mut text = String::from("mark ");
    push_natural(&mut text, 18446744073709551615);
    push_text(&mut text, ", from ");
    push_integer(&mut text, -3);
    assert_eq!(text, "mark 18446744073709551615, from -3");
}

#[test]
fn fields_are_filled_from_the_left() {
    assert_eq!(pad_left("42", 7), "     42");
    assert_eq!(pad_left("1234567", 7), "1234567");
    assert_eq!(pad_left("12345678", 7), "12345678");
    assert_eq!(pad_left("", 3), "   ");
    assert_eq!(pad_left("\u{e9}", 3), "  \u{e9}");
    assert_eq!(pad_left("x", 0), "x");
}

#[test]
fn a_commit_is_announced_on_one_line() {
    let mut commit = Commit {
        commit_id: None,
        commit_hash: SqlOid::from_str("b42cd71ca109b3f5ccf9e401711005feac383ed4").unwrap(),
        commit_mark: 1,
        parent_mark: None,
        repo_id: 1,
        depth: None,
        files: Vec::new(),
    };
    assert_eq!(
        commit.to_string(),
        "b42cd71ca109b3f5ccf9e401711005feac383ed4 id: 0, mark:       1, from: -1"
    );
    commit.commit_id = Some(12);
    commit.commit_mark = 12345678;
    commit.parent_mark = Some(12345677);
    assert_eq!(
        commit.to_string(),
        "b42cd71ca109b3f5ccf9e401711005feac383ed4 id: 12, mark: 12345678, from: 12345677"
    );
}
