use wtf::{CommitRecord, format_commit, write_decimal};

fn record(author: Option<&str>, time: i64, message: Option<&str>) -> CommitRecord {
    CommitRecord {
        id: "3f2a9c".to_string(),
        author: author.map(|a| a.to_string()),
        time,
        message: message.map(|m| m.to_string()),
    }
}

#[test]
fn formats_all_fields() {
    let r = record(Some("Ann"), 1700000000, Some("Initial import"));
    assert_eq!(
        format_commit(&r),
        "Commit: 3f2a9c\nAuthor: Ann\nDate: 1700000000\nMessage: Initial import"
    );
}

#[test]
fn empty_fields_get_placeholders() {
    let r = record(Some(""), 0, Some(""));
    assert_eq!(format_commit(&r), "Commit: 3f2a9c\nAuthor: Unknown\nDate: 0\nMessage: No commit message");
}

#[test]
fn absent_fields_get_placeholders() {
    let r = record(None, 12, None);
    let text = format_commit(&r);
    assert!(text.contains("Unknown"));
    assert!(text.contains("No commit message"));
    assert_eq!(text, "Commit: 3f2a9c\nAuthor: Unknown\nDate: 12\nMessage: No commit message");
}

#[test]
fn negative_time_is_written_with_sign() {
    let r = record(Some("Bo"), -42, Some("x"));
    assert_eq!(format_commit(&r), "Commit: 3f2a9c\nAuthor: Bo\nDate: -42\nMessage: x");
}

#[test]
fn decimal_extremes() {
    let mut s = String::from(">");
    write_decimal(i64::MIN, &mut s);
    assert_eq!(s, ">-9223372036854775808");
    let mut t = String::new();
    write_decimal(i64::MAX, &mut t);
    assert_eq!(t, "9223372036854775807");
    let mut z = String::new();
    write_decimal(0, &mut z);
    assert_eq!(z, "0");
    let mut w = String::new();
    write_decimal(1005, &mut w);
    assert_eq!(w, "1005");
}
