use chatbot_core::ledger::{WarningEntry, WarningLedger};
use chatbot_core::storage::{
    append_outcome, list_stored, record_path, record_text, stored_line, stored_lines, StoredRecord,
};
use chatbot_core::timestamp::Timestamp;
use chatbot_core::FailureKind;

fn at(year: u16, month: u8, day: u8, hour: u8, minute: u8, second: u8) -> Timestamp {
    Timestamp::new(year, month, day, hour, minute, second).unwrap()
}

fn std_lines(text: &str) -> Vec<String> {
    text.lines().map(|line| line.to_string()).collect()
}

#[test]
fn record_lies_in_the_warnings_directory() {
    assert_eq!(record_path("alice"), "warnings/alice.txt");
    assert_eq!(record_path("Unknown_user"), "warnings/Unknown_user.txt");
    assert_eq!(record_path(""), "warnings/.txt");
    assert_ne!(record_path("alice"), record_path("alic"));
}

#[test]
fn append_adds_one_closed_line() {
    let entry = WarningEntry::new(at(2024, 1, 1, 10, 0, 0), "spam");
    assert_eq!(stored_line(&entry), "[2024-01-01 10:00:00] spam\n");
    let silent = WarningEntry::new(at(2024, 1, 1, 10, 0, 0), "");
    assert_eq!(stored_line(&silent), "[2024-01-01 10:00:00] No reason provided.\n");
}

#[test]
fn lines_are_split_as_the_standard_library_splits_them() {
    for text in [
        "", "a", "a\n", "a\nb", "a\nb\n", "\n", "\n\n", "a\n\nb", "a\r\nb\r\n", "a\r", "a\r\n",
        "\r", "\r\n", "\r\r\n", "a\rb\n", "a\n\r", "a\n\r\n", "\n\r\n\r", " \n ", "ü\nö\r\nä",
        "[2024-01-01 10:00:00] spam\n[2024-01-02 10:00:00] more\n",
    ] {
        assert_eq!(stored_lines(text), std_lines(text), "{:?}", text);
    }
}

#[test]
fn some_splits_by_hand() {
    assert_eq!(stored_lines(""), Vec::<String>::new());
    assert_eq!(stored_lines("a\nb\n"), vec!["a".to_string(), "b".to_string()]);
    assert_eq!(stored_lines("a\r\nb"), vec!["a".to_string(), "b".to_string()]);
    assert_eq!(stored_lines("\n"), vec!["".to_string()]);
    assert_eq!(stored_lines("a\r"), vec!["a\r".to_string()]);
}

#[test]
fn what_is_written_is_read_back() {
    let mut ledger = WarningLedger::new();
    ledger.append("alice", "spam", at(2024, 1, 1, 10, 0, 0)).unwrap();
    ledger.append("alice", "", at(2024, 1, 2, 11, 0, 0)).unwrap();
    ledger.append("alice", "a > b, [c] \t d", at(2024, 1, 3, 12, 0, 0)).unwrap();
    let record = ledger.record("alice").unwrap();
    let text = record_text(record);
    assert_eq!(
        text,
        "[2024-01-01 10:00:00] spam\n[2024-01-02 11:00:00] No reason provided.\n[2024-01-03 12:00:00] a > b, [c] \t d\n"
    );
    assert_eq!(stored_lines(&text), record.lines());
    assert_eq!(Ok(stored_lines(&text)), ledger.list("alice"));
}

#[test]
fn appended_lines_make_the_record_text() {
    let entries = [
        WarningEntry::new(at(2024, 1, 1, 10, 0, 0), "one"),
        WarningEntry::new(at(2024, 1, 1, 10, 0, 1), "two"),
        WarningEntry::new(at(2024, 1, 1, 10, 0, 2), "three"),
    ];
    let mut file = String::new();
    let mut expected = Vec::new();
    for entry in entries.iter() {
        file.push_str(&stored_line(entry));
        expected.push(entry.line());
        assert_eq!(stored_lines(&file), expected);
    }
}

#[test]
fn reason_with_a_line_feed_does_not_read_back() {
    let mut ledger = WarningLedger::new();
    ledger.append("alice", "a\nb", at(2024, 1, 1, 10, 0, 0)).unwrap();
    let record = ledger.record("alice").unwrap();
    let text = record_text(record);
    assert_eq!(record.lines().len(), 1);
    assert_eq!(
        stored_lines(&text),
        vec!["[2024-01-01 10:00:00] a".to_string(), "b".to_string()]
    );
}

#[test]
fn reason_that_ends_in_a_carriage_return_loses_it() {
    let entry = WarningEntry::new(at(2024, 1, 1, 10, 0, 0), "a\r");
    assert_eq!(
        stored_lines(&stored_line(&entry)),
        vec!["[2024-01-01 10:00:00] a".to_string()]
    );
}

#[test]
fn listing_follows_what_the_reading_came_to() {
    assert_eq!(list_stored(&StoredRecord::Missing), Err(FailureKind::NotFound));
    assert_eq!(list_stored(&StoredRecord::Unreadable), Err(FailureKind::StorageUnavailable));
    assert_eq!(list_stored(&StoredRecord::Text(String::new())), Ok(vec![]));
    assert_eq!(
        list_stored(&StoredRecord::Text("[2024-01-01 10:00:00] spam\n".to_string())),
        Ok(vec!["[2024-01-01 10:00:00] spam".to_string()])
    );
}

#[test]
fn append_fails_when_nothing_was_written() {
    assert_eq!(append_outcome(true), Ok(()));
    assert_eq!(append_outcome(false), Err(FailureKind::StorageUnavailable));
}
