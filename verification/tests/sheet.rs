use kpvault::entry::{Entry, Value, NOTES, PASSWORD, TITLE, URL, USER_NAME};
use kpvault::sheet::view_entry;

#[test]
fn empty_entry_shows_nothing() {
    let sheet = view_entry(&Entry::new(1));
    assert!(sheet.lines.is_empty());
    assert_eq!(sheet.clipboard, None);
}

#[test]
fn sheet_lists_username_url_and_notes_in_order() {
    let mut entry = Entry::new(1);
    entry.set(NOTES, Value::plain("first\nsecond"));
    entry.set(URL, Value::plain("https://example.org"));
    entry.set(USER_NAME, Value::plain("bob"));
    entry.set(TITLE, Value::plain("Mail"));
    let sheet = view_entry(&entry);
    assert_eq!(
        sheet.lines,
        vec![
            "> Username: bob",
            "> Url: https://example.org",
            "-- Notes ----------------",
            "first\nsecond",
            "-------------------------",
        ]
    );
    assert_eq!(sheet.clipboard, None);
}

#[test]
fn password_goes_to_the_clipboard_and_on_no_line() {
    let mut entry = Entry::new(1);
    entry.set(USER_NAME, Value::plain("bob"));
    entry.set(PASSWORD, Value::secret("hunter2"));
    let sheet = view_entry(&entry);
    assert_eq!(sheet.lines, vec!["> Username: bob"]);
    assert_eq!(sheet.clipboard.as_deref(), Some("hunter2"));
    assert!(sheet.lines.iter().all(|line| !line.contains("hunter2")));
}

#[test]
fn protected_values_are_on_no_line() {
    let mut entry = Entry::new(1);
    entry.set(USER_NAME, Value::secret("hidden-user"));
    entry.set(URL, Value::secret("hidden-url"));
    entry.set(NOTES, Value::secret("hidden-notes"));
    let sheet = view_entry(&entry);
    assert!(sheet.lines.is_empty());
}

#[test]
fn plain_password_is_copied_too() {
    let mut entry = Entry::new(1);
    entry.set(PASSWORD, Value::plain("plain-pw"));
    let sheet = view_entry(&entry);
    assert!(sheet.lines.is_empty());
    assert_eq!(sheet.clipboard.as_deref(), Some("plain-pw"));
}

#[test]
fn password_that_is_no_text_is_not_copied() {
    let mut entry = Entry::new(1);
    entry.set(PASSWORD, Value::Protected(vec![0xff]));
    assert_eq!(view_entry(&entry).clipboard, None);
}
