//! What is shown of an entry, and what goes to the clipboard.

use vstd::prelude::*;
use vstd::string::*;
use crate::entry::{Entry, EntryView, NOTES, PASSWORD, URL, USER_NAME};

verus! {

/// What viewing an entry comes to.
pub struct Sheet {
    /// The lines to print, in order.
    pub lines: Vec<String>,
    /// The password, to be copied to the clipboard and never printed.
    pub clipboard: Option<String>,
}

/// What a list of lines stands for.
pub open spec fn lines_view(lines: Seq<String>) -> Seq<Seq<char>> {
    Seq::new(lines.len(), |i: int| lines[i]@)
}

/// What an optional owned string stands for.
pub open spec fn string_view(text: Option<String>) -> Option<Seq<char>> {
    match text {
        Some(t) => Some(t@),
        None => None,
    }
}

/// The line that shows the user name, where it may be shown.
pub open spec fn username_lines(entry: EntryView) -> Seq<Seq<char>> {
    match entry.shown(USER_NAME@) {
        Some(username) => seq!["> Username: "@ + username],
        None => Seq::empty(),
    }
}

/// The line that shows the address, where it may be shown.
pub open spec fn url_lines(entry: EntryView) -> Seq<Seq<char>> {
    match entry.shown(URL@) {
        Some(url) => seq!["> Url: "@ + url],
        None => Seq::empty(),
    }
}

/// The lines that show the notes, where they may be shown.
pub open spec fn notes_lines(entry: EntryView) -> Seq<Seq<char>> {
    match entry.shown(NOTES@) {
        Some(notes) => seq!["-- Notes ----------------"@, notes, "-------------------------"@],
        None => Seq::empty(),
    }
}

/// The lines that show an entry: user name, address and notes, each only
/// where the entry holds it as a plain value.
pub open spec fn sheet_lines(entry: EntryView) -> Seq<Seq<char>> {
    username_lines(entry) + url_lines(entry) + notes_lines(entry)
}

/// Lays out what viewing `entry` shows, and picks the password for the
/// clipboard. Protected values are on no line.
pub fn view_entry(entry: &Entry) -> (sheet: Sheet)
    ensures
        lines_view(sheet.lines@) == sheet_lines(entry@),
        string_view(sheet.clipboard) == entry@.text(PASSWORD@),
{
    let mut lines: Vec<String> = Vec::new();
    if let Some(username) = entry.shown(USER_NAME) {
        lines.push(String::from_str("> Username: ").concat(username));
    }
    if let Some(url) = entry.shown(URL) {
        lines.push(String::from_str("> Url: ").concat(url));
    }
    if let Some(notes) = entry.shown(NOTES) {
        lines.push(String::from_str("-- Notes ----------------"));
        lines.push(String::from_str(notes));
        lines.push(String::from_str("-------------------------"));
    }
    let clipboard = match entry.password() {
        Some(password) => Some(String::from_str(password)),
        None => None,
    };
    Sheet { lines, clipboard }
}

} // verus!
