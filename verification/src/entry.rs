//! A single credential record: an identifier and its named fields.

use vstd::prelude::*;
use vstd::string::*;
use vstd::utf8::*;
use crate::generate::{fresh_uuid, random_password, standard_policy};
use crate::text::{same_text, utf8_text};

verus! {

/// Name of the field that holds an entry's title.
pub const TITLE: &'static str = "Title";

/// Name of the field that holds the user name.
pub const USER_NAME: &'static str = "UserName";

/// Name of the field that holds the password.
pub const PASSWORD: &'static str = "Password";

/// Name of the field that holds the notes.
pub const NOTES: &'static str = "Notes";

/// Name of the field that holds the address.
pub const URL: &'static str = "URL";

/// The value of one field of an entry.
pub enum Value {
    /// Text that may be shown.
    Plain(String),
    /// Secret material, never shown.
    Protected(Vec<u8>),
}

/// What a [`Value`] stands for.
pub enum ValueView {
    Plain(Seq<char>),
    Protected(Seq<u8>),
}

impl View for Value {
    type V = ValueView;

    open spec fn view(&self) -> ValueView {
        match self {
            Value::Plain(text) => ValueView::Plain(text@),
            Value::Protected(bytes) => ValueView::Protected(bytes@),
        }
    }
}

impl ValueView {
    /// The text that the value holds: a plain value as it is, a protected
    /// one decoded, where its bytes are UTF-8.
    pub open spec fn text(self) -> Option<Seq<char>> {
        match self {
            ValueView::Plain(text) => Some(text),
            ValueView::Protected(bytes) => if valid_utf8(bytes) {
                Some(decode_utf8(bytes))
            } else {
                None
            },
        }
    }

    /// The text that may be shown: that of a plain value. A protected value
    /// shows nothing.
    pub open spec fn shown(self) -> Option<Seq<char>> {
        match self {
            ValueView::Plain(text) => Some(text),
            ValueView::Protected(_) => None,
        }
    }
}

/// What an optional string stands for.
pub open spec fn text_view(text: Option<&str>) -> Option<Seq<char>> {
    match text {
        Some(t) => Some(t@),
        None => None,
    }
}

impl Value {
    /// A plain value that holds `text`.
    pub fn plain(text: &str) -> (value: Value)
        ensures
            value@ == ValueView::Plain(text@),
    {
        Value::Plain(text.to_owned())
    }

    /// A protected value that holds the UTF-8 bytes of `text`.
    pub fn secret(text: &str) -> (value: Value)
        ensures
            value@ == ValueView::Protected(encode_utf8(text@)),
    {
        Value::Protected(text.as_bytes_vec())
    }

    /// The text that the value holds, unprotected where need be.
    pub fn text(&self) -> (text: Option<&str>)
        ensures
            text_view(text) == self@.text(),
    {
        match self {
            Value::Plain(text) => Some(text.as_str()),
            Value::Protected(bytes) => utf8_text(bytes.as_slice()),
        }
    }

    /// The text of the value that may be shown.
    pub fn shown(&self) -> (text: Option<&str>)
        ensures
            text_view(text) == self@.shown(),
    {
        match self {
            Value::Plain(text) => Some(text.as_str()),
            Value::Protected(_) => None,
        }
    }
}

/// A field that the user fills in.
#[derive(Clone, Copy, Debug, PartialEq, Eq, Structural)]
pub enum TextField {
    Title,
    UserName,
    Notes,
    Password,
}

impl TextField {
    /// The name under which the field is stored.
    pub open spec fn name(self) -> Seq<char> {
        match self {
            TextField::Title => TITLE@,
            TextField::UserName => USER_NAME@,
            TextField::Notes => NOTES@,
            TextField::Password => PASSWORD@,
        }
    }

    /// Tells whether the field needs a value. Notes may be empty.
    pub open spec fn required(self) -> bool {
        !(self is Notes)
    }

    /// The value that stands for `text` in the field: title and user name
    /// are plain, notes and password protected.
    pub open spec fn value(self, text: Seq<char>) -> ValueView {
        match self {
            TextField::Title | TextField::UserName => ValueView::Plain(text),
            TextField::Notes | TextField::Password => ValueView::Protected(encode_utf8(text)),
        }
    }

    /// Tells whether `text` can be stored in the field.
    pub open spec fn accepts(self, text: Seq<char>) -> bool {
        text.len() > 0 || !self.required()
    }

    /// Tells whether `text` can be stored in the field.
    pub fn takes(&self, text: &str) -> (ok: bool)
        ensures
            ok == self.accepts(text@),
    {
        match self {
            TextField::Notes => true,
            _ => !text.is_empty(),
        }
    }
}

/// Why an edit was refused.
pub enum EditError {
    /// The field needs a value and none was given.
    Blank,
}

struct Field {
    name: String,
    value: Value,
}

/// A leaf of the tree: an identifier that never changes and a mapping from
/// field names to values.
pub struct Entry {
    id: u128,
    fields: Vec<Field>,
}

/// What an [`Entry`] stands for.
pub struct EntryView {
    pub id: u128,
    pub fields: Map<Seq<char>, ValueView>,
}

spec fn names_distinct(fields: Seq<Field>) -> bool {
    forall|i: int, j: int|
        0 <= i < j < fields.len() ==> (#[trigger] fields[i]).name@ != (#[trigger] fields[j]).name@
}

spec fn named_at(fields: Seq<Field>, name: Seq<char>, i: int) -> bool {
    0 <= i < fields.len() && fields[i].name@ == name
}

spec fn has_name(fields: Seq<Field>, name: Seq<char>) -> bool {
    exists|i: int| named_at(fields, name, i)
}

spec fn slot_of(fields: Seq<Field>, name: Seq<char>) -> int {
    choose|i: int| named_at(fields, name, i)
}

/// The mapping that a list of fields with distinct names stands for.
spec fn field_map(fields: Seq<Field>) -> Map<Seq<char>, ValueView> {
    Map::new(
        |name: Seq<char>| has_name(fields, name),
        |name: Seq<char>| fields[slot_of(fields, name)].value@,
    )
}

proof fn lemma_slot_found(fields: Seq<Field>, name: Seq<char>, i: int)
    requires
        names_distinct(fields),
        named_at(fields, name, i),
    ensures
        has_name(fields, name),
        slot_of(fields, name) == i,
{
    let k = slot_of(fields, name);
    assert(named_at(fields, name, k));
    if k < i {
        assert(fields[k].name@ != fields[i].name@);
    }
    if i < k {
        assert(fields[i].name@ != fields[k].name@);
    }
}

impl EntryView {
    /// This entry with `value` stored under `name`.
    pub open spec fn with(self, name: Seq<char>, value: ValueView) -> EntryView {
        EntryView { id: self.id, fields: self.fields.insert(name, value) }
    }

    /// The text held under `name`, unprotected where need be.
    pub open spec fn text(self, name: Seq<char>) -> Option<Seq<char>> {
        if self.fields.contains_key(name) {
            self.fields[name].text()
        } else {
            None
        }
    }

    /// The text held under `name` that may be shown.
    pub open spec fn shown(self, name: Seq<char>) -> Option<Seq<char>> {
        if self.fields.contains_key(name) {
            self.fields[name].shown()
        } else {
            None
        }
    }

    /// This entry after `text` was offered for `field`: stored where the
    /// field accepts it, else the entry as it is.
    pub open spec fn filled(self, field: TextField, text: Seq<char>) -> EntryView {
        if field.accepts(text) {
            self.with(field.name(), field.value(text))
        } else {
            self
        }
    }

    /// The text that a prompt for `field` starts from: the title or user
    /// name that may be shown, the notes, and for the password nothing.
    pub open spec fn prefill(self, field: TextField) -> Seq<char> {
        match field {
            TextField::Title | TextField::UserName => match self.shown(field.name()) {
                Some(text) => text,
                None => Seq::empty(),
            },
            TextField::Notes => match self.text(NOTES@) {
                Some(text) => text,
                None => Seq::empty(),
            },
            TextField::Password => Seq::empty(),
        }
    }

    /// The line that stands for the entry in a list: its title, where it has
    /// one that may be shown.
    pub open spec fn label(self) -> Seq<char> {
        match self.shown(TITLE@) {
            Some(title) => title,
            None => "(no title)"@,
        }
    }
}

/// Storing a value changes the field of that name and nothing else: the
/// identifier stays, and every other field stays as it was.
pub proof fn lemma_with_keeps_the_rest(
    entry: EntryView,
    name: Seq<char>,
    value: ValueView,
    other: Seq<char>,
)
    requires
        other != name,
    ensures
        entry.with(name, value).id == entry.id,
        entry.with(name, value).fields[name] == value,
        entry.with(name, value).fields.contains_key(other) == entry.fields.contains_key(other),
        entry.with(name, value).fields[other] == entry.fields[other],
        entry.with(name, value).text(other) == entry.text(other),
{
}

impl View for Entry {
    type V = EntryView;

    closed spec fn view(&self) -> EntryView {
        EntryView { id: self.id, fields: field_map(self.fields@) }
    }
}

impl Entry {
    /// No two fields have the same name.
    #[verifier::type_invariant]
    spec fn names_are_distinct(&self) -> bool {
        names_distinct(self.fields@)
    }

    /// A fresh entry with the given identifier and no fields.
    pub fn new(id: u128) -> (entry: Entry)
        ensures
            entry@ == (EntryView { id, fields: Map::empty() }),
    {
        let entry = Entry { id, fields: Vec::new() };
        assert(field_map(entry.fields@) =~= Map::empty());
        entry
    }

    /// A fresh entry with an identifier drawn at random and no fields.
    pub fn fresh() -> (entry: Entry)
        ensures
            entry@.fields == Map::<Seq<char>, ValueView>::empty(),
    {
        Entry::new(fresh_uuid())
    }

    /// The identifier of this entry.
    pub fn id(&self) -> (id: u128)
        ensures
            id == self@.id,
    {
        self.id
    }

    fn slot(&self, name: &str) -> (slot: Option<usize>)
        ensures
            match slot {
                Some(i) => named_at(self.fields@, name@, i as int),
                None => !has_name(self.fields@, name@),
            },
    {
        let mut i: usize = 0;
        while i < self.fields.len()
            invariant
                i <= self.fields@.len(),
                forall|j: int| 0 <= j < i ==> !named_at(self.fields@, name@, j),
            decreases self.fields@.len() - i,
        {
            if same_text(self.fields[i].name.as_str(), name) {
                return Some(i);
            }
            i += 1;
        }
        None
    }

    /// The value stored under `name`, if there is one.
    pub fn get(&self, name: &str) -> (value: Option<&Value>)
        ensures
            match value {
                Some(v) => self@.fields.contains_key(name@) && self@.fields[name@] == v@,
                None => !self@.fields.contains_key(name@),
            },
    {
        match self.slot(name) {
            Some(i) => {
                proof {
                    use_type_invariant(self);
                    lemma_slot_found(self.fields@, name@, i as int);
                }
                Some(&self.fields[i].value)
            },
            None => None,
        }
    }

    /// The text held under `name`, unprotected where need be.
    pub fn text(&self, name: &str) -> (text: Option<&str>)
        ensures
            text_view(text) == self@.text(name@),
    {
        match self.get(name) {
            Some(value) => value.text(),
            None => None,
        }
    }

    /// The text held under `name` that may be shown.
    pub fn shown(&self, name: &str) -> (text: Option<&str>)
        ensures
            text_view(text) == self@.shown(name@),
    {
        match self.get(name) {
            Some(value) => value.shown(),
            None => None,
        }
    }

    /// The password, where the entry has one that is text.
    pub fn password(&self) -> (text: Option<&str>)
        ensures
            text_view(text) == self@.text(PASSWORD@),
    {
        self.text(PASSWORD)
    }

    /// The user name, where the entry has one that is text.
    pub fn username(&self) -> (text: Option<&str>)
        ensures
            text_view(text) == self@.text(USER_NAME@),
    {
        self.text(USER_NAME)
    }

    /// The address, where the entry has one that is text.
    pub fn url(&self) -> (text: Option<&str>)
        ensures
            text_view(text) == self@.text(URL@),
    {
        self.text(URL)
    }

    /// The notes, where the entry has notes that are text.
    pub fn notes(&self) -> (text: Option<&str>)
        ensures
            text_view(text) == self@.text(NOTES@),
    {
        self.text(NOTES)
    }

    /// The line that stands for the entry in a list.
    pub fn label(&self) -> (label: String)
        ensures
            label@ == self@.label(),
    {
        match self.shown(TITLE) {
            Some(title) => title.to_owned(),
            None => "(no title)".to_owned(),
        }
    }

    /// Stores `value` under `name`, replacing what was there.
    pub fn set(&mut self, name: &str, value: Value)
        ensures
            final(self)@ == old(self)@.with(name@, value@),
    {
        proof {
            use_type_invariant(&*self);
        }
        let found = self.slot(name);
        let mut fields: Vec<Field> = Vec::new();
        core::mem::swap(&mut self.fields, &mut fields);
        let ghost before = fields@;
        match found {
            Some(i) => {
                fields[i].value = value;
            },
            None => {
                fields.push(Field { name: name.to_owned(), value });
            },
        }
        proof {
            let after = fields@;
            let at = match found {
                Some(i) => i as int,
                None => before.len() as int,
            };
            assert forall|k: int| 0 <= k < before.len() implies (#[trigger] before[k]).name@
                == after[k].name@ by {}
            assert forall|k: int| 0 <= k < before.len() && k != at implies (#[trigger] before[k])
                == after[k] by {}
            assert(names_distinct(after)) by {
                assert forall|a: int, b: int| 0 <= a < b < after.len() implies (
                #[trigger] after[a]).name@ != (#[trigger] after[b]).name@ by {
                    if b < before.len() {
                        assert(before[a].name@ != before[b].name@);
                    } else {
                        assert(!named_at(before, name@, a));
                    }
                }
            }
            lemma_slot_found(after, name@, at);
            assert forall|n: Seq<char>| n != name@ implies (has_name(after, n) <==> has_name(
                before,
                n,
            )) by {
                if has_name(before, n) {
                    assert(named_at(after, n, slot_of(before, n)));
                }
                if has_name(after, n) {
                    assert(named_at(before, n, slot_of(after, n)));
                }
            }
            assert forall|n: Seq<char>| n != name@ && has_name(before, n) implies after[slot_of(
                after,
                n,
            )].value@ == before[slot_of(before, n)].value@ by {
                let k = slot_of(before, n);
                lemma_slot_found(after, n, k);
            }
            assert(field_map(after) =~= field_map(before).insert(name@, value@));
        }
        core::mem::swap(&mut self.fields, &mut fields);
    }

    /// The names of the fields that the entry has, each once.
    pub fn field_names(&self) -> (names: Vec<&str>)
        ensures
            forall|i: int| 0 <= i < names@.len() ==> self@.fields.contains_key(#[trigger] names@[i]@),
            forall|i: int, j: int|
                0 <= i < j < names@.len() ==> (#[trigger] names@[i])@ != (#[trigger] names@[j])@,
            forall|name: Seq<char>| #[trigger]
                self@.fields.contains_key(name) ==> exists|i: int|
                    0 <= i < names@.len() && #[trigger] names@[i]@ == name,
    {
        proof {
            use_type_invariant(self);
        }
        let mut names: Vec<&str> = Vec::new();
        let mut i: usize = 0;
        while i < self.fields.len()
            invariant
                i <= self.fields@.len(),
                names@.len() == i,
                forall|j: int| 0 <= j < i ==> (#[trigger] names@[j])@ == self.fields@[j].name@,
            decreases self.fields@.len() - i,
        {
            names.push(self.fields[i].name.as_str());
            i += 1;
        }
        proof {
            assert forall|j: int| 0 <= j < names@.len() implies self@.fields.contains_key(
                #[trigger] names@[j]@,
            ) by {
                assert(named_at(self.fields@, names@[j]@, j));
            }
            assert forall|a: int, b: int| 0 <= a < b < names@.len() implies (#[trigger] names@[a])@
                != (#[trigger] names@[b])@ by {
                assert(self.fields@[a].name@ != self.fields@[b].name@);
            }
            assert forall|name: Seq<char>| #[trigger]
                self@.fields.contains_key(name) implies exists|i: int|
                0 <= i < names@.len() && #[trigger] names@[i]@ == name by {
                let k = slot_of(self.fields@, name);
                assert(names@[k]@ == name);
            }
        }
        names
    }

    /// Makes `title` the title. A title is required: an empty one is
    /// refused and the entry stays as it was.
    pub fn set_title(&mut self, title: &str) -> (done: Result<(), EditError>)
        ensures
            title@.len() > 0 ==> done is Ok && final(self)@ == old(self)@.with(
                TITLE@,
                ValueView::Plain(title@),
            ),
            title@.len() == 0 ==> done is Err && final(self)@ == old(self)@,
    {
        if title.is_empty() {
            return Err(EditError::Blank);
        }
        self.set(TITLE, Value::plain(title));
        Ok(())
    }

    /// Makes `username` the user name. A user name is required: an empty one
    /// is refused and the entry stays as it was.
    pub fn set_username(&mut self, username: &str) -> (done: Result<(), EditError>)
        ensures
            username@.len() > 0 ==> done is Ok && final(self)@ == old(self)@.with(
                USER_NAME@,
                ValueView::Plain(username@),
            ),
            username@.len() == 0 ==> done is Err && final(self)@ == old(self)@,
    {
        if username.is_empty() {
            return Err(EditError::Blank);
        }
        self.set(USER_NAME, Value::plain(username));
        Ok(())
    }

    /// Makes `notes` the notes, as a protected value. Notes may be empty.
    pub fn set_notes(&mut self, notes: &str)
        ensures
            final(self)@ == old(self)@.with(NOTES@, ValueView::Protected(encode_utf8(notes@))),
    {
        self.set(NOTES, Value::secret(notes));
    }

    /// Makes `password` the password, as a protected value. A password is
    /// required: an empty one is refused and the entry stays as it was.
    pub fn set_manual_password(&mut self, password: &str) -> (done: Result<(), EditError>)
        ensures
            password@.len() > 0 ==> done is Ok && final(self)@ == old(self)@.with(
                PASSWORD@,
                ValueView::Protected(encode_utf8(password@)),
            ),
            password@.len() == 0 ==> done is Err && final(self)@ == old(self)@,
    {
        if password.is_empty() {
            return Err(EditError::Blank);
        }
        self.set(PASSWORD, Value::secret(password));
        Ok(())
    }

    /// Draws a password at random and makes it the password, as a protected
    /// value.
    pub fn set_random_password(&mut self)
        ensures
            exists|password: Seq<char>|
                standard_policy().met_by(password) && final(self)@ == #[trigger] old(self)@.with(
                    PASSWORD@,
                    ValueView::Protected(encode_utf8(password)),
                ),
    {
        let password = random_password();
        self.set(PASSWORD, Value::secret(password.as_str()));
    }

    /// Stores `text` in `field`, in the form that the field takes. Text that
    /// the field does not accept is refused and the entry stays as it was.
    pub fn fill(&mut self, field: TextField, text: &str) -> (done: Result<(), EditError>)
        ensures
            done is Ok <==> field.accepts(text@),
            final(self)@ == old(self)@.filled(field, text@),
    {
        match field {
            TextField::Title => self.set_title(text),
            TextField::UserName => self.set_username(text),
            TextField::Notes => {
                self.set_notes(text);
                Ok(())
            },
            TextField::Password => self.set_manual_password(text),
        }
    }

    /// The text that a prompt for `field` starts from. A password is never
    /// handed out for this.
    pub fn prefill(&self, field: TextField) -> (text: String)
        ensures
            text@ == self@.prefill(field),
    {
        let found = match field {
            TextField::Title => self.shown(TITLE),
            TextField::UserName => self.shown(USER_NAME),
            TextField::Notes => self.text(NOTES),
            TextField::Password => None,
        };
        match found {
            Some(text) => text.to_owned(),
            None => String::new(),
        }
    }
}

} // verus!
