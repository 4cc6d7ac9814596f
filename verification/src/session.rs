//! The session controller: the menu, and what searching, creating and
//! editing come to.
//!
//! The controller decides; the caller prompts and performs the effects. An
//! effect that fails ends the program, so no event reports such a failure.
//! Every path that changes the tree hands out a save before the menu comes
//! back.

use vstd::prelude::*;
use vstd::string::*;
use vstd::utf8::*;
use crate::entry::{Entry, EntryView, TextField, Value, ValueView, PASSWORD};
use crate::generate::{fresh_uuid, random_password, standard_policy};
use crate::sheet::{lines_view, sheet_lines, string_view, view_entry, Sheet};
use crate::text::same_text;
use crate::tree::{views, GroupView};
use crate::vault::{Vault, VaultView};

verus! {

/// What the user picks in the menu.
#[derive(Clone, Copy, Debug, PartialEq, Eq, Structural)]
pub enum MenuChoice {
    Search,
    Edit,
    New,
    Quit,
}

/// What the user picks while editing an entry.
#[derive(Clone, Copy, Debug, PartialEq, Eq, Structural)]
pub enum EditChoice {
    Title,
    UserName,
    Notes,
    RandomPassword,
    ManualPassword,
    Done,
}

/// What the user is told.
#[derive(Clone, Copy, Debug, PartialEq, Eq, Structural)]
pub enum Notice {
    PasswordGenerated,
    Copied,
    Saving,
    Saved,
}

/// What the caller does before it asks again, in the order given.
#[derive(Clone, Copy, Debug, PartialEq, Eq, Structural)]
pub enum Effect {
    /// Print the notice.
    Notify(Notice),
    /// Show the entry at this place of the listing: print its sheet's lines,
    /// copy its password, if it has one, to the clipboard, and tell that it
    /// was copied.
    Show(usize),
    /// Show the entry that is being drafted, in the same way.
    ShowDraft,
    /// Save the tree.
    Save,
}

/// What the caller does next, and answers with an event.
#[derive(Clone, Copy, Debug, PartialEq, Eq, Structural)]
pub enum Ask {
    /// Let the user pick from the menu.
    Menu,
    /// Let the user pick an entry from the listing.
    Pick,
    /// Let the user enter text for the field.
    Text(TextField),
    /// Let the user confirm the drafted entry.
    Confirm,
    /// Let the user pick what to edit.
    EditMenu,
    /// Leave.
    Exit,
}

/// What the session is doing.
pub enum Mode {
    /// The menu is up.
    Idle,
    /// An entry is being picked, to edit it or to view it.
    Picking { edit: bool },
    /// A new entry is being filled in, field by field.
    Drafting { field: TextField, draft: Entry },
    /// The drafted entry awaits confirmation.
    Confirming { draft: Entry },
    /// The entry with this identifier is being edited.
    Editing { id: u128 },
    /// A field of the entry with this identifier is being entered.
    Filling { id: u128, field: TextField },
    /// The session is over.
    Closed,
}

/// What a [`Mode`] stands for.
pub enum ModeView {
    Idle,
    Picking { edit: bool },
    Drafting { field: TextField, draft: EntryView },
    Confirming { draft: EntryView },
    Editing { id: u128 },
    Filling { id: u128, field: TextField },
    Closed,
}

impl View for Mode {
    type V = ModeView;

    open spec fn view(&self) -> ModeView {
        match self {
            Mode::Idle => ModeView::Idle,
            Mode::Picking { edit } => ModeView::Picking { edit: *edit },
            Mode::Drafting { field, draft } => ModeView::Drafting { field: *field, draft: draft@ },
            Mode::Confirming { draft } => ModeView::Confirming { draft: draft@ },
            Mode::Editing { id } => ModeView::Editing { id: *id },
            Mode::Filling { id, field } => ModeView::Filling { id: *id, field: *field },
            Mode::Closed => ModeView::Closed,
        }
    }
}

/// What the caller reports.
pub enum Event {
    /// The user picked this from the menu.
    Menu(MenuChoice),
    /// The user picked the entry at this place of the listing.
    Picked(usize),
    /// The user entered this text.
    Text(String),
    /// The user confirmed, or declined.
    Confirmed(bool),
    /// The user picked this while editing.
    Edit(EditChoice),
}

/// What an [`Event`] stands for.
pub enum EventView {
    Menu(MenuChoice),
    Picked(usize),
    Text(Seq<char>),
    Confirmed(bool),
    Edit(EditChoice),
}

impl View for Event {
    type V = EventView;

    open spec fn view(&self) -> EventView {
        match self {
            Event::Menu(choice) => EventView::Menu(*choice),
            Event::Picked(place) => EventView::Picked(*place),
            Event::Text(text) => EventView::Text(text@),
            Event::Confirmed(yes) => EventView::Confirmed(*yes),
            Event::Edit(choice) => EventView::Edit(*choice),
        }
    }
}

/// What was drawn at random for one step: the identifier of a new entry and
/// a password.
pub struct Draw {
    pub id: u128,
    pub password: String,
}

/// What a [`Draw`] stands for.
pub struct DrawView {
    pub id: u128,
    pub password: Seq<char>,
}

impl View for Draw {
    type V = DrawView;

    open spec fn view(&self) -> DrawView {
        DrawView { id: self.id, password: self.password@ }
    }
}

/// The session: the vault and what is being done with it.
pub struct Session {
    pub vault: Vault,
    pub mode: Mode,
}

/// What a [`Session`] stands for.
pub struct SessionView {
    pub vault: VaultView,
    pub mode: ModeView,
}

impl View for Session {
    type V = SessionView;

    open spec fn view(&self) -> SessionView {
        SessionView { vault: self.vault@, mode: self.mode@ }
    }
}

/// The controller's answer to an event.
pub struct Turn {
    pub effects: Vec<Effect>,
    pub ask: Ask,
}

/// A step of the session: where it leads, the effects and the next request.
pub struct Outcome {
    pub session: SessionView,
    pub effects: Seq<Effect>,
    pub ask: Ask,
}

/// The request that stands in a mode.
pub open spec fn pending(mode: ModeView) -> Ask {
    match mode {
        ModeView::Idle => Ask::Menu,
        ModeView::Picking { .. } => Ask::Pick,
        ModeView::Drafting { field, .. } => Ask::Text(field),
        ModeView::Confirming { .. } => Ask::Confirm,
        ModeView::Editing { .. } => Ask::EditMenu,
        ModeView::Filling { field, .. } => Ask::Text(field),
        ModeView::Closed => Ask::Exit,
    }
}

/// The step that changes nothing and repeats the request that stands.
pub open spec fn stay(session: SessionView) -> Outcome {
    Outcome { session, effects: Seq::empty(), ask: pending(session.mode) }
}

/// The step to `mode` with the vault `vault`.
pub open spec fn go(vault: VaultView, mode: ModeView, effects: Seq<Effect>) -> Outcome {
    Outcome { session: SessionView { vault, mode }, effects, ask: pending(mode) }
}

/// The tree after the entry with the identifier `id` was filled in, or the
/// tree as it is where no such entry is left.
pub open spec fn refilled(root: GroupView, id: u128, field: TextField, text: Seq<char>)
    -> GroupView {
    match root.find(id) {
        Some(entry) => root.with_first(id, entry.filled(field, text)),
        None => root,
    }
}

/// The tree after the entry with the identifier `id` was given `password`,
/// or the tree as it is where no such entry is left.
pub open spec fn rekeyed(root: GroupView, id: u128, password: Seq<char>) -> GroupView {
    match root.find(id) {
        Some(entry) => root.with_first(
            id,
            entry.with(PASSWORD@, ValueView::Protected(encode_utf8(password))),
        ),
        None => root,
    }
}

/// What the menu leads to.
pub open spec fn on_menu(session: SessionView, choice: MenuChoice, draw: DrawView) -> Outcome {
    match choice {
        MenuChoice::Search => go(session.vault, ModeView::Picking { edit: false }, Seq::empty()),
        MenuChoice::Edit => go(session.vault, ModeView::Picking { edit: true }, Seq::empty()),
        MenuChoice::New => go(
            session.vault,
            ModeView::Drafting {
                field: TextField::Title,
                draft: EntryView { id: draw.id, fields: Map::empty() },
            },
            Seq::empty(),
        ),
        MenuChoice::Quit => go(session.vault, ModeView::Closed, Seq::empty()),
    }
}

/// What picking an entry leads to: the entry is shown, and then edited or
/// left. A place outside the listing is asked for again.
pub open spec fn on_pick(session: SessionView, edit: bool, place: usize) -> Outcome {
    let entries = session.vault.root.entries();
    if place < entries.len() {
        if edit {
            go(
                session.vault,
                ModeView::Editing { id: entries[place as int].id },
                seq![Effect::Show(place)],
            )
        } else {
            go(session.vault, ModeView::Idle, seq![Effect::Show(place)])
        }
    } else {
        stay(session)
    }
}

/// What text entered for a draft leads to: title, user name and notes in
/// turn, then a drawn password, a look at the draft and the question
/// whether to keep it. Text that the field does not accept is asked for
/// again.
pub open spec fn on_draft(
    session: SessionView,
    field: TextField,
    draft: EntryView,
    text: Seq<char>,
    draw: DrawView,
) -> Outcome {
    if !field.accepts(text) {
        stay(session)
    } else {
        let filled = draft.filled(field, text);
        match field {
            TextField::Title => go(
                session.vault,
                ModeView::Drafting { field: TextField::UserName, draft: filled },
                Seq::empty(),
            ),
            TextField::UserName => go(
                session.vault,
                ModeView::Drafting { field: TextField::Notes, draft: filled },
                Seq::empty(),
            ),
            TextField::Notes | TextField::Password => go(
                session.vault,
                ModeView::Confirming {
                    draft: filled.with(
                        PASSWORD@,
                        ValueView::Protected(encode_utf8(draw.password)),
                    ),
                },
                seq![Effect::Notify(Notice::PasswordGenerated), Effect::ShowDraft],
            ),
        }
    }
}

/// What the answer on a draft leads to: kept, it becomes the last child of
/// the root and the tree is saved; declined, it is dropped.
pub open spec fn on_confirm(session: SessionView, draft: EntryView, yes: bool) -> Outcome {
    if yes {
        go(
            session.vault.with_root(session.vault.root.with_child(draft)),
            ModeView::Idle,
            seq![Effect::Notify(Notice::Saving), Effect::Save, Effect::Notify(Notice::Saved)],
        )
    } else {
        go(session.vault, ModeView::Idle, Seq::empty())
    }
}

/// What a pick while editing leads to: a field to enter, a drawn password,
/// or the end of the edit, which saves the tree.
pub open spec fn on_edit(session: SessionView, id: u128, choice: EditChoice, draw: DrawView)
    -> Outcome {
    match choice {
        EditChoice::Title => go(
            session.vault,
            ModeView::Filling { id, field: TextField::Title },
            Seq::empty(),
        ),
        EditChoice::UserName => go(
            session.vault,
            ModeView::Filling { id, field: TextField::UserName },
            Seq::empty(),
        ),
        EditChoice::Notes => go(
            session.vault,
            ModeView::Filling { id, field: TextField::Notes },
            Seq::empty(),
        ),
        EditChoice::ManualPassword => go(
            session.vault,
            ModeView::Filling { id, field: TextField::Password },
            Seq::empty(),
        ),
        EditChoice::RandomPassword => go(
            session.vault.with_root(rekeyed(session.vault.root, id, draw.password)),
            ModeView::Editing { id },
            seq![Effect::Notify(Notice::PasswordGenerated)],
        ),
        EditChoice::Done => go(session.vault, ModeView::Idle, seq![Effect::Save]),
    }
}

/// What text entered for a field of an entry leads to: the entry is filled
/// in and the edit goes on. Text that the field does not accept is asked
/// for again.
pub open spec fn on_fill(session: SessionView, id: u128, field: TextField, text: Seq<char>)
    -> Outcome {
    if !field.accepts(text) {
        stay(session)
    } else {
        go(
            session.vault.with_root(refilled(session.vault.root, id, field, text)),
            ModeView::Editing { id },
            Seq::empty(),
        )
    }
}

/// One step of the session. An event that does not answer the request that
/// stands changes nothing.
pub open spec fn next(session: SessionView, event: EventView, draw: DrawView) -> Outcome {
    match (session.mode, event) {
        (ModeView::Idle, EventView::Menu(choice)) => on_menu(session, choice, draw),
        (ModeView::Picking { edit }, EventView::Picked(place)) => on_pick(session, edit, place),
        (ModeView::Drafting { field, draft }, EventView::Text(text)) => on_draft(
            session,
            field,
            draft,
            text,
            draw,
        ),
        (ModeView::Confirming { draft }, EventView::Confirmed(yes)) => on_confirm(
            session,
            draft,
            yes,
        ),
        (ModeView::Editing { id }, EventView::Edit(choice)) => on_edit(session, id, choice, draw),
        (ModeView::Filling { id, field }, EventView::Text(text)) => on_fill(
            session,
            id,
            field,
            text,
        ),
        _ => stay(session),
    }
}

/// The lines of the listing of a tree: the label of every entry, depth
/// first.
pub open spec fn listing(root: GroupView) -> Seq<Seq<char>> {
    Seq::new(root.entries().len(), |i: int| root.entries()[i].label())
}

/// The entry that is being drafted in a mode.
pub open spec fn drafted(mode: ModeView) -> Option<EntryView> {
    match mode {
        ModeView::Drafting { draft, .. } => Some(draft),
        ModeView::Confirming { draft } => Some(draft),
        _ => None,
    }
}

/// The text that the prompt for the field at hand starts from: that of the
/// draft or of the entry that is being edited, and nothing where no field
/// is at hand.
pub open spec fn prefilled(session: SessionView) -> Seq<char> {
    match session.mode {
        ModeView::Drafting { field, draft } => draft.prefill(field),
        ModeView::Filling { id, field } => match session.vault.root.find(id) {
            Some(entry) => entry.prefill(field),
            None => Seq::empty(),
        },
        _ => Seq::empty(),
    }
}

/// Tells whether a step uses what is drawn at random: the step that begins
/// a draft takes the identifier, the step that ends one and the pick of a
/// random password take the password.
pub open spec fn draws(mode: ModeView, event: EventView) -> bool {
    match (mode, event) {
        (ModeView::Idle, EventView::Menu(MenuChoice::New)) => true,
        (ModeView::Drafting { field, .. }, EventView::Text(_)) => field is Notes || field
            is Password,
        (ModeView::Editing { .. }, EventView::Edit(EditChoice::RandomPassword)) => true,
        _ => false,
    }
}

/// A step that does not use what is drawn comes out the same whatever is
/// drawn.
pub proof fn lemma_undrawn_step_ignores_draw(
    session: SessionView,
    event: EventView,
    one: DrawView,
    other: DrawView,
)
    requires
        !draws(session.mode, event),
    ensures
        next(session, event, one) == next(session, event, other),
{
}

/// No step changes the passphrase of the vault.
pub proof fn lemma_step_keeps_passphrase(session: SessionView, event: EventView, draw: DrawView)
    ensures
        next(session, event, draw).session.vault.passphrase == session.vault.passphrase,
{
}

/// Every change of the tree is saved before the menu comes back: the tree
/// changes only while an entry is edited or when a draft is kept; keeping a
/// draft saves in the same step, and the step that ends an edit saves.
pub proof fn lemma_changes_are_saved(session: SessionView, event: EventView, draw: DrawView)
    ensures
        ({
            let after = next(session, event, draw);
            let editing = session.mode is Editing || session.mode is Filling;
            let still_editing = after.session.mode is Editing || after.session.mode is Filling;
            &&& after.session.vault.root != session.vault.root ==> editing || session.mode
                is Confirming
            &&& session.mode is Confirming && after.session.vault.root != session.vault.root
                ==> after.effects.contains(Effect::Save)
            &&& editing && !still_editing ==> after.effects.contains(Effect::Save)
            &&& !editing ==> (still_editing ==> after.session.vault.root == session.vault.root)
        }),
{
    let after = next(session, event, draw);
    match (session.mode, event) {
        (ModeView::Confirming { draft }, EventView::Confirmed(yes)) => {
            if yes {
                assert(after.effects[1] == Effect::Save);
            }
        },
        (ModeView::Editing { id }, EventView::Edit(choice)) => {
            if choice is Done {
                assert(after.effects[0] == Effect::Save);
            }
        },
        _ => {},
    }
}

/// What a step handed back stands for.
pub open spec fn outcome_of(stepped: (Session, Turn)) -> Outcome {
    Outcome { session: stepped.0@, effects: stepped.1.effects@, ask: stepped.1.ask }
}

impl MenuChoice {
    /// The line that stands for the choice in the menu.
    pub open spec fn label_text(self) -> Seq<char> {
        match self {
            MenuChoice::Search => "Search"@,
            MenuChoice::Edit => "Edit"@,
            MenuChoice::New => "New"@,
            MenuChoice::Quit => "Quit"@,
        }
    }

    /// The choice that a line of the menu stands for.
    pub open spec fn parsed(label: Seq<char>) -> Option<MenuChoice> {
        if label == "Search"@ {
            Some(MenuChoice::Search)
        } else if label == "Edit"@ {
            Some(MenuChoice::Edit)
        } else if label == "New"@ {
            Some(MenuChoice::New)
        } else if label == "Quit"@ {
            Some(MenuChoice::Quit)
        } else {
            None
        }
    }

    /// The choices in the order of the menu.
    pub fn all() -> (choices: Vec<MenuChoice>)
        ensures
            choices@ == seq![
                MenuChoice::Search,
                MenuChoice::Edit,
                MenuChoice::New,
                MenuChoice::Quit,
            ],
    {
        let mut choices: Vec<MenuChoice> = Vec::new();
        choices.push(MenuChoice::Search);
        choices.push(MenuChoice::Edit);
        choices.push(MenuChoice::New);
        choices.push(MenuChoice::Quit);
        choices
    }

    /// The line that stands for the choice in the menu.
    pub fn label(&self) -> (label: &'static str)
        ensures
            label@ == self.label_text(),
    {
        match self {
            MenuChoice::Search => "Search",
            MenuChoice::Edit => "Edit",
            MenuChoice::New => "New",
            MenuChoice::Quit => "Quit",
        }
    }

    /// Reads a line of the menu.
    pub fn parse(label: &str) -> (choice: Option<MenuChoice>)
        ensures
            choice == MenuChoice::parsed(label@),
    {
        if same_text(label, "Search") {
            Some(MenuChoice::Search)
        } else if same_text(label, "Edit") {
            Some(MenuChoice::Edit)
        } else if same_text(label, "New") {
            Some(MenuChoice::New)
        } else if same_text(label, "Quit") {
            Some(MenuChoice::Quit)
        } else {
            None
        }
    }
}

/// Every choice of the menu is read back from its own line.
pub proof fn lemma_menu_label_parses(choice: MenuChoice)
    ensures
        MenuChoice::parsed(choice.label_text()) == Some(choice),
{
    reveal_strlit("Search");
    reveal_strlit("Edit");
    reveal_strlit("New");
    reveal_strlit("Quit");
    assert("Search"@.len() == 6);
    assert("New"@.len() == 3);
    assert("Edit"@[0] == 'E');
    assert("Quit"@[0] == 'Q');
}

impl EditChoice {
    /// The line that stands for the choice in the edit menu.
    pub open spec fn label_text(self) -> Seq<char> {
        match self {
            EditChoice::Title => "Title"@,
            EditChoice::UserName => "UserName"@,
            EditChoice::Notes => "Notes"@,
            EditChoice::RandomPassword => "Password (Random)"@,
            EditChoice::ManualPassword => "Password (Manual)"@,
            EditChoice::Done => "Done"@,
        }
    }

    /// The choice that a line of the edit menu stands for.
    pub open spec fn parsed(label: Seq<char>) -> Option<EditChoice> {
        if label == "Title"@ {
            Some(EditChoice::Title)
        } else if label == "UserName"@ {
            Some(EditChoice::UserName)
        } else if label == "Notes"@ {
            Some(EditChoice::Notes)
        } else if label == "Password (Random)"@ {
            Some(EditChoice::RandomPassword)
        } else if label == "Password (Manual)"@ {
            Some(EditChoice::ManualPassword)
        } else if label == "Done"@ {
            Some(EditChoice::Done)
        } else {
            None
        }
    }

    /// The choices in the order of the edit menu.
    pub fn all() -> (choices: Vec<EditChoice>)
        ensures
            choices@ == seq![
                EditChoice::Title,
                EditChoice::UserName,
                EditChoice::Notes,
                EditChoice::RandomPassword,
                EditChoice::ManualPassword,
                EditChoice::Done,
            ],
    {
        let mut choices: Vec<EditChoice> = Vec::new();
        choices.push(EditChoice::Title);
        choices.push(EditChoice::UserName);
        choices.push(EditChoice::Notes);
        choices.push(EditChoice::RandomPassword);
        choices.push(EditChoice::ManualPassword);
        choices.push(EditChoice::Done);
        choices
    }

    /// The line that stands for the choice in the edit menu.
    pub fn label(&self) -> (label: &'static str)
        ensures
            label@ == self.label_text(),
    {
        match self {
            EditChoice::Title => "Title",
            EditChoice::UserName => "UserName",
            EditChoice::Notes => "Notes",
            EditChoice::RandomPassword => "Password (Random)",
            EditChoice::ManualPassword => "Password (Manual)",
            EditChoice::Done => "Done",
        }
    }

    /// Reads a line of the edit menu.
    pub fn parse(label: &str) -> (choice: Option<EditChoice>)
        ensures
            choice == EditChoice::parsed(label@),
    {
        if same_text(label, "Title") {
            Some(EditChoice::Title)
        } else if same_text(label, "UserName") {
            Some(EditChoice::UserName)
        } else if same_text(label, "Notes") {
            Some(EditChoice::Notes)
        } else if same_text(label, "Password (Random)") {
            Some(EditChoice::RandomPassword)
        } else if same_text(label, "Password (Manual)") {
            Some(EditChoice::ManualPassword)
        } else if same_text(label, "Done") {
            Some(EditChoice::Done)
        } else {
            None
        }
    }
}

/// Every choice of the edit menu is read back from its own line.
pub proof fn lemma_edit_label_parses(choice: EditChoice)
    ensures
        EditChoice::parsed(choice.label_text()) == Some(choice),
{
    reveal_strlit("Title");
    reveal_strlit("UserName");
    reveal_strlit("Notes");
    reveal_strlit("Password (Random)");
    reveal_strlit("Password (Manual)");
    reveal_strlit("Done");
    assert("Title"@[0] == 'T');
    assert("UserName"@[0] == 'U');
    assert("Notes"@[0] == 'N');
    assert("Password (Random)"@[10] == 'R');
    assert("Password (Manual)"@[10] == 'M');
    assert("Done"@[0] == 'D');
}

impl Notice {
    /// The line that tells the user.
    pub fn text(&self) -> (line: &'static str)
        ensures
            line@ == match *self {
                Notice::PasswordGenerated => "> Password generated."@,
                Notice::Copied => "> Copied to clipboard!"@,
                Notice::Saving => "> Saving..."@,
                Notice::Saved => "> Saved."@,
            },
    {
        match self {
            Notice::PasswordGenerated => "> Password generated.",
            Notice::Copied => "> Copied to clipboard!",
            Notice::Saving => "> Saving...",
            Notice::Saved => "> Saved.",
        }
    }
}

impl Mode {
    /// The request that stands in this mode.
    pub fn pending(&self) -> (ask: Ask)
        ensures
            ask == pending(self@),
    {
        match self {
            Mode::Idle => Ask::Menu,
            Mode::Picking { .. } => Ask::Pick,
            Mode::Drafting { field, .. } => Ask::Text(*field),
            Mode::Confirming { .. } => Ask::Confirm,
            Mode::Editing { .. } => Ask::EditMenu,
            Mode::Filling { field, .. } => Ask::Text(*field),
            Mode::Closed => Ask::Exit,
        }
    }
}

fn turn_to(vault: Vault, mode: Mode, effects: Vec<Effect>) -> (stepped: (Session, Turn))
    ensures
        outcome_of(stepped) == go(vault@, mode@, effects@),
{
    let ask = mode.pending();
    (Session { vault, mode }, Turn { effects, ask })
}

impl Session {
    /// A session on an opened vault, with the menu up.
    pub fn open(vault: Vault) -> (session: Session)
        ensures
            session@ == (SessionView { vault: vault@, mode: ModeView::Idle }),
    {
        Session { vault, mode: Mode::Idle }
    }

    /// The lines of the listing: the label of every entry, depth first.
    pub fn labels(&self) -> (labels: Vec<String>)
        ensures
            lines_view(labels@) == listing(self@.vault.root),
    {
        let list = self.vault.root.list_entries();
        let mut labels: Vec<String> = Vec::new();
        let mut i: usize = 0;
        while i < list.len()
            invariant
                i <= list@.len(),
                labels@.len() == i,
                forall|j: int| 0 <= j < i ==> (#[trigger] labels@[j])@ == list@[j]@.label(),
            decreases list@.len() - i,
        {
            labels.push(list[i].label());
            i += 1;
        }
        assert(lines_view(labels@) =~= listing(self@.vault.root)) by {
            assert forall|j: int| 0 <= j < list@.len() implies list@[j]@
                == self@.vault.root.entries()[j] by {
                assert(views(list@)[j] == list@[j]@);
            }
        }
        labels
    }

    /// The sheet of the entry at `place` of the listing, if there is one.
    pub fn sheet(&self, place: usize) -> (sheet: Option<Sheet>)
        ensures
            match sheet {
                Some(s) => {
                    &&& place < self@.vault.root.entries().len()
                    &&& lines_view(s.lines@) == sheet_lines(self@.vault.root.entries()[place as int])
                    &&& string_view(s.clipboard) == self@.vault.root.entries()[place as int].text(
                        PASSWORD@,
                    )
                },
                None => place >= self@.vault.root.entries().len(),
            },
    {
        let list = self.vault.root.list_entries();
        if place < list.len() {
            Some(view_entry(list[place]))
        } else {
            None
        }
    }

    /// The sheet of the entry that is being drafted, if there is one.
    pub fn draft_sheet(&self) -> (sheet: Option<Sheet>)
        ensures
            match sheet {
                Some(s) => {
                    &&& drafted(self@.mode) matches Some(draft)
                    &&& lines_view(s.lines@) == sheet_lines(draft)
                    &&& string_view(s.clipboard) == draft.text(PASSWORD@)
                },
                None => drafted(self@.mode) is None,
            },
    {
        match &self.mode {
            Mode::Drafting { draft, .. } => Some(view_entry(draft)),
            Mode::Confirming { draft } => Some(view_entry(draft)),
            _ => None,
        }
    }

    /// The text that the prompt for the field at hand starts from.
    pub fn prefill(&self) -> (text: String)
        ensures
            text@ == prefilled(self@),
    {
        match &self.mode {
            Mode::Drafting { field, draft } => draft.prefill(*field),
            Mode::Filling { id, field } => match self.vault.root.find(*id) {
                Some(entry) => entry.prefill(*field),
                None => String::new(),
            },
            _ => String::new(),
        }
    }

    /// Takes one event, with what was drawn for it, and answers with the
    /// effects and the next request.
    pub fn advance(self, event: Event, draw: Draw) -> (stepped: (Session, Turn))
        ensures
            outcome_of(stepped) == next(self@, event@, draw@),
    {
        let Session { mut vault, mode } = self;
        let mut effects: Vec<Effect> = Vec::new();
        match (mode, event) {
            (Mode::Idle, Event::Menu(choice)) => {
                let mode = match choice {
                    MenuChoice::Search => Mode::Picking { edit: false },
                    MenuChoice::Edit => Mode::Picking { edit: true },
                    MenuChoice::New => Mode::Drafting {
                        field: TextField::Title,
                        draft: Entry::new(draw.id),
                    },
                    MenuChoice::Quit => Mode::Closed,
                };
                turn_to(vault, mode, effects)
            },
            (Mode::Picking { edit }, Event::Picked(place)) => {
                let picked = {
                    let list = vault.root.list_entries();
                    if place < list.len() {
                        Some(list[place].id())
                    } else {
                        None
                    }
                };
                match picked {
                    Some(id) => {
                        effects.push(Effect::Show(place));
                        if edit {
                            turn_to(vault, Mode::Editing { id }, effects)
                        } else {
                            turn_to(vault, Mode::Idle, effects)
                        }
                    },
                    None => turn_to(vault, Mode::Picking { edit }, effects),
                }
            },
            (Mode::Drafting { field, draft }, Event::Text(text)) => {
                let mut draft = draft;
                match draft.fill(field, text.as_str()) {
                    Err(_) => turn_to(vault, Mode::Drafting { field, draft }, effects),
                    Ok(()) => match field {
                        TextField::Title => turn_to(
                            vault,
                            Mode::Drafting { field: TextField::UserName, draft },
                            effects,
                        ),
                        TextField::UserName => turn_to(
                            vault,
                            Mode::Drafting { field: TextField::Notes, draft },
                            effects,
                        ),
                        TextField::Notes | TextField::Password => {
                            draft.set(PASSWORD, Value::secret(draw.password.as_str()));
                            effects.push(Effect::Notify(Notice::PasswordGenerated));
                            effects.push(Effect::ShowDraft);
                            assert(effects@ == seq![
                                Effect::Notify(Notice::PasswordGenerated),
                                Effect::ShowDraft,
                            ]);
                            turn_to(vault, Mode::Confirming { draft }, effects)
                        },
                    },
                }
            },
            (Mode::Confirming { draft }, Event::Confirmed(yes)) => {
                if yes {
                    vault.root.add_child(draft);
                    effects.push(Effect::Notify(Notice::Saving));
                    effects.push(Effect::Save);
                    effects.push(Effect::Notify(Notice::Saved));
                    assert(effects@ == seq![
                        Effect::Notify(Notice::Saving),
                        Effect::Save,
                        Effect::Notify(Notice::Saved),
                    ]);
                }
                turn_to(vault, Mode::Idle, effects)
            },
            (Mode::Editing { id }, Event::Edit(choice)) => {
                match choice {
                    EditChoice::Title => turn_to(
                        vault,
                        Mode::Filling { id, field: TextField::Title },
                        effects,
                    ),
                    EditChoice::UserName => turn_to(
                        vault,
                        Mode::Filling { id, field: TextField::UserName },
                        effects,
                    ),
                    EditChoice::Notes => turn_to(
                        vault,
                        Mode::Filling { id, field: TextField::Notes },
                        effects,
                    ),
                    EditChoice::ManualPassword => turn_to(
                        vault,
                        Mode::Filling { id, field: TextField::Password },
                        effects,
                    ),
                    EditChoice::RandomPassword => {
                        if let Some(entry) = vault.root.find_mut(id) {
                            entry.set(PASSWORD, Value::secret(draw.password.as_str()));
                        }
                        effects.push(Effect::Notify(Notice::PasswordGenerated));
                        turn_to(vault, Mode::Editing { id }, effects)
                    },
                    EditChoice::Done => {
                        effects.push(Effect::Save);
                        turn_to(vault, Mode::Idle, effects)
                    },
                }
            },
            (Mode::Filling { id, field }, Event::Text(text)) => {
                if !field.takes(text.as_str()) {
                    turn_to(vault, Mode::Filling { id, field }, effects)
                } else {
                    if let Some(entry) = vault.root.find_mut(id) {
                        let _ = entry.fill(field, text.as_str());
                    }
                    turn_to(vault, Mode::Editing { id }, effects)
                }
            },
            (mode, _) => turn_to(vault, mode, effects),
        }
    }

    /// Tells whether the step on `event` uses what is drawn at random.
    pub fn draws(&self, event: &Event) -> (drawn: bool)
        ensures
            drawn == draws(self@.mode, event@),
    {
        match (&self.mode, event) {
            (Mode::Idle, Event::Menu(MenuChoice::New)) => true,
            (Mode::Drafting { field, .. }, Event::Text(_)) => match field {
                TextField::Notes | TextField::Password => true,
                _ => false,
            },
            (Mode::Editing { .. }, Event::Edit(EditChoice::RandomPassword)) => true,
            _ => false,
        }
    }

    /// Takes one event and answers with the effects and the next request.
    /// What the step uses at random is drawn here: the identifier of a new
    /// entry, and a password that follows the standard policy.
    pub fn step(self, event: Event) -> (stepped: (Session, Turn))
        ensures
            exists|draw: DrawView|
                {
                    &&& draws(self@.mode, event@) ==> standard_policy().met_by(draw.password)
                    &&& outcome_of(stepped) == #[trigger] next(self@, event@, draw)
                },
    {
        let draw = if self.draws(&event) {
            Draw { id: fresh_uuid(), password: random_password() }
        } else {
            Draw { id: 0, password: String::new() }
        };
        let ghost drawn = draw@;
        let stepped = self.advance(event, draw);
        assert(outcome_of(stepped) == next(self@, event@, drawn));
        stepped
    }
}

} // verus!
