use keepass::{
    config::DatabaseConfig,
    db::{Entry as KEntry, Group as KGroup, Node as KNode, Value as KValue},
    Database, DatabaseKey,
};
use kpvault::cache::Cache;
use kpvault::code::derive_code;
use kpvault::entry::{Entry, TextField, Value, PASSWORD, TITLE, USER_NAME};
use kpvault::session::{self, MenuChoice, Session};
use kpvault::tree::{Group, Node};
use kpvault::unlock::{self, Unlocker};
use kpvault::vault::Vault;

fn to_tree(group: &KGroup) -> Group {
    let mut tree = Group::new();
    for node in &group.children {
        match node {
            KNode::Group(below) => tree.add_group(to_tree(below)),
            KNode::Entry(entry) => {
                let mut out = Entry::new(entry.uuid.as_u128());
                for (name, value) in &entry.fields {
                    match value {
                        KValue::Unprotected(text) => out.set(name, Value::Plain(text.clone())),
                        KValue::Protected(secret) => {
                            out.set(name, Value::Protected(secret.unsecure().to_vec()))
                        }
                        KValue::Bytes(_) => {}
                    }
                }
                tree.add_child(out);
            }
        }
    }
    tree
}

fn apply(tree: &Group, group: &mut KGroup) {
    for (place, node) in tree.children.iter().enumerate() {
        match (node, group.children.get_mut(place)) {
            (Node::Group(below), Some(KNode::Group(target))) => apply(below, target),
            (Node::Entry(entry), Some(KNode::Entry(target))) => write_fields(entry, target),
            (Node::Entry(entry), None) => {
                let mut target = KEntry::new();
                target.uuid = format!("{:032x}", entry.id()).parse().unwrap();
                write_fields(entry, &mut target);
                group.add_child(target);
            }
            _ => panic!("the tree no longer matches the database"),
        }
    }
}

fn write_fields(entry: &Entry, target: &mut KEntry) {
    for name in entry.field_names() {
        match entry.get(name) {
            Some(Value::Plain(text)) => {
                target.fields.insert(name.to_string(), KValue::Unprotected(text.clone()));
            }
            Some(Value::Protected(bytes)) => {
                target.fields.insert(name.to_string(), KValue::Protected(bytes.as_slice().into()));
            }
            None => {}
        }
    }
}

fn open(container: &[u8], passphrase: &str) -> Option<Database> {
    Database::parse(container, DatabaseKey::new().with_password(passphrase)).ok()
}

fn save(db: &Database, passphrase: &str) -> Vec<u8> {
    let mut container = Vec::new();
    db.save(&mut container, DatabaseKey::new().with_password(passphrase)).unwrap();
    container
}

fn vault_file() -> Vec<u8> {
    let mut db = Database::new(DatabaseConfig::default());
    let mut general = KGroup::new("General");
    let mut bank = KEntry::new();
    bank.fields.insert("Title".to_string(), KValue::Unprotected("Bank".to_string()));
    bank.fields.insert("Password".to_string(), KValue::Protected("bank-pw".as_bytes().into()));
    general.add_child(bank);
    db.root.add_child(general);
    save(&db, "correct-horse")
}

#[test]
fn created_entry_is_there_after_unlocking_by_code() {
    let mut target = vault_file();

    // First launch: no cache, the passphrase is asked for until it fits.
    let (unlocker, ask) = Unlocker::begin(Cache::absent());
    assert_eq!(ask, unlock::Ask::Passphrase);
    let (unlocker, turn) = unlocker.step(unlock::Event::Passphrase("incorrect".to_string()));
    assert_eq!(turn.ask, unlock::Ask::OpenVault);
    assert!(open(&target, unlocker.passphrase().unwrap()).is_none());
    let (unlocker, turn) = unlocker.step(unlock::Event::Rejected);
    assert_eq!(turn.ask, unlock::Ask::Passphrase);
    let (unlocker, _) = unlocker.step(unlock::Event::Passphrase("correct-horse".to_string()));
    let mut db = open(&target, unlocker.passphrase().unwrap()).unwrap();
    let (unlocker, turn) = unlocker.step(unlock::Event::Opened);
    assert_eq!(turn.effects, vec![unlock::Effect::WriteCache]);
    assert_eq!(turn.ask, unlock::Ask::Proceed);
    let cache_file = unlocker.cache.record.clone().unwrap();
    let vault = unlocker.into_vault(to_tree(&db.root)).unwrap();
    assert_eq!(vault.passphrase, "correct-horse");

    // Create { Title: "Mail", UserName: "bob", Password: generated }.
    let session = Session::open(vault);
    assert_eq!(session.labels(), vec!["Bank"]);
    let (session, turn) = session.step(session::Event::Menu(MenuChoice::New));
    assert_eq!(turn.ask, session::Ask::Text(TextField::Title));
    let (session, _) = session.step(session::Event::Text("Mail".to_string()));
    let (session, _) = session.step(session::Event::Text("bob".to_string()));
    let (session, turn) = session.step(session::Event::Text(String::new()));
    assert_eq!(turn.ask, session::Ask::Confirm);
    let generated = session.draft_sheet().unwrap().clipboard.unwrap();
    let (session, turn) = session.step(session::Event::Confirmed(true));
    assert!(turn.effects.contains(&session::Effect::Save));
    let created = session.vault.root.list_entries()[1].id();
    apply(&session.vault.root, &mut db.root);
    target = save(&db, &session.vault.passphrase);

    // Second launch: the code derived from the passphrase opens the cache.
    assert_eq!(derive_code("correct-horse"), Some("rse"));
    let (unlocker, ask) = Unlocker::begin(Cache::holding(cache_file));
    assert_eq!(ask, unlock::Ask::Code);
    let (unlocker, turn) = unlocker.step(unlock::Event::Code("rse".to_string()));
    assert_eq!(turn.ask, unlock::Ask::OpenVault);
    assert_eq!(unlocker.passphrase(), Some("correct-horse"));
    let reopened = open(&target, unlocker.passphrase().unwrap()).unwrap();
    let (_, turn) = unlocker.step(unlock::Event::Opened);
    assert_eq!(turn.ask, unlock::Ask::Proceed);

    let tree = to_tree(&reopened.root);
    let labels: Vec<String> = tree.list_entries().iter().map(|e| e.label()).collect();
    assert_eq!(labels, vec!["Bank", "Mail"]);
    let mail = tree.find(created).unwrap();
    assert_eq!(mail.id(), created);
    assert!(matches!(mail.get(TITLE), Some(Value::Plain(text)) if text == "Mail"));
    assert!(matches!(mail.get(USER_NAME), Some(Value::Plain(text)) if text == "bob"));
    assert!(matches!(mail.get(PASSWORD), Some(Value::Protected(bytes)) if bytes == generated.as_bytes()));
    assert_eq!(tree.list_entries()[0].password(), Some("bank-pw"));
}

#[test]
fn edited_entry_is_saved_with_its_identifier() {
    let target = vault_file();
    let mut db = open(&target, "correct-horse").unwrap();
    let session = Session::open(Vault::new(to_tree(&db.root), "correct-horse".to_string()));
    let bank = session.vault.root.list_entries()[0].id();
    let (session, _) = session.step(session::Event::Menu(MenuChoice::Edit));
    let (session, _) = session.step(session::Event::Picked(0));
    let (session, _) = session.step(session::Event::Edit(session::EditChoice::UserName));
    let (session, _) = session.step(session::Event::Text("alice".to_string()));
    let (session, turn) = session.step(session::Event::Edit(session::EditChoice::Done));
    assert_eq!(turn.effects, vec![session::Effect::Save]);
    apply(&session.vault.root, &mut db.root);
    let reopened = open(&save(&db, &session.vault.passphrase), "correct-horse").unwrap();
    let tree = to_tree(&reopened.root);
    let entry = tree.find(bank).unwrap();
    assert_eq!(entry.username(), Some("alice"));
    assert_eq!(entry.password(), Some("bank-pw"));
    assert_eq!(entry.label(), "Bank");
    assert_eq!(tree.list_entries().len(), 1);
}
