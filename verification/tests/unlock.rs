use cocoon::Cocoon;
use kpvault::cache::{Cache, CACHE_PATH};
use kpvault::tree::Group;
use kpvault::unlock::{Ask, Effect, Event, Failure, Notice, Stage, Unlocker};

fn cache_for(passphrase: &str) -> Cache {
    let mut cache = Cache::absent();
    assert!(cache.store(passphrase).is_ok());
    cache
}

#[test]
fn cache_path_is_fixed() {
    assert_eq!(CACHE_PATH, "/tmp/.kpw");
}

#[test]
fn unlock_notices_read_as_lines() {
    assert_eq!(Notice::WrongCode.text(), "! Quick Pass was incorrect.");
    assert_eq!(Notice::OpenFailed.text(), "! Failed to open database. Wrong password?");
}

#[test]
fn without_a_cache_the_passphrase_is_asked_for() {
    let (unlocker, ask) = Unlocker::begin(Cache::absent());
    assert_eq!(ask, Ask::Passphrase);
    assert!(matches!(unlocker.stage, Stage::AwaitPassphrase));
    assert_eq!(unlocker.pending(), Ask::Passphrase);
    assert_eq!(unlocker.passphrase(), None);
}

#[test]
fn with_a_cache_the_code_is_asked_for() {
    let (unlocker, ask) = Unlocker::begin(Cache::holding(vec![1, 2, 3]));
    assert_eq!(ask, Ask::Code);
    assert!(matches!(unlocker.stage, Stage::AwaitCode));
}

#[test]
fn passphrase_flow_loops_until_the_vault_opens_and_then_caches() {
    let (unlocker, _) = Unlocker::begin(Cache::absent());
    let (unlocker, turn) = unlocker.step(Event::Passphrase("wrong-guess".to_string()));
    assert_eq!(turn.ask, Ask::OpenVault);
    assert!(turn.effects.is_empty());
    assert_eq!(unlocker.passphrase(), Some("wrong-guess"));

    let (unlocker, turn) = unlocker.step(Event::Rejected);
    assert_eq!(turn.effects, vec![Effect::Notify(Notice::OpenFailed)]);
    assert_eq!(turn.ask, Ask::Passphrase);
    assert!(!unlocker.cache.is_present());

    let (unlocker, turn) = unlocker.step(Event::Passphrase("second-guess".to_string()));
    assert_eq!(turn.ask, Ask::OpenVault);
    let (unlocker, turn) = unlocker.step(Event::Rejected);
    assert_eq!(turn.ask, Ask::Passphrase);

    let (unlocker, turn) = unlocker.step(Event::Passphrase("correct-horse".to_string()));
    assert_eq!(turn.ask, Ask::OpenVault);
    assert_eq!(unlocker.passphrase(), Some("correct-horse"));
    let (unlocker, turn) = unlocker.step(Event::Opened);
    assert_eq!(turn.effects, vec![Effect::WriteCache]);
    assert_eq!(turn.ask, Ask::Proceed);
    assert!(matches!(&unlocker.stage, Stage::Unlocked { passphrase } if passphrase == "correct-horse"));

    let record = unlocker.cache.record.clone().unwrap();
    let opened = Cocoon::new(b"rse").parse(&mut &record[..]).unwrap();
    assert_eq!(opened, b"correct-horse");
}

#[test]
fn right_code_opens_the_vault_with_the_cached_passphrase() {
    let cache = cache_for("correct-horse");
    let record = cache.record.clone();
    let (unlocker, ask) = Unlocker::begin(cache);
    assert_eq!(ask, Ask::Code);
    let (unlocker, turn) = unlocker.step(Event::Code("rse".to_string()));
    assert!(turn.effects.is_empty());
    assert_eq!(turn.ask, Ask::OpenVault);
    assert!(matches!(&unlocker.stage, Stage::Opening { passphrase, cached: true } if passphrase == "correct-horse"));
    let (unlocker, turn) = unlocker.step(Event::Opened);
    assert!(turn.effects.is_empty());
    assert_eq!(turn.ask, Ask::Proceed);
    assert_eq!(unlocker.passphrase(), Some("correct-horse"));
    assert_eq!(unlocker.cache.record, record);
}

#[test]
fn wrong_code_destroys_the_cache_and_falls_back() {
    let (unlocker, _) = Unlocker::begin(cache_for("correct-horse"));
    let (unlocker, turn) = unlocker.step(Event::Code("nope".to_string()));
    assert_eq!(turn.effects, vec![Effect::Notify(Notice::WrongCode), Effect::DeleteCache]);
    assert_eq!(turn.ask, Ask::Passphrase);
    assert!(!unlocker.cache.is_present());
    assert!(matches!(unlocker.stage, Stage::AwaitPassphrase));
    // The code is not asked for a second time.
    let (unlocker, turn) = unlocker.step(Event::Code("rse".to_string()));
    assert!(turn.effects.is_empty());
    assert_eq!(turn.ask, Ask::Passphrase);
    assert!(matches!(unlocker.stage, Stage::AwaitPassphrase));
}

#[test]
fn vault_that_refuses_the_cached_passphrase_is_fatal() {
    let (unlocker, _) = Unlocker::begin(cache_for("correct-horse"));
    let (unlocker, _) = unlocker.step(Event::Code("rse".to_string()));
    let (unlocker, turn) = unlocker.step(Event::Rejected);
    assert!(turn.effects.is_empty());
    assert_eq!(turn.ask, Ask::Abort);
    assert!(matches!(unlocker.stage, Stage::Failed(Failure::CachedKeyRejected)));
    assert_eq!(unlocker.passphrase(), None);
}

#[test]
fn cache_that_holds_no_text_is_fatal() {
    let mut record = Vec::new();
    Cocoon::new(b"abc").dump(vec![0xff, 0xff], &mut record).unwrap();
    let (unlocker, _) = Unlocker::begin(Cache::holding(record.clone()));
    let (unlocker, turn) = unlocker.step(Event::Code("abc".to_string()));
    assert!(turn.effects.is_empty());
    assert_eq!(turn.ask, Ask::Abort);
    assert!(matches!(unlocker.stage, Stage::Failed(Failure::NotText)));
    assert_eq!(unlocker.cache.record, Some(record));
}

#[test]
fn passphrase_too_short_for_a_code_is_fatal_after_opening() {
    let (unlocker, _) = Unlocker::begin(Cache::absent());
    let (unlocker, _) = unlocker.step(Event::Passphrase("ab".to_string()));
    let (unlocker, turn) = unlocker.step(Event::Opened);
    assert!(turn.effects.is_empty());
    assert_eq!(turn.ask, Ask::Abort);
    assert!(matches!(unlocker.stage, Stage::Failed(Failure::TooShort)));
    assert!(!unlocker.cache.is_present());
}

#[test]
fn stray_events_leave_unlocking_as_it_is() {
    let (unlocker, _) = Unlocker::begin(Cache::absent());
    let (unlocker, turn) = unlocker.step(Event::Opened);
    assert!(turn.effects.is_empty());
    assert_eq!(turn.ask, Ask::Passphrase);
    assert!(matches!(unlocker.stage, Stage::AwaitPassphrase));
    let (unlocker, _) = unlocker.step(Event::Passphrase("correct-horse".to_string()));
    let (unlocker, turn) = unlocker.step(Event::Passphrase("other".to_string()));
    assert_eq!(turn.ask, Ask::OpenVault);
    assert_eq!(unlocker.passphrase(), Some("correct-horse"));
    let (unlocker, _) = unlocker.step(Event::Opened);
    let (unlocker, turn) = unlocker.step(Event::Rejected);
    assert_eq!(turn.ask, Ask::Proceed);
    assert!(matches!(unlocker.stage, Stage::Unlocked { .. }));
}

#[test]
fn vault_comes_with_the_passphrase_that_opened_it() {
    let (unlocker, _) = Unlocker::begin(Cache::absent());
    let (unlocker, _) = unlocker.step(Event::Passphrase("correct-horse".to_string()));
    let (unlocker, _) = unlocker.step(Event::Opened);
    let mut root = Group::new();
    root.add_child(kpvault::entry::Entry::new(5));
    let vault = unlocker.into_vault(root).unwrap();
    assert_eq!(vault.passphrase, "correct-horse");
    assert_eq!(vault.root.list_entries().len(), 1);
}

#[test]
fn there_is_no_vault_before_the_vault_is_unlocked() {
    let (unlocker, _) = Unlocker::begin(Cache::absent());
    assert!(unlocker.into_vault(Group::new()).is_none());
    let (unlocker, _) = Unlocker::begin(Cache::absent());
    let (unlocker, _) = unlocker.step(Event::Passphrase("correct-horse".to_string()));
    assert!(unlocker.into_vault(Group::new()).is_none());
}
