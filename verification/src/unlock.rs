//! Unlocking at startup: one attempt with the short code where a cache
//! exists, then the full passphrase, asked for until the vault opens.
//!
//! The controller decides; the caller prompts, opens the vault and keeps the
//! cache file in step. An effect that fails ends the program, so no event
//! reports such a failure.

use vstd::prelude::*;
use crate::cache::{
    holds_passphrase, lemma_stored_passphrase_is_recovered, verdict, Cache, StoreError, Unlock,
    Verdict,
};
use crate::code::code_of;
use crate::tree::Group;
use crate::vault::{Vault, VaultView};

verus! {

/// Why unlocking ended without a vault.
#[derive(Clone, Copy, Debug, PartialEq, Eq, Structural)]
pub enum Failure {
    /// The cache opened under the code, but held no UTF-8 text.
    NotText,
    /// The vault refused the passphrase that the cache gave.
    CachedKeyRejected,
    /// The passphrase opened the vault but is too short to derive a code
    /// from.
    TooShort,
    /// The passphrase opened the vault but could not be sealed.
    SealFailed,
}

/// What the user is told.
#[derive(Clone, Copy, Debug, PartialEq, Eq, Structural)]
pub enum Notice {
    /// The code did not open the cache.
    WrongCode,
    /// The vault did not open under the passphrase.
    OpenFailed,
}

/// What the caller does before it asks again, in the order given.
#[derive(Clone, Copy, Debug, PartialEq, Eq, Structural)]
pub enum Effect {
    /// Print the notice.
    Notify(Notice),
    /// Delete the cache file.
    DeleteCache,
    /// Write the controller's record to the cache file, in place of what the
    /// file held.
    WriteCache,
}

/// What the caller does next, and answers with an event.
#[derive(Clone, Copy, Debug, PartialEq, Eq, Structural)]
pub enum Ask {
    /// Prompt for the short code.
    Code,
    /// Prompt for the master passphrase.
    Passphrase,
    /// Open the vault with the controller's passphrase.
    OpenVault,
    /// The vault is open: go on.
    Proceed,
    /// Unlocking failed: give up.
    Abort,
}

/// Where unlocking stands.
pub enum Stage {
    AwaitCode,
    AwaitPassphrase,
    /// The vault is being opened; `cached` tells whether the passphrase came
    /// from the cache.
    Opening { passphrase: String, cached: bool },
    Unlocked { passphrase: String },
    Failed(Failure),
}

/// What a [`Stage`] stands for.
pub enum StageView {
    AwaitCode,
    AwaitPassphrase,
    Opening { passphrase: Seq<char>, cached: bool },
    Unlocked { passphrase: Seq<char> },
    Failed(Failure),
}

impl View for Stage {
    type V = StageView;

    open spec fn view(&self) -> StageView {
        match self {
            Stage::AwaitCode => StageView::AwaitCode,
            Stage::AwaitPassphrase => StageView::AwaitPassphrase,
            Stage::Opening { passphrase, cached } => StageView::Opening {
                passphrase: passphrase@,
                cached: *cached,
            },
            Stage::Unlocked { passphrase } => StageView::Unlocked { passphrase: passphrase@ },
            Stage::Failed(failure) => StageView::Failed(*failure),
        }
    }
}

/// What the caller reports.
pub enum Event {
    /// The user entered this code.
    Code(String),
    /// The user entered this passphrase.
    Passphrase(String),
    /// The vault opened.
    Opened,
    /// The vault did not open.
    Rejected,
}

/// What an [`Event`] stands for.
pub enum EventView {
    Code(Seq<char>),
    Passphrase(Seq<char>),
    Opened,
    Rejected,
}

impl View for Event {
    type V = EventView;

    open spec fn view(&self) -> EventView {
        match self {
            Event::Code(code) => EventView::Code(code@),
            Event::Passphrase(passphrase) => EventView::Passphrase(passphrase@),
            Event::Opened => EventView::Opened,
            Event::Rejected => EventView::Rejected,
        }
    }
}

/// The controller's answer to an event.
pub struct Turn {
    pub effects: Vec<Effect>,
    pub ask: Ask,
}

/// The unlock controller: the image of the cache file and the stage reached.
pub struct Unlocker {
    pub cache: Cache,
    pub stage: Stage,
}

/// What an [`Unlocker`] stands for.
pub struct UnlockerView {
    pub cache: Option<Seq<u8>>,
    pub stage: StageView,
}

impl View for Unlocker {
    type V = UnlockerView;

    open spec fn view(&self) -> UnlockerView {
        UnlockerView { cache: self.cache@, stage: self.stage@ }
    }
}

/// The request that stands at a stage.
pub open spec fn pending(stage: StageView) -> Ask {
    match stage {
        StageView::AwaitCode => Ask::Code,
        StageView::AwaitPassphrase => Ask::Passphrase,
        StageView::Opening { .. } => Ask::OpenVault,
        StageView::Unlocked { .. } => Ask::Proceed,
        StageView::Failed(_) => Ask::Abort,
    }
}

/// One step of unlocking: from `before`, on `event`, to `after`, with the
/// effects and the request that the caller is handed.
///
/// A code is tried once. If the record opens, the vault is opened with what
/// it held, and a vault that refuses it is fatal. If it does not open, the
/// cache is destroyed and the passphrase is asked for. A passphrase that the
/// vault refuses is asked for again, without limit; one that opens the vault
/// is sealed into the cache. An event that does not answer the request that
/// stands changes nothing.
pub open spec fn steps(
    before: UnlockerView,
    event: EventView,
    after: UnlockerView,
    effects: Seq<Effect>,
    ask: Ask,
) -> bool {
    match (before.stage, event) {
        (StageView::AwaitCode, EventView::Code(code)) => match verdict(before.cache, code) {
            Verdict::Recovered(passphrase) => {
                &&& after == UnlockerView {
                    cache: before.cache,
                    stage: StageView::Opening { passphrase, cached: true },
                }
                &&& effects == Seq::<Effect>::empty()
                &&& ask == Ask::OpenVault
            },
            Verdict::WrongCode => {
                &&& after == UnlockerView { cache: None, stage: StageView::AwaitPassphrase }
                &&& effects == seq![Effect::Notify(Notice::WrongCode), Effect::DeleteCache]
                &&& ask == Ask::Passphrase
            },
            Verdict::NotText => {
                &&& after == UnlockerView {
                    cache: before.cache,
                    stage: StageView::Failed(Failure::NotText),
                }
                &&& effects == Seq::<Effect>::empty()
                &&& ask == Ask::Abort
            },
            Verdict::NoCache => {
                &&& after == UnlockerView { cache: None, stage: StageView::AwaitPassphrase }
                &&& effects == Seq::<Effect>::empty()
                &&& ask == Ask::Passphrase
            },
        },
        (StageView::AwaitPassphrase, EventView::Passphrase(passphrase)) => {
            &&& after == UnlockerView {
                cache: before.cache,
                stage: StageView::Opening { passphrase, cached: false },
            }
            &&& effects == Seq::<Effect>::empty()
            &&& ask == Ask::OpenVault
        },
        (StageView::Opening { passphrase, cached: true }, EventView::Opened) => {
            &&& after == UnlockerView {
                cache: before.cache,
                stage: StageView::Unlocked { passphrase },
            }
            &&& effects == Seq::<Effect>::empty()
            &&& ask == Ask::Proceed
        },
        (StageView::Opening { passphrase, cached: true }, EventView::Rejected) => {
            &&& after == UnlockerView {
                cache: before.cache,
                stage: StageView::Failed(Failure::CachedKeyRejected),
            }
            &&& effects == Seq::<Effect>::empty()
            &&& ask == Ask::Abort
        },
        (StageView::Opening { passphrase, cached: false }, EventView::Opened) => {
            if code_of(passphrase) is None {
                &&& after == UnlockerView {
                    cache: before.cache,
                    stage: StageView::Failed(Failure::TooShort),
                }
                &&& effects == Seq::<Effect>::empty()
                &&& ask == Ask::Abort
            } else {
                ||| {
                    &&& after.cache matches Some(record) && holds_passphrase(record, passphrase)
                    &&& after.stage == StageView::Unlocked { passphrase }
                    &&& effects == seq![Effect::WriteCache]
                    &&& ask == Ask::Proceed
                }
                ||| {
                    &&& after == UnlockerView {
                        cache: before.cache,
                        stage: StageView::Failed(Failure::SealFailed),
                    }
                    &&& effects == Seq::<Effect>::empty()
                    &&& ask == Ask::Abort
                }
            }
        },
        (StageView::Opening { passphrase, cached: false }, EventView::Rejected) => {
            &&& after == UnlockerView { cache: before.cache, stage: StageView::AwaitPassphrase }
            &&& effects == seq![Effect::Notify(Notice::OpenFailed)]
            &&& ask == Ask::Passphrase
        },
        _ => {
            &&& after == before
            &&& effects == Seq::<Effect>::empty()
            &&& ask == pending(before.stage)
        },
    }
}

/// The code is tried once: a step on a code leaves the stage at which codes
/// are taken, and no step leads back to it.
pub proof fn lemma_code_is_tried_once(
    before: UnlockerView,
    event: EventView,
    after: UnlockerView,
    effects: Seq<Effect>,
    ask: Ask,
)
    requires
        steps(before, event, after, effects, ask),
    ensures
        event is Code && before.stage is AwaitCode ==> !(after.stage is AwaitCode),
        !(before.stage is AwaitCode) ==> !(after.stage is AwaitCode),
        after.stage is AwaitCode ==> after == before,
{
}

/// A cache whose record did not open is gone after the step, and the
/// caller is told to delete the file.
pub proof fn lemma_wrong_code_deletes_cache(
    before: UnlockerView,
    code: Seq<char>,
    after: UnlockerView,
    effects: Seq<Effect>,
    ask: Ask,
)
    requires
        before.stage is AwaitCode,
        verdict(before.cache, code) is WrongCode,
        steps(before, EventView::Code(code), after, effects, ask),
    ensures
        after.cache is None,
        effects.contains(Effect::DeleteCache),
        ask == Ask::Passphrase,
{
}

/// A passphrase that the cache holds comes back under the code derived from
/// it: the vault is then opened with exactly that passphrase, and the cache
/// stays.
pub proof fn lemma_cached_passphrase_comes_back(
    record: Seq<u8>,
    passphrase: Seq<char>,
    after: UnlockerView,
    effects: Seq<Effect>,
    ask: Ask,
)
    requires
        holds_passphrase(record, passphrase),
        steps(
            UnlockerView { cache: Some(record), stage: StageView::AwaitCode },
            EventView::Code(code_of(passphrase)->0),
            after,
            effects,
            ask,
        ),
    ensures
        after.cache == Some(record),
        after.stage == (StageView::Opening { passphrase, cached: true }),
        ask == Ask::OpenVault,
{
    lemma_stored_passphrase_is_recovered(record, passphrase);
}

/// The vault counts as unlocked only after the caller reported that it
/// opened, and then under the passphrase that was being tried.
pub proof fn lemma_unlocked_after_opening(
    before: UnlockerView,
    event: EventView,
    after: UnlockerView,
    effects: Seq<Effect>,
    ask: Ask,
)
    requires
        steps(before, event, after, effects, ask),
        after.stage is Unlocked,
        !(before.stage is Unlocked),
    ensures
        event is Opened,
        before.stage matches StageView::Opening { passphrase, .. } && after.stage == (
        StageView::Unlocked { passphrase }),
{
}

impl Notice {
    /// The line that tells the user.
    pub fn text(&self) -> (line: &'static str)
        ensures
            line@ == match *self {
                Notice::WrongCode => "! Quick Pass was incorrect."@,
                Notice::OpenFailed => "! Failed to open database. Wrong password?"@,
            },
    {
        match self {
            Notice::WrongCode => "! Quick Pass was incorrect.",
            Notice::OpenFailed => "! Failed to open database. Wrong password?",
        }
    }
}

impl Unlocker {
    /// Begins unlocking with the cache as it was found: with the code where
    /// there is a record, with the passphrase where there is none.
    pub fn begin(cache: Cache) -> (begun: (Unlocker, Ask))
        ensures
            begun.0@.cache == cache@,
            begun.0@.stage == if cache@ is Some {
                StageView::AwaitCode
            } else {
                StageView::AwaitPassphrase
            },
            begun.1 == pending(begun.0@.stage),
    {
        if cache.is_present() {
            (Unlocker { cache, stage: Stage::AwaitCode }, Ask::Code)
        } else {
            (Unlocker { cache, stage: Stage::AwaitPassphrase }, Ask::Passphrase)
        }
    }

    /// The request that stands.
    pub fn pending(&self) -> (ask: Ask)
        ensures
            ask == pending(self@.stage),
    {
        match &self.stage {
            Stage::AwaitCode => Ask::Code,
            Stage::AwaitPassphrase => Ask::Passphrase,
            Stage::Opening { .. } => Ask::OpenVault,
            Stage::Unlocked { .. } => Ask::Proceed,
            Stage::Failed(_) => Ask::Abort,
        }
    }

    /// The passphrase with which the vault is being opened or was opened.
    pub fn passphrase(&self) -> (passphrase: Option<&str>)
        ensures
            match self@.stage {
                StageView::Opening { passphrase: p, .. } | StageView::Unlocked { passphrase: p } => {
                    passphrase matches Some(text) && text@ == p
                },
                _ => passphrase is None,
            },
    {
        match &self.stage {
            Stage::Opening { passphrase, .. } => Some(passphrase.as_str()),
            Stage::Unlocked { passphrase } => Some(passphrase.as_str()),
            _ => None,
        }
    }

    /// The vault that unlocking ends with: the tree `root` of the database
    /// that opened, with the passphrase that opened it. There is none
    /// before the vault is unlocked.
    pub fn into_vault(self, root: Group) -> (vault: Option<Vault>)
        ensures
            match self@.stage {
                StageView::Unlocked { passphrase } => vault matches Some(v) && v@ == (VaultView {
                    root: root@,
                    passphrase,
                }),
                _ => vault is None,
            },
    {
        match self.stage {
            Stage::Unlocked { passphrase } => Some(Vault::new(root, passphrase)),
            _ => None,
        }
    }

    /// Takes one event and answers with the effects and the next request.
    pub fn step(self, event: Event) -> (next: (Unlocker, Turn))
        ensures
            steps(self@, event@, next.0@, next.1.effects@, next.1.ask),
    {
        let Unlocker { mut cache, stage } = self;
        let mut effects: Vec<Effect> = Vec::new();
        match (stage, event) {
            (Stage::AwaitCode, Event::Code(code)) => {
                match cache.try_unlock(code.as_str()) {
                    Unlock::Recovered(passphrase) => {
                        let stage = Stage::Opening { passphrase, cached: true };
                        (Unlocker { cache, stage }, Turn { effects, ask: Ask::OpenVault })
                    },
                    Unlock::WrongCode => {
                        effects.push(Effect::Notify(Notice::WrongCode));
                        effects.push(Effect::DeleteCache);
                        assert(effects@ == seq![
                            Effect::Notify(Notice::WrongCode),
                            Effect::DeleteCache,
                        ]);
                        let stage = Stage::AwaitPassphrase;
                        (Unlocker { cache, stage }, Turn { effects, ask: Ask::Passphrase })
                    },
                    Unlock::NotText => {
                        let stage = Stage::Failed(Failure::NotText);
                        (Unlocker { cache, stage }, Turn { effects, ask: Ask::Abort })
                    },
                    Unlock::NoCache => {
                        let stage = Stage::AwaitPassphrase;
                        (Unlocker { cache, stage }, Turn { effects, ask: Ask::Passphrase })
                    },
                }
            },
            (Stage::AwaitPassphrase, Event::Passphrase(passphrase)) => {
                let stage = Stage::Opening { passphrase, cached: false };
                (Unlocker { cache, stage }, Turn { effects, ask: Ask::OpenVault })
            },
            (Stage::Opening { passphrase, cached }, Event::Opened) => {
                if cached {
                    let stage = Stage::Unlocked { passphrase };
                    (Unlocker { cache, stage }, Turn { effects, ask: Ask::Proceed })
                } else {
                    match cache.store(passphrase.as_str()) {
                        Ok(()) => {
                            effects.push(Effect::WriteCache);
                            let stage = Stage::Unlocked { passphrase };
                            (Unlocker { cache, stage }, Turn { effects, ask: Ask::Proceed })
                        },
                        Err(StoreError::TooShort) => {
                            let stage = Stage::Failed(Failure::TooShort);
                            (Unlocker { cache, stage }, Turn { effects, ask: Ask::Abort })
                        },
                        Err(StoreError::SealFailed) => {
                            let stage = Stage::Failed(Failure::SealFailed);
                            (Unlocker { cache, stage }, Turn { effects, ask: Ask::Abort })
                        },
                    }
                }
            },
            (Stage::Opening { passphrase, cached }, Event::Rejected) => {
                if cached {
                    let stage = Stage::Failed(Failure::CachedKeyRejected);
                    (Unlocker { cache, stage }, Turn { effects, ask: Ask::Abort })
                } else {
                    effects.push(Effect::Notify(Notice::OpenFailed));
                    let stage = Stage::AwaitPassphrase;
                    (Unlocker { cache, stage }, Turn { effects, ask: Ask::Passphrase })
                }
            },
            (stage, _) => {
                let unlocker = Unlocker { cache, stage };
                let ask = unlocker.pending();
                (unlocker, Turn { effects, ask })
            },
        }
    }
}

} // verus!
