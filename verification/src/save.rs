//! The transactional save: back up the target, write the new vault to a
//! staging file, then copy the staging file over the target.
//!
//! The plan decides which step comes next; the caller performs it on the
//! file system and reports how it went. The target is written in the last
//! step only, and that step is reached only when staging succeeded.
//!
//! The save is ordered, not atomic: a crash between staging and publishing
//! leaves a staging file that the target does not match yet, and a copy that
//! fails while it publishes leaves a target that holds nothing to rely on.
//! The backup then still holds the target as it was.

use vstd::prelude::*;

verus! {

/// Name of the backup file, a sibling of the target.
pub const BACKUP_NAME: &'static str = ".backup.kdbx";

/// Path of the staging file. The path is fixed and lies in the shared
/// temporary directory: every local process that can reach that directory
/// can put another file in its place before it is published. The design
/// accepts this.
pub const STAGING_PATH: &'static str = "/tmp/.pass.kdbx";

/// One step of a save.
#[derive(Clone, Copy, Debug, PartialEq, Eq, Structural)]
pub enum SaveStep {
    /// Copy the target to the backup file, over any earlier backup.
    Backup,
    /// Serialize the vault to the staging file.
    Stage,
    /// Copy the staging file over the target.
    Publish,
}

/// How far a save has come.
#[derive(Clone, Copy, Debug, PartialEq, Eq, Structural)]
pub enum SaveState {
    /// The step is to be performed next.
    Pending(SaveStep),
    /// All steps succeeded.
    Done,
    /// The step failed; nothing more is done.
    Failed(SaveStep),
}

impl SaveState {
    /// The state that follows when the pending step succeeded or failed. A
    /// save that is done or has failed stays where it is.
    pub open spec fn after(self, ok: bool) -> SaveState {
        match self {
            SaveState::Pending(step) => if !ok {
                SaveState::Failed(step)
            } else {
                match step {
                    SaveStep::Backup => SaveState::Pending(SaveStep::Stage),
                    SaveStep::Stage => SaveState::Pending(SaveStep::Publish),
                    SaveStep::Publish => SaveState::Done,
                }
            },
            SaveState::Done => SaveState::Done,
            SaveState::Failed(step) => SaveState::Failed(step),
        }
    }

    /// A save that has not begun: the backup comes first.
    pub fn start() -> (state: SaveState)
        ensures
            state == SaveState::Pending(SaveStep::Backup),
    {
        SaveState::Pending(SaveStep::Backup)
    }

    /// The step to perform next, if the save is neither done nor failed.
    pub fn pending(&self) -> (step: Option<SaveStep>)
        ensures
            step == match *self {
                SaveState::Pending(s) => Some(s),
                _ => None::<SaveStep>,
            },
    {
        match self {
            SaveState::Pending(step) => Some(*step),
            _ => None,
        }
    }

    /// Takes note of how the pending step went.
    pub fn advance(self, ok: bool) -> (next: SaveState)
        ensures
            next == self.after(ok),
    {
        match self {
            SaveState::Pending(step) => {
                if !ok {
                    SaveState::Failed(step)
                } else {
                    match step {
                        SaveStep::Backup => SaveState::Pending(SaveStep::Stage),
                        SaveStep::Stage => SaveState::Pending(SaveStep::Publish),
                        SaveStep::Publish => SaveState::Done,
                    }
                }
            },
            SaveState::Done => SaveState::Done,
            SaveState::Failed(step) => SaveState::Failed(step),
        }
    }
}

/// The three files that a save touches, as their contents. A file that a
/// failed step was writing holds nothing that can be relied on.
pub struct Files {
    pub target: Seq<u8>,
    pub backup: Option<Seq<u8>>,
    pub staging: Option<Seq<u8>>,
}

/// What performing `step` does to the files, where `image` is the serialized
/// vault: a step writes its own destination and no other file, and where it
/// succeeds the destination holds all of the source.
pub open spec fn performed(step: SaveStep, ok: bool, image: Seq<u8>, before: Files, after: Files)
    -> bool {
    match step {
        SaveStep::Backup => {
            &&& after.target == before.target
            &&& after.staging == before.staging
            &&& ok ==> after.backup == Some(before.target)
        },
        SaveStep::Stage => {
            &&& after.target == before.target
            &&& after.backup == before.backup
            &&& ok ==> after.staging == Some(image)
        },
        SaveStep::Publish => {
            &&& after.backup == before.backup
            &&& after.staging == before.staging
            &&& ok ==> Some(after.target) == before.staging
        },
    }
}

/// What holds of the files at each state of a save that began with the
/// files `at_start`.
pub open spec fn consistent(state: SaveState, at_start: Files, now: Files, image: Seq<u8>)
    -> bool {
    match state {
        SaveState::Pending(SaveStep::Backup) => now == at_start,
        SaveState::Failed(SaveStep::Backup) => now.target == at_start.target,
        SaveState::Pending(SaveStep::Stage) | SaveState::Failed(SaveStep::Stage) => {
            &&& now.target == at_start.target
            &&& now.backup == Some(at_start.target)
        },
        SaveState::Pending(SaveStep::Publish) => {
            &&& now.target == at_start.target
            &&& now.backup == Some(at_start.target)
            &&& now.staging == Some(image)
        },
        SaveState::Failed(SaveStep::Publish) => now.backup == Some(at_start.target),
        SaveState::Done => now.target == image && now.backup == Some(at_start.target),
    }
}

/// Every step of a save keeps the files consistent with its state: the
/// target changes only when the staged vault is published, and from the
/// first step on the backup holds the target as it was before the save.
pub proof fn lemma_step_keeps_consistent(
    state: SaveState,
    ok: bool,
    image: Seq<u8>,
    at_start: Files,
    before: Files,
    after: Files,
)
    requires
        consistent(state, at_start, before, image),
        state matches SaveState::Pending(step) && performed(step, ok, image, before, after),
    ensures
        consistent(state.after(ok), at_start, after, image),
{
}

/// Where staging the vault fails, the target holds what it held before the
/// save, the backup holds the same, and the save performs no further step.
pub proof fn lemma_failed_staging_spares_target(
    image: Seq<u8>,
    at_start: Files,
    backed_up: Files,
    staged: Files,
)
    requires
        performed(SaveStep::Backup, true, image, at_start, backed_up),
        performed(SaveStep::Stage, false, image, backed_up, staged),
    ensures
        SaveState::Pending(SaveStep::Backup).after(true).after(false) == SaveState::Failed(
            SaveStep::Stage,
        ),
        staged.target == at_start.target,
        staged.backup == Some(at_start.target),
{
}

} // verus!
