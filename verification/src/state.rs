use crate::config::Repo;
use vstd::prelude::*;

verus! {

/// How far the synchronisation of one repository has come.
#[derive(Debug, Clone, Copy, PartialEq, Eq, Structural)]
pub enum SyncStage {
    /// Nothing is known of the repository yet.
    Unknown,
    /// The store has a row for the repository, and its id is known.
    RepoIdEnsured,
    /// Every commit that the exporter gave is in the store.
    CommitsDrained,
    /// Every reference is in the store: the repository is done.
    RefsDrained,
    /// A step failed: the repository is given up for this run.
    Aborted,
}

/// What is to be done next for a repository.
#[derive(Debug, Clone, Copy, PartialEq, Eq, Structural)]
pub enum SyncAction {
    EnsureRepoId,
    DrainCommits,
    DrainRefs,
    /// Nothing more: go on to the next repository.
    Stop,
}

/// After how many commits a line of progress is due.
pub const COMMIT_PROGRESS: u32 = 1000;

/// After how many references a line of progress is due.
pub const REF_PROGRESS: u32 = 100;

/// The step that a stage calls for.
pub open spec fn spec_next_action(stage: SyncStage) -> SyncAction {
    match stage {
        SyncStage::Unknown => SyncAction::EnsureRepoId,
        SyncStage::RepoIdEnsured => SyncAction::DrainCommits,
        SyncStage::CommitsDrained => SyncAction::DrainRefs,
        SyncStage::RefsDrained => SyncAction::Stop,
        SyncStage::Aborted => SyncAction::Stop,
    }
}

/// The stage after the step that a stage calls for: the next one where the
/// step succeeded, `Aborted` where it failed. The last two stages stay.
pub open spec fn spec_advance(stage: SyncStage, succeeded: bool) -> SyncStage {
    match stage {
        SyncStage::RefsDrained => SyncStage::RefsDrained,
        SyncStage::Aborted => SyncStage::Aborted,
        SyncStage::Unknown => if succeeded {
            SyncStage::RepoIdEnsured
        } else {
            SyncStage::Aborted
        },
        SyncStage::RepoIdEnsured => if succeeded {
            SyncStage::CommitsDrained
        } else {
            SyncStage::Aborted
        },
        SyncStage::CommitsDrained => if succeeded {
            SyncStage::RefsDrained
        } else {
            SyncStage::Aborted
        },
    }
}

/// The step to take at a stage.
pub fn next_action(stage: SyncStage) -> (action: SyncAction)
    ensures
        action == spec_next_action(stage),
{
    match stage {
        SyncStage::Unknown => SyncAction::EnsureRepoId,
        SyncStage::RepoIdEnsured => SyncAction::DrainCommits,
        SyncStage::CommitsDrained => SyncAction::DrainRefs,
        SyncStage::RefsDrained => SyncAction::Stop,
        SyncStage::Aborted => SyncAction::Stop,
    }
}

/// Moves on after a step has succeeded or failed.
pub fn advance(stage: SyncStage, succeeded: bool) -> (next: SyncStage)
    ensures
        next == spec_advance(stage, succeeded),
{
    match stage {
        SyncStage::RefsDrained => SyncStage::RefsDrained,
        SyncStage::Aborted => SyncStage::Aborted,
        SyncStage::Unknown => if succeeded {
            SyncStage::RepoIdEnsured
        } else {
            SyncStage::Aborted
        },
        SyncStage::RepoIdEnsured => if succeeded {
            SyncStage::CommitsDrained
        } else {
            SyncStage::Aborted
        },
        SyncStage::CommitsDrained => if succeeded {
            SyncStage::RefsDrained
        } else {
            SyncStage::Aborted
        },
    }
}

/// How many steps lie between a stage and the end of the work on its
/// repository.
pub open spec fn steps_left(stage: SyncStage) -> nat {
    match stage {
        SyncStage::Unknown => 3,
        SyncStage::RepoIdEnsured => 2,
        SyncStage::CommitsDrained => 1,
        SyncStage::RefsDrained => 0,
        SyncStage::Aborted => 0,
    }
}

/// The work on a repository ends: each step, whether it succeeds or fails,
/// leaves fewer steps, and a stage with no step left asks for none. A
/// failure ends the work at once, and three successes in a row end it done.
pub proof fn lemma_sync_ends(stage: SyncStage, succeeded: bool)
    ensures
        steps_left(stage) == 0 <==> spec_next_action(stage) == SyncAction::Stop,
        steps_left(stage) > 0 ==> steps_left(spec_advance(stage, succeeded)) < steps_left(stage),
        steps_left(stage) > 0 ==> spec_advance(stage, false) == SyncStage::Aborted,
        steps_left(stage) == 0 ==> spec_advance(stage, succeeded) == stage,
        spec_advance(spec_advance(spec_advance(SyncStage::Unknown, true), true), true)
            == SyncStage::RefsDrained,
{
}

/// Whether a line of progress is due after `count` items, one being due
/// after every `every` of them.
pub fn progress_due(count: u32, every: u32) -> (due: bool)
    ensures
        due == (every != 0 && count % every == 0),
{
    every != 0 && count % every == 0
}

/// The place of the first repository that lies at the given path, if there
/// is one.
pub fn find_by_path(repos: &Vec<Repo>, path: &String) -> (at: Option<usize>)
    ensures
        match at {
            Some(i) => i < repos@.len() && repos@[i as int].path@ == path@ && forall|k: int|
                0 <= k < i ==> (#[trigger] repos@[k]).path@ != path@,
            None => forall|k: int| 0 <= k < repos@.len() ==> (#[trigger] repos@[k]).path@ != path@,
        },
{
    let mut i: usize = 0;
    while i < repos.len()
        invariant
            i <= repos@.len(),
            forall|k: int| 0 <= k < i ==> (#[trigger] repos@[k]).path@ != path@,
        decreases repos@.len() - i,
    {
        if repos[i].path == *path {
            return Some(i);
        }
        i += 1;
    }
    None
}

} // verus!
