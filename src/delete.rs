use vstd::prelude::*;

use crate::classify::{
    is_artifact, lemma_empty_dir_rejected, lists, lists_name, ArtifactKind, DirSnapshot,
};

verus! {

/// What to do with a directory that was asked to be deleted.
#[derive(Clone, Copy, Debug, PartialEq, Eq, Structural)]
pub enum DeleteAction {
    /// It is not (or no longer) a directory of the requested kind: nothing to do.
    NotApplicable,
    /// It qualifies, but this is a dry run: touch nothing, report zero.
    DryRun,
    /// Measure it, then remove the whole tree.
    Remove,
}

/// The action for a directory that does or does not qualify.
pub open spec fn action_for(qualifies: bool, dry_run: bool) -> DeleteAction {
    if !qualifies {
        DeleteAction::NotApplicable
    } else if dry_run {
        DeleteAction::DryRun
    } else {
        DeleteAction::Remove
    }
}

/// The parent directory holds a `Cargo.toml`.
pub open spec fn parent_has_manifest(s: DirSnapshot) -> bool {
    match s.parent {
        Some(p) => lists(p@, "Cargo.toml"@),
        None => false,
    }
}

/// Cargo build output that belongs to the project beside it.
pub open spec fn is_owned_target(s: DirSnapshot) -> bool {
    is_artifact(ArtifactKind::RustTarget, s) && parent_has_manifest(s)
}

/// Cargo build output whose project is gone.
pub open spec fn is_orphaned_target(s: DirSnapshot) -> bool {
    is_artifact(ArtifactKind::RustTarget, s) && !parent_has_manifest(s)
}

/// What a deletion reports: `Ok(None)` when nothing applied, `Ok(Some(0))`
/// for a dry run, the bytes measured before a removal that succeeded, or the
/// removal's error.
pub open spec fn outcome_of(
    action: DeleteAction,
    measured: u64,
    removal: Result<(), String>,
) -> Result<Option<u64>, String> {
    match action {
        DeleteAction::NotApplicable => Ok(None),
        DeleteAction::DryRun => Ok(Some(0)),
        DeleteAction::Remove => match removal {
            Ok(_) => Ok(Some(measured)),
            Err(e) => Err(e),
        },
    }
}

fn action(qualifies: bool, dry_run: bool) -> (r: DeleteAction)
    ensures
        r == action_for(qualifies, dry_run),
{
    if !qualifies {
        DeleteAction::NotApplicable
    } else if dry_run {
        DeleteAction::DryRun
    } else {
        DeleteAction::Remove
    }
}

/// Whether the parent directory holds a `Cargo.toml`.
pub fn parent_holds_manifest(s: &DirSnapshot) -> (r: bool)
    ensures
        r == parent_has_manifest(*s),
{
    match &s.parent {
        Some(p) => lists_name(p, "Cargo.toml"),
        None => false,
    }
}

/// Re-checks a directory of kind `k` right before deletion and says what to do.
pub fn delete_artifact(k: ArtifactKind, s: &DirSnapshot, dry_run: bool) -> (r: DeleteAction)
    ensures
        r == action_for(is_artifact(k, *s), dry_run),
{
    action(k.matches(s), dry_run)
}

/// Deletion of a project's Cargo build output: it must still be build output
/// and its parent must still hold the `Cargo.toml`.
pub fn delete_target_dir(s: &DirSnapshot, dry_run: bool) -> (r: DeleteAction)
    ensures
        r == action_for(is_owned_target(*s), dry_run),
{
    let q = ArtifactKind::RustTarget.matches(s) && parent_holds_manifest(s);
    action(q, dry_run)
}

/// Deletion of orphaned Cargo build output: it must still be build output and
/// its parent must not hold a `Cargo.toml`.
pub fn delete_orphaned_target_dir(s: &DirSnapshot, dry_run: bool) -> (r: DeleteAction)
    ensures
        r == action_for(is_orphaned_target(*s), dry_run),
{
    let q = ArtifactKind::RustTarget.matches(s) && !parent_holds_manifest(s);
    action(q, dry_run)
}

pub fn delete_node_modules_dir(s: &DirSnapshot, dry_run: bool) -> (r: DeleteAction)
    ensures
        r == action_for(is_artifact(ArtifactKind::NodeModules, *s), dry_run),
{
    delete_artifact(ArtifactKind::NodeModules, s, dry_run)
}

pub fn delete_venv_dir(s: &DirSnapshot, dry_run: bool) -> (r: DeleteAction)
    ensures
        r == action_for(is_artifact(ArtifactKind::PythonVenv, *s), dry_run),
{
    delete_artifact(ArtifactKind::PythonVenv, s, dry_run)
}

pub fn delete_sccache_dir(s: &DirSnapshot, dry_run: bool) -> (r: DeleteAction)
    ensures
        r == action_for(is_artifact(ArtifactKind::Sccache, *s), dry_run),
{
    delete_artifact(ArtifactKind::Sccache, s, dry_run)
}

pub fn delete_stack_work_dir(s: &DirSnapshot, dry_run: bool) -> (r: DeleteAction)
    ensures
        r == action_for(is_artifact(ArtifactKind::StackWork, *s), dry_run),
{
    delete_artifact(ArtifactKind::StackWork, s, dry_run)
}

pub fn delete_rustup_dir(s: &DirSnapshot, dry_run: bool) -> (r: DeleteAction)
    ensures
        r == action_for(is_artifact(ArtifactKind::Rustup, *s), dry_run),
{
    delete_artifact(ArtifactKind::Rustup, s, dry_run)
}

pub fn delete_next_dir(s: &DirSnapshot, dry_run: bool) -> (r: DeleteAction)
    ensures
        r == action_for(is_artifact(ArtifactKind::NextBuild, *s), dry_run),
{
    delete_artifact(ArtifactKind::NextBuild, s, dry_run)
}

pub fn delete_cargo_nix_dir(s: &DirSnapshot, dry_run: bool) -> (r: DeleteAction)
    ensures
        r == action_for(is_artifact(ArtifactKind::CargoNix, *s), dry_run),
{
    delete_artifact(ArtifactKind::CargoNix, s, dry_run)
}

/// Turns an action and what came of carrying it out into the deletion's
/// report. `measured` is the size taken before removal and `removal` the
/// result of removing the tree; both are read only for `Remove`.
pub fn deletion_outcome(action: DeleteAction, measured: u64, removal: Result<(), String>) -> (r:
    Result<Option<u64>, String>)
    ensures
        r == outcome_of(action, measured, removal),
{
    match action {
        DeleteAction::NotApplicable => Ok(None),
        DeleteAction::DryRun => Ok(Some(0)),
        DeleteAction::Remove => match removal {
            Ok(_) => Ok(Some(measured)),
            Err(e) => Err(e),
        },
    }
}

/// A dry run is pure: for every kind, and for both flavours of Cargo build
/// output, it never asks for a removal, and what it reports is either "no
/// match" or the zero sentinel, whatever the directory holds.
pub proof fn lemma_dry_run_is_pure(
    k: ArtifactKind,
    s: DirSnapshot,
    measured: u64,
    removal: Result<(), String>,
)
    ensures
        action_for(is_artifact(k, s), true) != DeleteAction::Remove,
        action_for(is_owned_target(s), true) != DeleteAction::Remove,
        action_for(is_orphaned_target(s), true) != DeleteAction::Remove,
        outcome_of(action_for(is_artifact(k, s), true), measured, removal) matches Ok(r) && (
        r == Some(0u64) || r == None::<u64>),
        outcome_of(action_for(is_owned_target(s), true), measured, removal) matches Ok(r) && (r
            == Some(0u64) || r == None::<u64>),
        outcome_of(action_for(is_orphaned_target(s), true), measured, removal) matches Ok(r) && (
        r == Some(0u64) || r == None::<u64>),
{
}

/// Deleting twice is harmless: once the path is gone (nothing left inside
/// it), a second deletion of any kind finds no match and reports `Ok(None)`,
/// not an error. A first deletion that removed the tree reported the bytes
/// it measured.
pub proof fn lemma_second_delete_finds_nothing(
    k: ArtifactKind,
    first: DirSnapshot,
    gone: DirSnapshot,
    dry_run: bool,
    measured: u64,
    measured_again: u64,
    removal_again: Result<(), String>,
)
    requires
        gone.entries@.len() == 0,
    ensures
        action_for(is_artifact(k, first), false) == DeleteAction::Remove ==> outcome_of(
            action_for(is_artifact(k, first), false),
            measured,
            Ok(()),
        ) == Ok::<Option<u64>, String>(Some(measured)),
        outcome_of(action_for(is_artifact(k, gone), dry_run), measured_again, removal_again)
            == Ok::<Option<u64>, String>(None),
        outcome_of(action_for(is_owned_target(gone), dry_run), measured_again, removal_again)
            == Ok::<Option<u64>, String>(None),
        outcome_of(action_for(is_orphaned_target(gone), dry_run), measured_again, removal_again)
            == Ok::<Option<u64>, String>(None),
{
    lemma_empty_dir_rejected(k, gone);
    lemma_empty_dir_rejected(ArtifactKind::RustTarget, gone);
}

} // verus!
