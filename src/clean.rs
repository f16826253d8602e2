use vstd::prelude::*;
use vstd::string::StrSliceExecFns;

use crate::classify::DirSnapshot;
use crate::delete::{is_owned_target, parent_holds_manifest};
use crate::size::saturate;

verus! {

/// How the cleanup of one Cargo project ended.
#[allow(inconsistent_fields)]
pub enum CleanStatus {
    /// The project was valid; its build output was removed (`None` when it
    /// had none, or on a dry run).
    Success { space_freed: Option<u64> },
    /// The project failed validation; only its `target` was removed.
    TargetOnly { space_freed: u64, reason: String },
    /// A removal failed.
    Failed(String),
    /// The project failed validation and was left alone.
    Skipped(String),
}

/// A project and how its cleanup ended.
pub struct CleanResult {
    pub project_path: String,
    pub status: CleanStatus,
}

impl CleanResult {
    pub fn is_success(&self) -> (r: bool)
        ensures
            r == self.status is Success,
    {
        matches!(self.status, CleanStatus::Success { .. })
    }

    pub fn is_target_only(&self) -> (r: bool)
        ensures
            r == self.status is TargetOnly,
    {
        matches!(self.status, CleanStatus::TargetOnly { .. })
    }

    pub fn is_skipped(&self) -> (r: bool)
        ensures
            r == self.status is Skipped,
    {
        matches!(self.status, CleanStatus::Skipped(_))
    }

    /// Bytes freed, where the cleanup removed something or would have.
    pub fn space_freed(&self) -> (r: Option<u64>)
        ensures
            r == match self.status {
                CleanStatus::Success { space_freed } => space_freed,
                CleanStatus::TargetOnly { space_freed, .. } => Some(space_freed),
                _ => None,
            },
    {
        match &self.status {
            CleanStatus::Success { space_freed } => *space_freed,
            CleanStatus::TargetOnly { space_freed, .. } => Some(*space_freed),
            _ => None,
        }
    }
}

/// The next step in cleaning one project.
pub enum CleanPlan {
    /// Ask Cargo to read the project's metadata, then plan again with the answer.
    Validate,
    /// Nothing to remove: the cleanup ends with this status.
    Finish(CleanStatus),
    /// The project is invalid: remove only its `target`, then finish.
    RemoveTargetOnly { reason: String },
    /// Remove the build directories flagged here (`target`, `target-ra`),
    /// then finish.
    RemoveTargets { target: bool, target_ra: bool },
}

/// The plan for a project, given its options, the validation answer so far
/// and what was seen of its `target` and `target-ra` directories.
///
/// Unless `force` is set, the project is validated first. An invalid project
/// is skipped under `strict`; otherwise its `target` alone is removed, when
/// it is genuine build output (a dry run reports zero bytes). A valid project
/// on a dry run succeeds with nothing measured. Otherwise every genuine build
/// directory is removed, and with none the cleanup succeeds at once.
pub open spec fn plan_of(
    dry_run: bool,
    force: bool,
    strict: bool,
    validation: Option<Result<(), String>>,
    target: DirSnapshot,
    target_ra: DirSnapshot,
) -> CleanPlan {
    if !force && validation is None {
        CleanPlan::Validate
    } else if !force && validation matches Some(Err(_)) {
        let reason = validation->Some_0->Err_0;
        if !strict && is_owned_target(target) {
            if dry_run {
                CleanPlan::Finish(CleanStatus::TargetOnly { space_freed: 0, reason })
            } else {
                CleanPlan::RemoveTargetOnly { reason }
            }
        } else {
            CleanPlan::Finish(CleanStatus::Skipped(reason))
        }
    } else if dry_run {
        CleanPlan::Finish(CleanStatus::Success { space_freed: None })
    } else if !is_owned_target(target) && !is_owned_target(target_ra) {
        CleanPlan::Finish(CleanStatus::Success { space_freed: None })
    } else {
        CleanPlan::RemoveTargets {
            target: is_owned_target(target),
            target_ra: is_owned_target(target_ra),
        }
    }
}

/// What a plan's removals must report: one result per flagged directory,
/// the bytes measured before removal or the removal's error.
pub open spec fn reports_fit(
    plan: CleanPlan,
    target: Option<Result<u64, String>>,
    target_ra: Option<Result<u64, String>>,
) -> bool {
    match plan {
        CleanPlan::Validate => false,
        CleanPlan::Finish(_) => target is None && target_ra is None,
        CleanPlan::RemoveTargetOnly { .. } => target is Some && target_ra is None,
        CleanPlan::RemoveTargets { target: t, target_ra: tr } => (target is Some <==> t) && (
        target_ra is Some <==> tr),
    }
}

pub open spec fn bytes_of(report: Option<Result<u64, String>>) -> nat {
    match report {
        Some(Ok(b)) => b as nat,
        _ => 0,
    }
}

/// The status that ends a plan, given what its removals reported: the first
/// failed removal fails the project; otherwise the measured bytes add up
/// (stopping at `u64::MAX`).
pub open spec fn status_of(
    plan: CleanPlan,
    target: Option<Result<u64, String>>,
    target_ra: Option<Result<u64, String>>,
) -> CleanStatus {
    match plan {
        CleanPlan::Finish(st) => st,
        CleanPlan::RemoveTargetOnly { reason } => match target {
            Some(Err(e)) => CleanStatus::Failed(e),
            _ => CleanStatus::TargetOnly { space_freed: bytes_of(target) as u64, reason },
        },
        _ => match (target, target_ra) {
            (Some(Err(e)), _) => CleanStatus::Failed(e),
            (_, Some(Err(e))) => CleanStatus::Failed(e),
            _ => CleanStatus::Success {
                space_freed: Some(saturate(bytes_of(target) + bytes_of(target_ra))),
            },
        },
    }
}

/// The build directories a project may own, in the order they are handled.
pub fn target_variants() -> (r: Vec<&'static str>)
    ensures
        r@.len() == 2,
        r@[0]@ == "target"@,
        r@[1]@ == "target-ra"@,
{
    vec!["target", "target-ra"]
}

fn owned_target(s: &DirSnapshot) -> (r: bool)
    ensures
        r == is_owned_target(*s),
{
    crate::classify::is_rust_target_dir(s) && parent_holds_manifest(s)
}

/// Decides the next step in cleaning a project (see [`plan_of`]). Call it
/// first with `validation == None`; when it answers `Validate`, validate and
/// call it again with the answer.
pub fn clean_project(
    dry_run: bool,
    force: bool,
    strict: bool,
    validation: &Option<Result<(), String>>,
    target: &DirSnapshot,
    target_ra: &DirSnapshot,
) -> (r: CleanPlan)
    ensures
        r == plan_of(dry_run, force, strict, *validation, *target, *target_ra),
{
    if !force {
        match validation {
            None => {
                return CleanPlan::Validate;
            },
            Some(Err(reason)) => {
                let reason = reason.clone();
                if !strict && owned_target(target) {
                    if dry_run {
                        return CleanPlan::Finish(CleanStatus::TargetOnly { space_freed: 0, reason });
                    } else {
                        return CleanPlan::RemoveTargetOnly { reason };
                    }
                } else {
                    return CleanPlan::Finish(CleanStatus::Skipped(reason));
                }
            },
            Some(Ok(())) => {},
        }
    }
    if dry_run {
        return CleanPlan::Finish(CleanStatus::Success { space_freed: None });
    }
    let t = owned_target(target);
    let tr = owned_target(target_ra);
    if !t && !tr {
        CleanPlan::Finish(CleanStatus::Success { space_freed: None })
    } else {
        CleanPlan::RemoveTargets { target: t, target_ra: tr }
    }
}

fn bytes(report: &Option<Result<u64, String>>) -> (r: u64)
    ensures
        r as nat == bytes_of(*report),
{
    match report {
        Some(Ok(b)) => *b,
        _ => 0,
    }
}

/// Ends a project's cleanup: the status of [`status_of`], with the project's path.
pub fn finish_clean(
    project_path: String,
    plan: CleanPlan,
    target: Option<Result<u64, String>>,
    target_ra: Option<Result<u64, String>>,
) -> (r: CleanResult)
    requires
        reports_fit(plan, target, target_ra),
    ensures
        r.project_path == project_path,
        r.status == status_of(plan, target, target_ra),
{
    let status = match plan {
        CleanPlan::Finish(st) => st,
        CleanPlan::RemoveTargetOnly { reason } => match target {
            Some(Err(e)) => CleanStatus::Failed(e),
            _ => CleanStatus::TargetOnly { space_freed: bytes(&target), reason },
        },
        _ => {
            let total = bytes(&target).saturating_add(bytes(&target_ra));
            match (target, target_ra) {
                (Some(Err(e)), _) => CleanStatus::Failed(e),
                (_, Some(Err(e))) => CleanStatus::Failed(e),
                _ => CleanStatus::Success { space_freed: Some(total) },
            }
        },
    };
    CleanResult { project_path, status }
}

/// Index of the first line feed at or after `i`, or the length of `s`.
pub open spec fn line_end(s: Seq<char>, i: int) -> int
    decreases s.len() - i,
{
    if i >= s.len() {
        s.len() as int
    } else if s[i] == '\n' {
        i
    } else {
        line_end(s, i + 1)
    }
}

/// The first line of a tool's diagnostic output, as `str::lines` gives it
/// (a carriage return before the line feed is dropped), or
/// "Invalid project" when the output is empty.
pub open spec fn first_line_of(s: Seq<char>) -> Seq<char> {
    let k = line_end(s, 0);
    if s.len() == 0 {
        "Invalid project"@
    } else if k < s.len() && k > 0 && s[k - 1] == '\r' {
        s.subrange(0, k - 1)
    } else {
        s.subrange(0, k)
    }
}

/// The reason reported for a project whose validation failed, taken from
/// the validating tool's diagnostic output.
pub fn failure_reason(stderr: &str) -> (r: String)
    ensures
        r@ == first_line_of(stderr@),
{
    let n = stderr.unicode_len();
    if n == 0 {
        return "Invalid project".to_owned();
    }
    let mut i: usize = 0;
    while i < n && stderr.get_char(i) != '\n'
        invariant
            n == stderr@.len(),
            i <= n,
            line_end(stderr@, 0) == line_end(stderr@, i as int),
        decreases n - i,
    {
        i = i + 1;
    }
    assert(line_end(stderr@, 0) == i);
    let mut end = i;
    if i < n && i > 0 && stderr.get_char(i - 1) == '\r' {
        end = i - 1;
    }
    stderr.substring_char(0, end).to_owned()
}

} // verus!
