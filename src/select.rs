use vstd::prelude::*;

use crate::clean::{CleanResult, CleanStatus};
use crate::size::saturate;
use crate::walker::Bucket;

verus! {

/// Which lists of a walk a run processes.
#[derive(Clone, Copy, Debug, PartialEq, Eq, Structural)]
pub enum Mode {
    All,
    OrphanedOnly,
    RustOnly,
    NodeOnly,
    PythonOnly,
    HaskellOnly,
    RustupOnly,
    NextOnly,
    CargoNixOnly,
    SccacheOnly,
}

/// The mode chosen by the command-line selectors: the first one set, in
/// the order of the parameters, or `All` when none is.
pub open spec fn mode_of(
    orphaned_only: bool,
    rust_only: bool,
    node_only: bool,
    python_only: bool,
    haskell_only: bool,
    rustup_only: bool,
    next_only: bool,
    cargo_nix_only: bool,
    sccache_only: bool,
) -> Mode {
    if orphaned_only {
        Mode::OrphanedOnly
    } else if rust_only {
        Mode::RustOnly
    } else if node_only {
        Mode::NodeOnly
    } else if python_only {
        Mode::PythonOnly
    } else if haskell_only {
        Mode::HaskellOnly
    } else if rustup_only {
        Mode::RustupOnly
    } else if next_only {
        Mode::NextOnly
    } else if cargo_nix_only {
        Mode::CargoNixOnly
    } else if sccache_only {
        Mode::SccacheOnly
    } else {
        Mode::All
    }
}

/// Whether a run in mode `m` processes list `b`.
pub open spec fn selected(m: Mode, b: Bucket) -> bool {
    match m {
        Mode::All => true,
        Mode::OrphanedOnly => b == Bucket::OrphanedTargets,
        Mode::RustOnly => b == Bucket::Projects || b == Bucket::OrphanedTargets,
        Mode::NodeOnly => b == Bucket::NodeModules,
        Mode::PythonOnly => b == Bucket::PythonVenvs,
        Mode::HaskellOnly => b == Bucket::StackWorkDirs,
        Mode::RustupOnly => b == Bucket::RustupDirs,
        Mode::NextOnly => b == Bucket::NextDirs,
        Mode::CargoNixOnly => b == Bucket::CargoNixDirs,
        Mode::SccacheOnly => b == Bucket::SccacheDirs,
    }
}

pub fn mode_from_flags(
    orphaned_only: bool,
    rust_only: bool,
    node_only: bool,
    python_only: bool,
    haskell_only: bool,
    rustup_only: bool,
    next_only: bool,
    cargo_nix_only: bool,
    sccache_only: bool,
) -> (r: Mode)
    ensures
        r == mode_of(
            orphaned_only,
            rust_only,
            node_only,
            python_only,
            haskell_only,
            rustup_only,
            next_only,
            cargo_nix_only,
            sccache_only,
        ),
{
    if orphaned_only {
        Mode::OrphanedOnly
    } else if rust_only {
        Mode::RustOnly
    } else if node_only {
        Mode::NodeOnly
    } else if python_only {
        Mode::PythonOnly
    } else if haskell_only {
        Mode::HaskellOnly
    } else if rustup_only {
        Mode::RustupOnly
    } else if next_only {
        Mode::NextOnly
    } else if cargo_nix_only {
        Mode::CargoNixOnly
    } else if sccache_only {
        Mode::SccacheOnly
    } else {
        Mode::All
    }
}

impl Mode {
    pub fn selects(self, b: Bucket) -> (r: bool)
        ensures
            r == selected(self, b),
    {
        match self {
            Mode::All => true,
            Mode::OrphanedOnly => b == Bucket::OrphanedTargets,
            Mode::RustOnly => b == Bucket::Projects || b == Bucket::OrphanedTargets,
            Mode::NodeOnly => b == Bucket::NodeModules,
            Mode::PythonOnly => b == Bucket::PythonVenvs,
            Mode::HaskellOnly => b == Bucket::StackWorkDirs,
            Mode::RustupOnly => b == Bucket::RustupDirs,
            Mode::NextOnly => b == Bucket::NextDirs,
            Mode::CargoNixOnly => b == Bucket::CargoNixDirs,
            Mode::SccacheOnly => b == Bucket::SccacheDirs,
        }
    }
}

/// Counts of project outcomes and the bytes they freed.
pub struct Summary {
    pub successful: usize,
    pub target_only: usize,
    pub skipped: usize,
    pub failed: usize,
    pub space_freed: u64,
}

/// Which of the four outcomes a status is: 0 success, 1 target only,
/// 2 skipped, 3 failed.
pub open spec fn outcome_class(s: CleanStatus) -> int {
    match s {
        CleanStatus::Success { .. } => 0,
        CleanStatus::TargetOnly { .. } => 1,
        CleanStatus::Skipped(_) => 2,
        CleanStatus::Failed(_) => 3,
    }
}

/// How many of `rs` ended in outcome `c`.
pub open spec fn count_class(rs: Seq<CleanResult>, c: int) -> nat
    decreases rs.len(),
{
    if rs.len() == 0 {
        0
    } else {
        count_class(rs.drop_last(), c) + if outcome_class(rs.last().status) == c {
            1nat
        } else {
            0nat
        }
    }
}

pub open spec fn freed_by(s: CleanStatus) -> nat {
    match s {
        CleanStatus::Success { space_freed: Some(b) } => b as nat,
        CleanStatus::TargetOnly { space_freed, .. } => space_freed as nat,
        _ => 0,
    }
}

/// Bytes freed over all of `rs`.
pub open spec fn freed_total(rs: Seq<CleanResult>) -> nat
    decreases rs.len(),
{
    if rs.len() == 0 {
        0
    } else {
        freed_total(rs.drop_last()) + freed_by(rs.last().status)
    }
}

proof fn lemma_count_bounded(rs: Seq<CleanResult>, c: int)
    ensures
        count_class(rs, c) <= rs.len(),
    decreases rs.len(),
{
    if rs.len() > 0 {
        lemma_count_bounded(rs.drop_last(), c);
    }
}

/// Tallies the outcomes of the projects of a run and the bytes they freed
/// (stopping at `u64::MAX`).
pub fn summarize(results: &Vec<CleanResult>) -> (r: Summary)
    ensures
        r.successful == count_class(results@, 0),
        r.target_only == count_class(results@, 1),
        r.skipped == count_class(results@, 2),
        r.failed == count_class(results@, 3),
        r.space_freed == saturate(freed_total(results@)),
{
    let mut s = Summary { successful: 0, target_only: 0, skipped: 0, failed: 0, space_freed: 0 };
    let mut i: usize = 0;
    while i < results.len()
        invariant
            i <= results@.len(),
            s.successful == count_class(results@.subrange(0, i as int), 0),
            s.target_only == count_class(results@.subrange(0, i as int), 1),
            s.skipped == count_class(results@.subrange(0, i as int), 2),
            s.failed == count_class(results@.subrange(0, i as int), 3),
            s.space_freed == saturate(freed_total(results@.subrange(0, i as int))),
        decreases results@.len() - i,
    {
        let ghost next = results@.subrange(0, i + 1);
        proof {
            assert(next.drop_last() =~= results@.subrange(0, i as int));
            assert(next.last() == results@[i as int]);
            lemma_count_bounded(next, 0);
            lemma_count_bounded(next, 1);
            lemma_count_bounded(next, 2);
            lemma_count_bounded(next, 3);
        }
        match &results[i].status {
            CleanStatus::Success { space_freed } => {
                s.successful = s.successful + 1;
                match space_freed {
                    Some(b) => {
                        s.space_freed = s.space_freed.saturating_add(*b);
                    },
                    None => {},
                }
            },
            CleanStatus::TargetOnly { space_freed, .. } => {
                s.target_only = s.target_only + 1;
                s.space_freed = s.space_freed.saturating_add(*space_freed);
            },
            CleanStatus::Skipped(_) => {
                s.skipped = s.skipped + 1;
            },
            CleanStatus::Failed(_) => {
                s.failed = s.failed + 1;
            },
        }
        i = i + 1;
    }
    assert(results@.subrange(0, results@.len() as int) =~= results@);
    s
}

} // verus!
