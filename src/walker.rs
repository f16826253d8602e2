use vstd::prelude::*;

use crate::classify::{is_artifact, same_text, ArtifactKind, DirSnapshot};
use crate::delete::{
    action_for, is_orphaned_target, is_owned_target, parent_holds_manifest, DeleteAction,
};

verus! {

/// One entry met while walking the tree.
pub struct Visit {
    pub path: String,
    /// The path of the directory holding the entry, when there is one.
    pub parent_path: Option<String>,
    pub is_file: bool,
    pub is_dir: bool,
    /// What was seen of the entry. Its name is always filled in; its
    /// contents and parent only for a directory whose name some kind accepts.
    pub snapshot: DirSnapshot,
}

/// The result lists of a walk.
#[derive(Clone, Copy, Debug, PartialEq, Eq, Structural)]
pub enum Bucket {
    Projects,
    OrphanedTargets,
    NodeModules,
    PythonVenvs,
    SccacheDirs,
    StackWorkDirs,
    RustupDirs,
    NextDirs,
    CargoNixDirs,
}

/// What a walk found: Cargo projects (directories holding a `Cargo.toml`),
/// orphaned Cargo build output, and the directories of each other kind, in
/// the order they were met.
pub struct DiscoveredPaths {
    pub projects: Vec<String>,
    pub orphaned_targets: Vec<String>,
    pub node_modules: Vec<String>,
    pub python_venvs: Vec<String>,
    pub sccache_dirs: Vec<String>,
    pub stack_work_dirs: Vec<String>,
    pub rustup_dirs: Vec<String>,
    pub next_dirs: Vec<String>,
    pub cargo_nix_dirs: Vec<String>,
}

/// The file is a Cargo manifest.
pub open spec fn is_manifest(v: Visit) -> bool {
    &&& v.is_file
    &&& v.snapshot.name matches Some(n) && n@ == "Cargo.toml"@
}

/// The list an entry belongs to, if any.
///
/// A `Cargo.toml` file makes its directory a project. A directory is placed
/// by the classifier: Cargo build output whose parent exists and holds no
/// `Cargo.toml` is orphaned (build output beside a manifest belongs to that
/// project and is not listed on its own); any other kind goes to its list.
pub open spec fn placement(v: Visit) -> Option<Bucket> {
    let s = v.snapshot;
    if is_manifest(v) {
        if v.parent_path is Some {
            Some(Bucket::Projects)
        } else {
            None
        }
    } else if !v.is_dir {
        None
    } else if s.parent is Some && is_orphaned_target(s) {
        Some(Bucket::OrphanedTargets)
    } else if is_artifact(ArtifactKind::NodeModules, s) {
        Some(Bucket::NodeModules)
    } else if is_artifact(ArtifactKind::PythonVenv, s) {
        Some(Bucket::PythonVenvs)
    } else if is_artifact(ArtifactKind::Sccache, s) {
        Some(Bucket::SccacheDirs)
    } else if is_artifact(ArtifactKind::StackWork, s) {
        Some(Bucket::StackWorkDirs)
    } else if is_artifact(ArtifactKind::Rustup, s) {
        Some(Bucket::RustupDirs)
    } else if is_artifact(ArtifactKind::NextBuild, s) {
        Some(Bucket::NextDirs)
    } else if is_artifact(ArtifactKind::CargoNix, s) {
        Some(Bucket::CargoNixDirs)
    } else {
        None
    }
}

/// The path an entry is listed under: its directory for a manifest, itself otherwise.
pub open spec fn listed_path(v: Visit) -> String {
    if is_manifest(v) {
        v.parent_path->Some_0
    } else {
        v.path
    }
}

/// What lands in bucket `b` when `v` is recorded.
pub open spec fn contribution(v: Visit, b: Bucket) -> Seq<String> {
    if placement(v) == Some(b) {
        seq![listed_path(v)]
    } else {
        seq![]
    }
}

/// Bucket `b` after recording every visit of `vs` in order.
pub open spec fn discovered(vs: Seq<Visit>, b: Bucket) -> Seq<String>
    decreases vs.len(),
{
    if vs.len() == 0 {
        seq![]
    } else {
        discovered(vs.drop_last(), b) + contribution(vs.last(), b)
    }
}

impl DiscoveredPaths {
    pub open spec fn bucket(&self, b: Bucket) -> Seq<String> {
        match b {
            Bucket::Projects => self.projects@,
            Bucket::OrphanedTargets => self.orphaned_targets@,
            Bucket::NodeModules => self.node_modules@,
            Bucket::PythonVenvs => self.python_venvs@,
            Bucket::SccacheDirs => self.sccache_dirs@,
            Bucket::StackWorkDirs => self.stack_work_dirs@,
            Bucket::RustupDirs => self.rustup_dirs@,
            Bucket::NextDirs => self.next_dirs@,
            Bucket::CargoNixDirs => self.cargo_nix_dirs@,
        }
    }

    /// Empty lists.
    pub fn new() -> (r: DiscoveredPaths)
        ensures
            forall|b: Bucket| #[trigger] r.bucket(b) == Seq::<String>::empty(),
    {
        DiscoveredPaths {
            projects: Vec::new(),
            orphaned_targets: Vec::new(),
            node_modules: Vec::new(),
            python_venvs: Vec::new(),
            sccache_dirs: Vec::new(),
            stack_work_dirs: Vec::new(),
            rustup_dirs: Vec::new(),
            next_dirs: Vec::new(),
            cargo_nix_dirs: Vec::new(),
        }
    }

    /// Classifies one visited entry and appends it to the list it belongs to.
    pub fn record(&mut self, v: &Visit)
        ensures
            forall|b: Bucket| #[trigger]
                final(self).bucket(b) == old(self).bucket(b) + contribution(*v, b),
    {
        let placed = place(v);
        match placed {
            None => {},
            Some(b) => {
                let p = if b == Bucket::Projects {
                    match &v.parent_path {
                        Some(pp) => pp.clone(),
                        None => v.path.clone(),
                    }
                } else {
                    v.path.clone()
                };
                match b {
                    Bucket::Projects => self.projects.push(p),
                    Bucket::OrphanedTargets => self.orphaned_targets.push(p),
                    Bucket::NodeModules => self.node_modules.push(p),
                    Bucket::PythonVenvs => self.python_venvs.push(p),
                    Bucket::SccacheDirs => self.sccache_dirs.push(p),
                    Bucket::StackWorkDirs => self.stack_work_dirs.push(p),
                    Bucket::RustupDirs => self.rustup_dirs.push(p),
                    Bucket::NextDirs => self.next_dirs.push(p),
                    Bucket::CargoNixDirs => self.cargo_nix_dirs.push(p),
                }
            },
        }
        proof {
            assert forall|b: Bucket| #[trigger]
                self.bucket(b) == old(self).bucket(b) + contribution(*v, b) by {
                assert(self.bucket(b) =~= old(self).bucket(b) + contribution(*v, b));
            }
        }
    }
}

fn is_manifest_visit(v: &Visit) -> (r: bool)
    ensures
        r == is_manifest(*v),
{
    v.is_file && match &v.snapshot.name {
        Some(n) => same_text(n, "Cargo.toml"),
        None => false,
    }
}

/// The list an entry belongs to (see [`placement`]).
pub fn place(v: &Visit) -> (r: Option<Bucket>)
    ensures
        r == placement(*v),
{
    let s = &v.snapshot;
    if is_manifest_visit(v) {
        if v.parent_path.is_some() {
            Some(Bucket::Projects)
        } else {
            None
        }
    } else if !v.is_dir {
        None
    } else if s.parent.is_some() && ArtifactKind::RustTarget.matches(s) && !parent_holds_manifest(
        s,
    ) {
        Some(Bucket::OrphanedTargets)
    } else if ArtifactKind::NodeModules.matches(s) {
        Some(Bucket::NodeModules)
    } else if ArtifactKind::PythonVenv.matches(s) {
        Some(Bucket::PythonVenvs)
    } else if ArtifactKind::Sccache.matches(s) {
        Some(Bucket::SccacheDirs)
    } else if ArtifactKind::StackWork.matches(s) {
        Some(Bucket::StackWorkDirs)
    } else if ArtifactKind::Rustup.matches(s) {
        Some(Bucket::RustupDirs)
    } else if ArtifactKind::NextBuild.matches(s) {
        Some(Bucket::NextDirs)
    } else if ArtifactKind::CargoNix.matches(s) {
        Some(Bucket::CargoNixDirs)
    } else {
        None
    }
}

/// Sorts every visited entry into the lists of a walk.
pub fn find_all_rust_artifacts(visits: &Vec<Visit>) -> (r: DiscoveredPaths)
    ensures
        forall|b: Bucket| #[trigger] r.bucket(b) == discovered(visits@, b),
{
    let mut found = DiscoveredPaths::new();
    let mut i: usize = 0;
    while i < visits.len()
        invariant
            i <= visits@.len(),
            forall|b: Bucket| #[trigger]
                found.bucket(b) == discovered(visits@.subrange(0, i as int), b),
        decreases visits@.len() - i,
    {
        found.record(&visits[i]);
        proof {
            let next = visits@.subrange(0, i + 1);
            assert(next.drop_last() =~= visits@.subrange(0, i as int));
            assert(next.last() == visits@[i as int]);
        }
        i = i + 1;
    }
    assert(visits@.subrange(0, visits@.len() as int) =~= visits@);
    found
}

/// The Cargo projects of a walk: the directory of every `Cargo.toml` met.
pub fn find_cargo_projects(visits: &Vec<Visit>) -> (r: Vec<String>)
    ensures
        r@ == discovered(visits@, Bucket::Projects),
{
    let found = find_all_rust_artifacts(visits);
    assert(found.bucket(Bucket::Projects) == found.projects@);
    found.projects
}

/// Orphaned build output is found as orphaned, never as a project: such a
/// directory goes to the orphaned list alone, adds nothing to the projects,
/// and the deletion meant for a project's own build output leaves it alone.
pub proof fn lemma_orphan_is_never_a_project(vs: Seq<Visit>, v: Visit, dry_run: bool)
    requires
        v.is_dir,
        !v.is_file,
        v.snapshot.parent is Some,
        is_orphaned_target(v.snapshot),
    ensures
        placement(v) == Some(Bucket::OrphanedTargets),
        discovered(vs.push(v), Bucket::OrphanedTargets) == discovered(
            vs,
            Bucket::OrphanedTargets,
        ).push(v.path),
        discovered(vs.push(v), Bucket::Projects) == discovered(vs, Bucket::Projects),
        action_for(is_owned_target(v.snapshot), dry_run) == DeleteAction::NotApplicable,
{
    let w = vs.push(v);
    assert(w.drop_last() =~= vs);
    assert(discovered(w, Bucket::Projects) =~= discovered(vs, Bucket::Projects));
    assert(discovered(w, Bucket::OrphanedTargets) =~= discovered(
        vs,
        Bucket::OrphanedTargets,
    ).push(v.path));
}

} // verus!
