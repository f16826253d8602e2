use wd_40::classify::{is_python_venv_dir, is_rust_target_dir, DirSnapshot, Entry};
use wd_40::clean::{clean_project, finish_clean, target_variants, CleanPlan, CleanResult};
use wd_40::delete::{
    delete_cargo_nix_dir, delete_next_dir, delete_node_modules_dir, delete_orphaned_target_dir,
    delete_rustup_dir, delete_sccache_dir, delete_stack_work_dir, delete_venv_dir,
    deletion_outcome, DeleteAction,
};
use wd_40::size::{calculate_dir_size, FsNode};
use wd_40::walker::{find_all_rust_artifacts, find_cargo_projects, DiscoveredPaths, Visit};

const ROOT: &str = "/seed";

/// A directory tree held in memory, standing in for the disk.
#[derive(Clone)]
enum Node {
    File(u64),
    Dir(Vec<(String, Node)>),
}

struct Tree {
    root: Node,
}

fn rel(path: &str) -> &str {
    let p = path.strip_prefix(ROOT).unwrap_or(path);
    p.trim_start_matches('/')
}

fn segments(path: &str) -> Vec<String> {
    rel(path).split('/').filter(|s| !s.is_empty()).map(|s| s.to_string()).collect()
}

impl Tree {
    fn new() -> Tree {
        Tree { root: Node::Dir(Vec::new()) }
    }

    fn get(&self, path: &str) -> Option<&Node> {
        let mut cur = &self.root;
        for seg in segments(path) {
            match cur {
                Node::Dir(children) => match children.iter().find(|(n, _)| *n == seg) {
                    Some((_, c)) => cur = c,
                    None => return None,
                },
                Node::File(_) => return None,
            }
        }
        Some(cur)
    }

    fn dir_mut(&mut self, segs: &[String]) -> &mut Vec<(String, Node)> {
        let mut cur = &mut self.root;
        for seg in segs {
            let children = match cur {
                Node::Dir(c) => c,
                Node::File(_) => panic!("not a directory"),
            };
            let pos = match children.iter().position(|(n, _)| n == seg) {
                Some(p) => p,
                None => {
                    children.push((seg.clone(), Node::Dir(Vec::new())));
                    children.len() - 1
                }
            };
            cur = &mut children[pos].1;
        }
        match cur {
            Node::Dir(c) => c,
            Node::File(_) => panic!("not a directory"),
        }
    }

    fn mkdir(&mut self, path: &str) {
        let segs = segments(path);
        self.dir_mut(&segs);
    }

    fn write(&mut self, path: &str, len: u64) {
        let segs = segments(path);
        let (last, dirs) = segs.split_last().unwrap();
        let children = self.dir_mut(dirs);
        children.retain(|(n, _)| n != last);
        children.push((last.clone(), Node::File(len)));
    }

    fn remove(&mut self, path: &str) -> Result<(), String> {
        let segs = segments(path);
        let (last, dirs) = segs.split_last().unwrap();
        if self.get(path).is_none() {
            return Err(format!("{} does not exist", path));
        }
        let children = self.dir_mut(dirs);
        children.retain(|(n, _)| n != last);
        Ok(())
    }

    fn holds(&self, path: &str) -> bool {
        self.get(path).is_some()
    }

    fn is_dir(&self, path: &str) -> bool {
        matches!(self.get(path), Some(Node::Dir(_)))
    }

    fn names(node: &Node) -> Vec<String> {
        match node {
            Node::Dir(c) => c.iter().map(|(n, _)| n.clone()).collect(),
            Node::File(_) => Vec::new(),
        }
    }

    fn parent_of(path: &str) -> Option<String> {
        if rel(path).is_empty() {
            return None;
        }
        let segs = segments(path);
        let mut p = ROOT.to_string();
        for s in &segs[..segs.len() - 1] {
            p.push('/');
            p.push_str(s);
        }
        Some(p)
    }

    fn snapshot(&self, path: &str) -> DirSnapshot {
        let name = segments(path).last().cloned().or_else(|| Some("seed".to_string()));
        let entries = match self.get(path) {
            Some(Node::Dir(c)) => c
                .iter()
                .map(|(n, node)| Entry {
                    name: n.clone(),
                    is_dir: matches!(node, Node::Dir(_)),
                    is_file: matches!(node, Node::File(_)),
                    children: Tree::names(node),
                })
                .collect(),
            _ => Vec::new(),
        };
        let parent = match Tree::parent_of(path) {
            Some(p) => Some(self.get(&p).map(Tree::names).unwrap_or_default()),
            None => Some(vec!["seed".to_string()]),
        };
        DirSnapshot { name, entries, parent }
    }

    fn size_tree(node: &Node) -> FsNode {
        match node {
            Node::File(len) => FsNode::File(*len),
            Node::Dir(c) => FsNode::Dir(c.iter().map(|(_, n)| Tree::size_tree(n)).collect()),
        }
    }

    fn visit_all(&self, path: &str, node: &Node, out: &mut Vec<Visit>) {
        out.push(Visit {
            path: path.to_string(),
            parent_path: Tree::parent_of(path).or_else(|| Some("/".to_string())),
            is_file: matches!(node, Node::File(_)),
            is_dir: matches!(node, Node::Dir(_)),
            snapshot: self.snapshot(path),
        });
        if let Node::Dir(c) = node {
            for (n, child) in c {
                self.visit_all(&format!("{}/{}", path, n), child, out);
            }
        }
    }

    fn visits(&self) -> Vec<Visit> {
        let mut out = Vec::new();
        self.visit_all(ROOT, &self.root, &mut out);
        out
    }

    fn walk(&self) -> DiscoveredPaths {
        find_all_rust_artifacts(&self.visits())
    }

    /// Re-checks, measures and removes a directory the way the program does.
    fn delete(
        &mut self,
        path: &str,
        decide: fn(&DirSnapshot, bool) -> DeleteAction,
        dry_run: bool,
    ) -> Result<Option<u64>, String> {
        let action = decide(&self.snapshot(path), dry_run);
        let (measured, removal) = if action == DeleteAction::Remove {
            let size = calculate_dir_size(&self.get(path).map(Tree::size_tree));
            (size, self.remove(path))
        } else {
            (0, Ok(()))
        };
        deletion_outcome(action, measured, removal)
    }

    fn remove_measured(&mut self, path: &str) -> Result<u64, String> {
        let size = calculate_dir_size(&self.get(path).map(Tree::size_tree));
        self.remove(path).map(|_| size)
    }

    /// Runs the per-project state machine, validating with `valid`.
    fn clean(
        &mut self,
        project: &str,
        dry_run: bool,
        force: bool,
        strict: bool,
        valid: Result<(), String>,
    ) -> CleanResult {
        let variants = target_variants();
        let t = format!("{}/{}", project, variants[0]);
        let tr = format!("{}/{}", project, variants[1]);
        let mut plan = clean_project(
            dry_run,
            force,
            strict,
            &None,
            &self.snapshot(&t),
            &self.snapshot(&tr),
        );
        if let CleanPlan::Validate = plan {
            plan = clean_project(
                dry_run,
                force,
                strict,
                &Some(valid),
                &self.snapshot(&t),
                &self.snapshot(&tr),
            );
        }
        let (a, b) = match &plan {
            CleanPlan::RemoveTargetOnly { .. } => (Some(self.remove_measured(&t)), None),
            CleanPlan::RemoveTargets { target, target_ra } => {
                let a = if *target { Some(self.remove_measured(&t)) } else { None };
                let b = if *target_ra { Some(self.remove_measured(&tr)) } else { None };
                (a, b)
            }
            _ => (None, None),
        };
        finish_clean(project.to_string(), plan, a, b)
    }
}

fn p(s: &str) -> String {
    format!("{}/{}", ROOT, s)
}

fn rust_project(t: &mut Tree, name: &str) {
    t.write(&p(&format!("{}/Cargo.toml", name)), 40);
    t.write(&p(&format!("{}/src/main.rs", name)), 20);
    t.write(&p(&format!("{}/target/CACHEDIR.TAG", name)), 177);
    t.write(&p(&format!("{}/target/.rustc_info.json", name)), 100);
    t.write(&p(&format!("{}/target/debug/deps/libapp.rlib", name)), 4096);
}

fn venv(t: &mut Tree, dir: &str) {
    t.write(&p(&format!("{}/pyvenv.cfg", dir)), 70);
    t.write(&p(&format!("{}/bin/activate", dir)), 2000);
    t.write(&p(&format!("{}/bin/python", dir)), 9000);
    t.write(&p(&format!("{}/lib/python3.11/site-packages/six.py", dir)), 3000);
}

/// The full seeded layout: every kind, twice, plus one orphaned target.
fn seed_all() -> Tree {
    let mut t = Tree::new();
    rust_project(&mut t, "rust-project-1");
    rust_project(&mut t, "rust-project-2");
    rust_project(&mut t, "rust-project-3");
    t.write(&p("orphaned-workspace/target/CACHEDIR.TAG"), 177);
    t.write(&p("orphaned-workspace/target/debug/app"), 5000);
    t.write(&p("node-project-1/package.json"), 300);
    t.write(&p("node-project-1/node_modules/.package-lock.json"), 800);
    t.write(&p("node-project-1/node_modules/express/package.json"), 1200);
    t.write(&p("node-project-1/node_modules/express/index.js"), 600);
    t.write(&p("node-project-2/package.json"), 300);
    t.write(&p("node-project-2/yarn.lock"), 900);
    t.write(&p("node-project-2/node_modules/lodash/package.json"), 700);
    venv(&mut t, "python-project-1/.venv");
    venv(&mut t, "python-project-2/.venv");
    t.write(&p("sccache-home-1/.sccache/a1/b2c3"), 1500);
    t.write(&p("sccache-home-2/.sccache/stats"), 64);
    t.write(&p("haskell-project-1/stack.yaml"), 100);
    t.write(&p("haskell-project-1/.stack-work/stack.sqlite3"), 8192);
    t.mkdir(&p("haskell-project-1/.stack-work/dist"));
    t.write(&p("haskell-project-2/demo.cabal"), 400);
    t.write(&p("haskell-project-2/.stack-work/install/x86_64/bin/demo"), 7000);
    t.write(&p("home-sim/.rustup/settings.toml"), 50);
    t.write(&p("home-sim/.rustup/toolchains/stable/bin/rustc"), 10000);
    t.write(&p("home-sim-2/.rustup/settings.toml"), 50);
    t.write(&p("nextjs-project-1/next.config.js"), 120);
    t.write(&p("nextjs-project-1/.next/BUILD_ID"), 21);
    t.write(&p("nextjs-project-1/.next/cache/webpack.pack"), 3000);
    t.write(&p("nextjs-project-2/next.config.mjs"), 120);
    t.write(&p("nextjs-project-2/.next/server/pages.js"), 2500);
    t.write(&p("rust-nix-project-1/Cargo.toml"), 40);
    t.write(&p("rust-nix-project-1/.cargo-nix/store-path"), 90);
    t.mkdir(&p("rust-nix-project-2/.cargo-nix/gcroots"));
    t
}

fn clean_all(
    t: &mut Tree,
    paths: &[String],
    decide: fn(&DirSnapshot, bool) -> DeleteAction,
) -> usize {
    let mut cleaned = 0;
    for path in paths {
        if t.delete(path, decide, false).ok().flatten().is_some() {
            cleaned += 1;
        }
    }
    cleaned
}

#[test]
fn test_setup_creates_all_artifacts() {
    let t = seed_all();
    assert!(t.is_dir(&p("rust-project-1")));
    assert!(t.is_dir(&p("rust-project-1/target")));
    assert!(t.holds(&p("rust-project-1/Cargo.toml")));
    assert!(t.is_dir(&p("rust-project-2")));
    assert!(t.is_dir(&p("rust-project-2/target")));
    assert!(t.is_dir(&p("rust-project-3")));
    assert!(t.is_dir(&p("rust-project-3/target")));
    assert!(t.is_dir(&p("orphaned-workspace/target")));
    assert!(t.holds(&p("orphaned-workspace/target/CACHEDIR.TAG")));
    assert!(!t.holds(&p("orphaned-workspace/Cargo.toml")));
    assert!(t.is_dir(&p("node-project-1")));
    assert!(t.is_dir(&p("node-project-1/node_modules")));
    assert!(t.holds(&p("node-project-1/package.json")));
    assert!(t.is_dir(&p("node-project-2")));
    assert!(t.is_dir(&p("node-project-2/node_modules")));
    assert!(t.is_dir(&p("python-project-1")));
    assert!(t.is_dir(&p("python-project-1/.venv")));
    assert!(t.holds(&p("python-project-1/.venv/pyvenv.cfg")));
    assert!(t.is_dir(&p("python-project-2")));
    assert!(t.is_dir(&p("python-project-2/.venv")));
    assert!(t.is_dir(&p("haskell-project-1")));
    assert!(t.is_dir(&p("haskell-project-1/.stack-work")));
    assert!(t.holds(&p("haskell-project-1/stack.yaml")));
    assert!(t.holds(&p("haskell-project-1/.stack-work/stack.sqlite3")));
    assert!(t.is_dir(&p("haskell-project-2")));
    assert!(t.is_dir(&p("haskell-project-2/.stack-work")));
    assert!(t.is_dir(&p("home-sim/.rustup")));
    assert!(t.holds(&p("home-sim/.rustup/settings.toml")));
    assert!(t.is_dir(&p("home-sim/.rustup/toolchains")));
    assert!(t.is_dir(&p("home-sim-2/.rustup")));
    assert!(t.holds(&p("home-sim-2/.rustup/settings.toml")));
    assert!(t.is_dir(&p("nextjs-project-1")));
    assert!(t.is_dir(&p("nextjs-project-1/.next")));
    assert!(t.holds(&p("nextjs-project-1/next.config.js")));
    assert!(t.holds(&p("nextjs-project-1/.next/BUILD_ID")));
    assert!(t.is_dir(&p("nextjs-project-2")));
    assert!(t.is_dir(&p("nextjs-project-2/.next")));
    assert!(t.holds(&p("nextjs-project-2/next.config.mjs")));
    assert!(t.is_dir(&p("rust-nix-project-1/.cargo-nix")));
    assert!(t.is_dir(&p("rust-nix-project-2/.cargo-nix")));
}

#[test]
fn test_walker_finds_all_artifacts() {
    let t = seed_all();
    let discovered = t.walk();
    assert!(discovered.projects.len() >= 3, "Expected at least 3 Rust projects, found {}", discovered.projects.len());
    assert_eq!(discovered.orphaned_targets.len(), 1, "Expected 1 orphaned target");
    assert!(discovered.node_modules.len() >= 2, "Expected at least 2 node_modules directories, found {}", discovered.node_modules.len());
    assert_eq!(discovered.python_venvs.len(), 2, "Expected 2 Python venvs");
    assert_eq!(discovered.sccache_dirs.len(), 2, "Expected 2 sccache directories");
    assert_eq!(discovered.stack_work_dirs.len(), 2, "Expected 2 Stack work directories");
    assert_eq!(discovered.rustup_dirs.len(), 2, "Expected 2 rustup directories");
    assert_eq!(discovered.next_dirs.len(), 2, "Expected 2 Next.js build directories");
    assert_eq!(discovered.cargo_nix_dirs.len(), 2, "Expected 2 cargo-nix directories");
    assert_eq!(discovered.orphaned_targets[0], p("orphaned-workspace/target"));
    assert!(!discovered.projects.contains(&p("orphaned-workspace/target")));
    assert!(!discovered.projects.contains(&p("orphaned-workspace")));
}

#[test]
fn test_clean_rust_projects() {
    let mut t = seed_all();
    let discovered = t.walk();
    let projects_with_target: Vec<String> = discovered
        .projects
        .iter()
        .filter(|pr| t.is_dir(&format!("{}/target", pr)))
        .cloned()
        .collect();
    assert!(projects_with_target.len() >= 3, "Expected at least 3 Rust projects with target dirs, found {}", projects_with_target.len());
    let mut cleaned_count = 0;
    for project in &projects_with_target {
        let result = t.clean(project, false, false, false, Ok(()));
        if result.is_success() {
            cleaned_count += 1;
        }
    }
    for project in &projects_with_target {
        let target = format!("{}/target", project);
        assert!(!t.is_dir(&target), "Target directory should be removed after cleaning: {:?}", target);
        assert!(t.holds(&format!("{}/Cargo.toml", project)));
        assert!(t.holds(&format!("{}/src/main.rs", project)));
    }
    assert!(cleaned_count >= 3, "Expected at least 3 projects to be cleaned successfully, got {}", cleaned_count);
}

#[test]
fn test_clean_orphaned_targets() {
    let mut t = seed_all();
    let discovered = t.walk();
    assert_eq!(discovered.orphaned_targets.len(), 1, "Expected 1 orphaned target");
    let orphaned = discovered.orphaned_targets[0].clone();
    assert!(t.is_dir(&orphaned), "Orphaned target should exist before cleaning");
    let result = t
        .delete(&orphaned, delete_orphaned_target_dir, false)
        .expect("Failed to delete orphaned target");
    assert!(result.is_some(), "Orphaned target should be deleted");
    assert_eq!(result, Some(5177));
    assert!(!t.is_dir(&orphaned), "Orphaned target should not exist after cleaning");
}

fn check_clean_kind(
    pick: fn(&DiscoveredPaths) -> &Vec<String>,
    decide: fn(&DirSnapshot, bool) -> DeleteAction,
    at_least: usize,
    exact: bool,
) {
    let mut t = seed_all();
    let discovered = t.walk();
    let paths = pick(&discovered).clone();
    if exact {
        assert_eq!(paths.len(), at_least);
    } else {
        assert!(paths.len() >= at_least);
    }
    for path in &paths {
        assert!(t.is_dir(path), "should exist before cleaning: {:?}", path);
    }
    let cleaned = clean_all(&mut t, &paths, decide);
    for path in &paths {
        assert!(!t.is_dir(path), "should not exist after cleaning: {:?}", path);
    }
    if exact {
        assert_eq!(cleaned, at_least);
    } else {
        assert!(cleaned >= at_least);
    }
}

#[test]
fn test_clean_node_modules() {
    check_clean_kind(|d| &d.node_modules, delete_node_modules_dir, 2, false);
}

#[test]
fn test_clean_python_venvs() {
    check_clean_kind(|d| &d.python_venvs, delete_venv_dir, 2, true);
}

#[test]
fn test_clean_sccache_dirs() {
    check_clean_kind(|d| &d.sccache_dirs, delete_sccache_dir, 2, true);
}

#[test]
fn test_clean_stack_work_dirs() {
    check_clean_kind(|d| &d.stack_work_dirs, delete_stack_work_dir, 2, true);
}

#[test]
fn test_clean_rustup_dirs() {
    check_clean_kind(|d| &d.rustup_dirs, delete_rustup_dir, 2, true);
}

#[test]
fn test_clean_next_dirs() {
    check_clean_kind(|d| &d.next_dirs, delete_next_dir, 2, true);
}

#[test]
fn test_clean_cargo_nix_dirs() {
    check_clean_kind(|d| &d.cargo_nix_dirs, delete_cargo_nix_dir, 2, true);
}

#[test]
fn test_full_cleanup_all_artifacts() {
    let mut t = seed_all();
    let discovered = t.walk();
    let mut rust_cleaned = 0;
    for project in &discovered.projects {
        let result = t.clean(project, false, false, false, Ok(()));
        if result.is_success() {
            rust_cleaned += 1;
        }
    }
    let orphaned_cleaned = clean_all(&mut t, &discovered.orphaned_targets, delete_orphaned_target_dir);
    let node_cleaned = clean_all(&mut t, &discovered.node_modules, delete_node_modules_dir);
    let venv_cleaned = clean_all(&mut t, &discovered.python_venvs, delete_venv_dir);
    let sccache_cleaned = clean_all(&mut t, &discovered.sccache_dirs, delete_sccache_dir);
    let stack_work_cleaned = clean_all(&mut t, &discovered.stack_work_dirs, delete_stack_work_dir);
    let rustup_cleaned = clean_all(&mut t, &discovered.rustup_dirs, delete_rustup_dir);
    let next_cleaned = clean_all(&mut t, &discovered.next_dirs, delete_next_dir);
    let cargo_nix_cleaned = clean_all(&mut t, &discovered.cargo_nix_dirs, delete_cargo_nix_dir);
    assert!(rust_cleaned >= 3, "Expected at least 3 Rust projects cleaned, got {}", rust_cleaned);
    assert_eq!(orphaned_cleaned, 1, "Expected 1 orphaned target cleaned");
    assert!(node_cleaned >= 2, "Expected at least 2 node_modules cleaned (found {}, nested may not validate)", node_cleaned);
    assert_eq!(venv_cleaned, 2, "Expected 2 Python venvs cleaned");
    assert_eq!(sccache_cleaned, 2, "Expected 2 sccache directories cleaned");
    assert_eq!(stack_work_cleaned, 2, "Expected 2 Stack work directories cleaned");
    assert_eq!(rustup_cleaned, 2, "Expected 2 rustup directories cleaned");
    assert_eq!(next_cleaned, 2, "Expected 2 Next.js build directories cleaned");
    assert_eq!(cargo_nix_cleaned, 2, "Expected 2 cargo-nix directories cleaned");
    let total_cleaned = rust_cleaned + orphaned_cleaned + node_cleaned + venv_cleaned
        + sccache_cleaned + stack_work_cleaned + rustup_cleaned + next_cleaned + cargo_nix_cleaned;
    assert!(total_cleaned >= 18, "Expected at least 18 artifacts cleaned, got {}", total_cleaned);
}

#[test]
fn seeded_tree_discovery_and_cleanup_end_to_end() {
    let mut t = Tree::new();
    rust_project(&mut t, "app-a");
    rust_project(&mut t, "app-b");
    rust_project(&mut t, "app-c");
    t.write(&p("leftover/target/.rustc_info.json"), 250);
    t.write(&p("web-a/package.json"), 300);
    t.write(&p("web-a/node_modules/react/index.js"), 900);
    t.write(&p("web-b/pnpm-lock.yaml"), 300);
    t.mkdir(&p("web-b/node_modules/.bin"));
    venv(&mut t, "py-a/.venv");
    venv(&mut t, "py-b/venv");

    let found = t.walk();
    assert_eq!(found.projects.len(), 3);
    assert_eq!(found.orphaned_targets, vec![p("leftover/target")]);
    assert!(found.node_modules.len() >= 2);
    assert_eq!(found.python_venvs.len(), 2);

    let mut freed: u64 = 0;
    for project in &found.projects {
        let r = t.clean(project, false, false, false, Ok(()));
        freed += r.space_freed().unwrap_or(0);
    }
    for path in &found.orphaned_targets {
        freed += t.delete(path, delete_orphaned_target_dir, false).unwrap().unwrap_or(0);
    }
    for path in &found.node_modules {
        freed += t.delete(path, delete_node_modules_dir, false).unwrap().unwrap_or(0);
    }
    for path in &found.python_venvs {
        freed += t.delete(path, delete_venv_dir, false).unwrap().unwrap_or(0);
    }
    for path in found
        .orphaned_targets
        .iter()
        .chain(found.node_modules.iter())
        .chain(found.python_venvs.iter())
    {
        assert!(!t.holds(path));
    }
    for project in &found.projects {
        assert!(!t.holds(&format!("{}/target", project)));
    }
    assert!(freed > 0);
    assert_eq!(freed, 3 * (177 + 100 + 4096) + 250 + 900 + 2 * (70 + 2000 + 9000 + 3000));
}

#[test]
fn cargo_projects_are_manifest_directories() {
    let t = seed_all();
    let mut projects = find_cargo_projects(&t.visits());
    projects.sort();
    assert_eq!(
        projects,
        vec![
            p("rust-nix-project-1"),
            p("rust-project-1"),
            p("rust-project-2"),
            p("rust-project-3"),
        ]
    );
}

#[test]
fn deleting_twice_reports_no_match_the_second_time() {
    let mut t = seed_all();
    let path = p("python-project-1/.venv");
    let first = t.delete(&path, delete_venv_dir, false);
    assert_eq!(first, Ok(Some(70 + 2000 + 9000 + 3000)));
    let second = t.delete(&path, delete_venv_dir, false);
    assert_eq!(second, Ok(None));
    let target = p("orphaned-workspace/target");
    assert_eq!(t.delete(&target, delete_orphaned_target_dir, false), Ok(Some(5177)));
    assert_eq!(t.delete(&target, delete_orphaned_target_dir, false), Ok(None));
}

#[test]
fn dry_run_removes_nothing_and_reports_zero() {
    let mut t = seed_all();
    let path = p("home-sim/.rustup");
    assert_eq!(t.delete(&path, delete_rustup_dir, true), Ok(Some(0)));
    assert!(t.is_dir(&path));
    let nm = p("node-project-1/node_modules");
    assert_eq!(t.delete(&nm, delete_node_modules_dir, true), Ok(Some(0)));
    assert!(t.is_dir(&nm));
    let r = t.clean(&p("rust-project-1"), true, false, false, Ok(()));
    assert!(r.is_success());
    assert_eq!(r.space_freed(), None);
    assert!(t.is_dir(&p("rust-project-1/target")));
}

#[test]
fn invalid_project_target_only_or_skipped() {
    let mut t = seed_all();
    let strict = t.clean(&p("rust-project-1"), false, false, true, Err("bad manifest".to_string()));
    assert!(strict.is_skipped());
    assert!(t.is_dir(&p("rust-project-1/target")));

    let dry = t.clean(&p("rust-project-1"), true, false, false, Err("bad manifest".to_string()));
    assert!(dry.is_target_only());
    assert_eq!(dry.space_freed(), Some(0));
    assert!(t.is_dir(&p("rust-project-1/target")));

    let lenient = t.clean(&p("rust-project-1"), false, false, false, Err("bad manifest".to_string()));
    assert!(lenient.is_target_only());
    assert_eq!(lenient.space_freed(), Some(177 + 100 + 4096));
    assert!(!t.holds(&p("rust-project-1/target")));
    assert!(t.holds(&p("rust-project-1/src/main.rs")));

    let forced = t.clean(&p("rust-project-2"), false, true, true, Err("never asked".to_string()));
    assert!(forced.is_success());
    assert_eq!(forced.space_freed(), Some(177 + 100 + 4096));
}

#[test]
fn both_target_variants_are_removed_and_summed() {
    let mut t = seed_all();
    t.write(&p("rust-project-3/target-ra/CACHEDIR.TAG"), 10);
    t.write(&p("rust-project-3/target-ra/debug/x"), 1000);
    let r = t.clean(&p("rust-project-3"), false, false, false, Ok(()));
    assert_eq!(r.space_freed(), Some(177 + 100 + 4096 + 1010));
    assert!(!t.holds(&p("rust-project-3/target")));
    assert!(!t.holds(&p("rust-project-3/target-ra")));
    let none = t.clean(&p("rust-project-3"), false, false, false, Ok(()));
    assert!(none.is_success());
    assert_eq!(none.space_freed(), None);
}

#[test]
fn failed_removal_fails_the_project() {
    let mut t = seed_all();
    let plan = clean_project(
        false,
        true,
        false,
        &None,
        &t.snapshot(&p("rust-project-1/target")),
        &t.snapshot(&p("rust-project-1/target-ra")),
    );
    assert!(matches!(plan, CleanPlan::RemoveTargets { target: true, target_ra: false }));
    let r = finish_clean(p("rust-project-1"), plan, Some(Err("permission denied".to_string())), None);
    assert!(!r.is_success());
    assert!(r.space_freed().is_none());
    let removal = deletion_outcome(DeleteAction::Remove, 12, Err("busy".to_string()));
    assert_eq!(removal, Err("busy".to_string()));
    assert!(t.remove(&p("missing")).is_err());
}

#[test]
fn venv_needs_every_structural_marker() {
    let mut t = Tree::new();
    t.write(&p("proj/.venv/pyvenv.cfg"), 1);
    t.mkdir(&p("proj/.venv/bin"));
    t.mkdir(&p("proj/.venv/lib"));
    assert!(!is_python_venv_dir(&t.snapshot(&p("proj/.venv"))));
    t.write(&p("proj/.venv/bin/activate"), 1);
    assert!(is_python_venv_dir(&t.snapshot(&p("proj/.venv"))));
    t.mkdir(&p("proj/.venv/.git"));
    assert!(!is_python_venv_dir(&t.snapshot(&p("proj/.venv"))));
    assert!(is_rust_target_dir(&t.snapshot(&p("rust-project-x/target"))) == false);
}
