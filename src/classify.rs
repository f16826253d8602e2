use vstd::prelude::*;

verus! {

/// One entry directly inside a directory, as seen on disk.
#[derive(Clone, Debug)]
pub struct Entry {
    pub name: String,
    pub is_dir: bool,
    pub is_file: bool,
    /// Names found inside the entry when it is a directory (empty otherwise).
    pub children: Vec<String>,
}

/// What was seen of a candidate directory: its final path segment, the
/// entries inside it, and the names inside its parent.
///
/// A path that does not exist, or cannot be listed, has no entries; a path
/// without a parent has `parent == None`.
#[derive(Clone, Debug)]
pub struct DirSnapshot {
    /// Final path segment, when there is one and it is valid UTF-8.
    pub name: Option<String>,
    pub entries: Vec<Entry>,
    pub parent: Option<Vec<String>>,
}

/// The kinds of disposable directories that are recognised.
#[derive(Clone, Copy, Debug, PartialEq, Eq, Structural)]
pub enum ArtifactKind {
    /// Cargo build output (`target`, `target-ra`).
    RustTarget,
    /// npm / yarn / pnpm dependency tree.
    NodeModules,
    /// Python virtual environment.
    PythonVenv,
    /// sccache compiler cache.
    Sccache,
    /// Haskell Stack work directory.
    StackWork,
    /// rustup toolchain installation.
    Rustup,
    /// Next.js build output.
    NextBuild,
    /// cargo-nix cache.
    CargoNix,
}

/// One piece of evidence that a directory is what its name claims.
pub enum Evidence {
    /// A direct child with this name.
    Marker(&'static str),
    /// A direct child directory holding an entry with the second name.
    Nested(&'static str, &'static str),
    /// Any direct child that is a directory.
    AnySubdir,
    /// Any direct child that is a regular file.
    AnyFile,
    /// Any direct child at all.
    AnyEntry,
}

/// Mathematical form of [`Evidence`].
pub enum Clue {
    Marker(Seq<char>),
    Nested(Seq<char>, Seq<char>),
    AnySubdir,
    AnyFile,
    AnyEntry,
}

impl View for Evidence {
    type V = Clue;

    open spec fn view(&self) -> Clue {
        match *self {
            Evidence::Marker(m) => Clue::Marker(m@),
            Evidence::Nested(d, c) => Clue::Nested(d@, c@),
            Evidence::AnySubdir => Clue::AnySubdir,
            Evidence::AnyFile => Clue::AnyFile,
            Evidence::AnyEntry => Clue::AnyEntry,
        }
    }
}

pub open spec fn strs_view(v: Seq<&'static str>) -> Seq<Seq<char>> {
    v.map_values(|s: &'static str| s@)
}

pub open spec fn group_view(g: Seq<Evidence>) -> Seq<Clue> {
    g.map_values(|e: Evidence| e@)
}

pub open spec fn groups_view(gs: Seq<Vec<Evidence>>) -> Seq<Seq<Clue>> {
    gs.map_values(|g: Vec<Evidence>| group_view(g@))
}

/// `names` holds `name`.
pub open spec fn lists(names: Seq<String>, name: Seq<char>) -> bool {
    exists|j: int| 0 <= j < names.len() && (#[trigger] names[j])@ == name
}

/// `names` holds one of `wanted`.
pub open spec fn lists_any(names: Seq<String>, wanted: Seq<Seq<char>>) -> bool {
    exists|j: int| 0 <= j < wanted.len() && lists(names, #[trigger] wanted[j])
}

/// A direct child named `name` exists.
pub open spec fn present(entries: Seq<Entry>, name: Seq<char>) -> bool {
    exists|i: int| 0 <= i < entries.len() && (#[trigger] entries[i]).name@ == name
}

/// One of `names` exists as a direct child.
pub open spec fn present_any(entries: Seq<Entry>, names: Seq<Seq<char>>) -> bool {
    exists|j: int| 0 <= j < names.len() && present(entries, #[trigger] names[j])
}

pub open spec fn has_nested(entries: Seq<Entry>, dir: Seq<char>, child: Seq<char>) -> bool {
    exists|i: int|
        0 <= i < entries.len() && (#[trigger] entries[i]).name@ == dir && lists(
            entries[i].children@,
            child,
        )
}

pub open spec fn has_subdir(entries: Seq<Entry>) -> bool {
    exists|i: int| 0 <= i < entries.len() && (#[trigger] entries[i]).is_dir
}

pub open spec fn has_file(entries: Seq<Entry>) -> bool {
    exists|i: int| 0 <= i < entries.len() && (#[trigger] entries[i]).is_file
}

pub open spec fn clue_holds(c: Clue, entries: Seq<Entry>) -> bool {
    match c {
        Clue::Marker(m) => present(entries, m),
        Clue::Nested(d, ch) => has_nested(entries, d, ch),
        Clue::AnySubdir => has_subdir(entries),
        Clue::AnyFile => has_file(entries),
        Clue::AnyEntry => entries.len() > 0,
    }
}

/// At least one clue of the group holds.
pub open spec fn group_holds(g: Seq<Clue>, entries: Seq<Entry>) -> bool {
    exists|j: int| 0 <= j < g.len() && clue_holds(#[trigger] g[j], entries)
}

/// Every group holds.
pub open spec fn evidence_holds(gs: Seq<Seq<Clue>>, entries: Seq<Entry>) -> bool {
    forall|k: int| 0 <= k < gs.len() ==> group_holds(#[trigger] gs[k], entries)
}

/// A file name whose extension is `cabal` (as `Path::extension` reads it:
/// something must stand before the last dot).
pub open spec fn is_cabal_name(n: Seq<char>) -> bool {
    &&& n.len() > 6
    &&& n.subrange(n.len() - 6, n.len() as int) == seq!['.', 'c', 'a', 'b', 'a', 'l']
}

pub open spec fn lists_cabal(names: Seq<String>) -> bool {
    exists|j: int| 0 <= j < names.len() && is_cabal_name((#[trigger] names[j])@)
}

/// The accepted directory names of each kind.
pub open spec fn spec_basenames(k: ArtifactKind) -> Seq<Seq<char>> {
    match k {
        ArtifactKind::RustTarget => seq!["target"@, "target-ra"@],
        ArtifactKind::NodeModules => seq!["node_modules"@],
        ArtifactKind::PythonVenv => seq![
            "venv"@,
            ".venv"@,
            "env"@,
            "ENV"@,
            "virtualenv"@,
            ".virtualenv"@,
        ],
        ArtifactKind::Sccache => seq![".sccache"@],
        ArtifactKind::StackWork => seq![".stack-work"@],
        ArtifactKind::Rustup => seq![".rustup"@],
        ArtifactKind::NextBuild => seq![".next"@],
        ArtifactKind::CargoNix => seq![".cargo-nix"@],
    }
}

/// Names whose presence inside a candidate shows it is a real project.
pub open spec fn spec_forbidden(k: ArtifactKind) -> Seq<Seq<char>> {
    match k {
        ArtifactKind::RustTarget => seq!["Cargo.toml"@],
        ArtifactKind::NodeModules => seq!["Cargo.toml"@, "setup.py"@],
        ArtifactKind::PythonVenv => seq![".git"@],
        ArtifactKind::StackWork => seq!["Cargo.toml"@, "package.json"@, ".git"@, "setup.py"@],
        _ => seq!["Cargo.toml"@, "package.json"@, ".git"@],
    }
}

/// The evidence a candidate must show: every group, one clue of each.
pub open spec fn spec_evidence(k: ArtifactKind) -> Seq<Seq<Clue>> {
    match k {
        ArtifactKind::RustTarget => seq![
            seq![Clue::Marker("CACHEDIR.TAG"@), Clue::Marker(".rustc_info.json"@)],
        ],
        ArtifactKind::NodeModules => seq![
            seq![Clue::Marker(".bin"@), Clue::Marker(".package-lock.json"@), Clue::AnySubdir],
        ],
        ArtifactKind::PythonVenv => seq![
            seq![Clue::Marker("pyvenv.cfg"@)],
            seq![Clue::Marker("bin"@), Clue::Marker("Scripts"@)],
            seq![
                Clue::Nested("bin"@, "activate"@),
                Clue::Nested("Scripts"@, "activate.bat"@),
            ],
            seq![Clue::Marker("lib"@), Clue::Marker("Lib"@)],
        ],
        ArtifactKind::Sccache => seq![seq![Clue::AnySubdir, Clue::AnyFile]],
        ArtifactKind::StackWork => seq![
            seq![
                Clue::Marker("stack.sqlite3"@),
                Clue::Marker("dist"@),
                Clue::Marker("install"@),
            ],
        ],
        ArtifactKind::Rustup => seq![
            seq![
                Clue::Marker("settings.toml"@),
                Clue::Marker("toolchains"@),
                Clue::Marker("downloads"@),
                Clue::Marker("update-hashes"@),
            ],
        ],
        ArtifactKind::NextBuild => seq![
            seq![
                Clue::Marker("BUILD_ID"@),
                Clue::Marker("cache"@),
                Clue::Marker("server"@),
                Clue::Marker("static"@),
            ],
        ],
        ArtifactKind::CargoNix => seq![seq![Clue::AnyEntry]],
    }
}

/// Project markers looked for in the parent directory.
pub open spec fn spec_parent_markers(k: ArtifactKind) -> Seq<Seq<char>> {
    match k {
        ArtifactKind::NodeModules => seq![
            "package.json"@,
            "package-lock.json"@,
            "yarn.lock"@,
            "pnpm-lock.yaml"@,
        ],
        ArtifactKind::StackWork => seq!["stack.yaml"@, "package.yaml"@],
        ArtifactKind::NextBuild => seq![
            "next.config.js"@,
            "next.config.mjs"@,
            "next.config.ts"@,
            "package.json"@,
        ],
        _ => seq![],
    }
}

/// What the kind asks of the parent directory.
///
/// Dependency trees and Next.js output need a parent with a project marker.
/// A Stack work directory needs a Stack or cabal project in its parent, or
/// its own `stack.sqlite3`, which alone suffices, also when there is no
/// parent. Other kinds ask nothing.
pub open spec fn parent_holds(k: ArtifactKind, s: DirSnapshot) -> bool {
    match k {
        ArtifactKind::NodeModules | ArtifactKind::NextBuild => match s.parent {
            Some(p) => lists_any(p@, spec_parent_markers(k)),
            None => false,
        },
        ArtifactKind::StackWork => match s.parent {
            Some(p) => lists_any(p@, spec_parent_markers(k)) || lists_cabal(p@) || present(
                s.entries@,
                "stack.sqlite3"@,
            ),
            None => present(s.entries@, "stack.sqlite3"@),
        },
        _ => true,
    }
}

pub open spec fn name_holds(k: ArtifactKind, s: DirSnapshot) -> bool {
    match s.name {
        Some(n) => spec_basenames(k).contains(n@),
        None => false,
    }
}

/// The candidate is a genuine artifact directory of kind `k`: the right
/// name, no project marker inside, the kind's evidence inside, and what
/// the kind asks of the parent.
pub open spec fn is_artifact(k: ArtifactKind, s: DirSnapshot) -> bool {
    &&& name_holds(k, s)
    &&& !present_any(s.entries@, spec_forbidden(k))
    &&& evidence_holds(spec_evidence(k), s.entries@)
    &&& parent_holds(k, s)
}

/// The kind whose accepted names include `n`, if any.
pub open spec fn kind_named(n: Seq<char>) -> Option<ArtifactKind> {
    if spec_basenames(ArtifactKind::RustTarget).contains(n) {
        Some(ArtifactKind::RustTarget)
    } else if spec_basenames(ArtifactKind::NodeModules).contains(n) {
        Some(ArtifactKind::NodeModules)
    } else if spec_basenames(ArtifactKind::PythonVenv).contains(n) {
        Some(ArtifactKind::PythonVenv)
    } else if spec_basenames(ArtifactKind::Sccache).contains(n) {
        Some(ArtifactKind::Sccache)
    } else if spec_basenames(ArtifactKind::StackWork).contains(n) {
        Some(ArtifactKind::StackWork)
    } else if spec_basenames(ArtifactKind::Rustup).contains(n) {
        Some(ArtifactKind::Rustup)
    } else if spec_basenames(ArtifactKind::NextBuild).contains(n) {
        Some(ArtifactKind::NextBuild)
    } else if spec_basenames(ArtifactKind::CargoNix).contains(n) {
        Some(ArtifactKind::CargoNix)
    } else {
        None
    }
}

/// `a` and `b` hold the same characters.
pub fn same_text(a: &String, b: &str) -> (r: bool)
    ensures
        r == (a@ == b@),
{
    let t = b.to_owned();
    *a == t
}

/// Whether `names` holds `name`.
pub fn lists_name(names: &Vec<String>, name: &str) -> (r: bool)
    ensures
        r == lists(names@, name@),
{
    let mut j: usize = 0;
    while j < names.len()
        invariant
            j <= names@.len(),
            forall|t: int| 0 <= t < j ==> (#[trigger] names@[t])@ != name@,
        decreases names@.len() - j,
    {
        if same_text(&names[j], name) {
            return true;
        }
        j = j + 1;
    }
    false
}

fn lists_any_of(names: &Vec<String>, wanted: &Vec<&'static str>) -> (r: bool)
    ensures
        r == lists_any(names@, strs_view(wanted@)),
{
    let mut j: usize = 0;
    while j < wanted.len()
        invariant
            j <= wanted@.len(),
            forall|t: int| 0 <= t < j ==> !lists(names@, #[trigger] strs_view(wanted@)[t]),
        decreases wanted@.len() - j,
    {
        if lists_name(names, wanted[j]) {
            assert(lists(names@, strs_view(wanted@)[j as int]));
            return true;
        }
        j = j + 1;
    }
    false
}

fn is_cabal_file_name(n: &String) -> (r: bool)
    ensures
        r == is_cabal_name(n@),
{
    let s = n.as_str();
    let len = s.unicode_len();
    if len <= 6 {
        return false;
    }
    let ok = s.get_char(len - 6) == '.' && s.get_char(len - 5) == 'c' && s.get_char(len - 4)
        == 'a' && s.get_char(len - 3) == 'b' && s.get_char(len - 2) == 'a' && s.get_char(len - 1)
        == 'l';
    proof {
        let tail = n@.subrange(len - 6, len as int);
        if ok {
            assert(tail =~= seq!['.', 'c', 'a', 'b', 'a', 'l']);
        } else if tail == seq!['.', 'c', 'a', 'b', 'a', 'l'] {
            assert(tail[0] == n@[len - 6]);
            assert(tail[1] == n@[len - 5]);
            assert(tail[2] == n@[len - 4]);
            assert(tail[3] == n@[len - 3]);
            assert(tail[4] == n@[len - 2]);
            assert(tail[5] == n@[len - 1]);
        }
    }
    ok
}

fn lists_cabal_file(names: &Vec<String>) -> (r: bool)
    ensures
        r == lists_cabal(names@),
{
    let mut j: usize = 0;
    while j < names.len()
        invariant
            j <= names@.len(),
            forall|t: int| 0 <= t < j ==> !is_cabal_name((#[trigger] names@[t])@),
        decreases names@.len() - j,
    {
        if is_cabal_file_name(&names[j]) {
            return true;
        }
        j = j + 1;
    }
    false
}

/// Whether a direct child named `name` exists.
pub fn has_entry(entries: &Vec<Entry>, name: &str) -> (r: bool)
    ensures
        r == present(entries@, name@),
{
    let mut i: usize = 0;
    while i < entries.len()
        invariant
            i <= entries@.len(),
            forall|t: int| 0 <= t < i ==> (#[trigger] entries@[t]).name@ != name@,
        decreases entries@.len() - i,
    {
        if same_text(&entries[i].name, name) {
            return true;
        }
        i = i + 1;
    }
    false
}

fn has_any_entry(entries: &Vec<Entry>, names: &Vec<&'static str>) -> (r: bool)
    ensures
        r == present_any(entries@, strs_view(names@)),
{
    let mut j: usize = 0;
    while j < names.len()
        invariant
            j <= names@.len(),
            forall|t: int| 0 <= t < j ==> !present(entries@, #[trigger] strs_view(names@)[t]),
        decreases names@.len() - j,
    {
        if has_entry(entries, names[j]) {
            assert(present(entries@, strs_view(names@)[j as int]));
            return true;
        }
        j = j + 1;
    }
    false
}

fn has_nested_entry(entries: &Vec<Entry>, dir: &str, child: &str) -> (r: bool)
    ensures
        r == has_nested(entries@, dir@, child@),
{
    let mut i: usize = 0;
    while i < entries.len()
        invariant
            i <= entries@.len(),
            forall|t: int|
                0 <= t < i ==> !((#[trigger] entries@[t]).name@ == dir@ && lists(
                    entries@[t].children@,
                    child@,
                )),
        decreases entries@.len() - i,
    {
        if same_text(&entries[i].name, dir) && lists_name(&entries[i].children, child) {
            return true;
        }
        i = i + 1;
    }
    false
}

fn has_subdir_entry(entries: &Vec<Entry>) -> (r: bool)
    ensures
        r == has_subdir(entries@),
{
    let mut i: usize = 0;
    while i < entries.len()
        invariant
            i <= entries@.len(),
            forall|t: int| 0 <= t < i ==> !(#[trigger] entries@[t]).is_dir,
        decreases entries@.len() - i,
    {
        if entries[i].is_dir {
            return true;
        }
        i = i + 1;
    }
    false
}

fn has_file_entry(entries: &Vec<Entry>) -> (r: bool)
    ensures
        r == has_file(entries@),
{
    let mut i: usize = 0;
    while i < entries.len()
        invariant
            i <= entries@.len(),
            forall|t: int| 0 <= t < i ==> !(#[trigger] entries@[t]).is_file,
        decreases entries@.len() - i,
    {
        if entries[i].is_file {
            return true;
        }
        i = i + 1;
    }
    false
}

fn clue_found(entries: &Vec<Entry>, e: &Evidence) -> (r: bool)
    ensures
        r == clue_holds(e@, entries@),
{
    match e {
        Evidence::Marker(m) => has_entry(entries, m),
        Evidence::Nested(d, c) => has_nested_entry(entries, d, c),
        Evidence::AnySubdir => has_subdir_entry(entries),
        Evidence::AnyFile => has_file_entry(entries),
        Evidence::AnyEntry => entries.len() > 0,
    }
}

fn group_found(entries: &Vec<Entry>, g: &Vec<Evidence>) -> (r: bool)
    ensures
        r == group_holds(group_view(g@), entries@),
{
    let mut j: usize = 0;
    while j < g.len()
        invariant
            j <= g@.len(),
            forall|t: int| 0 <= t < j ==> !clue_holds(#[trigger] group_view(g@)[t], entries@),
        decreases g@.len() - j,
    {
        if clue_found(entries, &g[j]) {
            assert(clue_holds(group_view(g@)[j as int], entries@));
            return true;
        }
        j = j + 1;
    }
    false
}

fn evidence_found(entries: &Vec<Entry>, gs: &Vec<Vec<Evidence>>) -> (r: bool)
    ensures
        r == evidence_holds(groups_view(gs@), entries@),
{
    let mut k: usize = 0;
    while k < gs.len()
        invariant
            k <= gs@.len(),
            forall|t: int| 0 <= t < k ==> group_holds(#[trigger] groups_view(gs@)[t], entries@),
        decreases gs@.len() - k,
    {
        if !group_found(entries, &gs[k]) {
            assert(!group_holds(groups_view(gs@)[k as int], entries@));
            return false;
        }
        k = k + 1;
    }
    true
}

impl ArtifactKind {
    /// The accepted directory names.
    pub fn basenames(self) -> (r: Vec<&'static str>)
        ensures
            strs_view(r@) == spec_basenames(self),
    {
        let r = match self {
            ArtifactKind::RustTarget => vec!["target", "target-ra"],
            ArtifactKind::NodeModules => vec!["node_modules"],
            ArtifactKind::PythonVenv => vec![
                "venv",
                ".venv",
                "env",
                "ENV",
                "virtualenv",
                ".virtualenv",
            ],
            ArtifactKind::Sccache => vec![".sccache"],
            ArtifactKind::StackWork => vec![".stack-work"],
            ArtifactKind::Rustup => vec![".rustup"],
            ArtifactKind::NextBuild => vec![".next"],
            ArtifactKind::CargoNix => vec![".cargo-nix"],
        };
        assert(strs_view(r@) =~= spec_basenames(self));
        r
    }

    /// Names that must not appear inside a candidate.
    pub fn forbidden(self) -> (r: Vec<&'static str>)
        ensures
            strs_view(r@) == spec_forbidden(self),
    {
        let r = match self {
            ArtifactKind::RustTarget => vec!["Cargo.toml"],
            ArtifactKind::NodeModules => vec!["Cargo.toml", "setup.py"],
            ArtifactKind::PythonVenv => vec![".git"],
            ArtifactKind::StackWork => vec!["Cargo.toml", "package.json", ".git", "setup.py"],
            _ => vec!["Cargo.toml", "package.json", ".git"],
        };
        assert(strs_view(r@) =~= spec_forbidden(self));
        r
    }

    /// Groups of evidence, each of which must be met by one of its clues.
    pub fn evidence(self) -> (r: Vec<Vec<Evidence>>)
        ensures
            groups_view(r@) == spec_evidence(self),
    {
        let r = match self {
            ArtifactKind::RustTarget => vec![
                vec![Evidence::Marker("CACHEDIR.TAG"), Evidence::Marker(".rustc_info.json")],
            ],
            ArtifactKind::NodeModules => vec![
                vec![
                    Evidence::Marker(".bin"),
                    Evidence::Marker(".package-lock.json"),
                    Evidence::AnySubdir,
                ],
            ],
            ArtifactKind::PythonVenv => vec![
                vec![Evidence::Marker("pyvenv.cfg")],
                vec![Evidence::Marker("bin"), Evidence::Marker("Scripts")],
                vec![
                    Evidence::Nested("bin", "activate"),
                    Evidence::Nested("Scripts", "activate.bat"),
                ],
                vec![Evidence::Marker("lib"), Evidence::Marker("Lib")],
            ],
            ArtifactKind::Sccache => vec![vec![Evidence::AnySubdir, Evidence::AnyFile]],
            ArtifactKind::StackWork => vec![
                vec![
                    Evidence::Marker("stack.sqlite3"),
                    Evidence::Marker("dist"),
                    Evidence::Marker("install"),
                ],
            ],
            ArtifactKind::Rustup => vec![
                vec![
                    Evidence::Marker("settings.toml"),
                    Evidence::Marker("toolchains"),
                    Evidence::Marker("downloads"),
                    Evidence::Marker("update-hashes"),
                ],
            ],
            ArtifactKind::NextBuild => vec![
                vec![
                    Evidence::Marker("BUILD_ID"),
                    Evidence::Marker("cache"),
                    Evidence::Marker("server"),
                    Evidence::Marker("static"),
                ],
            ],
            ArtifactKind::CargoNix => vec![vec![Evidence::AnyEntry]],
        };
        proof {
            let gs = groups_view(r@);
            let want = spec_evidence(self);
            assert forall|k: int| 0 <= k < r@.len() implies #[trigger] gs[k] =~= want[k] by {
                assert(gs[k] == group_view(r@[k]@));
            }
            assert(gs =~= want);
        }
        r
    }

    /// Project markers looked for in the parent directory.
    pub fn parent_markers(self) -> (r: Vec<&'static str>)
        ensures
            strs_view(r@) == spec_parent_markers(self),
    {
        let r = match self {
            ArtifactKind::NodeModules => vec![
                "package.json",
                "package-lock.json",
                "yarn.lock",
                "pnpm-lock.yaml",
            ],
            ArtifactKind::StackWork => vec!["stack.yaml", "package.yaml"],
            ArtifactKind::NextBuild => vec![
                "next.config.js",
                "next.config.mjs",
                "next.config.ts",
                "package.json",
            ],
            _ => vec![],
        };
        assert(strs_view(r@) =~= spec_parent_markers(self));
        r
    }

    /// Whether `name` is one of this kind's accepted names.
    pub fn accepts_name(self, name: &String) -> (r: bool)
        ensures
            r == spec_basenames(self).contains(name@),
    {
        let names = self.basenames();
        let mut j: usize = 0;
        while j < names.len()
            invariant
                j <= names@.len(),
                strs_view(names@) == spec_basenames(self),
                forall|t: int| 0 <= t < j ==> (#[trigger] strs_view(names@)[t]) != name@,
            decreases names@.len() - j,
        {
            if same_text(name, names[j]) {
                assert(strs_view(names@)[j as int] == name@);
                return true;
            }
            j = j + 1;
        }
        false
    }

    /// The kind a directory name belongs to, if any.
    pub fn for_name(name: &String) -> (r: Option<ArtifactKind>)
        ensures
            r == kind_named(name@),
    {
        if ArtifactKind::RustTarget.accepts_name(name) {
            Some(ArtifactKind::RustTarget)
        } else if ArtifactKind::NodeModules.accepts_name(name) {
            Some(ArtifactKind::NodeModules)
        } else if ArtifactKind::PythonVenv.accepts_name(name) {
            Some(ArtifactKind::PythonVenv)
        } else if ArtifactKind::Sccache.accepts_name(name) {
            Some(ArtifactKind::Sccache)
        } else if ArtifactKind::StackWork.accepts_name(name) {
            Some(ArtifactKind::StackWork)
        } else if ArtifactKind::Rustup.accepts_name(name) {
            Some(ArtifactKind::Rustup)
        } else if ArtifactKind::NextBuild.accepts_name(name) {
            Some(ArtifactKind::NextBuild)
        } else if ArtifactKind::CargoNix.accepts_name(name) {
            Some(ArtifactKind::CargoNix)
        } else {
            None
        }
    }

    fn parent_ok(self, s: &DirSnapshot) -> (r: bool)
        ensures
            r == parent_holds(self, *s),
    {
        match self {
            ArtifactKind::NodeModules | ArtifactKind::NextBuild => match &s.parent {
                Some(p) => lists_any_of(p, &self.parent_markers()),
                None => false,
            },
            ArtifactKind::StackWork => match &s.parent {
                Some(p) => lists_any_of(p, &self.parent_markers()) || lists_cabal_file(p)
                    || has_entry(&s.entries, "stack.sqlite3"),
                None => has_entry(&s.entries, "stack.sqlite3"),
            },
            _ => true,
        }
    }

    /// Decides whether the candidate is a genuine artifact directory of this
    /// kind. The checks run cheapest first: name, forbidden project markers,
    /// the kind's own evidence, then the parent.
    pub fn matches(self, s: &DirSnapshot) -> (r: bool)
        ensures
            r == is_artifact(self, *s),
    {
        let named = match &s.name {
            Some(n) => self.accepts_name(n),
            None => false,
        };
        if !named {
            return false;
        }
        if has_any_entry(&s.entries, &self.forbidden()) {
            return false;
        }
        if !evidence_found(&s.entries, &self.evidence()) {
            return false;
        }
        self.parent_ok(s)
    }
}

/// Whether the directory is Cargo build output: named `target` or
/// `target-ra`, no `Cargo.toml` inside, and `CACHEDIR.TAG` or
/// `.rustc_info.json` inside.
pub fn is_rust_target_dir(s: &DirSnapshot) -> (r: bool)
    ensures
        r == is_artifact(ArtifactKind::RustTarget, *s),
{
    ArtifactKind::RustTarget.matches(s)
}

/// Whether the directory is a dependency tree: named `node_modules`, no
/// `Cargo.toml` or `setup.py` inside, a package manifest or lock file in the
/// parent, and `.bin`, `.package-lock.json` or a package directory inside.
pub fn is_node_modules_dir(s: &DirSnapshot) -> (r: bool)
    ensures
        r == is_artifact(ArtifactKind::NodeModules, *s),
{
    ArtifactKind::NodeModules.matches(s)
}

/// Whether the directory is a Python virtual environment: one of the usual
/// names, no `.git` inside, `pyvenv.cfg`, a `bin` or `Scripts` directory
/// with an activation script, and `lib` or `Lib`.
pub fn is_python_venv_dir(s: &DirSnapshot) -> (r: bool)
    ensures
        r == is_artifact(ArtifactKind::PythonVenv, *s),
{
    ArtifactKind::PythonVenv.matches(s)
}

/// Whether the directory is an sccache cache: named `.sccache`, no project
/// marker inside, and not empty of files and directories.
pub fn is_sccache_dir(s: &DirSnapshot) -> (r: bool)
    ensures
        r == is_artifact(ArtifactKind::Sccache, *s),
{
    ArtifactKind::Sccache.matches(s)
}

/// Whether the directory is a Stack work directory: named `.stack-work`, no
/// project marker inside, `stack.sqlite3`, `dist` or `install` inside, and
/// either its own `stack.sqlite3` or a parent holding a Stack or cabal
/// project. Without a parent, only the database makes it one.
pub fn is_stack_work_dir(s: &DirSnapshot) -> (r: bool)
    ensures
        r == is_artifact(ArtifactKind::StackWork, *s),
{
    ArtifactKind::StackWork.matches(s)
}

/// Whether the directory is a rustup installation: named `.rustup`, no
/// project marker inside, and one of rustup's own files or directories.
pub fn is_rustup_dir(s: &DirSnapshot) -> (r: bool)
    ensures
        r == is_artifact(ArtifactKind::Rustup, *s),
{
    ArtifactKind::Rustup.matches(s)
}

/// Whether the directory is Next.js build output: named `.next`, no project
/// marker inside, a build marker inside, and a Next.js project in the parent.
pub fn is_next_dir(s: &DirSnapshot) -> (r: bool)
    ensures
        r == is_artifact(ArtifactKind::NextBuild, *s),
{
    ArtifactKind::NextBuild.matches(s)
}

/// Whether the directory is a cargo-nix cache: named `.cargo-nix`, no
/// project marker inside, and not empty.
pub fn is_cargo_nix_dir(s: &DirSnapshot) -> (r: bool)
    ensures
        r == is_artifact(ArtifactKind::CargoNix, *s),
{
    ArtifactKind::CargoNix.matches(s)
}

/// A project marker inside a candidate overrides every other evidence: for
/// every kind, a directory holding one of the kind's forbidden names is not
/// an artifact of that kind.
pub proof fn lemma_forbidden_marker_rejects(k: ArtifactKind, s: DirSnapshot, j: int)
    requires
        0 <= j < spec_forbidden(k).len(),
        present(s.entries@, spec_forbidden(k)[j]),
    ensures
        !is_artifact(k, s),
{
}

/// Evidence is never presumed: for every kind, a directory with nothing
/// inside it (an empty or a missing one) is not an artifact, whatever its
/// name and its parent.
pub proof fn lemma_empty_dir_rejected(k: ArtifactKind, s: DirSnapshot)
    requires
        s.entries@.len() == 0,
    ensures
        !is_artifact(k, s),
{
    let g = spec_evidence(k)[0];
    assert(!group_holds(g, s.entries@));
}

/// Without a parent the parent check fails closed: a dependency tree or
/// Next.js output with no parent is never an artifact, and a Stack work
/// directory with no parent is one only when its own `stack.sqlite3` is inside.
pub proof fn lemma_no_parent_fails_closed(s: DirSnapshot)
    requires
        s.parent is None,
    ensures
        !is_artifact(ArtifactKind::NodeModules, s),
        !is_artifact(ArtifactKind::NextBuild, s),
        is_artifact(ArtifactKind::StackWork, s) ==> present(s.entries@, "stack.sqlite3"@),
{
}

} // verus!
