//! Where the runtime keeps its data and finds its assets.
use vstd::prelude::*;
use vstd::string::*;

use crate::paths;
use crate::text;

verus! {

broadcast use vstd::string::group_string_axioms;

pub const DEBUG_DATA_DIR_NAME: &'static str = "data";

pub const APP_DATA_DIR_NAME: &'static str = "threadBridge";

pub const RUNTIME_ASSETS_DIR_NAME: &'static str = "runtime_assets";

pub const DEBUG_EVENTS_RELATIVE_PATH: &'static str = "debug/events.jsonl";

/// How the program was built.
#[derive(Debug, Clone, Copy, PartialEq, Eq, Structural)]
pub enum BuildFlavor {
    Debug,
    Release,
}

impl BuildFlavor {
    /// How the program was built: with debug assertions or without.
    pub fn current(debug_assertions: bool) -> (res: Self)
        ensures
            res == if debug_assertions {
                BuildFlavor::Debug
            } else {
                BuildFlavor::Release
            },
    {
        if debug_assertions {
            BuildFlavor::Debug
        } else {
            BuildFlavor::Release
        }
    }
}

/// Paths that the user has set.
#[derive(Debug, Clone)]
pub struct RuntimePathOverrides {
    pub data_root: Option<String>,
    pub bot_data_path: Option<String>,
    pub debug_log_path: Option<String>,
}

impl Default for RuntimePathOverrides {
    fn default() -> (res: Self)
        ensures
            res.data_root is None,
            res.bot_data_path is None,
            res.debug_log_path is None,
    {
        RuntimePathOverrides { data_root: None, bot_data_path: None, debug_log_path: None }
    }
}

/// Where the runtime keeps its data and finds its assets.
#[derive(Debug, Clone, PartialEq, Eq)]
pub struct RuntimePaths {
    pub data_root_path: String,
    pub debug_log_path: String,
    pub runtime_assets_root_path: String,
    pub runtime_assets_seed_root_path: String,
}

/// Where the runtime keeps its data and finds its assets, as a value.
pub struct RuntimePathsModel {
    pub data_root_path: Seq<char>,
    pub debug_log_path: Seq<char>,
    pub runtime_assets_root_path: Seq<char>,
    pub runtime_assets_seed_root_path: Seq<char>,
}

impl View for RuntimePaths {
    type V = RuntimePathsModel;

    open spec fn view(&self) -> RuntimePathsModel {
        RuntimePathsModel {
            data_root_path: self.data_root_path@,
            debug_log_path: self.debug_log_path@,
            runtime_assets_root_path: self.runtime_assets_root_path@,
            runtime_assets_seed_root_path: self.runtime_assets_seed_root_path@,
        }
    }
}

/// Why there are no paths.
#[derive(Debug, Clone, Copy, PartialEq, Eq, Structural)]
pub enum RuntimePathError {
    NoLocalDataDir,
    NoDataRootParent,
    NoAssetsRoot,
}

impl RuntimePathError {
    /// The reason, in words.
    pub fn to_text(self) -> (res: &'static str)
        ensures
            res@ == match self {
                RuntimePathError::NoLocalDataDir => {
                    "failed to resolve a local application data directory for the release runtime"@
                },
                RuntimePathError::NoDataRootParent => {
                    "failed to resolve runtime assets root because data root has no parent directory"@
                },
                RuntimePathError::NoAssetsRoot => {
                    "failed to resolve runtime assets root; expected `runtime_assets` beside the source checkout or inside the app bundle resources"@
                },
            },
    {
        match self {
            RuntimePathError::NoLocalDataDir => {
                "failed to resolve a local application data directory for the release runtime"
            },
            RuntimePathError::NoDataRootParent => {
                "failed to resolve runtime assets root because data root has no parent directory"
            },
            RuntimePathError::NoAssetsRoot => {
                "failed to resolve runtime assets root; expected `runtime_assets` beside the source checkout or inside the app bundle resources"
            },
        }
    }
}

/// What a path really leads to, links and all.
#[derive(Debug, Clone)]
pub struct CanonicalPath {
    pub path: String,
    pub canonical: String,
}

/// What is on disk, as far as it was looked at.
#[derive(Debug, Clone)]
pub struct DiskFacts {
    pub directories: Vec<String>,
    pub files: Vec<String>,
    pub canonical_paths: Vec<CanonicalPath>,
}

/// What a path really leads to, as far as that is known, from `from` on.
pub open spec fn canonical_from(known: Seq<CanonicalPath>, path: Seq<char>, from: int) -> Option<
    Seq<char>,
>
    decreases known.len() - from,
{
    if from < 0 || from >= known.len() {
        None
    } else if known[from].path@ == path {
        Some(known[from].canonical@)
    } else {
        canonical_from(known, path, from + 1)
    }
}

impl DiskFacts {
    /// Whether a directory is there.
    pub open spec fn is_dir(self, path: Seq<char>) -> bool {
        text::views(self.directories@).contains(path)
    }

    /// Whether a file is there.
    pub open spec fn is_file(self, path: Seq<char>) -> bool {
        text::views(self.files@).contains(path)
    }

    /// What a path leads to from a base: where it really leads, or else the path in its plain form.
    pub open spec fn resolved(self, base: Seq<char>, input: Seq<char>) -> Seq<char> {
        let path = paths::below(base, input);
        text::or_text(canonical_from(self.canonical_paths@, path, 0), paths::normalized(path))
    }

    /// Whether a directory is the root of a source tree.
    pub open spec fn is_source_root(self, path: Seq<char>) -> bool {
        self.is_dir(paths::below(path, RUNTIME_ASSETS_DIR_NAME@)) && self.is_file(
            paths::below(path, "Cargo.toml"@),
        )
    }

    /// The root of the source tree that a path is in, or that it is.
    pub open spec fn source_root_above(self, path: Seq<char>) -> Option<Seq<char>>
        decreases path.len(),
    {
        if self.is_source_root(path) {
            Some(path)
        } else {
            match paths::parent_of(path) {
                Some(parent) => {
                    proof {
                        paths::lemma_parent_is_shorter(path);
                    }
                    self.source_root_above(parent)
                },
                None => None,
            }
        }
    }

    /// The root of the source tree, above the program or else above the working directory.
    pub open spec fn source_root(self, current_exe: Seq<char>, cwd: Seq<char>) -> Option<Seq<char>> {
        let above_exe = match paths::parent_of(current_exe) {
            Some(parent) => self.source_root_above(parent),
            None => None,
        };
        if above_exe is Some {
            above_exe
        } else {
            self.source_root_above(cwd)
        }
    }

    /// The assets of the bundle that the program is in, if it is in one.
    pub open spec fn bundle_assets(self, current_exe: Seq<char>) -> Option<Seq<char>> {
        match bundle_assets_place(current_exe) {
            Some(assets) => if self.is_dir(assets) {
                Some(assets)
            } else {
                None
            },
            None => None,
        }
    }

    fn has_dir(&self, path: &str) -> (res: bool)
        ensures
            res == self.is_dir(path@),
    {
        text::list_has(&self.directories, path)
    }

    fn has_file(&self, path: &str) -> (res: bool)
        ensures
            res == self.is_file(path@),
    {
        text::list_has(&self.files, path)
    }

    fn canonical(&self, path: &str) -> (res: Option<String>)
        ensures
            text::opt_view(res) == canonical_from(self.canonical_paths@, path@, 0),
    {
        let known = &self.canonical_paths;
        let mut i: usize = 0;
        while i < known.len()
            invariant
                i <= known.len(),
                known@ == self.canonical_paths@,
                canonical_from(known@, path@, 0) == canonical_from(known@, path@, i as int),
            decreases known.len() - i,
        {
            if text::same_text(known[i].path.as_str(), path) {
                return Some(known[i].canonical.clone());
            }
            i += 1;
        }
        None
    }

    fn resolve_from_base(&self, base: &str, input: &str) -> (res: String)
        ensures
            res@ == self.resolved(base@, input@),
    {
        let path = paths::join(base, input);
        match self.canonical(path.as_str()) {
            Some(canonical) => canonical,
            None => paths::normalize(path.as_str()),
        }
    }

    fn find_source_root_above(&self, start: &str) -> (res: Option<String>)
        ensures
            text::opt_view(res) == self.source_root_above(start@),
    {
        let mut path = start.to_owned();
        loop
            invariant
                self.source_root_above(path@) == self.source_root_above(start@),
            decreases path@.len(),
        {
            let assets = paths::join(path.as_str(), RUNTIME_ASSETS_DIR_NAME);
            let manifest = paths::join(path.as_str(), "Cargo.toml");
            if self.has_dir(assets.as_str()) && self.has_file(manifest.as_str()) {
                return Some(path);
            }
            match paths::parent(path.as_str()) {
                Some(parent) => {
                    proof {
                        paths::lemma_parent_is_shorter(path@);
                    }
                    path = parent;
                },
                None => {
                    return None;
                },
            }
        }
    }

    fn find_source_root(&self, current_exe: &str, cwd: &str) -> (res: Option<String>)
        ensures
            text::opt_view(res) == self.source_root(current_exe@, cwd@),
    {
        if let Some(parent) = paths::parent(current_exe) {
            if let Some(root) = self.find_source_root_above(parent.as_str()) {
                return Some(root);
            }
        }
        self.find_source_root_above(cwd)
    }

    fn find_bundle_assets(&self, current_exe: &str) -> (res: Option<String>)
        ensures
            text::opt_view(res) == self.bundle_assets(current_exe@),
    {
        match bundle_assets_path(current_exe) {
            Some(assets) => if self.has_dir(assets.as_str()) {
                Some(assets)
            } else {
                None
            },
            None => None,
        }
    }
}

/// Where the assets of a bundle are, from the program in it.
pub open spec fn bundle_assets_place(current_exe: Seq<char>) -> Option<Seq<char>> {
    match paths::parent_of(current_exe) {
        Some(parent) => match paths::parent_of(parent) {
            Some(contents) => Some(
                paths::below(paths::below(contents, "Resources"@), RUNTIME_ASSETS_DIR_NAME@),
            ),
            None => None,
        },
        None => None,
    }
}

/// Where the assets of a bundle are, from the program in it.
pub fn bundle_assets_path(current_exe: &str) -> (res: Option<String>)
    ensures
        text::opt_view(res) == bundle_assets_place(current_exe@),
{
    match paths::parent(current_exe) {
        Some(parent) => match paths::parent(parent.as_str()) {
            Some(contents) => {
                let resources = paths::join(contents.as_str(), "Resources");
                Some(paths::join(resources.as_str(), RUNTIME_ASSETS_DIR_NAME))
            },
            None => None,
        },
        None => None,
    }
}

/// A path and the directories above it, from the path on.
pub open spec fn ancestors_of(path: Seq<char>) -> Seq<Seq<char>>
    decreases path.len(),
{
    match paths::parent_of(path) {
        Some(parent) => {
            proof {
                paths::lemma_parent_is_shorter(path);
            }
            seq![path] + ancestors_of(parent)
        },
        None => seq![path],
    }
}

/// A path and the directories above it: where the root of a source tree is looked for.
pub fn ancestors(path: &str) -> (res: Vec<String>)
    ensures
        text::views(res@) == ancestors_of(path@),
{
    let mut found: Vec<String> = Vec::new();
    let mut current = path.to_owned();
    proof {
        assert(text::views(found@) + ancestors_of(current@) =~= ancestors_of(path@));
    }
    loop
        invariant
            text::views(found@) + ancestors_of(current@) == ancestors_of(path@),
        decreases current@.len(),
    {
        let ghost before = text::views(found@);
        let ghost here = current@;
        let next = paths::parent(current.as_str());
        text::push_line(&mut found, current);
        match next {
            Some(parent) => {
                proof {
                    paths::lemma_parent_is_shorter(here);
                    assert(before.push(here) + ancestors_of(parent@) =~= before + (seq![here]
                        + ancestors_of(parent@)));
                }
                current = parent;
            },
            None => {
                proof {
                    assert(before.push(here) =~= before + seq![here]);
                }
                return found;
            },
        }
    }
}

/// Where the data is: where it is said to be, beside the old data file, or where the way the
/// program was built puts it.
pub open spec fn data_root_of(
    facts: DiskFacts,
    cwd: Seq<char>,
    build_flavor: BuildFlavor,
    local_data_dir: Option<Seq<char>>,
    overrides: RuntimePathOverrides,
    source_root: Option<Seq<char>>,
) -> Result<Seq<char>, RuntimePathError> {
    match (overrides.data_root, overrides.bot_data_path) {
        (Some(path), _) => Ok(facts.resolved(cwd, path@)),
        (None, Some(path)) => Ok(
            text::or_text(
                paths::parent_of(facts.resolved(cwd, path@)),
                paths::below(cwd, DEBUG_DATA_DIR_NAME@),
            ),
        ),
        (None, None) => match build_flavor {
            BuildFlavor::Debug => match source_root {
                Some(root) => Ok(paths::below(root, DEBUG_DATA_DIR_NAME@)),
                None => Ok(facts.resolved(cwd, DEBUG_DATA_DIR_NAME@)),
            },
            BuildFlavor::Release => match local_data_dir {
                Some(root) => Ok(
                    paths::below(paths::below(root, APP_DATA_DIR_NAME@), DEBUG_DATA_DIR_NAME@),
                ),
                None => Err(RuntimePathError::NoLocalDataDir),
            },
        },
    }
}

/// Where the assets are, and where they come from: in a bundle they are set up beside the data, and
/// in a source tree they are used as they are.
pub open spec fn assets_of(
    facts: DiskFacts,
    current_exe: Seq<char>,
    data_root: Seq<char>,
    source_root: Option<Seq<char>>,
) -> Result<(Seq<char>, Seq<char>), RuntimePathError> {
    match facts.bundle_assets(current_exe) {
        Some(seed) => match paths::parent_of(data_root) {
            Some(home) => Ok((paths::below(home, RUNTIME_ASSETS_DIR_NAME@), seed)),
            None => Err(RuntimePathError::NoDataRootParent),
        },
        None => match source_root {
            Some(root) => Ok(
                (
                    paths::below(root, RUNTIME_ASSETS_DIR_NAME@),
                    paths::below(root, RUNTIME_ASSETS_DIR_NAME@),
                ),
            ),
            None => Err(RuntimePathError::NoAssetsRoot),
        },
    }
}

/// All paths of the runtime.
pub open spec fn paths_of(
    facts: DiskFacts,
    cwd: Seq<char>,
    current_exe: Seq<char>,
    build_flavor: BuildFlavor,
    local_data_dir: Option<Seq<char>>,
    overrides: RuntimePathOverrides,
) -> Result<RuntimePathsModel, RuntimePathError> {
    let source_root = facts.source_root(current_exe, cwd);
    match data_root_of(facts, cwd, build_flavor, local_data_dir, overrides, source_root) {
        Ok(data_root_path) => match assets_of(facts, current_exe, data_root_path, source_root) {
            Ok(assets) => Ok(
                RuntimePathsModel {
                    data_root_path,
                    debug_log_path: match overrides.debug_log_path {
                        Some(path) => facts.resolved(cwd, path@),
                        None => paths::below(data_root_path, DEBUG_EVENTS_RELATIVE_PATH@),
                    },
                    runtime_assets_root_path: assets.0,
                    runtime_assets_seed_root_path: assets.1,
                },
            ),
            Err(error) => Err(error),
        },
        Err(error) => Err(error),
    }
}

/// Where the data is.
pub fn resolve_data_root(
    facts: &DiskFacts,
    cwd: &str,
    build_flavor: BuildFlavor,
    local_data_dir: Option<&str>,
    overrides: &RuntimePathOverrides,
    source_root: Option<&str>,
) -> (res: Result<String, RuntimePathError>)
    ensures
        match res {
            Ok(path) => data_root_of(
                *facts,
                cwd@,
                build_flavor,
                text::opt_str_view(local_data_dir),
                *overrides,
                text::opt_str_view(source_root),
            ) == Ok::<Seq<char>, RuntimePathError>(path@),
            Err(error) => data_root_of(
                *facts,
                cwd@,
                build_flavor,
                text::opt_str_view(local_data_dir),
                *overrides,
                text::opt_str_view(source_root),
            ) == Err::<Seq<char>, RuntimePathError>(error),
        },
{
    if let Some(path) = &overrides.data_root {
        return Ok(facts.resolve_from_base(cwd, path.as_str()));
    }
    if let Some(path) = &overrides.bot_data_path {
        let bot_data_path = facts.resolve_from_base(cwd, path.as_str());
        return match paths::parent(bot_data_path.as_str()) {
            Some(parent) => Ok(parent),
            None => Ok(paths::join(cwd, DEBUG_DATA_DIR_NAME)),
        };
    }
    match build_flavor {
        BuildFlavor::Debug => match source_root {
            Some(root) => Ok(paths::join(root, DEBUG_DATA_DIR_NAME)),
            None => Ok(facts.resolve_from_base(cwd, DEBUG_DATA_DIR_NAME)),
        },
        BuildFlavor::Release => match local_data_dir {
            Some(root) => {
                let app = paths::join(root, APP_DATA_DIR_NAME);
                Ok(paths::join(app.as_str(), DEBUG_DATA_DIR_NAME))
            },
            None => Err(RuntimePathError::NoLocalDataDir),
        },
    }
}

fn resolve_assets(
    facts: &DiskFacts,
    current_exe: &str,
    data_root: &str,
    source_root: Option<&str>,
) -> (res: Result<(String, String), RuntimePathError>)
    ensures
        match res {
            Ok(found) => assets_of(
                *facts,
                current_exe@,
                data_root@,
                text::opt_str_view(source_root),
            ) == Ok::<(Seq<char>, Seq<char>), RuntimePathError>((found.0@, found.1@)),
            Err(error) => assets_of(
                *facts,
                current_exe@,
                data_root@,
                text::opt_str_view(source_root),
            ) == Err::<(Seq<char>, Seq<char>), RuntimePathError>(error),
        },
{
    if let Some(seed) = facts.find_bundle_assets(current_exe) {
        return match paths::parent(data_root) {
            Some(home) => Ok((paths::join(home.as_str(), RUNTIME_ASSETS_DIR_NAME), seed)),
            None => Err(RuntimePathError::NoDataRootParent),
        };
    }
    match source_root {
        Some(root) => Ok(
            (
                paths::join(root, RUNTIME_ASSETS_DIR_NAME),
                paths::join(root, RUNTIME_ASSETS_DIR_NAME),
            ),
        ),
        None => Err(RuntimePathError::NoAssetsRoot),
    }
}

/// All paths of the runtime, from where the program is and what is on disk.
pub fn resolve_runtime_paths_with(
    facts: &DiskFacts,
    cwd: &str,
    current_exe: &str,
    build_flavor: BuildFlavor,
    platform_local_data_dir: Option<&str>,
    overrides: &RuntimePathOverrides,
) -> (res: Result<RuntimePaths, RuntimePathError>)
    ensures
        match res {
            Ok(found) => paths_of(
                *facts,
                cwd@,
                current_exe@,
                build_flavor,
                text::opt_str_view(platform_local_data_dir),
                *overrides,
            ) == Ok::<RuntimePathsModel, RuntimePathError>(found@),
            Err(error) => paths_of(
                *facts,
                cwd@,
                current_exe@,
                build_flavor,
                text::opt_str_view(platform_local_data_dir),
                *overrides,
            ) == Err::<RuntimePathsModel, RuntimePathError>(error),
        },
{
    let source_root = facts.find_source_root(current_exe, cwd);
    let source_root = text::as_deref(&source_root);
    let data_root_path = match resolve_data_root(
        facts,
        cwd,
        build_flavor,
        platform_local_data_dir,
        overrides,
        source_root,
    ) {
        Ok(path) => path,
        Err(error) => {
            return Err(error);
        },
    };
    let debug_log_path = match &overrides.debug_log_path {
        Some(path) => facts.resolve_from_base(cwd, path.as_str()),
        None => paths::join(data_root_path.as_str(), DEBUG_EVENTS_RELATIVE_PATH),
    };
    match resolve_assets(facts, current_exe, data_root_path.as_str(), source_root) {
        Ok((runtime_assets_root_path, runtime_assets_seed_root_path)) => Ok(
            RuntimePaths {
                data_root_path,
                debug_log_path,
                runtime_assets_root_path,
                runtime_assets_seed_root_path,
            },
        ),
        Err(error) => Err(error),
    }
}

/// A data root that the user has set comes before everything else, whatever else is set and
/// however the program was built.
pub proof fn law_data_root_override_comes_first(
    facts: DiskFacts,
    cwd: Seq<char>,
    current_exe: Seq<char>,
    build_flavor: BuildFlavor,
    local_data_dir: Option<Seq<char>>,
    overrides: RuntimePathOverrides,
)
    requires
        overrides.data_root is Some,
    ensures
        paths_of(facts, cwd, current_exe, build_flavor, local_data_dir, overrides) matches Ok(found)
            ==> found.data_root_path == facts.resolved(cwd, overrides.data_root->0@),
        paths_of(facts, cwd, current_exe, build_flavor, local_data_dir, overrides)
            != Err::<RuntimePathsModel, RuntimePathError>(RuntimePathError::NoLocalDataDir),
{
}

/// A data root that the user has set decides alone: two ways to build and run the program that
/// share it put the data in the same place, and neither fails.
pub proof fn law_data_root_override_decides(
    facts: DiskFacts,
    cwd: Seq<char>,
    data_root: String,
    one: (BuildFlavor, Option<Seq<char>>, RuntimePathOverrides, Option<Seq<char>>),
    other: (BuildFlavor, Option<Seq<char>>, RuntimePathOverrides, Option<Seq<char>>),
)
    requires
        one.2.data_root == Some(data_root),
        other.2.data_root == Some(data_root),
    ensures
        data_root_of(facts, cwd, one.0, one.1, one.2, one.3) == Ok::<
            Seq<char>,
            RuntimePathError,
        >(facts.resolved(cwd, data_root@)),
        data_root_of(facts, cwd, other.0, other.1, other.2, other.3) == data_root_of(
            facts,
            cwd,
            one.0,
            one.1,
            one.2,
            one.3,
        ),
{
}

/// The root of the source tree that is found is one of the directories that are looked at: above
/// the program, or above the working directory.
pub proof fn law_source_root_is_an_ancestor(facts: DiskFacts, path: Seq<char>)
    ensures
        facts.source_root_above(path) matches Some(root) ==> ancestors_of(path).contains(root)
            && facts.is_source_root(root),
    decreases path.len(),
{
    if facts.is_source_root(path) {
        assert(ancestors_of(path)[0] == path);
    } else if let Some(parent) = paths::parent_of(path) {
        paths::lemma_parent_is_shorter(path);
        law_source_root_is_an_ancestor(facts, parent);
        if let Some(root) = facts.source_root_above(parent) {
            let above = ancestors_of(parent);
            let i = choose|i: int| 0 <= i < above.len() && above[i] == root;
            assert(ancestors_of(path)[i + 1] == root);
        }
    }
}

/// Where the user has set no data root, the directory of the old data file is it. Where that is not
/// set either, a debug build keeps its data in the source tree, or else in the working directory,
/// and a release build in the directory of the application; it fails where there is none.
pub proof fn law_data_roots_follow_the_build(
    facts: DiskFacts,
    cwd: Seq<char>,
    local_data_dir: Option<Seq<char>>,
    overrides: RuntimePathOverrides,
    source_root: Option<Seq<char>>,
)
    requires
        overrides.data_root is None,
    ensures
        ({
            let debug = data_root_of(
                facts,
                cwd,
                BuildFlavor::Debug,
                local_data_dir,
                overrides,
                source_root,
            );
            let release = data_root_of(
                facts,
                cwd,
                BuildFlavor::Release,
                local_data_dir,
                overrides,
                source_root,
            );
            &&& overrides.bot_data_path matches Some(path) ==> debug == release && release is Ok && (
            paths::parent_of(facts.resolved(cwd, path@)) matches Some(parent) ==> release->Ok_0
                == parent)
            &&& overrides.bot_data_path is None && source_root is Some ==> debug == Ok::<
                Seq<char>,
                RuntimePathError,
            >(paths::below(source_root->0, "data"@))
            &&& overrides.bot_data_path is None && source_root is None ==> debug == Ok::<
                Seq<char>,
                RuntimePathError,
            >(facts.resolved(cwd, "data"@))
            &&& overrides.bot_data_path is None && local_data_dir is Some ==> release == Ok::<
                Seq<char>,
                RuntimePathError,
            >(paths::below(paths::below(local_data_dir->0, "threadBridge"@), "data"@))
            &&& overrides.bot_data_path is None && local_data_dir is None ==> release == Err::<
                Seq<char>,
                RuntimePathError,
            >(RuntimePathError::NoLocalDataDir)
        }),
{
}

/// The assets of a bundle are its seed, and are set up beside the data; a source tree uses its own
/// assets in place. Without either there are none.
pub proof fn law_assets_come_from_the_bundle_or_the_tree(
    facts: DiskFacts,
    current_exe: Seq<char>,
    home: Seq<char>,
    data_root: Seq<char>,
    source_root: Option<Seq<char>>,
)
    requires
        paths::parent_of(data_root) == Some(home),
    ensures
        ({
            let found = assets_of(facts, current_exe, data_root, source_root);
            &&& facts.bundle_assets(current_exe) matches Some(seed) ==> found is Ok
                && found->Ok_0.1 == seed && found->Ok_0.0 == paths::below(home, "runtime_assets"@)
            &&& facts.bundle_assets(current_exe) is None && source_root is Some ==> found is Ok
                && found->Ok_0.0 == paths::below(source_root->0, "runtime_assets"@)
                && found->Ok_0.1 == found->Ok_0.0
            &&& facts.bundle_assets(current_exe) is None && source_root is None ==> found == Err::<
                (Seq<char>, Seq<char>),
                RuntimePathError,
            >(RuntimePathError::NoAssetsRoot)
        }),
{
}

/// The log is where the user has put it, and else in the data root.
pub proof fn law_logs_are_in_the_data_root(
    facts: DiskFacts,
    cwd: Seq<char>,
    current_exe: Seq<char>,
    build_flavor: BuildFlavor,
    local_data_dir: Option<Seq<char>>,
    overrides: RuntimePathOverrides,
)
    ensures
        paths_of(facts, cwd, current_exe, build_flavor, local_data_dir, overrides) matches Ok(found)
            ==> {
            &&& overrides.debug_log_path is None ==> found.debug_log_path == paths::below(
                found.data_root_path,
                "debug/events.jsonl"@,
            )
            &&& overrides.debug_log_path matches Some(path) ==> found.debug_log_path
                == facts.resolved(cwd, path@)
        },
{
}

/// A path is taken for what it really leads to where that is known, and for its plain form where
/// nothing is.
pub proof fn law_known_paths_are_resolved(
    facts: DiskFacts,
    base: Seq<char>,
    input: Seq<char>,
    i: int,
)
    ensures
        (forall|k: int|
            0 <= k < facts.canonical_paths@.len() ==> (#[trigger] facts.canonical_paths@[k]).path@
                != paths::below(base, input)) ==> facts.resolved(base, input) == paths::normalized(
            paths::below(base, input),
        ),
        0 <= i < facts.canonical_paths@.len() && facts.canonical_paths@[i].path@ == paths::below(
            base,
            input,
        ) && (forall|k: int|
            0 <= k < i ==> (#[trigger] facts.canonical_paths@[k]).path@ != paths::below(
                base,
                input,
            )) ==> facts.resolved(base, input) == facts.canonical_paths@[i].canonical@,
{
    lemma_canonical(facts.canonical_paths@, paths::below(base, input), 0);
}

proof fn lemma_canonical(known: Seq<CanonicalPath>, path: Seq<char>, from: int)
    requires
        0 <= from <= known.len(),
    ensures
        match canonical_from(known, path, from) {
            Some(found) => exists|i: int|
                from <= i < known.len() && (#[trigger] known[i]).path@ == path
                    && known[i].canonical@ == found && forall|k: int|
                    from <= k < i ==> (#[trigger] known[k]).path@ != path,
            None => forall|k: int|
                from <= k < known.len() ==> (#[trigger] known[k]).path@ != path,
        },
    decreases known.len() - from,
{
    if from < known.len() && known[from].path@ != path {
        lemma_canonical(known, path, from + 1);
    }
}

} // verus!
