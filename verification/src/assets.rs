//! The cache of bundled tools: where it lies, when it is stale, and what has
//! to be written, in which order, to fill it.

use crate::error::{Error, Failure};
use crate::paths::{extension_of, has_extension, join, joined, parent, parent_of};
use crate::text::{same, texts};
use vstd::prelude::*;

verus! {

/// The directory of the cache below the per-user configuration directory.
pub const CACHE_DIR_NAME: &'static str = "apkext";

/// The directory of the jars below the cache root.
pub const JARS_DIR_NAME: &'static str = "jars";

/// The file below the cache root that records which release filled the cache.
pub const VERSION_FILE_NAME: &'static str = ".version";

/// The file name of the resource tool's jar.
pub const APKTOOL_JAR_NAME: &'static str = "apktool.jar";

/// The file name of the decompiler's jar.
pub const PROCYON_JAR_NAME: &'static str = "procyon-decompiler-v0.6.1.jar";

/// What is said before the cache is filled.
pub const EXTRACTING_NOTICE: &'static str = "Extracting assets to config directory...";

/// What is said once the cache is filled.
pub const EXTRACTED_NOTICE: &'static str = "Assets extracted successfully.";

/// The extension that marks a shell script.
pub const SCRIPT_EXTENSION: &'static str = "sh";

/// The jars that ship inside the program.
#[derive(Clone, Copy, Debug, PartialEq, Eq, Structural)]
pub enum Jar {
    /// The resource tool.
    Apktool,
    /// The decompiler.
    Procyon,
}

impl Jar {
    /// The file name a jar is stored under.
    pub open spec fn stored_as(self) -> Seq<char> {
        match self {
            Jar::Apktool => APKTOOL_JAR_NAME@,
            Jar::Procyon => PROCYON_JAR_NAME@,
        }
    }

    /// The file name a jar is stored under.
    pub fn file_name(self) -> (r: &'static str)
        ensures
            r@ == self.stored_as(),
    {
        match self {
            Jar::Apktool => APKTOOL_JAR_NAME,
            Jar::Procyon => PROCYON_JAR_NAME,
        }
    }
}

/// What the driver found of the cache on disk.
#[derive(Clone, Debug, PartialEq, Eq)]
pub struct CacheProbe {
    /// Whether the resource tool's jar is in its place.
    pub apktool_jar: bool,
    /// Whether the decompiler's jar is in its place.
    pub procyon_jar: bool,
    /// What the version marker holds; `None` if it is absent or unreadable.
    pub marker: Option<String>,
}

/// One write to the cache.
#[derive(Clone, Debug, PartialEq, Eq)]
pub enum FsAction {
    /// Create a directory and every missing directory above it.
    CreateDirAll { path: String },
    /// Write a bundled jar.
    WriteJar { path: String, jar: Jar },
    /// Write the bundled tool file with the given position in the bundle.
    WriteTool { path: String, index: usize },
    /// Set the permission bits of a file to `0o755`.
    MakeExecutable { path: String },
    /// Write the version marker.
    WriteVersion { path: String, version: String },
}

/// The mathematical content of an [`FsAction`].
pub ghost enum FsOp {
    CreateDirAll { path: Seq<char> },
    WriteJar { path: Seq<char>, jar: Jar },
    WriteTool { path: Seq<char>, index: int },
    MakeExecutable { path: Seq<char> },
    WriteVersion { path: Seq<char>, version: Seq<char> },
}

impl View for FsAction {
    type V = FsOp;

    open spec fn view(&self) -> FsOp {
        match *self {
            FsAction::CreateDirAll { path } => FsOp::CreateDirAll { path: path@ },
            FsAction::WriteJar { path, jar } => FsOp::WriteJar { path: path@, jar },
            FsAction::WriteTool { path, index } => FsOp::WriteTool { path: path@, index: index as int },
            FsAction::MakeExecutable { path } => FsOp::MakeExecutable { path: path@ },
            FsAction::WriteVersion { path, version } => FsOp::WriteVersion {
                path: path@,
                version: version@,
            },
        }
    }
}

impl FsOp {
    /// The path a write goes to.
    pub open spec fn target(self) -> Seq<char> {
        match self {
            FsOp::CreateDirAll { path } => path,
            FsOp::WriteJar { path, .. } => path,
            FsOp::WriteTool { path, .. } => path,
            FsOp::MakeExecutable { path } => path,
            FsOp::WriteVersion { path, .. } => path,
        }
    }
}

impl FsAction {
    /// The path a write goes to.
    pub fn path(&self) -> (r: &str)
        ensures
            r@ == self@.target(),
    {
        match self {
            FsAction::CreateDirAll { path } => path.as_str(),
            FsAction::WriteJar { path, .. } => path.as_str(),
            FsAction::WriteTool { path, .. } => path.as_str(),
            FsAction::MakeExecutable { path } => path.as_str(),
            FsAction::WriteVersion { path, .. } => path.as_str(),
        }
    }

    /// The failure to report when a write could not be made for `reason`.
    /// Any such failure ends the filling of the cache.
    pub fn failed(&self, reason: String) -> (r: Error)
        ensures
            r@ == (Failure::CacheWrite { path: self@.target(), reason: reason@ }),
    {
        Error::CacheWrite { path: self.path().to_owned(), reason }
    }
}

/// The contents of a sequence of writes.
pub open spec fn ops(plan: Seq<FsAction>) -> Seq<FsOp> {
    plan.map_values(|action: FsAction| action@)
}

/// Whether a cache in the probed state has to be filled again for the
/// release `version`: a jar is missing, or the marker is missing, unreadable
/// or holds anything but `version`.
pub open spec fn stale(probe: CacheProbe, version: Seq<char>) -> bool {
    ||| !probe.apktool_jar
    ||| !probe.procyon_jar
    ||| probe.marker is None
    ||| probe.marker->0@ != version
}

/// Where the jars lie in a cache at `root`.
pub open spec fn jars_dir(root: Seq<char>) -> Seq<char> {
    joined(root, JARS_DIR_NAME@)
}

/// Where a jar lies in a cache at `root`.
pub open spec fn jar_location(root: Seq<char>, name: Seq<char>) -> Seq<char> {
    joined(jars_dir(root), name)
}

/// Where the version marker lies in a cache at `root`.
pub open spec fn marker_location(root: Seq<char>) -> Seq<char> {
    joined(root, VERSION_FILE_NAME@)
}

/// The writes that put both jars in place.
pub open spec fn jar_ops(root: Seq<char>) -> Seq<FsOp> {
    seq![
        FsOp::CreateDirAll { path: jars_dir(root) },
        FsOp::WriteJar { path: jar_location(root, APKTOOL_JAR_NAME@), jar: Jar::Apktool },
        FsOp::WriteJar { path: jar_location(root, PROCYON_JAR_NAME@), jar: Jar::Procyon },
    ]
}

/// Whether the file at `path` has to be made executable after it is written.
pub open spec fn is_script(path: Seq<char>, posix: bool) -> bool {
    posix && extension_of(path) == Some(SCRIPT_EXTENSION@)
}

/// The writes that put one tool file in place: its directory first, then the
/// file under its own relative path, then its permission bits if it is a
/// script.
pub open spec fn file_ops(root: Seq<char>, file: Seq<char>, index: int, posix: bool) -> Seq<
    FsOp,
> {
    let dest = joined(root, file);
    let above = match parent_of(dest) {
        Some(dir) => seq![FsOp::CreateDirAll { path: dir }],
        None => Seq::<FsOp>::empty(),
    };
    let bits = if is_script(dest, posix) {
        seq![FsOp::MakeExecutable { path: dest }]
    } else {
        Seq::<FsOp>::empty()
    };
    above + seq![FsOp::WriteTool { path: dest, index }] + bits
}

/// The writes that put the first `count` tool files in place, in the order
/// of the bundle.
pub open spec fn files_ops(root: Seq<char>, files: Seq<Seq<char>>, count: int, posix: bool) -> Seq<
    FsOp,
>
    decreases count,
{
    if count <= 0 {
        Seq::<FsOp>::empty()
    } else {
        files_ops(root, files, count - 1, posix) + file_ops(root, files[count - 1], count - 1, posix)
    }
}

/// The writes that put the whole tool tree in place.
pub open spec fn tool_ops(root: Seq<char>, files: Seq<Seq<char>>, posix: bool) -> Seq<FsOp> {
    seq![FsOp::CreateDirAll { path: root }] + files_ops(root, files, files.len() as int, posix)
}

/// The write that commits a filled cache.
pub open spec fn marker_op(root: Seq<char>, version: Seq<char>) -> FsOp {
    FsOp::WriteVersion { path: marker_location(root), version }
}

/// Everything that is written to fill a cache: the jars, the tool tree, and
/// the version marker last.
pub open spec fn fill_ops(
    root: Seq<char>,
    files: Seq<Seq<char>>,
    version: Seq<char>,
    posix: bool,
) -> Seq<FsOp> {
    jar_ops(root) + tool_ops(root, files, posix) + seq![marker_op(root, version)]
}

/// The tool files are written by nothing but creating directories, writing
/// tool files and setting permission bits.
pub proof fn lemma_files_ops_kinds(root: Seq<char>, files: Seq<Seq<char>>, count: int, posix: bool)
    ensures
        forall|i: int|
            0 <= i < files_ops(root, files, count, posix).len() ==> {
                let op = #[trigger] files_ops(root, files, count, posix)[i];
                op is CreateDirAll || op is WriteTool || op is MakeExecutable
            },
    decreases count,
{
    if count > 0 {
        lemma_files_ops_kinds(root, files, count - 1, posix);
    }
}

/// The version marker is written last and only once: whoever finds it finds
/// everything else written before it.
pub proof fn lemma_marker_is_written_last(
    root: Seq<char>,
    files: Seq<Seq<char>>,
    version: Seq<char>,
    posix: bool,
)
    ensures
        fill_ops(root, files, version, posix).len() > 0,
        fill_ops(root, files, version, posix).last() == marker_op(root, version),
        forall|i: int|
            0 <= i < fill_ops(root, files, version, posix).len() - 1 ==> !(#[trigger] fill_ops(
                root,
                files,
                version,
                posix,
            )[i] is WriteVersion),
{
    lemma_files_ops_kinds(root, files, files.len() as int, posix);
    let tools = tool_ops(root, files, posix);
    assert forall|i: int| 0 <= i < tools.len() implies !(#[trigger] tools[i] is WriteVersion) by {
        if i > 0 {
            assert(tools[i] == files_ops(root, files, files.len() as int, posix)[i - 1]);
        }
    }
    let all = fill_ops(root, files, version, posix);
    assert forall|i: int| 0 <= i < all.len() - 1 implies !(#[trigger] all[i] is WriteVersion) by {
        if i >= 3 {
            assert(all[i] == tools[i - 3]);
        }
    }
}

/// Whether the write at position `i` of `plan` puts the bundled tool file
/// `index` at `dest`, with the write that sets its permission bits right
/// after if it is a script.
pub open spec fn writes_file_at(
    plan: Seq<FsOp>,
    i: int,
    dest: Seq<char>,
    index: int,
    posix: bool,
) -> bool {
    &&& 0 <= i < plan.len()
    &&& plan[i] == (FsOp::WriteTool { path: dest, index })
    &&& is_script(dest, posix) ==> i + 1 < plan.len() && plan[i + 1] == (FsOp::MakeExecutable {
        path: dest,
    })
}

/// Among the writes for the first `count` tool files, the file at `position`
/// is written to its own relative path below the root, and if it is a script
/// its permission bits are set right after.
pub proof fn lemma_file_is_written(
    root: Seq<char>,
    files: Seq<Seq<char>>,
    count: int,
    position: int,
    posix: bool,
)
    requires
        0 <= position < count,
    ensures
        exists|i: int|
            writes_file_at(
                files_ops(root, files, count, posix),
                i,
                joined(root, files[position]),
                position,
                posix,
            ),
    decreases count,
{
    let plan = files_ops(root, files, count, posix);
    let before = files_ops(root, files, count - 1, posix);
    let dest = joined(root, files[position]);
    if position == count - 1 {
        let above: int = if parent_of(dest) is Some {
            1
        } else {
            0
        };
        let i = before.len() + above;
        assert(plan[i] == (FsOp::WriteTool { path: dest, index: position }));
        if is_script(dest, posix) {
            assert(plan[i + 1] == (FsOp::MakeExecutable { path: dest }));
        }
        assert(writes_file_at(plan, i, dest, position, posix));
    } else {
        lemma_file_is_written(root, files, count - 1, position, posix);
        let i = choose|i: int| writes_file_at(before, i, dest, position, posix);
        assert(plan[i] == before[i]);
        if is_script(dest, posix) {
            assert(plan[i + 1] == before[i + 1]);
        }
        assert(writes_file_at(plan, i, dest, position, posix));
    }
}

/// Filling the cache writes every bundled tool file to its own relative path
/// below the cache root, before the version marker, and sets the permission
/// bits of every script right after the script is written.
pub proof fn lemma_scripts_are_made_executable(
    root: Seq<char>,
    files: Seq<Seq<char>>,
    version: Seq<char>,
    posix: bool,
    position: int,
)
    requires
        0 <= position < files.len(),
    ensures
        exists|i: int|
            i < fill_ops(root, files, version, posix).len() - 1 && writes_file_at(
                fill_ops(root, files, version, posix),
                i,
                joined(root, files[position]),
                position,
                posix,
            ),
{
    lemma_file_is_written(root, files, files.len() as int, position, posix);
    let inner = files_ops(root, files, files.len() as int, posix);
    let plan = fill_ops(root, files, version, posix);
    let dest = joined(root, files[position]);
    let i = choose|i: int| writes_file_at(inner, i, dest, position, posix);
    assert(plan[i + 4] == inner[i]);
    if is_script(dest, posix) {
        assert(plan[i + 5] == inner[i + 1]);
    }
    assert(writes_file_at(plan, i + 4, dest, position, posix));
}

/// The per-user configuration directory, if the system has one.
///
/// Calls `dirs::config_dir`, which consults the environment of the process;
/// nothing is promised of what it finds.  A directory whose name is not
/// Unicode is given with the offending parts replaced.
#[verifier::external_body]
fn user_config_dir() -> Option<String> {
    match dirs::config_dir() {
        Some(dir) => Some(dir.to_string_lossy().into_owned()),
        None => None,
    }
}

/// Appending one write to a plan appends its content to the plan's content.
proof fn lemma_ops_push(plan: Seq<FsAction>, action: FsAction)
    ensures
        ops(plan.push(action)) == ops(plan).push(action@),
{
    assert(ops(plan.push(action)) =~= ops(plan).push(action@));
}

/// Appending one plan to another appends their contents.
proof fn lemma_ops_add(first: Seq<FsAction>, second: Seq<FsAction>)
    ensures
        ops(first + second) == ops(first) + ops(second),
{
    assert(ops(first + second) =~= ops(first) + ops(second));
}

/// Hands the cache of bundled tools to the rest of the program.
#[derive(Clone, Debug, PartialEq, Eq)]
pub struct AssetManager {
    tools_path: String,
}

impl AssetManager {
    /// The root of the cache.
    pub closed spec fn root(&self) -> Seq<char> {
        self.tools_path@
    }

    /// The cache below the per-user configuration directory of this system.
    /// Fails exactly when the system has no such directory.
    pub fn new() -> (r: Result<AssetManager, Error>)
        ensures
            match r {
                Ok(manager) => exists|base: Seq<char>|
                    manager.root() == #[trigger] joined(base, CACHE_DIR_NAME@),
                Err(e) => e is NoConfigDir,
            },
    {
        let base = user_config_dir();
        let r = AssetManager::in_config_dir(base);
        proof {
            if r is Ok {
                assert(r->Ok_0.root() == joined(base->0@, CACHE_DIR_NAME@));
            }
        }
        r
    }

    /// The cache below the configuration directory `base`; fails exactly
    /// when there is none.
    pub fn in_config_dir(base: Option<String>) -> (r: Result<AssetManager, Error>)
        ensures
            match base {
                Some(dir) => r is Ok && r->Ok_0.root() == joined(dir@, CACHE_DIR_NAME@),
                None => r is Err && r->Err_0 is NoConfigDir,
            },
    {
        match AssetManager::get_config_dir(base) {
            Ok(tools_path) => Ok(AssetManager { tools_path }),
            Err(e) => Err(e),
        }
    }

    /// A manager of the cache at `tools_path`.
    pub fn at(tools_path: String) -> (r: AssetManager)
        ensures
            r.root() == tools_path@,
    {
        AssetManager { tools_path }
    }

    /// The write that makes sure the cache root exists.  It comes before the
    /// cache is looked at.
    pub fn create_root(&self) -> (action: FsAction)
        ensures
            action@ == (FsOp::CreateDirAll { path: self.root() }),
    {
        FsAction::CreateDirAll { path: self.tools_path.clone() }
    }

    /// The root of the cache below the configuration directory `base`.
    pub fn get_config_dir(base: Option<String>) -> (r: Result<String, Error>)
        ensures
            match base {
                Some(dir) => r is Ok && r->Ok_0@ == joined(dir@, CACHE_DIR_NAME@),
                None => r is Err && r->Err_0 is NoConfigDir,
            },
    {
        match base {
            Some(dir) => Ok(join(dir.as_str(), CACHE_DIR_NAME)),
            None => Err(Error::NoConfigDir),
        }
    }

    /// Whether the cache has to be filled again before anything may use it.
    pub fn needs_extraction(&self, probe: &CacheProbe, current_version: &str) -> (r: bool)
        ensures
            r == stale(*probe, current_version@),
    {
        if !probe.apktool_jar || !probe.procyon_jar {
            return true;
        }
        match &probe.marker {
            Some(stored) => !same(stored.as_str(), current_version),
            None => true,
        }
    }

    /// Everything to write to fill the cache anew, in the order it has to be
    /// written.  `tool_files` are the paths of the bundled tool files,
    /// relative to the root of the bundle.  The version marker comes last, so
    /// that a cache that was not filled to the end is found stale.
    pub fn extract_all(&self, tool_files: &Vec<String>, version: &str, posix: bool) -> (plan: Vec<
        FsAction,
    >)
        ensures
            ops(plan@) == fill_ops(self.root(), texts(tool_files@), version@, posix),
    {
        let mut plan = self.extract_jars();
        let mut tools = self.extract_tools(tool_files, posix);
        let marker = self.write_version_file(version);
        proof {
            lemma_ops_add(plan@, tools@);
            lemma_ops_push(plan@ + tools@, marker);
        }
        plan.append(&mut tools);
        plan.push(marker);
        plan
    }

    /// The write that records `version` as the release that filled the cache.
    pub fn write_version_file(&self, version: &str) -> (action: FsAction)
        ensures
            action@ == marker_op(self.root(), version@),
    {
        FsAction::WriteVersion {
            path: join(self.tools_path.as_str(), VERSION_FILE_NAME),
            version: version.to_owned(),
        }
    }

    /// The writes that put both jars in place.
    pub fn extract_jars(&self) -> (plan: Vec<FsAction>)
        ensures
            ops(plan@) == jar_ops(self.root()),
    {
        let jars = join(self.tools_path.as_str(), JARS_DIR_NAME);
        let apktool = join(jars.as_str(), APKTOOL_JAR_NAME);
        let procyon = join(jars.as_str(), PROCYON_JAR_NAME);
        let mut plan: Vec<FsAction> = Vec::new();
        plan.push(FsAction::CreateDirAll { path: jars });
        plan.push(FsAction::WriteJar { path: apktool, jar: Jar::Apktool });
        plan.push(FsAction::WriteJar { path: procyon, jar: Jar::Procyon });
        assert(ops(plan@) =~= jar_ops(self.root()));
        plan
    }

    /// The writes that put the tool tree in place below the cache root, each
    /// file under its own relative path.
    pub fn extract_tools(&self, tool_files: &Vec<String>, posix: bool) -> (plan: Vec<FsAction>)
        ensures
            ops(plan@) == tool_ops(self.root(), texts(tool_files@), posix),
    {
        let mut plan: Vec<FsAction> = Vec::new();
        plan.push(FsAction::CreateDirAll { path: self.tools_path.clone() });
        assert(ops(plan@) =~= seq![FsOp::CreateDirAll { path: self.root() }]);
        let mut i: usize = 0;
        while i < tool_files.len()
            invariant
                i <= tool_files.len(),
                ops(plan@) == seq![FsOp::CreateDirAll { path: self.root() }] + files_ops(
                    self.root(),
                    texts(tool_files@),
                    i as int,
                    posix,
                ),
            decreases tool_files.len() - i,
        {
            let ghost before = ops(plan@);
            let mut one = self.extract_file(tool_files[i].as_str(), i, posix);
            proof {
                lemma_ops_add(plan@, one@);
                assert(texts(tool_files@)[i as int] == tool_files@[i as int]@);
                assert(before + ops(one@) =~= seq![FsOp::CreateDirAll { path: self.root() }]
                    + files_ops(self.root(), texts(tool_files@), i + 1, posix));
            }
            plan.append(&mut one);
            i += 1;
        }
        plan
    }

    /// The writes that put one tool file in place.
    pub fn extract_file(&self, file: &str, index: usize, posix: bool) -> (plan: Vec<FsAction>)
        ensures
            ops(plan@) == file_ops(self.root(), file@, index as int, posix),
    {
        let dest = join(self.tools_path.as_str(), file);
        let mut plan: Vec<FsAction> = Vec::new();
        match parent(dest.as_str()) {
            Some(dir) => {
                plan.push(FsAction::CreateDirAll { path: dir });
            },
            None => {},
        }
        let script = posix && has_extension(dest.as_str(), SCRIPT_EXTENSION);
        plan.push(FsAction::WriteTool { path: dest.clone(), index });
        if script {
            plan.push(FsAction::MakeExecutable { path: dest });
        }
        assert(ops(plan@) =~= file_ops(self.root(), file@, index as int, posix));
        plan
    }

    /// Where the jar named `jar_name` lies in the cache.
    pub fn get_jar_path(&self, jar_name: &str) -> (r: String)
        ensures
            r@ == jar_location(self.root(), jar_name@),
    {
        let jars = join(self.tools_path.as_str(), JARS_DIR_NAME);
        join(jars.as_str(), jar_name)
    }

    /// Where the file at `script_path` below the tool tree lies in the cache.
    pub fn get_script_path(&self, script_path: &str) -> (r: String)
        ensures
            r@ == joined(self.root(), script_path@),
    {
        join(self.tools_path.as_str(), script_path)
    }

    /// The root of the cache.
    pub fn get_tools_path(&self) -> (r: &str)
        ensures
            r@ == self.root(),
    {
        self.tools_path.as_str()
    }

    /// Where the version marker lies in the cache.
    pub fn version_file_path(&self) -> (r: String)
        ensures
            r@ == marker_location(self.root()),
    {
        join(self.tools_path.as_str(), VERSION_FILE_NAME)
    }
}

} // verus!
