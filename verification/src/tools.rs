//! The command lines of the external tools.

use crate::assets::{jar_location, AssetManager, APKTOOL_JAR_NAME, PROCYON_JAR_NAME};
use crate::config::{Config, DEX2JAR_SCRIPT};
use crate::paths::joined;
use crate::process::{extend_from, Invocation};
use crate::text::texts;
use vstd::prelude::*;

verus! {

/// The directory below the cache root where the resource tool keeps shared
/// framework resources.
pub const FRAMEWORK_DIR_NAME: &'static str = "framework";

/// The shell that runs the conversion script.
pub const SHELL: &'static str = "bash";

/// The arguments that make the runtime run the resource tool's jar `jar`
/// with `args`, keeping its framework resources in `framework`.  The tool
/// wants its command word first, so the framework directory is named right
/// after the first of `args`, or alone when there are none.
pub open spec fn apktool_arguments(
    jar: Seq<char>,
    framework: Seq<char>,
    args: Seq<Seq<char>>,
) -> Seq<Seq<char>> {
    if args.len() > 0 {
        seq!["-jar"@, jar, args[0], "--frame-path"@, framework] + args.skip(1)
    } else {
        seq!["-jar"@, jar, "--frame-path"@, framework]
    }
}

/// The arguments that make the runtime run the decompiler's jar `jar` with
/// `args`.
pub open spec fn procyon_arguments(jar: Seq<char>, args: Seq<Seq<char>>) -> Seq<Seq<char>> {
    seq!["-jar"@, jar] + args
}

/// The arguments that make the shell run the conversion script `script` with
/// `args`.
pub open spec fn dex2jar_arguments(script: Seq<char>, args: Seq<Seq<char>>) -> Seq<Seq<char>> {
    seq![script] + args
}

/// Builds the command line of every external tool from the configuration of
/// the run and the place of the cache.
#[derive(Clone, Debug, PartialEq, Eq)]
pub struct ToolManager {
    config: Config,
    asset_manager: AssetManager,
}

impl ToolManager {
    /// The configuration the command lines are built from.
    pub closed spec fn config(&self) -> Config {
        self.config
    }

    /// The cache the command lines point into.
    pub closed spec fn assets(&self) -> AssetManager {
        self.asset_manager
    }

    /// The root of the cache.
    pub open spec fn cache_root(&self) -> Seq<char> {
        self.assets().root()
    }

    /// The runtime that runs the jars.
    pub open spec fn java(&self) -> Seq<char> {
        self.config().java.java_path@
    }

    /// Where the resource tool keeps shared framework resources.
    pub open spec fn framework_location(&self) -> Seq<char> {
        joined(self.cache_root(), FRAMEWORK_DIR_NAME@)
    }

    /// A tool manager for a run configured by `config`, with its tools in
    /// the cache of `asset_manager`.
    pub fn new(config: Config, asset_manager: AssetManager) -> (r: ToolManager)
        ensures
            r.config() == config,
            r.assets() == asset_manager,
    {
        ToolManager { config, asset_manager }
    }

    /// The cache the command lines point into.
    pub fn asset_manager(&self) -> (r: &AssetManager)
        ensures
            *r == self.assets(),
    {
        &self.asset_manager
    }

    /// The runtime that runs the jars.
    pub fn java_path(&self) -> (r: &str)
        ensures
            r@ == self.java(),
    {
        self.config.java.java_path.as_str()
    }

    /// Where the resource tool keeps shared framework resources.  The
    /// directory has to exist before the tool runs.
    pub fn framework_path(&self) -> (r: String)
        ensures
            r@ == self.framework_location(),
    {
        self.asset_manager.get_script_path(FRAMEWORK_DIR_NAME)
    }

    /// The command line that runs the resource tool with `args`.
    pub fn apktool_invocation(&self, args: &Vec<String>) -> (r: Invocation)
        ensures
            r.program@ == self.java(),
            r.arguments() == apktool_arguments(
                jar_location(self.cache_root(), APKTOOL_JAR_NAME@),
                self.framework_location(),
                texts(args@),
            ),
    {
        let jar = self.asset_manager.get_jar_path(APKTOOL_JAR_NAME);
        let framework = self.framework_path();
        let mut line: Vec<String> = Vec::new();
        line.push("-jar".to_owned());
        line.push(jar);
        if args.len() > 0 {
            line.push(args[0].clone());
            line.push("--frame-path".to_owned());
            line.push(framework);
            assert(texts(line@) =~= seq![
                "-jar"@,
                jar_location(self.cache_root(), APKTOOL_JAR_NAME@),
                texts(args@)[0],
                "--frame-path"@,
                self.framework_location(),
            ]);
            extend_from(&mut line, args, 1);
        } else {
            line.push("--frame-path".to_owned());
            line.push(framework);
            assert(texts(line@) =~= seq![
                "-jar"@,
                jar_location(self.cache_root(), APKTOOL_JAR_NAME@),
                "--frame-path"@,
                self.framework_location(),
            ]);
        }
        Invocation { program: self.config.java.java_path.clone(), args: line }
    }

    /// The command line that runs the decompiler with `args`.
    pub fn procyon_invocation(&self, args: &Vec<String>) -> (r: Invocation)
        ensures
            r.program@ == self.java(),
            r.arguments() == procyon_arguments(
                jar_location(self.cache_root(), PROCYON_JAR_NAME@),
                texts(args@),
            ),
    {
        let jar = self.asset_manager.get_jar_path(PROCYON_JAR_NAME);
        let mut line: Vec<String> = Vec::new();
        line.push("-jar".to_owned());
        line.push(jar);
        assert(texts(line@) =~= seq!["-jar"@, jar_location(self.cache_root(), PROCYON_JAR_NAME@)]);
        extend_from(&mut line, args, 0);
        assert(texts(args@).skip(0) =~= texts(args@));
        Invocation { program: self.config.java.java_path.clone(), args: line }
    }

    /// The command line that runs the conversion script with `args`.
    pub fn dex2jar_invocation(&self, args: &Vec<String>) -> (r: Invocation)
        ensures
            r.program@ == SHELL@,
            r.arguments() == dex2jar_arguments(
                joined(self.cache_root(), DEX2JAR_SCRIPT@),
                texts(args@),
            ),
    {
        let script = self.asset_manager.get_script_path(DEX2JAR_SCRIPT);
        let mut line: Vec<String> = Vec::new();
        line.push(script);
        assert(texts(line@) =~= seq![joined(self.cache_root(), DEX2JAR_SCRIPT@)]);
        extend_from(&mut line, args, 0);
        assert(texts(args@).skip(0) =~= texts(args@));
        Invocation { program: SHELL.to_owned(), args: line }
    }
}

} // verus!
