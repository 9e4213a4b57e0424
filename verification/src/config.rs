//! The configuration of one run: the Java runtime and the places of the
//! tools, settled once and read by every pipeline.

use crate::assets::{APKTOOL_JAR_NAME, PROCYON_JAR_NAME};
use crate::error::{Error, Failure};
use crate::paths::{join, joined};
use crate::platform::{resolve, resolved, Platform};
use crate::process::{Invocation, Outcome, ProcessOutcome};
use vstd::prelude::*;

verus! {

/// The command that stands for the Java runtime on the search path.
pub const JAVA_COMMAND: &'static str = "java";

/// The directory of executables below a Java home.
pub const JAVA_BIN_DIR: &'static str = "bin";

/// The file name of the runtime below a Java home on Windows.
pub const JAVA_WINDOWS_EXECUTABLE: &'static str = "java.exe";

/// The argument that makes the runtime report its version.
pub const JAVA_VERSION_FLAG: &'static str = "-version";

/// Where the resource tool's jar lies below the tool tree.
pub const APKTOOL_JAR_LOCATION: &'static str = "jars/apktool.jar";

/// Where the decompiler's jar lies below the tool tree.
pub const PROCYON_JAR_LOCATION: &'static str = "jars/procyon-decompiler-v0.6.1.jar";

/// Where the conversion script lies below the tool tree.
pub const DEX2JAR_SCRIPT: &'static str = "dex-tools-v2.4/d2j-dex2jar.sh";

/// Where the conversion script for Windows lies below the tool tree.
pub const DEX2JAR_BATCH: &'static str = "dex-tools-v2.4/d2j-dex2jar.bat";

/// The Java runtime a run uses.
#[derive(Clone, Debug, PartialEq, Eq)]
pub struct JavaConfig {
    /// The executable, as a path or as a command on the search path.
    pub java_path: String,
    /// The Java home the environment names, if it names one.
    pub java_home: Option<String>,
}

/// The places of the tools a run uses.
#[derive(Clone, Debug, PartialEq, Eq)]
pub struct ToolsConfig {
    /// The resource tool's jar.
    pub apktool_jar: String,
    /// The decompiler's jar.
    pub procyon_jar: String,
    /// The `aapt` binary for this platform.
    pub aapt_path: String,
    /// The conversion script.
    pub dex2jar_path: String,
}

/// The configuration of one run.
#[derive(Clone, Debug, PartialEq, Eq)]
pub struct Config {
    pub java: JavaConfig,
    pub tools: ToolsConfig,
}

/// What the driver found when it looked for a Java runtime.
#[derive(Clone, Debug, PartialEq, Eq)]
pub struct JavaProbe {
    /// The Java home the environment names, if it names one.
    pub java_home: Option<String>,
    /// Whether the runtime below that home exists.
    pub home_runtime_exists: bool,
    /// Whether the command `java` could be started from the search path.
    pub on_search_path: bool,
}

/// The file name of the runtime below a Java home.
pub open spec fn java_executable(platform: Platform) -> Seq<char> {
    if platform.os@ == "windows"@ {
        JAVA_WINDOWS_EXECUTABLE@
    } else {
        JAVA_COMMAND@
    }
}

/// Where the runtime lies below the Java home `home`.
pub open spec fn home_runtime(home: Seq<char>, platform: Platform) -> Seq<char> {
    joined(joined(home, JAVA_BIN_DIR@), java_executable(platform))
}

/// The runtime that a search found: the one below the Java home if the
/// environment names a home and the runtime exists there, else the command
/// on the search path if that could be started, else none.
pub open spec fn found_java(probe: JavaProbe, platform: Platform) -> Option<Seq<char>> {
    if probe.java_home is Some && probe.home_runtime_exists {
        Some(home_runtime(probe.java_home->0@, platform))
    } else if probe.on_search_path {
        Some(JAVA_COMMAND@)
    } else {
        None
    }
}

/// Where the conversion script for a platform lies below the tool tree.
pub open spec fn dex2jar_location(platform: Platform) -> Seq<char> {
    if platform.os@ == "windows"@ {
        DEX2JAR_BATCH@
    } else {
        DEX2JAR_SCRIPT@
    }
}

impl Default for ToolsConfig {
    /// The bare names of the tools, as they stand before the tool tree is
    /// known.
    fn default() -> (r: ToolsConfig)
        ensures
            r.apktool_jar@ == APKTOOL_JAR_NAME@,
            r.procyon_jar@ == PROCYON_JAR_NAME@,
            r.aapt_path@ == "aapt"@,
            r.dex2jar_path@ == "d2j-dex2jar.sh"@,
    {
        ToolsConfig {
            apktool_jar: APKTOOL_JAR_NAME.to_owned(),
            procyon_jar: PROCYON_JAR_NAME.to_owned(),
            aapt_path: "aapt".to_owned(),
            dex2jar_path: "d2j-dex2jar.sh".to_owned(),
        }
    }
}

impl JavaConfig {
    /// Where the runtime would lie below the Java home `home`.  The driver
    /// looks there before it reports what it found.
    pub fn home_candidate(home: &str, platform: &Platform) -> (r: String)
        ensures
            r@ == home_runtime(home@, *platform),
    {
        let bin = join(home, JAVA_BIN_DIR);
        if platform.is_windows() {
            join(bin.as_str(), JAVA_WINDOWS_EXECUTABLE)
        } else {
            join(bin.as_str(), JAVA_COMMAND)
        }
    }

    /// The runtime that a search found, if it found one.
    pub fn find_java(probe: &JavaProbe, platform: &Platform) -> (r: Option<String>)
        ensures
            match r {
                Some(path) => found_java(*probe, *platform) == Some(path@),
                None => found_java(*probe, *platform) is None,
            },
    {
        match &probe.java_home {
            Some(home) => {
                if probe.home_runtime_exists {
                    return Some(JavaConfig::home_candidate(home.as_str(), platform));
                }
            },
            None => {},
        }
        if probe.on_search_path {
            Some(JAVA_COMMAND.to_owned())
        } else {
            None
        }
    }

    /// The runtime to use after a search: the one found, or the bare command
    /// when none was found, together with the Java home of the environment.
    pub fn detect(probe: JavaProbe, platform: &Platform) -> (r: JavaConfig)
        ensures
            r.java_path@ == match found_java(probe, *platform) {
                Some(path) => path,
                None => JAVA_COMMAND@,
            },
            r.java_home == probe.java_home,
    {
        let java_path = match JavaConfig::find_java(&probe, platform) {
            Some(path) => path,
            None => JAVA_COMMAND.to_owned(),
        };
        JavaConfig { java_path, java_home: probe.java_home }
    }

    /// The invocation that asks the runtime for its version.
    pub fn version_query(&self) -> (r: Invocation)
        ensures
            r.program@ == self.java_path@,
            r.arguments() == seq![JAVA_VERSION_FLAG@],
    {
        let mut args: Vec<String> = Vec::new();
        args.push(JAVA_VERSION_FLAG.to_owned());
        assert(crate::text::texts(args@) =~= seq![JAVA_VERSION_FLAG@]);
        Invocation { program: self.java_path.clone(), args }
    }

    /// Judges the answer to the version query.  The runtime is usable
    /// exactly when it started and exited with status zero.
    pub fn check_java(&self, outcome: &ProcessOutcome) -> (r: Result<(), Error>)
        ensures
            match outcome@ {
                Outcome::NotStarted { reason } => r matches Err(e) && e@ == (Failure::SpawnFailed {
                    program: self.java_path@,
                    reason,
                }),
                Outcome::Exited { success, .. } => if success {
                    r is Ok
                } else {
                    r matches Err(e) && e@ == Failure::JavaUnusable
                },
            },
    {
        match outcome {
            ProcessOutcome::NotStarted { reason } => Err(
                Error::SpawnFailed { program: self.java_path.clone(), reason: reason.clone() },
            ),
            ProcessOutcome::Exited { success, .. } => {
                if *success {
                    Ok(())
                } else {
                    Err(Error::JavaUnusable)
                }
            },
        }
    }
}

impl Config {
    /// The configuration before the tool tree is known: the runtime that the
    /// search found, and the bare names of the tools.
    pub fn load(probe: JavaProbe, platform: &Platform) -> (r: Config)
        ensures
            r.java.java_path@ == match found_java(probe, *platform) {
                Some(path) => path,
                None => JAVA_COMMAND@,
            },
            r.java.java_home == probe.java_home,
            r.tools.apktool_jar@ == APKTOOL_JAR_NAME@,
            r.tools.procyon_jar@ == PROCYON_JAR_NAME@,
            r.tools.aapt_path@ == "aapt"@,
            r.tools.dex2jar_path@ == "d2j-dex2jar.sh"@,
    {
        let java = JavaConfig::detect(probe, platform);
        let tools = ToolsConfig::default();
        Config { java, tools }
    }

    /// Points every tool at its place below the tool tree at `tools_dir`.
    /// The runtime is left as it is.
    pub fn update_tool_paths(&mut self, tools_dir: &str, platform: &Platform)
        ensures
            final(self).java == old(self).java,
            final(self).tools.apktool_jar@ == joined(tools_dir@, APKTOOL_JAR_LOCATION@),
            final(self).tools.procyon_jar@ == joined(tools_dir@, PROCYON_JAR_LOCATION@),
            final(self).tools.aapt_path@ == joined(
                tools_dir@,
                resolved(platform.os@, platform.arch@).location(),
            ),
            final(self).tools.dex2jar_path@ == joined(tools_dir@, dex2jar_location(*platform)),
    {
        self.tools.apktool_jar = join(tools_dir, APKTOOL_JAR_LOCATION);
        self.tools.procyon_jar = join(tools_dir, PROCYON_JAR_LOCATION);
        self.tools.aapt_path = self.get_aapt_path(tools_dir, platform);
        self.tools.dex2jar_path = self.get_dex2jar_path(tools_dir, platform);
    }

    /// Where the `aapt` binary for a platform lies below `tools_dir`.
    pub fn get_aapt_path(&self, tools_dir: &str, platform: &Platform) -> (r: String)
        ensures
            r@ == joined(tools_dir@, resolved(platform.os@, platform.arch@).location()),
    {
        let binary = resolve(platform.os.as_str(), platform.arch.as_str());
        join(tools_dir, binary.relative_path())
    }

    /// Where the conversion script for a platform lies below `tools_dir`.
    pub fn get_dex2jar_path(&self, tools_dir: &str, platform: &Platform) -> (r: String)
        ensures
            r@ == joined(tools_dir@, dex2jar_location(*platform)),
    {
        if platform.is_windows() {
            join(tools_dir, DEX2JAR_BATCH)
        } else {
            join(tools_dir, DEX2JAR_SCRIPT)
        }
    }
}

} // verus!
