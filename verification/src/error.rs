//! Everything that can go wrong, and the text each failure is reported with.

use crate::text::{concat2, concat3};
use vstd::prelude::*;

verus! {

/// The external programs the pipelines run.
#[derive(Clone, Copy, Debug, PartialEq, Eq, Structural)]
pub enum Tool {
    /// Decodes and rebuilds resources.
    Apktool,
    /// Decompiles a jar to Java sources.
    Procyon,
    /// Converts a DEX payload to a jar.
    Dex2jar,
}

/// The file-system operations a pipeline asks for.
#[derive(Clone, Copy, Debug, PartialEq, Eq, Structural)]
pub enum FsStep {
    /// Removing an extraction root left by an earlier run.
    RemoveRoot,
    /// Creating the directory of shared framework resources.
    CreateFramework,
    /// Reading the archive to look for its DEX payload.
    ReadArchive,
    /// Creating the extraction root for the DEX payload.
    CreateRoot,
    /// Writing the DEX payload.
    WriteDex,
    /// Removing the DEX payload once it has been converted.
    RemoveDex,
    /// Removing decompiled sources left by an earlier run.
    RemoveSources,
    /// Creating the directory for decompiled sources.
    CreateSources,
}

/// A failure of a pipeline, of provisioning or of the runtime check.
#[derive(Clone, Debug, PartialEq, Eq)]
pub enum Error {
    /// The archive to unpack does not end in `.apk`.
    NotAnApk,
    /// The archive to build does not end in `.apk`.
    OutputNotAnApk,
    /// The archive to unpack does not exist.
    ArchiveMissing { path: String },
    /// The directory to pack does not exist.
    SourceMissing { path: String },
    /// Neither checked directory holds `apktool.yml`.
    MarkerMissing { direct: String, nested: String },
    /// A tool ran and exited with a status other than zero.
    ToolFailed { tool: Tool, stderr: String },
    /// A program could not be started at all.
    SpawnFailed { program: String, reason: String },
    /// The Java runtime started but did not answer the version query.
    JavaUnusable,
    /// The archive holds no DEX payload that could be extracted.
    DexMissing { reason: String },
    /// A file-system operation failed.
    Io { step: FsStep, reason: String },
    /// No per-user configuration directory is known on this system.
    NoConfigDir,
    /// A write to the tool cache failed.
    CacheWrite { path: String, reason: String },
    /// The driver answered with something other than what was asked for.
    OutOfTurn,
}

impl Tool {
    /// The name a tool is reported under.
    pub open spec fn label(self) -> Seq<char> {
        match self {
            Tool::Apktool => "Apktool"@,
            Tool::Procyon => "Procyon"@,
            Tool::Dex2jar => "Dex2jar"@,
        }
    }

    /// The name a tool is reported under.
    pub fn name(self) -> (r: &'static str)
        ensures
            r@ == self.label(),
    {
        match self {
            Tool::Apktool => "Apktool",
            Tool::Procyon => "Procyon",
            Tool::Dex2jar => "Dex2jar",
        }
    }
}

impl FsStep {
    /// What is said of a failed operation, before the system's own reason.
    pub open spec fn label(self) -> Seq<char> {
        match self {
            FsStep::RemoveRoot => "Failed to remove existing directory"@,
            FsStep::CreateFramework => "Failed to create framework directory"@,
            FsStep::ReadArchive => "Failed to read APK file"@,
            FsStep::CreateRoot => "Failed to create extraction directory"@,
            FsStep::WriteDex => "Failed to write classes.dex"@,
            FsStep::RemoveDex => "Failed to remove DEX file"@,
            FsStep::RemoveSources => "Failed to remove existing src directory"@,
            FsStep::CreateSources => "Failed to create src directory"@,
        }
    }

    /// What is said of a failed operation, before the system's own reason.
    pub fn describe(self) -> (r: &'static str)
        ensures
            r@ == self.label(),
    {
        match self {
            FsStep::RemoveRoot => "Failed to remove existing directory",
            FsStep::CreateFramework => "Failed to create framework directory",
            FsStep::ReadArchive => "Failed to read APK file",
            FsStep::CreateRoot => "Failed to create extraction directory",
            FsStep::WriteDex => "Failed to write classes.dex",
            FsStep::RemoveDex => "Failed to remove DEX file",
            FsStep::RemoveSources => "Failed to remove existing src directory",
            FsStep::CreateSources => "Failed to create src directory",
        }
    }
}

/// The mathematical content of an [`Error`].
pub ghost enum Failure {
    NotAnApk,
    OutputNotAnApk,
    ArchiveMissing { path: Seq<char> },
    SourceMissing { path: Seq<char> },
    MarkerMissing { direct: Seq<char>, nested: Seq<char> },
    ToolFailed { tool: Tool, stderr: Seq<char> },
    SpawnFailed { program: Seq<char>, reason: Seq<char> },
    JavaUnusable,
    DexMissing { reason: Seq<char> },
    Io { step: FsStep, reason: Seq<char> },
    NoConfigDir,
    CacheWrite { path: Seq<char>, reason: Seq<char> },
    OutOfTurn,
}

impl View for Error {
    type V = Failure;

    open spec fn view(&self) -> Failure {
        match *self {
            Error::NotAnApk => Failure::NotAnApk,
            Error::OutputNotAnApk => Failure::OutputNotAnApk,
            Error::ArchiveMissing { path } => Failure::ArchiveMissing { path: path@ },
            Error::SourceMissing { path } => Failure::SourceMissing { path: path@ },
            Error::MarkerMissing { direct, nested } => Failure::MarkerMissing {
                direct: direct@,
                nested: nested@,
            },
            Error::ToolFailed { tool, stderr } => Failure::ToolFailed { tool, stderr: stderr@ },
            Error::SpawnFailed { program, reason } => Failure::SpawnFailed {
                program: program@,
                reason: reason@,
            },
            Error::JavaUnusable => Failure::JavaUnusable,
            Error::DexMissing { reason } => Failure::DexMissing { reason: reason@ },
            Error::Io { step, reason } => Failure::Io { step, reason: reason@ },
            Error::NoConfigDir => Failure::NoConfigDir,
            Error::CacheWrite { path, reason } => Failure::CacheWrite {
                path: path@,
                reason: reason@,
            },
            Error::OutOfTurn => Failure::OutOfTurn,
        }
    }
}

impl Failure {
    /// The text a failure is reported with.
    pub open spec fn text(self) -> Seq<char> {
        match self {
            Failure::NotAnApk => "File must have .apk extension"@,
            Failure::OutputNotAnApk => "Output file must have .apk extension"@,
            Failure::ArchiveMissing { path } => "APK file does not exist: "@ + path,
            Failure::SourceMissing { path } => "Unpacked directory does not exist: "@ + path,
            Failure::MarkerMissing { direct, nested } => "apktool.yml not found in "@ + direct
                + " or "@ + nested,
            Failure::ToolFailed { tool, stderr } => tool.label() + " failed: "@ + stderr,
            Failure::SpawnFailed { program, reason } => "Failed to run "@ + program + ": "@
                + reason,
            Failure::JavaUnusable => "Java is not working properly"@,
            Failure::DexMissing { reason } => "DEX file not found: "@ + reason,
            Failure::Io { step, reason } => step.label() + ": "@ + reason,
            Failure::NoConfigDir => "Could not determine config directory"@,
            Failure::CacheWrite { path, reason } => "Failed to extract "@ + path + ": "@ + reason,
            Failure::OutOfTurn => "Pipeline driven out of turn"@,
        }
    }
}

impl Error {
    /// The text a failure is reported with.
    pub fn message(&self) -> (r: String)
        ensures
            r@ == self@.text(),
    {
        match self {
            Error::NotAnApk => "File must have .apk extension".to_owned(),
            Error::OutputNotAnApk => "Output file must have .apk extension".to_owned(),
            Error::ArchiveMissing { path } => concat2("APK file does not exist: ", path.as_str()),
            Error::SourceMissing { path } => concat2(
                "Unpacked directory does not exist: ",
                path.as_str(),
            ),
            Error::MarkerMissing { direct, nested } => {
                let mut out = concat3("apktool.yml not found in ", direct.as_str(), " or ");
                out.append(nested.as_str());
                out
            },
            Error::ToolFailed { tool, stderr } => concat3(
                tool.name(),
                " failed: ",
                stderr.as_str(),
            ),
            Error::SpawnFailed { program, reason } => {
                let mut out = concat3("Failed to run ", program.as_str(), ": ");
                out.append(reason.as_str());
                out
            },
            Error::JavaUnusable => "Java is not working properly".to_owned(),
            Error::DexMissing { reason } => concat2("DEX file not found: ", reason.as_str()),
            Error::Io { step, reason } => concat3(step.describe(), ": ", reason.as_str()),
            Error::NoConfigDir => "Could not determine config directory".to_owned(),
            Error::CacheWrite { path, reason } => {
                let mut out = concat3("Failed to extract ", path.as_str(), ": ");
                out.append(reason.as_str());
                out
            },
            Error::OutOfTurn => "Pipeline driven out of turn".to_owned(),
        }
    }
}

} // verus!
