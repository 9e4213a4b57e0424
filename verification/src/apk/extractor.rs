//! The unpack pipeline: decode the resources of an archive, extract its DEX
//! payload, convert the payload to a jar and decompile the jar.
//!
//! Only the first stage is essential.  Once the resources are decoded the
//! pipeline ends in success whatever becomes of the later stages; a later
//! stage that fails ends the pipeline there and is reported as a warning.

use crate::archive::{dex_payload, extract_dex, listing_of, Lookup, DEX_ENTRY, LEGACY_DEX_ENTRY};
use crate::assets::{jar_location, AssetManager, APKTOOL_JAR_NAME, PROCYON_JAR_NAME};
use crate::config::{Config, DEX2JAR_SCRIPT};
use crate::error::{Error, Failure, FsStep, Tool};
use crate::paths::{extension_of, extension_removed, has_extension, join, joined, strip_extension};
use crate::pipeline::{
    complete, fail, give_up, go_on, Action, ActionView, Event, EventView, Move, StageStatus, Step,
};
use crate::process::{conclude, verdict, CommandLine, Invocation, Outcome};
use crate::text::texts;
use crate::tools::{
    apktool_arguments, dex2jar_arguments, procyon_arguments, ToolManager, FRAMEWORK_DIR_NAME, SHELL,
};
use vstd::prelude::*;

verus! {

/// The extension an archive has to carry.
pub const APK_EXTENSION: &'static str = "apk";

/// The directory below the extraction root that receives the decoded
/// resources.
pub const UNPACKED_DIR_NAME: &'static str = "unpacked";

/// The file below the extraction root that receives the converted payload.
pub const JAR_FILE_NAME: &'static str = "classes.jar";

/// The directory below the extraction root that receives the decompiled
/// sources.
pub const SOURCES_DIR_NAME: &'static str = "src";

/// What the unpack pipeline is waiting for.
#[derive(Clone, Copy, Debug, PartialEq, Eq, Structural)]
pub enum UnpackPhase {
    /// Nothing has been asked for yet.
    Start,
    /// Whether the archive exists.
    ProbingArchive,
    /// Whether an extraction root is left from an earlier run.
    ProbingRoot,
    /// The removal of that extraction root.
    ClearingRoot,
    /// The creation of the framework directory.
    PreparingFramework,
    /// The run of the resource tool.
    DecodingResources,
    /// The creation of the extraction root for the payload.
    PreparingRoot,
    /// What the archive holds.
    ReadingArchive,
    /// The writing of the payload.
    WritingDex,
    /// The run of the conversion tool.
    ConvertingDex,
    /// The removal of the converted payload.
    RemovingDex,
    /// Whether sources are left from an earlier run.
    ProbingSources,
    /// The removal of those sources.
    ClearingSources,
    /// The creation of the sources directory.
    CreatingSources,
    /// The run of the decompiler.
    Decompiling,
    /// Nothing: the pipeline has ended.
    Finished,
}

/// The stages of the unpack pipeline, in the order they run.
#[derive(Clone, Copy, Debug, PartialEq, Eq, Structural)]
pub enum Stage {
    /// Decoding the resources: the one essential stage.
    Resources,
    /// Extracting the DEX payload.
    Payload,
    /// Converting the payload to a jar.
    Conversion,
    /// Decompiling the jar.
    Decompilation,
}

/// How the pipeline as a whole has fared.
#[derive(Clone, Copy, Debug, PartialEq, Eq, Structural)]
pub enum Overall {
    /// Every stage succeeded.
    Success,
    /// The resources are decoded, but a later stage failed or was never
    /// reached.
    SoftFailed,
    /// The resources are not decoded.
    HardFailed,
}

/// How far each stage has come.
#[derive(Clone, Copy, Debug, PartialEq, Eq, Structural)]
pub struct PipelineResult {
    pub resources: StageStatus,
    pub payload: StageStatus,
    pub conversion: StageStatus,
    pub decompilation: StageStatus,
}

/// The state of the unpack pipeline between two moves.
#[derive(Clone, Copy, Debug, PartialEq, Eq, Structural)]
pub struct UnpackState {
    pub phase: UnpackPhase,
    pub report: PipelineResult,
}

/// Everything a move of the unpack pipeline depends on besides its state
/// and the driver's answer.
pub ghost struct UnpackPlan {
    /// The archive to unpack.
    pub archive: Seq<char>,
    /// The extraction root.
    pub root: Seq<char>,
    /// The Java runtime.
    pub java: Seq<char>,
    /// The root of the tool cache.
    pub cache: Seq<char>,
}

impl UnpackPhase {
    /// The stage a phase belongs to.  The checks that come before the
    /// resource tool runs belong to no stage.
    pub open spec fn stage(self) -> Option<Stage> {
        match self {
            UnpackPhase::Start
            | UnpackPhase::ProbingArchive
            | UnpackPhase::ProbingRoot
            | UnpackPhase::ClearingRoot
            | UnpackPhase::Finished => None,
            UnpackPhase::PreparingFramework | UnpackPhase::DecodingResources => Some(
                Stage::Resources,
            ),
            UnpackPhase::PreparingRoot | UnpackPhase::ReadingArchive | UnpackPhase::WritingDex => Some(
                Stage::Payload,
            ),
            UnpackPhase::ConvertingDex | UnpackPhase::RemovingDex => Some(Stage::Conversion),
            UnpackPhase::ProbingSources
            | UnpackPhase::ClearingSources
            | UnpackPhase::CreatingSources
            | UnpackPhase::Decompiling => Some(Stage::Decompilation),
        }
    }

    /// The stage a phase belongs to.
    pub fn current_stage(self) -> (r: Option<Stage>)
        ensures
            r == self.stage(),
    {
        match self {
            UnpackPhase::Start
            | UnpackPhase::ProbingArchive
            | UnpackPhase::ProbingRoot
            | UnpackPhase::ClearingRoot
            | UnpackPhase::Finished => None,
            UnpackPhase::PreparingFramework | UnpackPhase::DecodingResources => Some(
                Stage::Resources,
            ),
            UnpackPhase::PreparingRoot | UnpackPhase::ReadingArchive | UnpackPhase::WritingDex => Some(
                Stage::Payload,
            ),
            UnpackPhase::ConvertingDex | UnpackPhase::RemovingDex => Some(Stage::Conversion),
            UnpackPhase::ProbingSources
            | UnpackPhase::ClearingSources
            | UnpackPhase::CreatingSources
            | UnpackPhase::Decompiling => Some(Stage::Decompilation),
        }
    }
}

impl PipelineResult {
    /// The result before any stage has run.
    pub open spec fn blank() -> PipelineResult {
        PipelineResult {
            resources: StageStatus::Pending,
            payload: StageStatus::Pending,
            conversion: StageStatus::Pending,
            decompilation: StageStatus::Pending,
        }
    }

    /// This result with `status` recorded for `stage`.
    pub open spec fn with(self, stage: Stage, status: StageStatus) -> PipelineResult {
        match stage {
            Stage::Resources => PipelineResult { resources: status, ..self },
            Stage::Payload => PipelineResult { payload: status, ..self },
            Stage::Conversion => PipelineResult { conversion: status, ..self },
            Stage::Decompilation => PipelineResult { decompilation: status, ..self },
        }
    }

    /// This result with a failure recorded for the stage of `phase`, if it
    /// belongs to one.
    pub open spec fn failed_in(self, phase: UnpackPhase) -> PipelineResult {
        match phase.stage() {
            Some(stage) => self.with(stage, StageStatus::Failed),
            None => self,
        }
    }

    /// How the stages add up: the pipeline has failed unless the resources
    /// are decoded, and has fully succeeded only if every stage has.
    pub open spec fn verdict(self) -> Overall {
        if self.resources != StageStatus::Succeeded {
            Overall::HardFailed
        } else if self.payload == StageStatus::Succeeded && self.conversion
            == StageStatus::Succeeded && self.decompilation == StageStatus::Succeeded {
            Overall::Success
        } else {
            Overall::SoftFailed
        }
    }

    /// Whether no stage was tried before the stage ahead of it had
    /// succeeded.
    pub open spec fn in_order(self) -> bool {
        &&& self.payload != StageStatus::Pending ==> self.resources == StageStatus::Succeeded
        &&& self.conversion != StageStatus::Pending ==> self.payload == StageStatus::Succeeded
        &&& self.decompilation != StageStatus::Pending ==> self.conversion
            == StageStatus::Succeeded
    }

    /// The result before any stage has run.
    pub fn new() -> (r: PipelineResult)
        ensures
            r == PipelineResult::blank(),
    {
        PipelineResult {
            resources: StageStatus::Pending,
            payload: StageStatus::Pending,
            conversion: StageStatus::Pending,
            decompilation: StageStatus::Pending,
        }
    }

    /// This result with `status` recorded for `stage`.
    pub fn record(self, stage: Stage, status: StageStatus) -> (r: PipelineResult)
        ensures
            r == self.with(stage, status),
    {
        match stage {
            Stage::Resources => PipelineResult { resources: status, ..self },
            Stage::Payload => PipelineResult { payload: status, ..self },
            Stage::Conversion => PipelineResult { conversion: status, ..self },
            Stage::Decompilation => PipelineResult { decompilation: status, ..self },
        }
    }

    /// How the stages add up.
    pub fn overall(&self) -> (r: Overall)
        ensures
            r == self.verdict(),
    {
        if self.resources != StageStatus::Succeeded {
            Overall::HardFailed
        } else if self.payload == StageStatus::Succeeded && self.conversion
            == StageStatus::Succeeded && self.decompilation == StageStatus::Succeeded {
            Overall::Success
        } else {
            Overall::SoftFailed
        }
    }

    /// Whether the pipeline counts as successful: whether the process may
    /// exit with status zero.
    pub fn succeeded(&self) -> (r: bool)
        ensures
            r == (self.verdict() != Overall::HardFailed),
            r == (self.resources == StageStatus::Succeeded),
    {
        self.resources == StageStatus::Succeeded
    }
}

impl UnpackState {
    /// The state before the first move.
    pub open spec fn initial() -> UnpackState {
        UnpackState { phase: UnpackPhase::Start, report: PipelineResult::blank() }
    }

    /// Whether a state is one the pipeline can be in: the stages ahead of
    /// the current one have succeeded, the current one and those behind it
    /// have not been decided, and after the end no stage was tried out of
    /// order.
    pub open spec fn wf(self) -> bool {
        match self.phase.stage() {
            None => if self.phase == UnpackPhase::Finished {
                self.report.in_order()
            } else {
                self.report == PipelineResult::blank()
            },
            Some(Stage::Resources) => self.report == PipelineResult::blank(),
            Some(Stage::Payload) => self.report == PipelineResult::blank().with(
                Stage::Resources,
                StageStatus::Succeeded,
            ),
            Some(Stage::Conversion) => self.report == PipelineResult::blank().with(
                Stage::Resources,
                StageStatus::Succeeded,
            ).with(Stage::Payload, StageStatus::Succeeded),
            Some(Stage::Decompilation) => self.report == PipelineResult::blank().with(
                Stage::Resources,
                StageStatus::Succeeded,
            ).with(Stage::Payload, StageStatus::Succeeded).with(
                Stage::Conversion,
                StageStatus::Succeeded,
            ),
        }
    }

    /// The state before the first move.
    pub fn start() -> (r: UnpackState)
        ensures
            r == UnpackState::initial(),
            r.wf(),
    {
        UnpackState { phase: UnpackPhase::Start, report: PipelineResult::new() }
    }

    /// Whether the pipeline has ended.
    pub fn is_finished(&self) -> (r: bool)
        ensures
            r == (self.phase == UnpackPhase::Finished),
    {
        self.phase == UnpackPhase::Finished
    }
}

/// The state in `phase` with the stages as in `report`.
pub open spec fn at(phase: UnpackPhase, report: PipelineResult) -> UnpackState {
    UnpackState { phase, report }
}

/// The line that announces the removal of an extraction root.
pub open spec fn removing_line(root: Seq<char>) -> Seq<char> {
    "[+] Removing existing directory '"@ + root + "'\n"@
}

/// The lines that announce the extraction and its first stage.
pub open spec fn extracting_lines(root: Seq<char>) -> Seq<char> {
    "[+] Extracting under '"@ + root + "'\n[+] Extracting resources\n"@
}

/// The line that announces the second stage.
pub open spec fn payload_line() -> Seq<char> {
    "[+] Extracting classes.dex\n"@
}

/// The line that announces the third stage.
pub open spec fn conversion_line() -> Seq<char> {
    "[+] Converting classes.dex to jar\n"@
}

/// The line that announces the fourth stage.
pub open spec fn decompilation_line() -> Seq<char> {
    "[+] Decompiling jar files\n"@
}

/// The lines that say where everything lies once every stage has succeeded.
pub open spec fn closing_lines(root: Seq<char>) -> Seq<char> {
    "\n[+] Resources and smali are in '"@ + root + "/unpacked'\n[+] Decompiled classes in '"@
        + root + "/src'\n"@
}

/// The move that ends the pipeline because of `failure`.  The stage in
/// progress, if any, is recorded as failed.  The pipeline ends in failure
/// unless the resources are decoded; if they are, the failure is only a
/// warning.
pub open spec fn stop(state: UnpackState, failure: Failure) -> Move<UnpackState> {
    let end = at(UnpackPhase::Finished, state.report.failed_in(state.phase));
    if state.report.resources == StageStatus::Succeeded {
        give_up(end, failure)
    } else {
        fail(end, failure)
    }
}

impl UnpackPlan {
    /// Where the decoded resources go.
    pub open spec fn unpacked_dir(self) -> Seq<char> {
        joined(self.root, UNPACKED_DIR_NAME@)
    }

    /// Where the payload goes.
    pub open spec fn dex_file(self) -> Seq<char> {
        joined(self.root, DEX_ENTRY@)
    }

    /// Where the converted payload goes.
    pub open spec fn jar_file(self) -> Seq<char> {
        joined(self.root, JAR_FILE_NAME@)
    }

    /// Where the decompiled sources go.
    pub open spec fn sources_dir(self) -> Seq<char> {
        joined(self.root, SOURCES_DIR_NAME@)
    }

    /// Where the resource tool keeps shared framework resources.
    pub open spec fn framework_dir(self) -> Seq<char> {
        joined(self.cache, FRAMEWORK_DIR_NAME@)
    }

    /// The command line of the first stage.
    pub open spec fn decode_command(self) -> CommandLine {
        CommandLine {
            program: self.java,
            args: apktool_arguments(
                jar_location(self.cache, APKTOOL_JAR_NAME@),
                self.framework_dir(),
                seq!["d"@, "-f"@, self.archive, "-o"@, self.unpacked_dir()],
            ),
        }
    }

    /// The command line of the third stage.
    pub open spec fn convert_command(self) -> CommandLine {
        CommandLine {
            program: SHELL@,
            args: dex2jar_arguments(
                joined(self.cache, DEX2JAR_SCRIPT@),
                seq![self.dex_file(), "-o"@, self.jar_file()],
            ),
        }
    }

    /// The command line of the fourth stage.
    pub open spec fn decompile_command(self) -> CommandLine {
        CommandLine {
            program: self.java,
            args: procyon_arguments(
                jar_location(self.cache, PROCYON_JAR_NAME@),
                seq!["-jar"@, self.jar_file(), "-o"@, self.sources_dir()],
            ),
        }
    }

    /// The move that starts the first stage.
    pub open spec fn begin_decoding(self, state: UnpackState) -> Move<UnpackState> {
        go_on(
            at(UnpackPhase::PreparingFramework, state.report),
            extracting_lines(self.root),
            ActionView::MakeDirs { path: self.framework_dir() },
        )
    }

    /// The move that starts the fourth stage.
    pub open spec fn begin_decompiling(self, state: UnpackState) -> Move<UnpackState> {
        go_on(
            at(
                UnpackPhase::ProbingSources,
                state.report.with(Stage::Conversion, StageStatus::Succeeded),
            ),
            decompilation_line(),
            ActionView::Probe { path: self.sources_dir() },
        )
    }

    /// The move that asks for the sources directory.
    pub open spec fn create_sources(self, state: UnpackState) -> Move<UnpackState> {
        go_on(
            at(UnpackPhase::CreatingSources, state.report),
            Seq::<char>::empty(),
            ActionView::MakeDirs { path: self.sources_dir() },
        )
    }

    /// The move of the pipeline in `state` on the driver's answer `event`.
    ///
    /// An answer that is not the one the pipeline is waiting for counts as
    /// a failure of what was asked.  `note` stands for the text with which
    /// the archive reader turns down an archive it cannot read; no other
    /// move depends on it.
    pub open spec fn next(self, state: UnpackState, event: EventView, note: Seq<char>) -> Move<
        UnpackState,
    > {
        let report = state.report;
        match (state.phase, event) {
            (UnpackPhase::Start, EventView::Begin) => if extension_of(self.archive) == Some(
                APK_EXTENSION@,
            ) {
                go_on(
                    at(UnpackPhase::ProbingArchive, report),
                    Seq::<char>::empty(),
                    ActionView::Probe { path: self.archive },
                )
            } else {
                stop(state, Failure::NotAnApk)
            },
            (UnpackPhase::ProbingArchive, EventView::Exists { present }) => if present {
                go_on(
                    at(UnpackPhase::ProbingRoot, report),
                    Seq::<char>::empty(),
                    ActionView::Probe { path: self.root },
                )
            } else {
                stop(state, Failure::ArchiveMissing { path: self.archive })
            },
            (UnpackPhase::ProbingRoot, EventView::Exists { present }) => if present {
                go_on(
                    at(UnpackPhase::ClearingRoot, report),
                    removing_line(self.root),
                    ActionView::RemoveTree { path: self.root },
                )
            } else {
                self.begin_decoding(state)
            },
            (UnpackPhase::ClearingRoot, EventView::Done) => self.begin_decoding(state),
            (UnpackPhase::ClearingRoot, EventView::Failed { reason }) => stop(
                state,
                Failure::Io { step: FsStep::RemoveRoot, reason },
            ),
            (UnpackPhase::PreparingFramework, EventView::Done) => go_on(
                at(UnpackPhase::DecodingResources, report),
                Seq::<char>::empty(),
                ActionView::Run { command: self.decode_command() },
            ),
            (UnpackPhase::PreparingFramework, EventView::Failed { reason }) => stop(
                state,
                Failure::Io { step: FsStep::CreateFramework, reason },
            ),
            (UnpackPhase::DecodingResources, EventView::Ran { outcome }) => match verdict(
                Tool::Apktool,
                self.java,
                outcome,
            ) {
                Ok(echo) => go_on(
                    at(
                        UnpackPhase::PreparingRoot,
                        report.with(Stage::Resources, StageStatus::Succeeded),
                    ),
                    echo + payload_line(),
                    ActionView::MakeDirs { path: self.root },
                ),
                Err(failure) => stop(state, failure),
            },
            (UnpackPhase::PreparingRoot, EventView::Done) => go_on(
                at(UnpackPhase::ReadingArchive, report),
                Seq::<char>::empty(),
                ActionView::ReadFile { path: self.archive },
            ),
            (UnpackPhase::PreparingRoot, EventView::Failed { reason }) => stop(
                state,
                Failure::Io { step: FsStep::CreateRoot, reason },
            ),
            (UnpackPhase::ReadingArchive, EventView::Contents { bytes }) => match dex_payload(
                listing_of(bytes),
            ) {
                Lookup::Found(payload) => go_on(
                    at(UnpackPhase::WritingDex, report),
                    Seq::<char>::empty(),
                    ActionView::WriteFile { path: self.dex_file(), bytes: payload },
                ),
                Lookup::NotFound => stop(
                    state,
                    Failure::DexMissing {
                        reason: "File "@ + LEGACY_DEX_ENTRY@ + " not found in archive"@,
                    },
                ),
                _ => stop(state, Failure::DexMissing { reason: note }),
            },
            (UnpackPhase::ReadingArchive, EventView::Failed { reason }) => stop(
                state,
                Failure::Io { step: FsStep::ReadArchive, reason },
            ),
            (UnpackPhase::WritingDex, EventView::Done) => go_on(
                at(
                    UnpackPhase::ConvertingDex,
                    report.with(Stage::Payload, StageStatus::Succeeded),
                ),
                conversion_line(),
                ActionView::Run { command: self.convert_command() },
            ),
            (UnpackPhase::WritingDex, EventView::Failed { reason }) => stop(
                state,
                Failure::Io { step: FsStep::WriteDex, reason },
            ),
            (UnpackPhase::ConvertingDex, EventView::Ran { outcome }) => match verdict(
                Tool::Dex2jar,
                SHELL@,
                outcome,
            ) {
                Ok(echo) => go_on(
                    at(UnpackPhase::RemovingDex, report),
                    echo,
                    ActionView::RemoveFile { path: self.dex_file() },
                ),
                Err(failure) => stop(state, failure),
            },
            (UnpackPhase::RemovingDex, EventView::Done) => self.begin_decompiling(state),
            (UnpackPhase::RemovingDex, EventView::Failed { reason }) => stop(
                state,
                Failure::Io { step: FsStep::RemoveDex, reason },
            ),
            (UnpackPhase::ProbingSources, EventView::Exists { present }) => if present {
                go_on(
                    at(UnpackPhase::ClearingSources, report),
                    Seq::<char>::empty(),
                    ActionView::RemoveTree { path: self.sources_dir() },
                )
            } else {
                self.create_sources(state)
            },
            (UnpackPhase::ClearingSources, EventView::Done) => self.create_sources(state),
            (UnpackPhase::ClearingSources, EventView::Failed { reason }) => stop(
                state,
                Failure::Io { step: FsStep::RemoveSources, reason },
            ),
            (UnpackPhase::CreatingSources, EventView::Done) => go_on(
                at(UnpackPhase::Decompiling, report),
                Seq::<char>::empty(),
                ActionView::Run { command: self.decompile_command() },
            ),
            (UnpackPhase::CreatingSources, EventView::Failed { reason }) => stop(
                state,
                Failure::Io { step: FsStep::CreateSources, reason },
            ),
            (UnpackPhase::Decompiling, EventView::Ran { outcome }) => match verdict(
                Tool::Procyon,
                self.java,
                outcome,
            ) {
                Ok(echo) => complete(
                    at(
                        UnpackPhase::Finished,
                        report.with(Stage::Decompilation, StageStatus::Succeeded),
                    ),
                    echo + closing_lines(self.root),
                ),
                Err(failure) => stop(state, failure),
            },
            _ => stop(state, Failure::OutOfTurn),
        }
    }
}

/// The actions that change something on disk or run a program.
pub open spec fn acts(action: ActionView) -> bool {
    !(action is Probe || action is ReadFile || action is Finish)
}

/// The state the pipeline for `plan` is in after the driver has given the
/// answers `events`, one after the other, from the start.
pub open spec fn run(plan: UnpackPlan, events: Seq<EventView>) -> UnpackState
    decreases events.len(),
{
    if events.len() == 0 {
        UnpackState::initial()
    } else {
        plan.next(run(plan, events.drop_last()), events.last(), Seq::<char>::empty()).state
    }
}

/// The text with which the archive reader turns an archive down has no
/// part in where the pipeline goes, in whether it ends, in what it asks for
/// while it goes on, or in what it says on the standard output.
pub proof fn lemma_note_is_only_text(
    plan: UnpackPlan,
    state: UnpackState,
    event: EventView,
    first: Seq<char>,
    second: Seq<char>,
)
    ensures
        plan.next(state, event, first).state == plan.next(state, event, second).state,
        plan.next(state, event, first).stdout == plan.next(state, event, second).stdout,
        plan.next(state, event, first).action is Finish ==> plan.next(state, event, second).action
            is Finish,
        !(plan.next(state, event, first).action is Finish) ==> plan.next(state, event, first)
            == plan.next(state, event, second),
{
}

/// Every move leaves the pipeline in a state it can be in, and the pipeline
/// has ended exactly when nothing more is asked for.
pub proof fn lemma_move_keeps_order(
    plan: UnpackPlan,
    state: UnpackState,
    event: EventView,
    note: Seq<char>,
)
    requires
        state.wf(),
    ensures
        plan.next(state, event, note).state.wf(),
        plan.next(state, event, note).action is Finish <==> plan.next(state, event, note).state.phase
            == UnpackPhase::Finished,
{
}

/// The pipeline ends in success exactly when the resources are decoded,
/// whatever became of the later stages, and every stage has succeeded only
/// when the decompiler has.
pub proof fn lemma_success_iff_resources_decoded(
    plan: UnpackPlan,
    state: UnpackState,
    event: EventView,
    note: Seq<char>,
)
    requires
        state.wf(),
    ensures
        plan.next(state, event, note).action matches ActionView::Finish { error } ==> {
            let end = plan.next(state, event, note);
            &&& error is None <==> end.state.report.resources == StageStatus::Succeeded
            &&& error is None <==> end.state.report.verdict() != Overall::HardFailed
            &&& state.phase != UnpackPhase::Finished ==> (end.state.report.verdict()
                == Overall::Success <==> state.phase == UnpackPhase::Decompiling && event is Ran
                && verdict(Tool::Procyon, plan.java, event->Ran_outcome) is Ok)
        },
{
}

/// Whatever answers the driver gives, the pipeline stays in a state it can
/// be in: no stage is tried before the stage ahead of it has succeeded.
pub proof fn lemma_run_keeps_order(plan: UnpackPlan, events: Seq<EventView>)
    ensures
        run(plan, events).wf(),
    decreases events.len(),
{
    if events.len() > 0 {
        lemma_run_keeps_order(plan, events.drop_last());
        lemma_move_keeps_order(
            plan,
            run(plan, events.drop_last()),
            events.last(),
            Seq::<char>::empty(),
        );
    }
}

/// Whatever answers the driver gave before, a move that ends the pipeline
/// ends it in success exactly when the resources are decoded.
pub proof fn lemma_run_succeeds_iff_resources_decoded(
    plan: UnpackPlan,
    events: Seq<EventView>,
    event: EventView,
    note: Seq<char>,
)
    ensures
        plan.next(run(plan, events), event, note).action matches ActionView::Finish { error }
            ==> (error is None <==> plan.next(run(plan, events), event, note).state.report.resources
            == StageStatus::Succeeded),
{
    lemma_run_keeps_order(plan, events);
    lemma_success_iff_resources_decoded(plan, run(plan, events), event, note);
}

/// A conversion that fails ends the pipeline at once and in success: the
/// failure is reported as a warning, the decompiler is never run, and the
/// pipeline asks for nothing more whatever it is told afterwards.
pub proof fn lemma_failed_conversion_is_tolerated(
    plan: UnpackPlan,
    state: UnpackState,
    outcome: Outcome,
    note: Seq<char>,
    later: EventView,
)
    requires
        state.wf(),
        state.phase == UnpackPhase::ConvertingDex,
        verdict(Tool::Dex2jar, SHELL@, outcome) is Err,
    ensures
        ({
            let end = plan.next(state, EventView::Ran { outcome }, note);
            &&& end.action == ActionView::Finish { error: None }
            &&& end.stderr == crate::pipeline::warning(
                verdict(Tool::Dex2jar, SHELL@, outcome)->Err_0,
            )
            &&& end.state.phase == UnpackPhase::Finished
            &&& end.state.report.conversion == StageStatus::Failed
            &&& end.state.report.decompilation == StageStatus::Pending
            &&& end.state.report.verdict() == Overall::SoftFailed
            &&& plan.next(end.state, later, note).action is Finish
            &&& plan.next(end.state, later, note).state == end.state
        }),
{
}

/// Nothing is changed on disk and nothing is run before the archive is
/// known to carry the right extension and to exist, and the resource tool
/// is asked for only once the extraction root is known to be absent or has
/// been removed: an extraction root left by an earlier run is removed as
/// soon as it is found.
pub proof fn lemma_root_is_fresh(
    plan: UnpackPlan,
    state: UnpackState,
    event: EventView,
    note: Seq<char>,
)
    requires
        state.wf(),
    ensures
        ({
            let step = plan.next(state, event, note);
            &&& acts(step.action) ==> state.phase != UnpackPhase::Start && state.phase
                != UnpackPhase::ProbingArchive
            &&& state.phase == UnpackPhase::Start && !(step.action is Finish) ==> extension_of(
                plan.archive,
            ) == Some(APK_EXTENSION@)
            &&& state.phase == UnpackPhase::ProbingArchive && !(step.action is Finish) ==> event
                == (EventView::Exists { present: true })
            &&& state.phase == UnpackPhase::ProbingRoot && event == (EventView::Exists {
                present: true,
            }) ==> step.action == (ActionView::RemoveTree { path: plan.root })
            &&& step.state.phase == UnpackPhase::PreparingFramework ==> (state.phase
                == UnpackPhase::ProbingRoot && event == (EventView::Exists { present: false }))
                || (state.phase == UnpackPhase::ClearingRoot && event == EventView::Done)
            &&& step.state.phase == UnpackPhase::DecodingResources ==> state.phase
                == UnpackPhase::PreparingFramework && step.action == (ActionView::Run {
                command: plan.decode_command(),
            })
        }),
{
}

/// An archive that lists a readable entry `class.dex` and no entry
/// `classes.dex` has a payload, and the payload is written under the name
/// `classes.dex`.
pub proof fn lemma_legacy_payload_is_written_as_classes_dex(
    plan: UnpackPlan,
    state: UnpackState,
    bytes: Seq<u8>,
    entries: Seq<(Option<Seq<char>>, Option<Seq<u8>>)>,
    position: int,
    note: Seq<char>,
)
    requires
        state.phase == UnpackPhase::ReadingArchive,
        listing_of(bytes) == Some(entries),
        crate::archive::holds_legacy_payload(entries, position),
    ensures
        plan.next(state, EventView::Contents { bytes }, note).action == (ActionView::WriteFile {
            path: joined(plan.root, DEX_ENTRY@),
            bytes: entries[position].1->0,
        }),
        plan.next(state, EventView::Contents { bytes }, note).state.phase
            == UnpackPhase::WritingDex,
{
    crate::archive::lemma_legacy_payload_found(entries, position);
}

/// Ends the pipeline because of `error`.
fn halt(state: UnpackState, error: Error) -> (r: Step<UnpackState>)
    ensures
        r@ == stop(state, error@),
{
    let report = match state.phase.current_stage() {
        Some(stage) => state.report.record(stage, StageStatus::Failed),
        None => state.report,
    };
    let end = UnpackState { phase: UnpackPhase::Finished, report };
    if state.report.resources == StageStatus::Succeeded {
        Step::give_up(end, error)
    } else {
        Step::fail(end, error)
    }
}

/// Goes on in `phase` with `action`, saying `stdout` first.
fn proceed(phase: UnpackPhase, report: PipelineResult, stdout: String, action: Action) -> (r: Step<
    UnpackState,
>)
    ensures
        r@ == go_on(at(phase, report), stdout@, action@),
{
    Step::go_on(UnpackState { phase, report }, stdout, action)
}

/// Unpacks an archive, one move at a time.
#[derive(Clone, Debug, PartialEq, Eq)]
pub struct Extractor {
    tool_manager: ToolManager,
}

impl Extractor {
    /// The tool manager that builds the command lines.
    pub closed spec fn tools(&self) -> ToolManager {
        self.tool_manager
    }

    /// What the moves for the archive at `apk_path` depend on.  The
    /// extraction root is the path of the archive without its extension.
    pub open spec fn plan(&self, apk_path: Seq<char>) -> UnpackPlan {
        UnpackPlan {
            archive: apk_path,
            root: extension_removed(apk_path),
            java: self.tools().java(),
            cache: self.tools().cache_root(),
        }
    }

    /// An extractor for a run configured by `config`, with its tools in the
    /// cache of `asset_manager`.
    pub fn new(config: Config, asset_manager: AssetManager) -> (r: Extractor)
        ensures
            r.tools().config() == config,
            r.tools().assets() == asset_manager,
    {
        Extractor { tool_manager: ToolManager::new(config, asset_manager) }
    }

    /// The extraction root of the archive at `apk_path`: the same path
    /// without its extension.
    pub fn get_extract_dir(&self, apk_path: &str) -> (r: String)
        ensures
            r@ == self.plan(apk_path@).root,
    {
        strip_extension(apk_path)
    }

    /// The first move of the pipeline for the archive at `apk_path`.
    pub fn unpack(&self, apk_path: &str) -> (r: Step<UnpackState>)
        ensures
            r@ == self.plan(apk_path@).next(
                UnpackState::initial(),
                EventView::Begin,
                Seq::<char>::empty(),
            ),
            r.state.wf(),
    {
        let r = self.advance(apk_path, UnpackState::start(), Event::Begin);
        proof {
            let plan = self.plan(apk_path@);
            let note = choose|note: Seq<char>|
                r@ == plan.next(UnpackState::initial(), EventView::Begin, note);
            assert(plan.next(UnpackState::initial(), EventView::Begin, note) == plan.next(
                UnpackState::initial(),
                EventView::Begin,
                Seq::<char>::empty(),
            ));
        }
        r
    }

    /// The move of the pipeline for the archive at `apk_path` that follows
    /// the driver's answer `event` to the action of the move before, which
    /// left the pipeline in `state`.
    pub fn advance(&self, apk_path: &str, state: UnpackState, event: Event) -> (r: Step<
        UnpackState,
    >)
        ensures
            exists|note: Seq<char>| r@ == self.plan(apk_path@).next(state, event@, note),
            state.wf() ==> r.state.wf(),
    {
        let ghost plan = self.plan(apk_path@);
        let ghost none = Seq::<char>::empty();
        let report = state.report;
        let r = match (state.phase, event) {
            (UnpackPhase::Start, Event::Begin) => {
                if has_extension(apk_path, APK_EXTENSION) {
                    proceed(
                        UnpackPhase::ProbingArchive,
                        report,
                        String::new(),
                        Action::Probe { path: apk_path.to_owned() },
                    )
                } else {
                    halt(state, Error::NotAnApk)
                }
            },
            (UnpackPhase::ProbingArchive, Event::Exists { present }) => {
                if present {
                    proceed(
                        UnpackPhase::ProbingRoot,
                        report,
                        String::new(),
                        Action::Probe { path: self.get_extract_dir(apk_path) },
                    )
                } else {
                    halt(state, Error::ArchiveMissing { path: apk_path.to_owned() })
                }
            },
            (UnpackPhase::ProbingRoot, Event::Exists { present }) => {
                if present {
                    let root = self.get_extract_dir(apk_path);
                    let mut line = "[+] Removing existing directory '".to_owned();
                    line.append(root.as_str());
                    line.append("'\n");
                    proceed(
                        UnpackPhase::ClearingRoot,
                        report,
                        line,
                        Action::RemoveTree { path: root },
                    )
                } else {
                    self.begin_decoding(apk_path, state)
                }
            },
            (UnpackPhase::ClearingRoot, Event::Done) => self.begin_decoding(apk_path, state),
            (UnpackPhase::ClearingRoot, Event::Failed { reason }) => halt(
                state,
                Error::Io { step: FsStep::RemoveRoot, reason },
            ),
            (UnpackPhase::PreparingFramework, Event::Done) => proceed(
                UnpackPhase::DecodingResources,
                report,
                String::new(),
                Action::Run { command: self.decode_invocation(apk_path) },
            ),
            (UnpackPhase::PreparingFramework, Event::Failed { reason }) => halt(
                state,
                Error::Io { step: FsStep::CreateFramework, reason },
            ),
            (UnpackPhase::DecodingResources, Event::Ran { outcome }) => {
                match conclude(
                    Tool::Apktool,
                    self.tool_manager.java_path(),
                    outcome,
                ) {
                    Ok(echo) => {
                        let mut said = echo;
                        said.append("[+] Extracting classes.dex\n");
                        proceed(
                            UnpackPhase::PreparingRoot,
                            report.record(Stage::Resources, StageStatus::Succeeded),
                            said,
                            Action::MakeDirs { path: self.get_extract_dir(apk_path) },
                        )
                    },
                    Err(error) => halt(state, error),
                }
            },
            (UnpackPhase::PreparingRoot, Event::Done) => proceed(
                UnpackPhase::ReadingArchive,
                report,
                String::new(),
                Action::ReadFile { path: apk_path.to_owned() },
            ),
            (UnpackPhase::PreparingRoot, Event::Failed { reason }) => halt(
                state,
                Error::Io { step: FsStep::CreateRoot, reason },
            ),
            (UnpackPhase::ReadingArchive, Event::Contents { bytes }) => {
                let ghost listing = listing_of(bytes@);
                match extract_dex(bytes) {
                    Ok(payload) => proceed(
                        UnpackPhase::WritingDex,
                        report,
                        String::new(),
                        Action::WriteFile { path: self.dex_path(apk_path), bytes: payload },
                    ),
                    Err(error) => {
                        let r = halt(state, error);
                        proof {
                            if dex_payload(listing) !is NotFound {
                                let note = error@->DexMissing_reason;
                                assert(r@ == plan.next(state, event@, note));
                            }
                        }
                        r
                    },
                }
            },
            (UnpackPhase::ReadingArchive, Event::Failed { reason }) => halt(
                state,
                Error::Io { step: FsStep::ReadArchive, reason },
            ),
            (UnpackPhase::WritingDex, Event::Done) => proceed(
                UnpackPhase::ConvertingDex,
                report.record(Stage::Payload, StageStatus::Succeeded),
                "[+] Converting classes.dex to jar\n".to_owned(),
                Action::Run { command: self.convert_invocation(apk_path) },
            ),
            (UnpackPhase::WritingDex, Event::Failed { reason }) => halt(
                state,
                Error::Io { step: FsStep::WriteDex, reason },
            ),
            (UnpackPhase::ConvertingDex, Event::Ran { outcome }) => {
                match conclude(Tool::Dex2jar, SHELL, outcome) {
                    Ok(echo) => proceed(
                        UnpackPhase::RemovingDex,
                        report,
                        echo,
                        Action::RemoveFile { path: self.dex_path(apk_path) },
                    ),
                    Err(error) => halt(state, error),
                }
            },
            (UnpackPhase::RemovingDex, Event::Done) => proceed(
                UnpackPhase::ProbingSources,
                report.record(Stage::Conversion, StageStatus::Succeeded),
                "[+] Decompiling jar files\n".to_owned(),
                Action::Probe { path: self.sources_path(apk_path) },
            ),
            (UnpackPhase::RemovingDex, Event::Failed { reason }) => halt(
                state,
                Error::Io { step: FsStep::RemoveDex, reason },
            ),
            (UnpackPhase::ProbingSources, Event::Exists { present }) => {
                if present {
                    proceed(
                        UnpackPhase::ClearingSources,
                        report,
                        String::new(),
                        Action::RemoveTree { path: self.sources_path(apk_path) },
                    )
                } else {
                    self.create_sources(apk_path, state)
                }
            },
            (UnpackPhase::ClearingSources, Event::Done) => self.create_sources(apk_path, state),
            (UnpackPhase::ClearingSources, Event::Failed { reason }) => halt(
                state,
                Error::Io { step: FsStep::RemoveSources, reason },
            ),
            (UnpackPhase::CreatingSources, Event::Done) => proceed(
                UnpackPhase::Decompiling,
                report,
                String::new(),
                Action::Run { command: self.decompile_invocation(apk_path) },
            ),
            (UnpackPhase::CreatingSources, Event::Failed { reason }) => halt(
                state,
                Error::Io { step: FsStep::CreateSources, reason },
            ),
            (UnpackPhase::Decompiling, Event::Ran { outcome }) => {
                match conclude(
                    Tool::Procyon,
                    self.tool_manager.java_path(),
                    outcome,
                ) {
                    Ok(echo) => {
                        let root = self.get_extract_dir(apk_path);
                        let mut said = echo;
                        said.append("\n[+] Resources and smali are in '");
                        said.append(root.as_str());
                        said.append("/unpacked'\n[+] Decompiled classes in '");
                        said.append(root.as_str());
                        said.append("/src'\n");
                        assert(said@ =~= verdict(Tool::Procyon, plan.java, event@->Ran_outcome)->Ok_0
                            + closing_lines(plan.root));
                        Step::complete(
                            UnpackState {
                                phase: UnpackPhase::Finished,
                                report: report.record(
                                    Stage::Decompilation,
                                    StageStatus::Succeeded,
                                ),
                            },
                            said,
                        )
                    },
                    Err(error) => halt(state, error),
                }
            },
            _ => halt(state, Error::OutOfTurn),
        };
        proof {
            if !(exists|note: Seq<char>| r@ == plan.next(state, event@, note)) {
                assert(r@ == plan.next(state, event@, none));
            }
        }
        r
    }

    /// The move that starts the first stage.
    fn begin_decoding(&self, apk_path: &str, state: UnpackState) -> (r: Step<UnpackState>)
        ensures
            r@ == self.plan(apk_path@).begin_decoding(state),
    {
        let root = self.get_extract_dir(apk_path);
        let mut lines = "[+] Extracting under '".to_owned();
        lines.append(root.as_str());
        lines.append("'\n[+] Extracting resources\n");
        proceed(
            UnpackPhase::PreparingFramework,
            state.report,
            lines,
            Action::MakeDirs { path: self.tool_manager.framework_path() },
        )
    }

    /// The move that asks for the sources directory.
    fn create_sources(&self, apk_path: &str, state: UnpackState) -> (r: Step<UnpackState>)
        ensures
            r@ == self.plan(apk_path@).create_sources(state),
    {
        proceed(
            UnpackPhase::CreatingSources,
            state.report,
            String::new(),
            Action::MakeDirs { path: self.sources_path(apk_path) },
        )
    }

    /// Where the payload of the archive at `apk_path` goes.
    fn dex_path(&self, apk_path: &str) -> (r: String)
        ensures
            r@ == self.plan(apk_path@).dex_file(),
    {
        let root = self.get_extract_dir(apk_path);
        join(root.as_str(), DEX_ENTRY)
    }

    /// Where the converted payload of the archive at `apk_path` goes.
    fn jar_path(&self, apk_path: &str) -> (r: String)
        ensures
            r@ == self.plan(apk_path@).jar_file(),
    {
        let root = self.get_extract_dir(apk_path);
        join(root.as_str(), JAR_FILE_NAME)
    }

    /// Where the decompiled sources of the archive at `apk_path` go.
    fn sources_path(&self, apk_path: &str) -> (r: String)
        ensures
            r@ == self.plan(apk_path@).sources_dir(),
    {
        let root = self.get_extract_dir(apk_path);
        join(root.as_str(), SOURCES_DIR_NAME)
    }

    /// The command line of the first stage.
    fn decode_invocation(&self, apk_path: &str) -> (r: Invocation)
        ensures
            r@ == self.plan(apk_path@).decode_command(),
    {
        let root = self.get_extract_dir(apk_path);
        let mut args: Vec<String> = Vec::new();
        args.push("d".to_owned());
        args.push("-f".to_owned());
        args.push(apk_path.to_owned());
        args.push("-o".to_owned());
        args.push(join(root.as_str(), UNPACKED_DIR_NAME));
        assert(texts(args@) =~= seq![
            "d"@,
            "-f"@,
            apk_path@,
            "-o"@,
            self.plan(apk_path@).unpacked_dir(),
        ]);
        self.tool_manager.apktool_invocation(&args)
    }

    /// The command line of the third stage.
    fn convert_invocation(&self, apk_path: &str) -> (r: Invocation)
        ensures
            r@ == self.plan(apk_path@).convert_command(),
    {
        let mut args: Vec<String> = Vec::new();
        args.push(self.dex_path(apk_path));
        args.push("-o".to_owned());
        args.push(self.jar_path(apk_path));
        assert(texts(args@) =~= seq![
            self.plan(apk_path@).dex_file(),
            "-o"@,
            self.plan(apk_path@).jar_file(),
        ]);
        self.tool_manager.dex2jar_invocation(&args)
    }

    /// The command line of the fourth stage.
    fn decompile_invocation(&self, apk_path: &str) -> (r: Invocation)
        ensures
            r@ == self.plan(apk_path@).decompile_command(),
    {
        let mut args: Vec<String> = Vec::new();
        args.push("-jar".to_owned());
        args.push(self.jar_path(apk_path));
        args.push("-o".to_owned());
        args.push(self.sources_path(apk_path));
        assert(texts(args@) =~= seq![
            "-jar"@,
            self.plan(apk_path@).jar_file(),
            "-o"@,
            self.plan(apk_path@).sources_dir(),
        ]);
        self.tool_manager.procyon_invocation(&args)
    }
}

} // verus!
