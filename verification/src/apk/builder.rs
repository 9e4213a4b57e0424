//! The pack pipeline: check a directory of decoded resources and have the
//! resource tool build an archive from it.
//!
//! Everything is checked before the tool runs, and nothing is forgiven: the
//! pipeline succeeds only if the tool does.

use crate::apk::extractor::{APK_EXTENSION, UNPACKED_DIR_NAME};
use crate::assets::{jar_location, AssetManager, APKTOOL_JAR_NAME};
use crate::config::Config;
use crate::error::{Error, Failure, FsStep, Tool};
use crate::paths::{extension_of, has_extension, join, joined};
use crate::pipeline::{complete, fail, go_on, Action, ActionView, Event, EventView, Move, Step};
use crate::platform::{resolve, resolved, Platform};
use crate::process::{conclude, verdict, CommandLine, Invocation};
use crate::text::texts;
use crate::tools::{apktool_arguments, ToolManager, FRAMEWORK_DIR_NAME};
use vstd::prelude::*;

verus! {

/// The file that marks a directory as one the resource tool has decoded.
pub const MARKER_FILE_NAME: &'static str = "apktool.yml";

/// What the pack pipeline is waiting for.
#[derive(Clone, Copy, Debug, PartialEq, Eq, Structural)]
pub enum PackPhase {
    /// Nothing has been asked for yet.
    Start,
    /// Whether the directory to pack exists.
    ProbingSource,
    /// Whether the marker lies in the `unpacked` directory below it.
    ProbingNestedMarker,
    /// Whether the marker lies in the directory itself.
    ProbingDirectMarker,
    /// The creation of the framework directory.
    PreparingFramework,
    /// The run of the resource tool.
    Building,
    /// Nothing: the pipeline has ended.
    Finished,
}

/// The directory the archive is built from.
#[derive(Clone, Copy, Debug, PartialEq, Eq, Structural)]
pub enum InputRoot {
    /// No marker has been found yet.
    Undecided,
    /// The `unpacked` directory below the directory to pack.
    Nested,
    /// The directory to pack itself.
    Direct,
}

/// The state of the pack pipeline between two moves.
#[derive(Clone, Copy, Debug, PartialEq, Eq, Structural)]
pub struct PackState {
    pub phase: PackPhase,
    pub input: InputRoot,
}

/// Everything a move of the pack pipeline depends on besides its state and
/// the driver's answer.
pub ghost struct PackPlan {
    /// The directory to pack.
    pub source: Seq<char>,
    /// The archive to build.
    pub output: Seq<char>,
    /// The Java runtime.
    pub java: Seq<char>,
    /// The root of the tool cache.
    pub cache: Seq<char>,
    /// The `aapt` binary for this platform.
    pub aapt: Seq<char>,
}

impl PackState {
    /// The state before the first move.
    pub open spec fn initial() -> PackState {
        PackState { phase: PackPhase::Start, input: InputRoot::Undecided }
    }

    /// Whether a state is one the pipeline can be in: the directory to
    /// build from is settled exactly from the moment the marker is found.
    pub open spec fn wf(self) -> bool {
        match self.phase {
            PackPhase::PreparingFramework | PackPhase::Building => self.input
                != InputRoot::Undecided,
            PackPhase::Finished => true,
            _ => self.input == InputRoot::Undecided,
        }
    }

    /// The state before the first move.
    pub fn start() -> (r: PackState)
        ensures
            r == PackState::initial(),
            r.wf(),
    {
        PackState { phase: PackPhase::Start, input: InputRoot::Undecided }
    }

    /// Whether the pipeline has ended.
    pub fn is_finished(&self) -> (r: bool)
        ensures
            r == (self.phase == PackPhase::Finished),
    {
        self.phase == PackPhase::Finished
    }
}

/// The state in `phase` that builds from `input`.
pub open spec fn at(phase: PackPhase, input: InputRoot) -> PackState {
    PackState { phase, input }
}

/// The state after the end.
pub open spec fn ended(state: PackState) -> PackState {
    at(PackPhase::Finished, state.input)
}

/// The line that announces the build.
pub open spec fn building_line(source: Seq<char>, output: Seq<char>) -> Seq<char> {
    "[+] Building APK from '"@ + source + "' to '"@ + output + "'\n"@
}

impl PackPlan {
    /// The `unpacked` directory below the directory to pack.
    pub open spec fn nested_root(self) -> Seq<char> {
        joined(self.source, UNPACKED_DIR_NAME@)
    }

    /// Where the marker lies if the archive is built from `nested_root`.
    pub open spec fn nested_marker(self) -> Seq<char> {
        joined(self.nested_root(), MARKER_FILE_NAME@)
    }

    /// Where the marker lies if the archive is built from the directory to
    /// pack itself.
    pub open spec fn direct_marker(self) -> Seq<char> {
        joined(self.source, MARKER_FILE_NAME@)
    }

    /// Where the resource tool keeps shared framework resources.
    pub open spec fn framework_dir(self) -> Seq<char> {
        joined(self.cache, FRAMEWORK_DIR_NAME@)
    }

    /// The directory the archive is built from.
    pub open spec fn input_root(self, input: InputRoot) -> Seq<char> {
        match input {
            InputRoot::Nested => self.nested_root(),
            _ => self.source,
        }
    }

    /// The command line that builds the archive.
    pub open spec fn build_command(self, input: InputRoot) -> CommandLine {
        CommandLine {
            program: self.java,
            args: apktool_arguments(
                jar_location(self.cache, APKTOOL_JAR_NAME@),
                self.framework_dir(),
                seq!["b"@, "-aapt"@, self.aapt, self.input_root(input), "-o"@, self.output],
            ),
        }
    }

    /// The move that asks for the framework directory once the marker is
    /// found in `input`.
    pub open spec fn prepare(self, input: InputRoot) -> Move<PackState> {
        go_on(
            at(PackPhase::PreparingFramework, input),
            Seq::<char>::empty(),
            ActionView::MakeDirs { path: self.framework_dir() },
        )
    }

    /// The move of the pipeline in `state` on the driver's answer `event`.
    ///
    /// The directory to pack has to exist, the archive to build has to end
    /// in `.apk`, and the marker has to lie in the `unpacked` directory
    /// below the directory to pack or, failing that, in the directory
    /// itself.  An answer that is not the one the pipeline is waiting for
    /// counts as a failure.
    pub open spec fn next(self, state: PackState, event: EventView) -> Move<PackState> {
        match (state.phase, event) {
            (PackPhase::Start, EventView::Begin) => go_on(
                at(PackPhase::ProbingSource, state.input),
                Seq::<char>::empty(),
                ActionView::Probe { path: self.source },
            ),
            (PackPhase::ProbingSource, EventView::Exists { present }) => if !present {
                fail(ended(state), Failure::SourceMissing { path: self.source })
            } else if extension_of(self.output) != Some(APK_EXTENSION@) {
                fail(ended(state), Failure::OutputNotAnApk)
            } else {
                go_on(
                    at(PackPhase::ProbingNestedMarker, state.input),
                    building_line(self.source, self.output),
                    ActionView::Probe { path: self.nested_marker() },
                )
            },
            (PackPhase::ProbingNestedMarker, EventView::Exists { present }) => if present {
                self.prepare(InputRoot::Nested)
            } else {
                go_on(
                    at(PackPhase::ProbingDirectMarker, state.input),
                    Seq::<char>::empty(),
                    ActionView::Probe { path: self.direct_marker() },
                )
            },
            (PackPhase::ProbingDirectMarker, EventView::Exists { present }) => if present {
                self.prepare(InputRoot::Direct)
            } else {
                fail(
                    ended(state),
                    Failure::MarkerMissing { direct: self.source, nested: self.nested_root() },
                )
            },
            (PackPhase::PreparingFramework, EventView::Done) => go_on(
                at(PackPhase::Building, state.input),
                Seq::<char>::empty(),
                ActionView::Run { command: self.build_command(state.input) },
            ),
            (PackPhase::PreparingFramework, EventView::Failed { reason }) => fail(
                ended(state),
                Failure::Io { step: FsStep::CreateFramework, reason },
            ),
            (PackPhase::Building, EventView::Ran { outcome }) => match verdict(
                Tool::Apktool,
                self.java,
                outcome,
            ) {
                Ok(echo) => complete(ended(state), echo),
                Err(failure) => fail(ended(state), failure),
            },
            _ => fail(ended(state), Failure::OutOfTurn),
        }
    }
}

/// The state the pipeline for `plan` is in after the driver has given the
/// answers `events`, one after the other, from the start.
pub open spec fn run(plan: PackPlan, events: Seq<EventView>) -> PackState
    decreases events.len(),
{
    if events.len() == 0 {
        PackState::initial()
    } else {
        plan.next(run(plan, events.drop_last()), events.last()).state
    }
}

/// Every move leaves the pipeline in a state it can be in, and the pipeline
/// has ended exactly when nothing more is asked for.
pub proof fn lemma_move_keeps_order(plan: PackPlan, state: PackState, event: EventView)
    requires
        state.wf(),
    ensures
        plan.next(state, event).state.wf(),
        plan.next(state, event).action is Finish <==> plan.next(state, event).state.phase
            == PackPhase::Finished,
{
}

/// Whatever answers the driver gives, the pipeline stays in a state it can
/// be in.
pub proof fn lemma_run_keeps_order(plan: PackPlan, events: Seq<EventView>)
    ensures
        run(plan, events).wf(),
    decreases events.len(),
{
    if events.len() > 0 {
        lemma_run_keeps_order(plan, events.drop_last());
        lemma_move_keeps_order(plan, run(plan, events.drop_last()), events.last());
    }
}

/// Everything is checked before the resource tool runs.  The tool is run
/// only after the framework directory was asked for, that only after the
/// marker was found, the marker is looked for only after the directory to
/// pack was found and the archive to build found to end in `.apk`; and the
/// `unpacked` directory is preferred whenever it holds the marker.
pub proof fn lemma_checks_come_first(plan: PackPlan, state: PackState, event: EventView)
    requires
        state.wf(),
    ensures
        ({
            let step = plan.next(state, event);
            &&& step.action is Run ==> state.phase == PackPhase::PreparingFramework && step.action
                == (ActionView::Run { command: plan.build_command(state.input) })
            &&& step.state.phase == PackPhase::PreparingFramework ==> event == (EventView::Exists {
                present: true,
            }) && ((state.phase == PackPhase::ProbingNestedMarker && step.state.input
                == InputRoot::Nested) || (state.phase == PackPhase::ProbingDirectMarker
                && step.state.input == InputRoot::Direct))
            &&& state.phase == PackPhase::ProbingNestedMarker && event == (EventView::Exists {
                present: true,
            }) ==> step.state.input == InputRoot::Nested
            &&& step.state.phase == PackPhase::ProbingDirectMarker ==> state.phase
                == PackPhase::ProbingNestedMarker && event == (EventView::Exists { present: false })
            &&& step.state.phase == PackPhase::ProbingNestedMarker ==> state.phase
                == PackPhase::ProbingSource && event == (EventView::Exists { present: true })
                && extension_of(plan.output) == Some(APK_EXTENSION@)
            &&& !(step.action is Probe || step.action is Finish) ==> state.phase
                == PackPhase::ProbingNestedMarker || state.phase == PackPhase::ProbingDirectMarker
                || state.phase == PackPhase::PreparingFramework
        }),
{
}

/// The pipeline succeeds only if the resource tool does: it ends without
/// an error exactly when the tool was run and exited with status zero.
pub proof fn lemma_all_or_nothing(plan: PackPlan, state: PackState, event: EventView)
    ensures
        plan.next(state, event).action matches ActionView::Finish { error } ==> (error is None
            <==> state.phase == PackPhase::Building && event is Ran && verdict(
            Tool::Apktool,
            plan.java,
            event->Ran_outcome,
        ) is Ok),
{
}

/// Ends the pipeline in failure.
fn halt(state: PackState, error: Error) -> (r: Step<PackState>)
    ensures
        r@ == fail(ended(state), error@),
{
    Step::fail(PackState { phase: PackPhase::Finished, input: state.input }, error)
}

/// Goes on in `phase` with `action`, saying `stdout` first.
fn proceed(phase: PackPhase, input: InputRoot, stdout: String, action: Action) -> (r: Step<
    PackState,
>)
    ensures
        r@ == go_on(at(phase, input), stdout@, action@),
{
    Step::go_on(PackState { phase, input }, stdout, action)
}

/// Packs a directory of decoded resources into an archive, one move at a
/// time.
#[derive(Clone, Debug, PartialEq, Eq)]
pub struct Builder {
    tool_manager: ToolManager,
    platform: Platform,
}

impl Builder {
    /// The tool manager that builds the command line.
    pub closed spec fn tools(&self) -> ToolManager {
        self.tool_manager
    }

    /// The platform the `aapt` binary is chosen for.
    pub closed spec fn platform(&self) -> Platform {
        self.platform
    }

    /// Where the `aapt` binary for the platform lies in the tool cache.
    pub open spec fn aapt_location(&self) -> Seq<char> {
        joined(
            self.tools().cache_root(),
            resolved(self.platform().os@, self.platform().arch@).location(),
        )
    }

    /// What the moves that pack `unpacked_dir` into `output_apk` depend on.
    pub open spec fn plan(&self, unpacked_dir: Seq<char>, output_apk: Seq<char>) -> PackPlan {
        PackPlan {
            source: unpacked_dir,
            output: output_apk,
            java: self.tools().java(),
            cache: self.tools().cache_root(),
            aapt: self.aapt_location(),
        }
    }

    /// A builder for a run on `platform` configured by `config`, with its
    /// tools in the cache of `asset_manager`.
    pub fn new(config: Config, asset_manager: AssetManager, platform: Platform) -> (r: Builder)
        ensures
            r.tools().config() == config,
            r.tools().assets() == asset_manager,
            r.platform() == platform,
    {
        Builder { tool_manager: ToolManager::new(config, asset_manager), platform }
    }

    /// Where the `aapt` binary for the platform lies in the tool cache.
    pub fn get_aapt_path(&self) -> (r: String)
        ensures
            r@ == self.aapt_location(),
    {
        let binary = resolve(self.platform.os.as_str(), self.platform.arch.as_str());
        self.tool_manager.asset_manager().get_script_path(binary.relative_path())
    }

    /// The first move of the pipeline that packs `unpacked_dir` into
    /// `output_apk`.
    pub fn pack(&self, unpacked_dir: &str, output_apk: &str) -> (r: Step<PackState>)
        ensures
            r@ == self.plan(unpacked_dir@, output_apk@).next(PackState::initial(), EventView::Begin),
            r.state.wf(),
    {
        self.advance(unpacked_dir, output_apk, PackState::start(), Event::Begin)
    }

    /// The move of the pipeline that follows the driver's answer `event` to
    /// the action of the move before, which left the pipeline in `state`.
    pub fn advance(
        &self,
        unpacked_dir: &str,
        output_apk: &str,
        state: PackState,
        event: Event,
    ) -> (r: Step<PackState>)
        ensures
            r@ == self.plan(unpacked_dir@, output_apk@).next(state, event@),
            state.wf() ==> r.state.wf(),
    {
        let ghost plan = self.plan(unpacked_dir@, output_apk@);
        match (state.phase, event) {
            (PackPhase::Start, Event::Begin) => proceed(
                PackPhase::ProbingSource,
                state.input,
                String::new(),
                Action::Probe { path: unpacked_dir.to_owned() },
            ),
            (PackPhase::ProbingSource, Event::Exists { present }) => {
                if !present {
                    halt(state, Error::SourceMissing { path: unpacked_dir.to_owned() })
                } else if !has_extension(output_apk, APK_EXTENSION) {
                    halt(state, Error::OutputNotAnApk)
                } else {
                    let mut line = "[+] Building APK from '".to_owned();
                    line.append(unpacked_dir);
                    line.append("' to '");
                    line.append(output_apk);
                    line.append("'\n");
                    let nested = join(unpacked_dir, UNPACKED_DIR_NAME);
                    proceed(
                        PackPhase::ProbingNestedMarker,
                        state.input,
                        line,
                        Action::Probe { path: join(nested.as_str(), MARKER_FILE_NAME) },
                    )
                }
            },
            (PackPhase::ProbingNestedMarker, Event::Exists { present }) => {
                if present {
                    self.prepare(unpacked_dir, output_apk, InputRoot::Nested)
                } else {
                    proceed(
                        PackPhase::ProbingDirectMarker,
                        state.input,
                        String::new(),
                        Action::Probe { path: join(unpacked_dir, MARKER_FILE_NAME) },
                    )
                }
            },
            (PackPhase::ProbingDirectMarker, Event::Exists { present }) => {
                if present {
                    self.prepare(unpacked_dir, output_apk, InputRoot::Direct)
                } else {
                    halt(
                        state,
                        Error::MarkerMissing {
                            direct: unpacked_dir.to_owned(),
                            nested: join(unpacked_dir, UNPACKED_DIR_NAME),
                        },
                    )
                }
            },
            (PackPhase::PreparingFramework, Event::Done) => proceed(
                PackPhase::Building,
                state.input,
                String::new(),
                Action::Run { command: self.build_invocation(unpacked_dir, output_apk, state.input) },
            ),
            (PackPhase::PreparingFramework, Event::Failed { reason }) => halt(
                state,
                Error::Io { step: FsStep::CreateFramework, reason },
            ),
            (PackPhase::Building, Event::Ran { outcome }) => {
                match conclude(Tool::Apktool, self.tool_manager.java_path(), outcome) {
                    Ok(echo) => Step::complete(
                        PackState { phase: PackPhase::Finished, input: state.input },
                        echo,
                    ),
                    Err(error) => halt(state, error),
                }
            },
            _ => halt(state, Error::OutOfTurn),
        }
    }

    /// The move that asks for the framework directory once the marker is
    /// found in `input`.
    fn prepare(&self, unpacked_dir: &str, output_apk: &str, input: InputRoot) -> (r: Step<
        PackState,
    >)
        ensures
            r@ == self.plan(unpacked_dir@, output_apk@).prepare(input),
    {
        proceed(
            PackPhase::PreparingFramework,
            input,
            String::new(),
            Action::MakeDirs { path: self.tool_manager.framework_path() },
        )
    }

    /// The command line that builds the archive from the directory settled
    /// on.
    fn build_invocation(&self, unpacked_dir: &str, output_apk: &str, input: InputRoot) -> (r:
        Invocation)
        ensures
            r@ == self.plan(unpacked_dir@, output_apk@).build_command(input),
    {
        let from = match input {
            InputRoot::Nested => join(unpacked_dir, UNPACKED_DIR_NAME),
            _ => unpacked_dir.to_owned(),
        };
        let mut args: Vec<String> = Vec::new();
        args.push("b".to_owned());
        args.push("-aapt".to_owned());
        args.push(self.get_aapt_path());
        args.push(from);
        args.push("-o".to_owned());
        args.push(output_apk.to_owned());
        assert(texts(args@) =~= seq![
            "b"@,
            "-aapt"@,
            self.aapt_location(),
            self.plan(unpacked_dir@, output_apk@).input_root(input),
            "-o"@,
            output_apk@,
        ]);
        self.tool_manager.apktool_invocation(&args)
    }
}

} // verus!
