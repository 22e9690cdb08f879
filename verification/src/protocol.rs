//! The two-phase execution protocol as a step-by-step state machine.
//!
//! [`crate::Cmd::build`] consumes a builder and yields an
//! [`Invocation`]. The machine names, through [`Invocation::action`],
//! the one outside effect it needs next — a tool lookup, a file read, a
//! directory creation, a path canonicalization, or a subprocess run —
//! and [`Invocation::step`] consumes the effect's outcome and moves the
//! protocol forward. All decisions stand here and are verified; a thin
//! driver performs the effects and reports them back, and the protocol
//! cannot diverge between drivers, see [`lemma_step_deterministic`].
//!
//! The order of the protocol is fixed: tool check, preset resolution
//! (which fails before any directory is touched), directory
//! preparation, output-path canonicalization, the configure phase, and
//! the build phase only after the configure phase exited with status
//! zero. Any failure is terminal for the invocation.

use vstd::prelude::*;
use vstd::pervasive::unreached;
use vstd::string::StringExecFns;
use crate::cmake::CMakePresets;
use crate::cmake::catalog_view;
use crate::cmake::entries_of;
use crate::cmake::lemma_lookup_found_matches;
use crate::cmake::lookup;
use crate::cmake::parsed_presets;
use crate::cmd::Cmd;
use crate::cmd::CmdView;
use crate::cmd::Definition;
use crate::cmd::DefineView;
use crate::cmd::build_args;
use crate::cmd::build_args_spec;
use crate::cmd::configure_args;
use crate::cmd::configure_args_spec;
use crate::cmd::make_preset_flag;
use crate::cmd::normalize_path;
use crate::cmd::normalized;
use crate::cmd::preset_file_path;
use crate::cmd::preset_file_path_spec;
use crate::cmd::preset_flag_spec;
use crate::cmd::views_of;

verus! {

/// Why an invocation failed. Every failure is terminal; a fresh builder
/// is needed to retry.
#[derive(Debug, PartialEq, Eq)]
pub enum BuildError {
    /// The external build tool is not resolvable on the search path.
    ToolNotFound,
    /// The preset file cannot be read or does not parse into the
    /// expected shape.
    ConfigError,
    /// The requested preset is absent from the catalog, or hidden.
    PresetNotFound(String),
    /// Directory creation or path canonicalization failed.
    IoError,
    /// The configure phase exited with the given non-zero status; the
    /// build phase was never attempted.
    ConfigureFailed(i32),
    /// The build phase exited with the given non-zero status.
    BuildFailed(i32),
}

/// The mathematical model of a failure.
pub enum ErrorView {
    ToolNotFound,
    ConfigError,
    PresetNotFound(Seq<char>),
    IoError,
    ConfigureFailed(i32),
    BuildFailed(i32),
}

impl View for BuildError {
    type V = ErrorView;

    open spec fn view(&self) -> ErrorView {
        match self {
            BuildError::ToolNotFound => ErrorView::ToolNotFound,
            BuildError::ConfigError => ErrorView::ConfigError,
            BuildError::PresetNotFound(name) => ErrorView::PresetNotFound(name@),
            BuildError::IoError => ErrorView::IoError,
            BuildError::ConfigureFailed(status) => ErrorView::ConfigureFailed(*status),
            BuildError::BuildFailed(status) => ErrorView::BuildFailed(*status),
        }
    }
}

/// The model of an invocation's result.
pub open spec fn result_view(r: &Result<(), BuildError>) -> Result<(), ErrorView> {
    match r {
        Ok(()) => Ok(()),
        Err(e) => Err(e@),
    }
}

/// The one outside effect the machine asks its driver to perform next.
#[derive(Debug, PartialEq, Eq)]
pub enum Action {
    /// Resolve the named executable on the search path.
    CheckTool(String),
    /// Read the named preset file as text.
    ReadPresetFile(String),
    /// Create the named directory and its missing parents.
    CreateDir(String),
    /// Canonicalize the named directory to an absolute path.
    Canonicalize(String),
    /// Run the tool's configure phase with these arguments.
    RunConfigure(Vec<String>),
    /// Run the tool's build phase with these arguments.
    RunBuild(Vec<String>),
    /// The protocol is over with this result; nothing more to perform.
    Finished(Result<(), BuildError>),
}

/// The mathematical model of an action.
pub enum ActionView {
    CheckTool(Seq<char>),
    ReadPresetFile(Seq<char>),
    CreateDir(Seq<char>),
    Canonicalize(Seq<char>),
    RunConfigure(Seq<Seq<char>>),
    RunBuild(Seq<Seq<char>>),
    Finished(Result<(), ErrorView>),
}

impl View for Action {
    type V = ActionView;

    open spec fn view(&self) -> ActionView {
        match self {
            Action::CheckTool(name) => ActionView::CheckTool(name@),
            Action::ReadPresetFile(path) => ActionView::ReadPresetFile(path@),
            Action::CreateDir(path) => ActionView::CreateDir(path@),
            Action::Canonicalize(path) => ActionView::Canonicalize(path@),
            Action::RunConfigure(args) => ActionView::RunConfigure(views_of(args@)),
            Action::RunBuild(args) => ActionView::RunBuild(views_of(args@)),
            Action::Finished(r) => ActionView::Finished(result_view(r)),
        }
    }
}

/// The driver's report of one performed effect.
#[derive(Debug, PartialEq, Eq)]
pub enum Event {
    /// Whether the tool was resolvable on the search path.
    Tool(bool),
    /// The preset file's text, or `None` when it could not be read.
    FileRead(Option<String>),
    /// Whether the directory now exists.
    DirMade(bool),
    /// The canonicalized path, or `None` when canonicalization failed.
    Canonical(Option<String>),
    /// The phase's exit status; `None` when the subprocess could not be
    /// run or ended without a status.
    Exited(Option<i32>),
}

/// The mathematical model of an event.
pub enum EventView {
    Tool(bool),
    FileRead(Option<Seq<char>>),
    DirMade(bool),
    Canonical(Option<Seq<char>>),
    Exited(Option<i32>),
}

impl View for Event {
    type V = EventView;

    open spec fn view(&self) -> EventView {
        match self {
            Event::Tool(ok) => EventView::Tool(*ok),
            Event::FileRead(content) => EventView::FileRead(
                match content {
                    Some(text) => Some(text@),
                    None => None,
                },
            ),
            Event::DirMade(ok) => EventView::DirMade(*ok),
            Event::Canonical(path) => EventView::Canonical(
                match path {
                    Some(p) => Some(p@),
                    None => None,
                },
            ),
            Event::Exited(status) => EventView::Exited(*status),
        }
    }
}

/// Where the protocol stands.
pub(crate) enum Phase {
    ToolCheck,
    PresetFile,
    BinaryDir,
    OutputDir,
    CanonicalOutput,
    Configure { out_dir: String },
    Build,
    Done { result: Result<(), BuildError> },
}

/// The mathematical model of a protocol position.
pub enum PhaseView {
    ToolCheck,
    PresetFile,
    BinaryDir,
    OutputDir,
    CanonicalOutput,
    Configure(Seq<char>),
    Build,
    Done(Result<(), ErrorView>),
}

/// The mathematical model of a running invocation.
#[verifier::ext_equal]
pub struct InvocationView {
    pub source: Seq<char>,
    pub binary: Seq<char>,
    pub output: Seq<char>,
    pub extra: Seq<Seq<char>>,
    pub defines: Seq<DefineView>,
    pub preset: Option<Seq<char>>,
    pub preset_flag: Option<Seq<char>>,
    pub phase: PhaseView,
}

/// One configure-and-build invocation in flight: the consumed builder's
/// state plus the protocol position. Drive it by performing the
/// [`Invocation::action`] and reporting the outcome to
/// [`Invocation::step`] until the action is [`Action::Finished`].
pub struct Invocation {
    source: String,
    binary: String,
    output: String,
    extra: Vec<String>,
    defines: Vec<Definition>,
    preset: Option<String>,
    preset_flag: Option<String>,
    phase: Phase,
}

impl View for Invocation {
    type V = InvocationView;

    closed spec fn view(&self) -> InvocationView {
        InvocationView {
            source: self.source@,
            binary: self.binary@,
            output: self.output@,
            extra: views_of(self.extra@),
            defines: self.defines@.map(|i: int, d: Definition| d@),
            preset: match self.preset {
                Some(ref p) => Some(p@),
                None => None,
            },
            preset_flag: match self.preset_flag {
                Some(ref p) => Some(p@),
                None => None,
            },
            phase: match self.phase {
                Phase::ToolCheck => PhaseView::ToolCheck,
                Phase::PresetFile => PhaseView::PresetFile,
                Phase::BinaryDir => PhaseView::BinaryDir,
                Phase::OutputDir => PhaseView::OutputDir,
                Phase::CanonicalOutput => PhaseView::CanonicalOutput,
                Phase::Configure { ref out_dir } => PhaseView::Configure(out_dir@),
                Phase::Build => PhaseView::Build,
                Phase::Done { ref result } => PhaseView::Done(result_view(result)),
            },
        }
    }
}

/// The source directory an invocation resolves to: the builder's, or
/// the current directory when none was set.
pub open spec fn source_of(c: CmdView) -> Seq<char> {
    match c.path {
        Some(p) => p,
        None => "."@,
    }
}

/// The machine a builder starts as: its accumulated state, no resolved
/// preset flag yet, at the tool check.
pub open spec fn start_spec(c: CmdView) -> InvocationView {
    InvocationView {
        source: source_of(c),
        binary: c.binary_path,
        output: c.output_path,
        extra: c.args,
        defines: c.defines,
        preset: c.preset,
        preset_flag: None,
        phase: PhaseView::ToolCheck,
    }
}

impl Cmd {
    /// Consumes the builder and begins the invocation protocol. The
    /// builder cannot be used again; drive the returned machine to its
    /// result.
    pub fn build(self) -> (inv: Invocation)
        ensures
            inv@ == start_spec(self@),
    {
        let (args, path, binary_path, output_path, preset, defines) = self.into_parts();
        let source = match path {
            Some(p) => p,
            None => String::from_str("."),
        };
        let inv = Invocation {
            source,
            binary: binary_path,
            output: output_path,
            extra: args,
            defines,
            preset,
            preset_flag: None,
            phase: Phase::ToolCheck,
        };
        proof {
            assert(inv@ =~= start_spec(self@));
        }
        inv
    }
}

/// The machine `inv` with its position moved to the terminal state
/// carrying `r`.
pub open spec fn done_with(inv: InvocationView, r: Result<(), ErrorView>) -> InvocationView {
    InvocationView { phase: PhaseView::Done(r), ..inv }
}

/// Which report a position accepts; the terminal position accepts
/// none.
pub open spec fn expects(phase: PhaseView, ev: EventView) -> bool {
    match (phase, ev) {
        (PhaseView::ToolCheck, EventView::Tool(_)) => true,
        (PhaseView::PresetFile, EventView::FileRead(_)) => true,
        (PhaseView::BinaryDir, EventView::DirMade(_)) => true,
        (PhaseView::OutputDir, EventView::DirMade(_)) => true,
        (PhaseView::CanonicalOutput, EventView::Canonical(_)) => true,
        (PhaseView::Configure(_), EventView::Exited(_)) => true,
        (PhaseView::Build, EventView::Exited(_)) => true,
        _ => false,
    }
}

/// Where preset resolution moves the machine on a readable file: a
/// config error when the text does not declare presets; "preset not
/// found" when the declared catalog answers the lookup with nothing
/// visible under the name; otherwise the resolved preset's flag is
/// recorded and the protocol goes on to the directories.
pub open spec fn resolution_spec(pre: InvocationView, text: Seq<char>) -> InvocationView {
    match pre.preset {
        None => done_with(pre, Err(ErrorView::ConfigError)),
        Some(name) => match parsed_presets(text) {
            None => done_with(pre, Err(ErrorView::ConfigError)),
            Some(entries) => match lookup(catalog_view(entries), name) {
                None => done_with(pre, Err(ErrorView::PresetNotFound(name))),
                Some(found) => InvocationView {
                    preset_flag: Some(preset_flag_spec(found.name)),
                    phase: PhaseView::BinaryDir,
                    ..pre
                },
            },
        },
    }
}

/// The transition function: where each position moves the machine for
/// each reported outcome.
pub open spec fn step_spec(pre: InvocationView, ev: EventView) -> InvocationView {
    match (pre.phase, ev) {
        (PhaseView::ToolCheck, EventView::Tool(ok)) => if !ok {
            done_with(pre, Err(ErrorView::ToolNotFound))
        } else if pre.preset is Some {
            InvocationView { phase: PhaseView::PresetFile, ..pre }
        } else {
            InvocationView { phase: PhaseView::BinaryDir, ..pre }
        },
        (PhaseView::PresetFile, EventView::FileRead(content)) => match content {
            None => done_with(pre, Err(ErrorView::ConfigError)),
            Some(text) => resolution_spec(pre, text),
        },
        (PhaseView::BinaryDir, EventView::DirMade(ok)) => if ok {
            InvocationView { phase: PhaseView::OutputDir, ..pre }
        } else {
            done_with(pre, Err(ErrorView::IoError))
        },
        (PhaseView::OutputDir, EventView::DirMade(ok)) => if ok {
            InvocationView { phase: PhaseView::CanonicalOutput, ..pre }
        } else {
            done_with(pre, Err(ErrorView::IoError))
        },
        (PhaseView::CanonicalOutput, EventView::Canonical(path)) => match path {
            None => done_with(pre, Err(ErrorView::IoError)),
            Some(p) => InvocationView { phase: PhaseView::Configure(normalized(p)), ..pre },
        },
        (PhaseView::Configure(_), EventView::Exited(status)) => match status {
            None => done_with(pre, Err(ErrorView::IoError)),
            Some(code) => if code == 0 {
                InvocationView { phase: PhaseView::Build, ..pre }
            } else {
                done_with(pre, Err(ErrorView::ConfigureFailed(code)))
            },
        },
        (PhaseView::Build, EventView::Exited(status)) => match status {
            None => done_with(pre, Err(ErrorView::IoError)),
            Some(code) => if code == 0 {
                done_with(pre, Ok(()))
            } else {
                done_with(pre, Err(ErrorView::BuildFailed(code)))
            },
        },
        _ => pre,
    }
}

/// One whole run: the machine after a sequence of reported outcomes.
pub open spec fn run_spec(inv: InvocationView, events: Seq<EventView>) -> InvocationView
    decreases events.len(),
{
    if events.len() == 0 {
        inv
    } else {
        run_spec(step_spec(inv, events[0]), events.skip(1))
    }
}

/// The effect a position asks its driver for.
pub open spec fn action_spec(inv: InvocationView) -> ActionView {
    match inv.phase {
        PhaseView::ToolCheck => ActionView::CheckTool("cmake"@),
        PhaseView::PresetFile => ActionView::ReadPresetFile(preset_file_path_spec(inv.source)),
        PhaseView::BinaryDir => ActionView::CreateDir(inv.binary),
        PhaseView::OutputDir => ActionView::CreateDir(inv.output),
        PhaseView::CanonicalOutput => ActionView::Canonicalize(inv.output),
        PhaseView::Configure(out_dir) => ActionView::RunConfigure(
            configure_args_spec(
                inv.source,
                inv.binary,
                inv.preset_flag,
                inv.defines,
                out_dir,
                inv.extra,
            ),
        ),
        PhaseView::Build => ActionView::RunBuild(build_args_spec(inv.binary, inv.extra)),
        PhaseView::Done(r) => ActionView::Finished(r),
    }
}

impl Invocation {
    /// Whether the protocol has reached its terminal position.
    pub fn is_done(&self) -> (r: bool)
        ensures
            r == (self@.phase is Done),
    {
        match self.phase {
            Phase::Done { .. } => true,
            _ => false,
        }
    }

    /// The one effect to perform next. For the terminal position this
    /// is [`Action::Finished`] with the invocation's result.
    pub fn action(&self) -> (a: Action)
        ensures
            a@ == action_spec(self@),
    {
        match &self.phase {
            Phase::ToolCheck => Action::CheckTool(String::from_str("cmake")),
            Phase::PresetFile => Action::ReadPresetFile(preset_file_path(self.source.as_str())),
            Phase::BinaryDir => Action::CreateDir(self.binary.clone()),
            Phase::OutputDir => Action::CreateDir(self.output.clone()),
            Phase::CanonicalOutput => Action::Canonicalize(self.output.clone()),
            Phase::Configure { out_dir } => Action::RunConfigure(
                configure_args(
                    self.source.as_str(),
                    self.binary.as_str(),
                    &self.preset_flag,
                    &self.defines,
                    out_dir.as_str(),
                    &self.extra,
                ),
            ),
            Phase::Build => Action::RunBuild(build_args(self.binary.as_str(), &self.extra)),
            Phase::Done { result } => {
                let r: Result<(), BuildError> = match result {
                    Ok(()) => Ok(()),
                    Err(BuildError::ToolNotFound) => Err(BuildError::ToolNotFound),
                    Err(BuildError::ConfigError) => Err(BuildError::ConfigError),
                    Err(BuildError::PresetNotFound(name)) => Err(
                        BuildError::PresetNotFound(name.clone()),
                    ),
                    Err(BuildError::IoError) => Err(BuildError::IoError),
                    Err(BuildError::ConfigureFailed(status)) => Err(
                        BuildError::ConfigureFailed(*status),
                    ),
                    Err(BuildError::BuildFailed(status)) => Err(BuildError::BuildFailed(*status)),
                };
                Action::Finished(r)
            },
        }
    }

    /// Consumes the outcome of the performed effect and moves the
    /// protocol one step forward, exactly as [`step_spec`] says.
    pub fn step(self, ev: Event) -> (next: Self)
        requires
            expects(self@.phase, ev@),
        ensures
            next@ == step_spec(self@, ev@),
    {
        let Invocation { source, binary, output, extra, defines, preset, preset_flag, phase } =
            self;
        match (phase, ev) {
            (Phase::ToolCheck, Event::Tool(ok)) => {
                let phase = if !ok {
                    Phase::Done { result: Err(BuildError::ToolNotFound) }
                } else if preset.is_some() {
                    Phase::PresetFile
                } else {
                    Phase::BinaryDir
                };
                Invocation { source, binary, output, extra, defines, preset, preset_flag, phase }
            },
            (Phase::PresetFile, Event::FileRead(content)) => {
                let phase = match content {
                    None => Phase::Done { result: Err(BuildError::ConfigError) },
                    Some(text) => match &preset {
                        None => Phase::Done { result: Err(BuildError::ConfigError) },
                        Some(name) => match CMakePresets::from_json(text.as_str()) {
                            None => Phase::Done { result: Err(BuildError::ConfigError) },
                            Some(catalog) => {
                                proof {
                                    assert(catalog_view(entries_of(catalog@)) =~= catalog@);
                                }
                                match catalog.get_preset(name.as_str()) {
                                    None => Phase::Done {
                                        result: Err(BuildError::PresetNotFound(name.clone())),
                                    },
                                    Some(found) => {
                                        proof {
                                            lemma_lookup_found_matches(catalog@, name@);
                                        }
                                        let flag = make_preset_flag(found.get_name());
                                        return Invocation {
                                            source,
                                            binary,
                                            output,
                                            extra,
                                            defines,
                                            preset,
                                            preset_flag: Some(flag),
                                            phase: Phase::BinaryDir,
                                        };
                                    },
                                }
                            },
                        },
                    },
                };
                Invocation { source, binary, output, extra, defines, preset, preset_flag, phase }
            },
            (Phase::BinaryDir, Event::DirMade(ok)) => {
                let phase = if ok {
                    Phase::OutputDir
                } else {
                    Phase::Done { result: Err(BuildError::IoError) }
                };
                Invocation { source, binary, output, extra, defines, preset, preset_flag, phase }
            },
            (Phase::OutputDir, Event::DirMade(ok)) => {
                let phase = if ok {
                    Phase::CanonicalOutput
                } else {
                    Phase::Done { result: Err(BuildError::IoError) }
                };
                Invocation { source, binary, output, extra, defines, preset, preset_flag, phase }
            },
            (Phase::CanonicalOutput, Event::Canonical(path)) => {
                let phase = match path {
                    None => Phase::Done { result: Err(BuildError::IoError) },
                    Some(p) => Phase::Configure { out_dir: normalize_path(p.as_str()) },
                };
                Invocation { source, binary, output, extra, defines, preset, preset_flag, phase }
            },
            (Phase::Configure { out_dir: _ }, Event::Exited(status)) => {
                let phase = match status {
                    None => Phase::Done { result: Err(BuildError::IoError) },
                    Some(code) => if code == 0 {
                        Phase::Build
                    } else {
                        Phase::Done { result: Err(BuildError::ConfigureFailed(code)) }
                    },
                };
                Invocation { source, binary, output, extra, defines, preset, preset_flag, phase }
            },
            (Phase::Build, Event::Exited(status)) => {
                let phase = match status {
                    None => Phase::Done { result: Err(BuildError::IoError) },
                    Some(code) => if code == 0 {
                        Phase::Done { result: Ok(()) }
                    } else {
                        Phase::Done { result: Err(BuildError::BuildFailed(code)) }
                    },
                };
                Invocation { source, binary, output, extra, defines, preset, preset_flag, phase }
            },
            _ => unreached(),
        }
    }
}

/// Law: a step of the protocol is a function of the machine and the
/// reported outcome alone, so two drivers — the blocking one and the
/// background one — fed the same outcomes move the machine identically
/// and cannot diverge by mode.
pub proof fn lemma_step_deterministic(
    pre: InvocationView,
    ev: EventView,
    post1: InvocationView,
    post2: InvocationView,
)
    requires
        post1 == step_spec(pre, ev),
        post2 == step_spec(pre, ev),
    ensures
        post1 == post2,
{
}

/// Law: whole runs cannot diverge by mode either: two invocations of
/// the same builder, driven through the same sequence of reported
/// outcomes, end as the same machine with the same result.
pub proof fn lemma_modes_agree(
    c: CmdView,
    events: Seq<EventView>,
    end1: InvocationView,
    end2: InvocationView,
)
    requires
        end1 == run_spec(start_spec(c), events),
        end2 == run_spec(start_spec(c), events),
    ensures
        end1 == end2,
{
}

/// Law: a failing configure phase is fatal and skips the build phase:
/// the machine moves straight to the terminal position carrying the
/// configure failure, and the action it asks for next is never the
/// build-phase run.
pub proof fn lemma_configure_failure_skips_build(pre: InvocationView, code: i32)
    requires
        pre.phase matches PhaseView::Configure(_),
        code != 0,
    ensures
        step_spec(pre, EventView::Exited(Some(code))).phase == PhaseView::Done(
            Err::<(), ErrorView>(ErrorView::ConfigureFailed(code)),
        ),
        !(action_spec(step_spec(pre, EventView::Exited(Some(code)))) matches ActionView::RunBuild(
            _,
        )),
{
}

/// Law: the build phase is reached only from a configure phase that
/// exited with status zero; no other position and no other outcome can
/// move the machine there.
pub proof fn lemma_build_only_after_configure_success(
    pre: InvocationView,
    ev: EventView,
    post: InvocationView,
)
    requires
        post == step_spec(pre, ev),
        post.phase is Build,
        !(pre.phase is Build),
    ensures
        pre.phase matches PhaseView::Configure(_),
        ev == EventView::Exited(Some(0i32)),
{
}

/// Law: the terminal position is absorbing: it accepts no further
/// outcome, so a finished invocation performs no further effect — in
/// particular, a preset-resolution failure stops the protocol before
/// any directory is touched.
pub proof fn lemma_done_is_terminal(pre: InvocationView, ev: EventView)
    requires
        pre.phase is Done,
    ensures
        !expects(pre.phase, ev),
{
}

/// Law: a requested preset that the declared catalog does not answer
/// — absent, or only hidden — fails the invocation as "preset not
/// found", and the action after that failure is never a directory
/// creation: no directory is touched.
pub proof fn lemma_missing_preset_is_fatal(pre: InvocationView, text: Seq<char>, name: Seq<char>)
    requires
        pre.phase is PresetFile,
        pre.preset == Some(name),
        (match crate::cmake::parsed_presets(text) {
            Some(entries) => lookup(catalog_view(entries), name) is None,
            None => false,
        }),
    ensures
        step_spec(pre, EventView::FileRead(Some(text))) == done_with(
            pre,
            Err(ErrorView::PresetNotFound(name)),
        ),
        !(action_spec(step_spec(pre, EventView::FileRead(Some(text))))
            matches ActionView::CreateDir(_)),
{
}

/// Law: a preset file whose text does not declare presets — not valid
/// JSON, or not of the declared shape — fails the invocation as a
/// configuration error, before any directory is touched.
pub proof fn lemma_malformed_preset_file_is_fatal(pre: InvocationView, text: Seq<char>)
    requires
        pre.phase is PresetFile,
        crate::cmake::parsed_presets(text) is None,
    ensures
        step_spec(pre, EventView::FileRead(Some(text))) == done_with(
            pre,
            Err(ErrorView::ConfigError),
        ),
{
}

} // verus!
