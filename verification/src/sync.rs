//! The decisions of the check-and-upgrade workflow.
//!
//! The caller runs one command of the toolchain manager at a time and hands
//! back what became of it. The workflow starts with a status query
//! (`status_args`), whose outcome goes to `upgrade_toolchain_if_outdated`.
//! That either ends the workflow or names the `Stage` that follows; from
//! then on the caller runs the stage's command (`command_args`) and hands
//! the outcome to `upgrade_toolchain`, until that ends the workflow.
//!
//! Every field is read from a status query of its own: no report is kept
//! from one stage to the next. A command that exits with a failure ends the
//! workflow with what it wrote to its standard error, unchanged; which step
//! it was is told apart by `failure_notice`, for the caller to show.

use crate::report::{
    default_host, default_toolchain, find_override_line, get_default_host,
    get_default_toolchain, matching_line, named_override, option_view, override_marker,
    read_override_line, result_view,
};
use crate::text::{contains, str_contains};
use vstd::prelude::*;
use vstd::string::*;

verus! {

/// What became of one command.
#[derive(Debug, PartialEq, Eq)]
pub enum Outcome {
    /// The command could not be started.
    NotRun,
    /// The command ran and ended.
    Exited {
        /// Whether it reported success by its exit status.
        success: bool,
        /// What it wrote to its standard output.
        stdout: Vec<u8>,
        /// What it wrote to its standard error.
        stderr: Vec<u8>,
    },
}

/// An `Outcome` as plain sequences.
pub enum OutcomeView {
    NotRun,
    Exited { success: bool, stdout: Seq<u8>, stderr: Seq<u8> },
}

impl View for Outcome {
    type V = OutcomeView;

    open spec fn view(&self) -> OutcomeView {
        match *self {
            Outcome::NotRun => OutcomeView::NotRun,
            Outcome::Exited { success, stdout, stderr } => OutcomeView::Exited {
                success,
                stdout: stdout@,
                stderr: stderr@,
            },
        }
    }
}

/// A stage of the workflow after its first status query: the command that
/// is to run next.
#[derive(Debug, PartialEq, Eq)]
pub enum Stage {
    /// Query the status once more, for the default toolchain: no directory
    /// override is set.
    ReadDefault,
    /// Query the status once more, for the default host: the upgrade begins.
    ReadHost,
    /// Install `toolchain`.
    Install { toolchain: String },
    /// Add the WebAssembly target; `toolchain` is kept for the override.
    AddTarget { toolchain: String },
    /// Set the directory override to `toolchain`.
    SetOverride { toolchain: String },
}

/// A `Stage` as plain sequences.
pub enum StageView {
    ReadDefault,
    ReadHost,
    Install { toolchain: Seq<char> },
    AddTarget { toolchain: Seq<char> },
    SetOverride { toolchain: Seq<char> },
}

impl View for Stage {
    type V = StageView;

    open spec fn view(&self) -> StageView {
        match *self {
            Stage::ReadDefault => StageView::ReadDefault,
            Stage::ReadHost => StageView::ReadHost,
            Stage::Install { toolchain } => StageView::Install { toolchain: toolchain@ },
            Stage::AddTarget { toolchain } => StageView::AddTarget { toolchain: toolchain@ },
            Stage::SetOverride { toolchain } => StageView::SetOverride { toolchain: toolchain@ },
        }
    }
}

/// What the workflow asks for after an outcome.
#[derive(Debug, PartialEq, Eq)]
pub enum Progress {
    /// Run the command of this stage and come back with its outcome.
    Run(Stage),
    /// The workflow has ended, with success or with a message.
    Done(Result<(), String>),
}

/// A `Progress` as plain sequences.
pub enum ProgressView {
    Run(StageView),
    Done(Result<(), Seq<char>>),
}

impl View for Progress {
    type V = ProgressView;

    open spec fn view(&self) -> ProgressView {
        match *self {
            Progress::Run(stage) => ProgressView::Run(stage@),
            Progress::Done(result) => ProgressView::Done(status_view(result)),
        }
    }
}

/// What the result of a step or of the workflow holds, its message as a
/// sequence of characters.
pub open spec fn status_view(result: Result<(), String>) -> Result<(), Seq<char>> {
    match result {
        Ok(()) => Ok(()),
        Err(message) => Err(message@),
    }
}

/// The text that lossy UTF-8 decoding makes of `bytes`: valid sequences
/// decoded, each invalid one replaced by U+FFFD.
pub uninterp spec fn lossy_utf8(bytes: Seq<u8>) -> Seq<char>;

/// Decodes with `String::from_utf8_lossy` of the standard library, which
/// accepts every sequence of bytes. The decoding itself is not proved here:
/// the contract only names its result, `lossy_utf8` of the bytes, which is
/// to say that the text depends on the bytes alone.
#[verifier::external_body]
fn decode_lossy(bytes: &Vec<u8>) -> (text: String)
    ensures
        text@ == lossy_utf8(bytes@),
{
    String::from_utf8_lossy(bytes).into_owned()
}

/// The error for a command that could not be started.
pub open spec fn not_run_message() -> Seq<char> {
    "Could not run rustup command"@
}

/// The notice for a failed installation.
pub open spec fn install_failed_message() -> Seq<char> {
    "problem installing toolchain"@
}

/// The notice for a failed target addition.
pub open spec fn target_failed_message() -> Seq<char> {
    "Failed to add wasm target"@
}

/// The notice for a failed override.
pub open spec fn override_failed_message() -> Seq<char> {
    "Failed to set override"@
}

/// The secondary compilation target.
pub open spec fn wasm_target() -> Seq<char> {
    "wasm32-unknown-unknown"@
}

/// The complete name of a toolchain: the pinned name, a hyphen, the host.
pub open spec fn complete_name(pinned: Seq<char>, host: Seq<char>) -> Seq<char> {
    pinned + seq!['-'] + host
}

/// The report that a status query's outcome carries. The exit status of the
/// query is not looked at.
pub open spec fn report_text(outcome: OutcomeView) -> Result<Seq<char>, Seq<char>> {
    match outcome {
        OutcomeView::NotRun => Err(not_run_message()),
        OutcomeView::Exited { stdout, .. } => Ok(lossy_utf8(stdout)),
    }
}

/// How a step's outcome is judged: success by the exit status, else what
/// the command wrote to its standard error, as it stands.
pub open spec fn step_result(outcome: OutcomeView) -> Result<(), Seq<char>> {
    match outcome {
        OutcomeView::NotRun => Err(not_run_message()),
        OutcomeView::Exited { success, stderr, .. } => if success {
            Ok(())
        } else {
            Err(lossy_utf8(stderr))
        },
    }
}

/// The notice that names the step which failed: one for each of the three
/// upgrade commands, where the command ran and exited with a failure. A
/// status query has none, nor has a command that could not be started.
pub open spec fn step_notice(stage: StageView, outcome: OutcomeView) -> Option<Seq<char>> {
    match outcome {
        OutcomeView::Exited { success: false, .. } => match stage {
            StageView::ReadDefault => None,
            StageView::ReadHost => None,
            StageView::Install { .. } => Some(install_failed_message()),
            StageView::AddTarget { .. } => Some(target_failed_message()),
            StageView::SetOverride { .. } => Some(override_failed_message()),
        },
        _ => None,
    }
}

/// The verdict on the toolchain in effect: done where it contains the pinned
/// name, the upgrade where it does not. Containment, not equality, decides:
/// the toolchain manager's names carry the host and other additions.
pub open spec fn verdict(pinned: Seq<char>, active: Result<Seq<char>, Seq<char>>) -> ProgressView {
    match active {
        Err(e) => ProgressView::Done(Err(e)),
        Ok(name) => if contains(name, pinned) {
            ProgressView::Done(Ok(()))
        } else {
            ProgressView::Run(StageView::ReadHost)
        },
    }
}

/// The decision on the first status report: the verdict on the directory
/// override where the report has an override line, a further query for the
/// default toolchain where it has none.
pub open spec fn decision(pinned: Seq<char>, report: Seq<char>) -> ProgressView {
    match matching_line(report, override_marker()) {
        None => ProgressView::Run(StageView::ReadDefault),
        Some(line) => verdict(pinned, named_override(line)),
    }
}

/// The installation that a status report leads to: that of the pinned name
/// completed by the report's default host.
pub open spec fn installation(pinned: Seq<char>, report: Seq<char>) -> ProgressView {
    match default_host(report) {
        Err(e) => ProgressView::Done(Err(e)),
        Ok(host) => ProgressView::Run(StageView::Install { toolchain: complete_name(pinned, host) }),
    }
}

/// What follows the outcome of the first status query.
pub open spec fn first_step(pinned: Seq<char>, outcome: OutcomeView) -> ProgressView {
    match report_text(outcome) {
        Err(e) => ProgressView::Done(Err(e)),
        Ok(report) => decision(pinned, report),
    }
}

/// What follows the outcome of the command of `stage`.
pub open spec fn upgrade_step(pinned: Seq<char>, stage: StageView, outcome: OutcomeView) -> ProgressView {
    match stage {
        StageView::ReadDefault => match report_text(outcome) {
            Err(e) => ProgressView::Done(Err(e)),
            Ok(report) => verdict(pinned, default_toolchain(report)),
        },
        StageView::ReadHost => match report_text(outcome) {
            Err(e) => ProgressView::Done(Err(e)),
            Ok(report) => installation(pinned, report),
        },
        StageView::Install { toolchain } => match step_result(outcome) {
            Err(e) => ProgressView::Done(Err(e)),
            Ok(()) => ProgressView::Run(StageView::AddTarget { toolchain }),
        },
        StageView::AddTarget { toolchain } => match step_result(outcome) {
            Err(e) => ProgressView::Done(Err(e)),
            Ok(()) => ProgressView::Run(StageView::SetOverride { toolchain }),
        },
        StageView::SetOverride { .. } => ProgressView::Done(step_result(outcome)),
    }
}

/// The arguments of the status query.
pub open spec fn status_command() -> Seq<Seq<char>> {
    seq!["show"@]
}

/// The arguments of the command of `stage`.
pub open spec fn stage_command(stage: StageView) -> Seq<Seq<char>> {
    match stage {
        StageView::ReadDefault => status_command(),
        StageView::ReadHost => status_command(),
        StageView::Install { toolchain } => seq!["toolchain"@, "install"@, toolchain],
        StageView::AddTarget { .. } => seq!["target"@, "add"@, wasm_target()],
        StageView::SetOverride { toolchain } => seq!["override"@, "set"@, toolchain],
    }
}

/// What a list of arguments holds, as sequences of characters.
pub open spec fn args_view(args: Vec<String>) -> Seq<Seq<char>> {
    Seq::new(args@.len(), |i: int| args@[i]@)
}

/// The text of a status query's outcome, decoded leniently.
pub fn read_report(outcome: &Outcome) -> (report: Result<String, String>)
    ensures
        result_view(report) == report_text(outcome@),
{
    match outcome {
        Outcome::NotRun => Err(String::from_str("Could not run rustup command")),
        Outcome::Exited { stdout, .. } => Ok(decode_lossy(stdout)),
    }
}

/// Judges the outcome of a step: success where the command reported it,
/// else what the command wrote to its standard error, decoded leniently and
/// otherwise unchanged.
pub fn run_rustup_command(outcome: &Outcome) -> (result: Result<(), String>)
    ensures
        status_view(result) == step_result(outcome@),
{
    match outcome {
        Outcome::NotRun => Err(String::from_str("Could not run rustup command")),
        Outcome::Exited { success, stderr, .. } => {
            if *success {
                Ok(())
            } else {
                Err(decode_lossy(stderr))
            }
        },
    }
}

/// The notice to give when the command of `stage` has had `outcome`: the
/// name of the step that failed, or `None` where there is nothing to say.
/// The notice is for the caller to show; the workflow's result does not
/// hold it.
pub fn failure_notice(stage: &Stage, outcome: &Outcome) -> (notice: Option<String>)
    ensures
        option_view(notice) == step_notice(stage@, outcome@),
{
    match outcome {
        Outcome::NotRun => None,
        Outcome::Exited { success, .. } => {
            if *success {
                None
            } else {
                match stage {
                    Stage::ReadDefault => None,
                    Stage::ReadHost => None,
                    Stage::Install { .. } => Some(String::from_str("problem installing toolchain")),
                    Stage::AddTarget { .. } => Some(String::from_str("Failed to add wasm target")),
                    Stage::SetOverride { .. } => Some(String::from_str("Failed to set override")),
                }
            }
        },
    }
}

/// The complete name of a toolchain: the pinned name, a hyphen, the host.
pub fn complete_toolchain(pinned_toolchain: &str, default_host: &str) -> (complete: String)
    ensures
        complete@ == complete_name(pinned_toolchain@, default_host@),
{
    proof {
        reveal_strlit("-");
        assert("-"@ =~= seq!['-']);
    }
    String::from_str(pinned_toolchain).concat("-").concat(default_host)
}

/// Decides on the toolchain in effect whether the pinned one is in effect:
/// done where `active` contains the pinned name, the upgrade where it does
/// not, the end where `active` is an error.
pub fn compare_toolchain(pinned_toolchain: &str, active: Result<String, String>) -> (next:
    Progress)
    ensures
        next@ == verdict(pinned_toolchain@, result_view(active)),
{
    match active {
        Err(e) => Progress::Done(Err(e)),
        Ok(name) => {
            if str_contains(name.as_str(), pinned_toolchain) {
                Progress::Done(Ok(()))
            } else {
                Progress::Run(Stage::ReadHost)
            }
        },
    }
}

/// Decides on the first status report: compares the directory override
/// where the report has one, asks for the default toolchain where it has
/// none.
pub fn check_report(pinned_toolchain: &str, report: &str) -> (next: Progress)
    ensures
        next@ == decision(pinned_toolchain@, report@),
{
    match find_override_line(report) {
        None => Progress::Run(Stage::ReadDefault),
        Some(line) => compare_toolchain(pinned_toolchain, read_override_line(line.as_str())),
    }
}

/// Names the installation that a status report leads to.
pub fn plan_install(pinned_toolchain: &str, report: &str) -> (next: Progress)
    ensures
        next@ == installation(pinned_toolchain@, report@),
{
    match get_default_host(report) {
        Err(e) => Progress::Done(Err(e)),
        Ok(host) => Progress::Run(
            Stage::Install { toolchain: complete_toolchain(pinned_toolchain, host.as_str()) },
        ),
    }
}

/// Takes the outcome of the first status query and decides what follows:
/// nothing where the directory override contains the pinned name, the
/// upgrade where it does not, a query for the default toolchain where no
/// override is set.
pub fn upgrade_toolchain_if_outdated(pinned_toolchain: &str, outcome: &Outcome) -> (next: Progress)
    ensures
        next@ == first_step(pinned_toolchain@, outcome@),
{
    match read_report(outcome) {
        Err(e) => Progress::Done(Err(e)),
        Ok(report) => check_report(pinned_toolchain, report.as_str()),
    }
}

/// Takes the outcome of the command of `stage` and decides what follows: the
/// next stage where the command succeeded, the end at the first failure. The
/// default toolchain, once read, is compared as the override is.
pub fn upgrade_toolchain(pinned_toolchain: &str, stage: Stage, outcome: &Outcome) -> (next:
    Progress)
    ensures
        next@ == upgrade_step(pinned_toolchain@, stage@, outcome@),
{
    match stage {
        Stage::ReadDefault => match read_report(outcome) {
            Err(e) => Progress::Done(Err(e)),
            Ok(report) => compare_toolchain(
                pinned_toolchain,
                get_default_toolchain(report.as_str()),
            ),
        },
        Stage::ReadHost => match read_report(outcome) {
            Err(e) => Progress::Done(Err(e)),
            Ok(report) => plan_install(pinned_toolchain, report.as_str()),
        },
        Stage::Install { toolchain } => match run_rustup_command(outcome) {
            Err(e) => Progress::Done(Err(e)),
            Ok(()) => Progress::Run(Stage::AddTarget { toolchain }),
        },
        Stage::AddTarget { toolchain } => match run_rustup_command(outcome) {
            Err(e) => Progress::Done(Err(e)),
            Ok(()) => Progress::Run(Stage::SetOverride { toolchain }),
        },
        Stage::SetOverride { .. } => Progress::Done(run_rustup_command(outcome)),
    }
}

/// The arguments of the status query, with which the workflow starts.
pub fn status_args() -> (args: Vec<String>)
    ensures
        args_view(args) == status_command(),
{
    let mut args: Vec<String> = Vec::new();
    args.push(String::from_str("show"));
    assert(args_view(args) =~= status_command());
    args
}

/// The arguments of the command of `stage`.
pub fn command_args(stage: &Stage) -> (args: Vec<String>)
    ensures
        args_view(args) == stage_command(stage@),
{
    let mut args: Vec<String> = Vec::new();
    match stage {
        Stage::ReadDefault => {
            args.push(String::from_str("show"));
        },
        Stage::ReadHost => {
            args.push(String::from_str("show"));
        },
        Stage::Install { toolchain } => {
            args.push(String::from_str("toolchain"));
            args.push(String::from_str("install"));
            args.push(toolchain.clone());
        },
        Stage::AddTarget { .. } => {
            args.push(String::from_str("target"));
            args.push(String::from_str("add"));
            args.push(String::from_str("wasm32-unknown-unknown"));
        },
        Stage::SetOverride { toolchain } => {
            args.push(String::from_str("override"));
            args.push(String::from_str("set"));
            args.push(toolchain.clone());
        },
    }
    assert(args_view(args) =~= stage_command(stage@));
    args
}

} // verus!
