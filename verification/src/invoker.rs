//! Launching the generator: which commands to run, in which order, and what
//! their outcomes mean.
//!
//! The caller starts the processes and waits for them; no timeout is applied,
//! so a generator that never exits blocks the caller for as long.

use crate::error::{text_views, BackendError, ErrorView};
use crate::text::{join_path, spec_join};
use vstd::prelude::*;

verus! {

/// A process to start: the program, its arguments and its working directory.
#[derive(Clone, Debug, PartialEq, Eq)]
pub struct Invocation {
    pub program: String,
    pub args: Vec<String>,
    pub working_dir: String,
}

/// The mathematical value of an [`Invocation`].
pub struct InvocationView {
    pub program: Seq<char>,
    pub args: Seq<Seq<char>>,
    pub working_dir: Seq<char>,
}

impl View for Invocation {
    type V = InvocationView;

    open spec fn view(&self) -> InvocationView {
        InvocationView {
            program: self.program@,
            args: text_views(self.args@),
            working_dir: self.working_dir@,
        }
    }
}

/// How a started process ended, or why it never started.
#[derive(Clone, Debug, PartialEq, Eq)]
pub enum ProcessOutcome {
    NotStarted { cause: String },
    Exited { success: bool, stdout: String, stderr: String },
}

/// What has to run before the generator's output can be collected.
#[derive(Clone, Copy, Debug, PartialEq, Eq, Structural)]
pub enum LaunchPlan {
    /// The binary is there: run it.
    Run,
    /// The binary is absent in a development tree: build it, then run it.
    BuildThenRun,
}

/// What one generation run hands back to the caller.
#[derive(Clone, Debug, PartialEq, Eq)]
pub struct GenerationResult {
    pub stdout: String,
    pub produced_files: Vec<String>,
}

/// Where the generator's binary lies below its root.
pub open spec fn spec_binary_path(backend: Seq<char>) -> Seq<char> {
    spec_join(backend, "_build/default/src/main.exe"@)
}

/// The arguments of a generator run: the dry-run flag alone, or nothing.
pub open spec fn spec_generator_args(dry_run: bool) -> Seq<Seq<char>> {
    if dry_run {
        seq!["-dry"@]
    } else {
        Seq::empty()
    }
}

/// The generator run in the directory `backend`.
pub open spec fn spec_generator_command(backend: Seq<char>, dry_run: bool) -> InvocationView {
    InvocationView {
        program: spec_binary_path(backend),
        args: spec_generator_args(dry_run),
        working_dir: backend,
    }
}

/// The build step in the directory `backend`.
pub open spec fn spec_build_command(backend: Seq<char>) -> InvocationView {
    InvocationView { program: "dune"@, args: seq!["build"@], working_dir: backend }
}

/// One dashed line per file, each closed by a line break.
pub open spec fn spec_file_lines(files: Seq<Seq<char>>) -> Seq<char>
    decreases files.len(),
{
    if files.len() == 0 {
        Seq::empty()
    } else {
        spec_file_lines(files.drop_last()) + "- "@ + files.last() + "\n"@
    }
}

/// The text shown after a run: the generator's output, then the copied files
/// if there are any.
pub open spec fn spec_report(stdout: Seq<char>, files: Seq<Seq<char>>) -> Seq<char> {
    if files.len() == 0 {
        stdout
    } else {
        stdout + "\n\nGenerated PDFs copied to output directory:\n"@ + spec_file_lines(files)
    }
}

/// The path of the generator's binary below its root directory.
pub fn binary_path(backend: &str) -> (path: String)
    ensures
        path@ == spec_binary_path(backend@),
{
    join_path(backend, "_build/default/src/main.exe")
}

/// The command that runs the generator, with the dry-run flag as its only
/// argument when `dry_run` is set.
pub fn generator_command(backend: &str, dry_run: bool) -> (command: Invocation)
    ensures
        command@ == spec_generator_command(backend@, dry_run),
{
    let mut args: Vec<String> = Vec::new();
    if dry_run {
        args.push(String::from_str("-dry"));
    }
    assert(text_views(args@) =~= spec_generator_args(dry_run));
    Invocation { program: binary_path(backend), args, working_dir: String::from_str(backend) }
}

/// The command that builds the generator in a development tree.
pub fn build_command(backend: &str) -> (command: Invocation)
    ensures
        command@ == spec_build_command(backend@),
{
    let mut args: Vec<String> = Vec::new();
    args.push(String::from_str("build"));
    assert(text_views(args@) =~= seq!["build"@]);
    Invocation { program: String::from_str("dune"), args, working_dir: String::from_str(backend) }
}

/// The failure reported for a binary that is missing from a packaged
/// application: it names the path at which the binary was expected.
pub open spec fn spec_missing_binary(backend: Seq<char>) -> ErrorView {
    ErrorView::LaunchFailed {
        cause: "Generator binary not found at "@ + spec_binary_path(backend)
            + ". The application may not be properly built."@,
    }
}

/// Decides what to run in the generator root `backend`. A missing binary is
/// built only in a development context; in a packaged one it is a launch
/// failure.
pub fn plan_launch(backend: &str, binary_present: bool, development: bool) -> (plan: Result<
    LaunchPlan,
    BackendError,
>)
    ensures
        binary_present ==> plan == Ok::<LaunchPlan, BackendError>(LaunchPlan::Run),
        !binary_present && development ==> plan == Ok::<LaunchPlan, BackendError>(
            LaunchPlan::BuildThenRun,
        ),
        !binary_present && !development ==> plan is Err && plan.unwrap_err()@
            == spec_missing_binary(backend@),
{
    if binary_present {
        Ok(LaunchPlan::Run)
    } else if development {
        Ok(LaunchPlan::BuildThenRun)
    } else {
        let mut cause = String::from_str("Generator binary not found at ");
        let path = binary_path(backend);
        cause.append(path.as_str());
        cause.append(". The application may not be properly built.");
        Err(BackendError::LaunchFailed { cause })
    }
}

/// The meaning of a build step's outcome.
pub open spec fn spec_build_outcome(outcome: ProcessOutcome) -> Result<(), ErrorView> {
    match outcome {
        ProcessOutcome::NotStarted { cause } => Err(
            ErrorView::LaunchFailed { cause: "Failed to execute dune build: "@ + cause@ },
        ),
        ProcessOutcome::Exited { success, stdout, stderr } => if success {
            Ok(())
        } else {
            Err(ErrorView::ExecutionFailed { stderr: "Dune build failed: "@ + stderr@ })
        },
    }
}

/// The meaning of a generator run's outcome: its output, or the failure.
pub open spec fn spec_run_outcome(outcome: ProcessOutcome) -> Result<Seq<char>, ErrorView> {
    match outcome {
        ProcessOutcome::NotStarted { cause } => Err(
            ErrorView::LaunchFailed { cause: "Failed to execute invoice generation: "@ + cause@ },
        ),
        ProcessOutcome::Exited { success, stdout, stderr } => if success {
            Ok(stdout@)
        } else {
            Err(ErrorView::ExecutionFailed { stderr: stderr@ })
        },
    }
}

/// Interprets the outcome of the build step.
pub fn build_outcome(outcome: ProcessOutcome) -> (built: Result<(), BackendError>)
    ensures
        built is Ok <==> spec_build_outcome(outcome) is Ok,
        built is Err ==> spec_build_outcome(outcome) == Err::<(), ErrorView>(built.unwrap_err()@),
{
    match outcome {
        ProcessOutcome::NotStarted { cause } => {
            let mut text = String::from_str("Failed to execute dune build: ");
            text.append(cause.as_str());
            Err(BackendError::LaunchFailed { cause: text })
        },
        ProcessOutcome::Exited { success, stdout, stderr } => {
            if success {
                Ok(())
            } else {
                let mut text = String::from_str("Dune build failed: ");
                text.append(stderr.as_str());
                Err(BackendError::ExecutionFailed { stderr: text })
            }
        },
    }
}

/// Interprets the outcome of the generator run: its captured output when it
/// exited successfully, `ExecutionFailed` with its diagnostics when it did
/// not, and `LaunchFailed` when it never started.
pub fn run_outcome(outcome: ProcessOutcome) -> (ran: Result<String, BackendError>)
    ensures
        ran is Ok ==> spec_run_outcome(outcome) == Ok::<Seq<char>, ErrorView>(ran.unwrap()@),
        ran is Err ==> spec_run_outcome(outcome) == Err::<Seq<char>, ErrorView>(
            ran.unwrap_err()@,
        ),
{
    match outcome {
        ProcessOutcome::NotStarted { cause } => {
            let mut text = String::from_str("Failed to execute invoice generation: ");
            text.append(cause.as_str());
            Err(BackendError::LaunchFailed { cause: text })
        },
        ProcessOutcome::Exited { success, stdout, stderr } => {
            if success {
                Ok(stdout)
            } else {
                Err(BackendError::ExecutionFailed { stderr })
            }
        },
    }
}

impl GenerationResult {
    /// The text shown to the user for this run.
    pub fn report(&self) -> (text: String)
        ensures
            text@ == spec_report(self.stdout@, text_views(self.produced_files@)),
    {
        let mut text = self.stdout.clone();
        if self.produced_files.len() == 0 {
            return text;
        }
        text.append("\n\nGenerated PDFs copied to output directory:\n");
        let ghost head = text@;
        let ghost all = text_views(self.produced_files@);
        let mut i: usize = 0;
        while i < self.produced_files.len()
            invariant
                i <= self.produced_files.len(),
                all == text_views(self.produced_files@),
                text@ == head + spec_file_lines(all.take(i as int)),
            decreases self.produced_files.len() - i,
        {
            text.append("- ");
            text.append(self.produced_files[i].as_str());
            text.append("\n");
            proof {
                assert(all.take(i + 1).drop_last() =~= all.take(i as int));
                assert(all.take(i + 1).last() == self.produced_files[i as int]@);
                assert(text@ =~= head + spec_file_lines(all.take(i + 1)));
            }
            i = i + 1;
        }
        assert(all.take(i as int) =~= all);
        text
    }
}

} // verus!
