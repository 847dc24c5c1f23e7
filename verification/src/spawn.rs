//! Running one external command: what is asked of the operating system, in
//! which order, and what its answers mean.
//!
//! The caller starts the process and reports each answer; the rules of this
//! file say what to do next.

use crate::text::{str_views, string_views};
use vstd::prelude::*;
use vstd::string::*;

verus! {

/// One external command, ready to run.
#[derive(Debug)]
pub struct ProcessRequest {
    pub program: String,
    pub args: Vec<String>,
    /// The directory in which the command runs.
    pub dir: String,
    /// What is written to the command's standard input, if anything.
    pub stdin: Option<Vec<u8>>,
}

pub struct ProcessRequestView {
    pub program: Seq<char>,
    pub args: Seq<Seq<char>>,
    pub dir: Seq<char>,
    pub stdin: Option<Seq<u8>>,
}

impl View for ProcessRequest {
    type V = ProcessRequestView;

    open spec fn view(&self) -> ProcessRequestView {
        ProcessRequestView {
            program: self.program@,
            args: string_views(self.args@),
            dir: self.dir@,
            stdin: match self.stdin {
                Some(bytes) => Some(bytes@),
                None => None,
            },
        }
    }
}

/// The commands held by a sequence of requests.
pub open spec fn request_views(requests: Seq<ProcessRequest>) -> Seq<ProcessRequestView> {
    Seq::new(requests.len(), |i: int| requests[i]@)
}

/// `program` run with `args` in `dir`, nothing written to its input.
pub open spec fn command(dir: Seq<char>, program: Seq<char>, args: Seq<Seq<char>>)
    -> ProcessRequestView {
    ProcessRequestView { program, args, dir, stdin: None }
}

/// Owned copies of `texts`.
pub fn strings_of(texts: &[&str]) -> (owned: Vec<String>)
    ensures
        string_views(owned@) == str_views(texts@),
{
    let mut owned: Vec<String> = Vec::new();
    let mut i: usize = 0;
    while i < texts.len()
        invariant
            i <= texts.len(),
            string_views(owned@) == str_views(texts@).take(i as int),
        decreases texts.len() - i,
    {
        let ghost before = owned@;
        owned.push(texts[i].to_owned());
        assert(string_views(owned@) == string_views(before).push(texts@[i as int]@));
        i += 1;
    }
    assert(str_views(texts@).take(texts.len() as int) == str_views(texts@));
    owned
}

/// What a finished process left behind.
#[derive(Debug)]
pub struct ProcessOutput {
    /// Whether the exit status reports success.
    pub success: bool,
    /// The exit code, if the process ended with one.
    pub code: Option<i32>,
    pub stdout: Vec<u8>,
    pub stderr: Vec<u8>,
}

/// How the text of a failure is laid out.
#[derive(Clone, Copy, Debug, PartialEq, Eq, Structural)]
pub enum FailureStyle {
    /// `<program> failed: <standard error>`
    Inline,
    /// `<program> failed`, a line feed, `<standard error>`
    Block,
}

/// Why a command did not succeed.
#[derive(Debug)]
pub enum SpawnError {
    /// The process could not be started.
    Spawn(String),
    /// The started process offers no standard input.
    StdinUnavailable,
    /// Writing to the standard input, or closing it, failed.
    Stdin(String),
    /// Waiting for the process failed.
    Wait(String),
    /// The process ran and reported failure.
    Exit { message: String, output: ProcessOutput },
}

/// What `String::from_utf8_lossy` makes of `bytes`.
pub uninterp spec fn utf8_lossy(bytes: Seq<u8>) -> Seq<char>;

/// `String::from_utf8_lossy`: the text that the bytes encode, each invalid
/// sequence replaced by the replacement character. Bytes that are valid
/// UTF-8 give the text that they encode, as it is.
#[verifier::external_body]
pub(crate) fn lossy_text(bytes: &[u8]) -> (text: String)
    ensures
        text@ == utf8_lossy(bytes@),
        vstd::utf8::valid_utf8(bytes@) ==> text@ == vstd::utf8::decode_utf8(bytes@),
{
    String::from_utf8_lossy(bytes).into_owned()
}

/// The text that reports that `program` failed, having written `complaint`
/// to its standard error.
pub open spec fn failure_report(style: FailureStyle, program: Seq<char>, complaint: Seq<char>)
    -> Seq<char> {
    match style {
        FailureStyle::Inline => program + " failed: "@ + complaint,
        FailureStyle::Block => program + " failed\n"@ + complaint,
    }
}

/// The text that reports that `program` failed with `stderr` on its
/// standard error.
pub open spec fn failure_text(style: FailureStyle, program: Seq<char>, stderr: Seq<u8>) -> Seq<
    char,
> {
    failure_report(style, program, utf8_lossy(stderr))
}

/// Reports that `program` failed, having written `complaint` to its
/// standard error.
pub fn failure_report_of(style: FailureStyle, program: &str, complaint: &str) -> (message: String)
    ensures
        message@ == failure_report(style, program@, complaint@),
{
    let mut message = program.to_owned();
    match style {
        FailureStyle::Inline => message.append(" failed: "),
        FailureStyle::Block => message.append(" failed\n"),
    }
    message.append(complaint);
    message
}

/// Reports that `program` failed with `stderr` on its standard error.
pub fn failure_message(style: FailureStyle, program: &str, stderr: &Vec<u8>) -> (message: String)
    ensures
        message@ == failure_text(style, program@, stderr@),
        vstd::utf8::valid_utf8(stderr@) ==> message@ == failure_report(
            style,
            program@,
            vstd::utf8::decode_utf8(stderr@),
        ),
{
    let complaint = lossy_text(stderr.as_slice());
    failure_report_of(style, program, complaint.as_str())
}

impl SpawnError {
    /// The text of the failure.
    pub open spec fn text(&self) -> Seq<char> {
        match self {
            SpawnError::Spawn(detail) => detail@,
            SpawnError::StdinUnavailable => "Failed to access stdin handle."@,
            SpawnError::Stdin(detail) => detail@,
            SpawnError::Wait(detail) => detail@,
            SpawnError::Exit { message, .. } => message@,
        }
    }

    pub fn message(&self) -> (m: String)
        ensures
            m@ == self.text(),
    {
        match self {
            SpawnError::Spawn(detail) => detail.clone(),
            SpawnError::StdinUnavailable => "Failed to access stdin handle.".to_owned(),
            SpawnError::Stdin(detail) => detail.clone(),
            SpawnError::Wait(detail) => detail.clone(),
            SpawnError::Exit { message, .. } => message.clone(),
        }
    }
}

/// Where the run of one command stands: the answer that is awaited.
#[derive(Clone, Copy, Debug, PartialEq, Eq, Structural)]
pub enum RunStage {
    /// The process is being started.
    Spawning,
    /// The standard input of the process is being taken.
    TakingStdin,
    /// The input is being written.
    Writing,
    /// The input is being flushed.
    Flushing,
    /// The standard input is being closed.
    Closing,
    /// The exit of the process is awaited.
    Waiting,
    /// The run is over.
    Finished,
}

/// What the caller reports back.
#[derive(Debug)]
pub enum RunEvent {
    /// The step asked for was done.
    Succeeded,
    /// The step asked for failed; the text says how.
    Failed(String),
    /// The process has no standard input to take.
    NoStdin,
    /// The process exited.
    Exited(ProcessOutput),
}

/// What the caller is to do next.
#[derive(Debug)]
pub enum RunAction {
    /// Take the standard input of the process.
    TakeStdin,
    /// Write the whole input.
    Write,
    /// Flush what was written.
    Flush,
    /// Close the standard input.
    Close,
    /// Wait for the process to exit, collecting its output.
    Wait,
    /// The run is over, with this result.
    Finish(Result<ProcessOutput, SpawnError>),
}

/// The run of one command.
#[derive(Debug)]
pub struct ProcessRun {
    pub stage: RunStage,
    pub program: String,
    /// Whether there is input to write before waiting.
    pub has_stdin: bool,
    pub style: FailureStyle,
}

/// The stage that follows `stage` when the step asked for succeeded.
pub open spec fn stage_after(stage: RunStage, has_stdin: bool) -> RunStage {
    match stage {
        RunStage::Spawning => if has_stdin {
            RunStage::TakingStdin
        } else {
            RunStage::Waiting
        },
        RunStage::TakingStdin => RunStage::Writing,
        RunStage::Writing => RunStage::Flushing,
        RunStage::Flushing => RunStage::Closing,
        RunStage::Closing => RunStage::Waiting,
        RunStage::Waiting => RunStage::Finished,
        RunStage::Finished => RunStage::Finished,
    }
}

/// Whether `action` is what a caller does to bring about `stage`.
pub open spec fn action_for(stage: RunStage, action: RunAction) -> bool {
    match stage {
        RunStage::TakingStdin => action is TakeStdin,
        RunStage::Writing => action is Write,
        RunStage::Flushing => action is Flush,
        RunStage::Closing => action is Close,
        RunStage::Waiting => action is Wait,
        _ => false,
    }
}

impl ProcessRun {
    /// The run of `request`, which the caller starts by spawning the process.
    pub fn start(request: &ProcessRequest, style: FailureStyle) -> (run: ProcessRun)
        ensures
            run.stage == RunStage::Spawning,
            run.program@ == request.program@,
            run.has_stdin == request.stdin.is_some(),
            run.style == style,
    {
        ProcessRun {
            stage: RunStage::Spawning,
            program: request.program.clone(),
            has_stdin: request.stdin.is_some(),
            style,
        }
    }

    /// Whether `event` can be the answer awaited at this stage.
    pub open spec fn spec_expects(&self, event: &RunEvent) -> bool {
        match self.stage {
            RunStage::Spawning | RunStage::Writing | RunStage::Flushing | RunStage::Closing => event is Succeeded
                || event is Failed,
            RunStage::TakingStdin => event is Succeeded || event is NoStdin,
            RunStage::Waiting => event is Exited || event is Failed,
            RunStage::Finished => false,
        }
    }

    #[verifier::when_used_as_spec(spec_expects)]
    pub fn expects(&self, event: &RunEvent) -> (b: bool)
        ensures
            b == self.spec_expects(event),
    {
        match self.stage {
            RunStage::Spawning | RunStage::Writing | RunStage::Flushing | RunStage::Closing => {
                match event {
                    RunEvent::Succeeded => true,
                    RunEvent::Failed(_) => true,
                    _ => false,
                }
            },
            RunStage::TakingStdin => {
                match event {
                    RunEvent::Succeeded => true,
                    RunEvent::NoStdin => true,
                    _ => false,
                }
            },
            RunStage::Waiting => {
                match event {
                    RunEvent::Exited(_) => true,
                    RunEvent::Failed(_) => true,
                    _ => false,
                }
            },
            RunStage::Finished => false,
        }
    }

    /// Takes the answer to the step last asked for and says what to do next.
    ///
    /// A step that succeeds leads to the next one: the input, if there is
    /// any, is written, flushed and closed before the exit is awaited. Every
    /// failure ends the run at once. A process that exits with success gives
    /// its output; one that exits otherwise gives a failure whose text holds
    /// its standard error.
    pub fn step(&mut self, event: RunEvent) -> (action: RunAction)
        requires
            old(self).spec_expects(&event),
        ensures
            final(self).program == old(self).program,
            final(self).has_stdin == old(self).has_stdin,
            final(self).style == old(self).style,
            match event {
                RunEvent::Succeeded => {
                    &&& final(self).stage == stage_after(old(self).stage, old(self).has_stdin)
                    &&& action_for(final(self).stage, action)
                },
                RunEvent::Failed(detail) => {
                    &&& final(self).stage == RunStage::Finished
                    &&& match old(self).stage {
                        RunStage::Spawning => action == RunAction::Finish(
                            Err(SpawnError::Spawn(detail)),
                        ),
                        RunStage::Waiting => action == RunAction::Finish(
                            Err(SpawnError::Wait(detail)),
                        ),
                        _ => action == RunAction::Finish(Err(SpawnError::Stdin(detail))),
                    }
                },
                RunEvent::NoStdin => {
                    &&& final(self).stage == RunStage::Finished
                    &&& action == RunAction::Finish(Err(SpawnError::StdinUnavailable))
                },
                RunEvent::Exited(output) => {
                    &&& final(self).stage == RunStage::Finished
                    &&& if output.success {
                        action == RunAction::Finish(Ok(output))
                    } else {
                        action matches RunAction::Finish(
                            Err(SpawnError::Exit { message, output: left }),
                        ) && left == output && message@ == failure_text(
                            old(self).style,
                            old(self).program@,
                            output.stderr@,
                        )
                    }
                },
            },
    {
        match event {
            RunEvent::Succeeded => {
                let (next, action) = match self.stage {
                    RunStage::Spawning => if self.has_stdin {
                        (RunStage::TakingStdin, RunAction::TakeStdin)
                    } else {
                        (RunStage::Waiting, RunAction::Wait)
                    },
                    RunStage::TakingStdin => (RunStage::Writing, RunAction::Write),
                    RunStage::Writing => (RunStage::Flushing, RunAction::Flush),
                    RunStage::Flushing => (RunStage::Closing, RunAction::Close),
                    _ => (RunStage::Waiting, RunAction::Wait),
                };
                self.stage = next;
                action
            },
            RunEvent::Failed(detail) => {
                let error = match self.stage {
                    RunStage::Spawning => SpawnError::Spawn(detail),
                    RunStage::Waiting => SpawnError::Wait(detail),
                    _ => SpawnError::Stdin(detail),
                };
                self.stage = RunStage::Finished;
                RunAction::Finish(Err(error))
            },
            RunEvent::NoStdin => {
                self.stage = RunStage::Finished;
                RunAction::Finish(Err(SpawnError::StdinUnavailable))
            },
            RunEvent::Exited(output) => {
                self.stage = RunStage::Finished;
                if output.success {
                    RunAction::Finish(Ok(output))
                } else {
                    let message = failure_message(self.style, self.program.as_str(), &output.stderr);
                    RunAction::Finish(Err(SpawnError::Exit { message, output }))
                }
            },
        }
    }
}

/// The number of steps that lie between a stage and the end of the run.
pub open spec fn steps_left(stage: RunStage) -> nat {
    match stage {
        RunStage::Spawning => 6,
        RunStage::TakingStdin => 5,
        RunStage::Writing => 4,
        RunStage::Flushing => 3,
        RunStage::Closing => 2,
        RunStage::Waiting => 1,
        RunStage::Finished => 0,
    }
}

/// Each step that succeeds brings the run nearer to its end, and the exit
/// of a process that has input is awaited only once the input was closed.
pub proof fn run_order(stage: RunStage, has_stdin: bool)
    requires
        stage != RunStage::Finished,
    ensures
        steps_left(stage_after(stage, has_stdin)) < steps_left(stage),
        has_stdin && stage_after(stage, has_stdin) == RunStage::Waiting ==> stage
            == RunStage::Closing,
        !has_stdin && stage == RunStage::Spawning ==> stage_after(stage, has_stdin)
            == RunStage::Waiting,
{
}

/// A command in a fixed directory.
#[derive(Debug)]
pub struct ContextualSpawn {
    pub workspace_dir: String,
}

impl ContextualSpawn {
    /// `cmd` with `args`, to run in the directory, with no input.
    pub fn spawn(&self, cmd: &str, args: &[&str]) -> (request: ProcessRequest)
        ensures
            request@ == command(self.workspace_dir@, cmd@, str_views(args@)),
    {
        self.spawn_with_stdin(cmd, args, None)
    }

    /// `cmd` with `args`, to run in the directory, with `stdin` written to
    /// its standard input.
    pub fn spawn_with_stdin(&self, cmd: &str, args: &[&str], stdin: Option<Vec<u8>>) -> (request:
        ProcessRequest)
        ensures
            request@ == (ProcessRequestView {
                program: cmd@,
                args: str_views(args@),
                dir: self.workspace_dir@,
                stdin: match stdin {
                    Some(bytes) => Some(bytes@),
                    None => None,
                },
            }),
    {
        ProcessRequest {
            program: cmd.to_owned(),
            args: strings_of(args),
            dir: self.workspace_dir.clone(),
            stdin,
        }
    }
}

} // verus!
