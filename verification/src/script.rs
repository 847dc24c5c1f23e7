//! Scripts: the steps of a command handler, grouped in stages that say
//! which failures end the whole operation and which are passed over.
//!
//! A stage runs its operations in order and stops at the first that fails.
//! If the stage is fatal the script is aborted there; if it is not, the
//! failure is passed over and the script goes on with the next stage.

use crate::spawn::{ProcessRequest, ProcessRequestView};
use crate::status::Status;
use vstd::prelude::*;

verus! {

/// One step of a script.
#[derive(Debug)]
pub enum Operation {
    /// Run an external command.
    Run(ProcessRequest),
    /// Move a file.
    Rename { from: String, to: String },
    /// Read a file's lines, style them and write them back.
    Restyle { path: String },
}

pub enum OperationView {
    Run(ProcessRequestView),
    Rename { from: Seq<char>, to: Seq<char> },
    Restyle { path: Seq<char> },
}

impl View for Operation {
    type V = OperationView;

    open spec fn view(&self) -> OperationView {
        match self {
            Operation::Run(request) => OperationView::Run(request@),
            Operation::Rename { from, to } => OperationView::Rename { from: from@, to: to@ },
            Operation::Restyle { path } => OperationView::Restyle { path: path@ },
        }
    }
}

pub open spec fn operation_views(operations: Seq<Operation>) -> Seq<OperationView> {
    Seq::new(operations.len(), |i: int| operations[i]@)
}

/// The operations that run `requests`, in order.
pub open spec fn runs(requests: Seq<ProcessRequestView>) -> Seq<OperationView> {
    Seq::new(requests.len(), |i: int| OperationView::Run(requests[i]))
}

/// Operations that succeed or fail together.
#[derive(Debug)]
pub struct Stage {
    pub operations: Vec<Operation>,
    /// Whether a failure in this stage ends the script.
    pub fatal: bool,
}

pub struct StageView {
    pub operations: Seq<OperationView>,
    pub fatal: bool,
}

impl View for Stage {
    type V = StageView;

    open spec fn view(&self) -> StageView {
        StageView { operations: operation_views(self.operations@), fatal: self.fatal }
    }
}

pub open spec fn stage_views(stages: Seq<Stage>) -> Seq<StageView> {
    Seq::new(stages.len(), |i: int| stages[i]@)
}

/// A stage that must succeed.
pub open spec fn fatal_stage(requests: Seq<ProcessRequestView>) -> StageView {
    StageView { operations: runs(requests), fatal: true }
}

/// A stage whose failure is passed over.
pub open spec fn optional_stage(requests: Seq<ProcessRequestView>) -> StageView {
    StageView { operations: runs(requests), fatal: false }
}

/// Adds the operations that run `requests`, in order, to `operations`.
pub fn push_runs(operations: &mut Vec<Operation>, requests: Vec<ProcessRequest>)
    ensures
        operation_views(final(operations)@) == operation_views(old(operations)@) + runs(
            crate::spawn::request_views(requests@),
        ),
{
    let ghost wanted = crate::spawn::request_views(requests@);
    let ghost before = operation_views(operations@);
    let mut requests = requests;
    let ghost mut done: int = 0;
    assert(operation_views(operations@) =~= before + runs(wanted.take(0)));
    while requests.len() > 0
        invariant
            0 <= done <= wanted.len(),
            requests@.len() == wanted.len() - done,
            crate::spawn::request_views(requests@) == wanted.skip(done),
            operation_views(operations@) == before + runs(wanted.take(done)),
        decreases requests.len(),
    {
        let ghost left = requests@;
        let ghost had = operations@;
        let request = requests.remove(0);
        proof {
            assert(request@ == crate::spawn::request_views(left)[0]);
            assert(request@ == wanted[done]);
            assert forall|i: int| 0 <= i < requests@.len() implies crate::spawn::request_views(
                requests@,
            )[i] == wanted.skip(done + 1)[i] by {
                assert(requests@[i] == left[i + 1]);
                assert(crate::spawn::request_views(left)[i + 1] == wanted.skip(done)[i + 1]);
            }
            assert(crate::spawn::request_views(requests@) =~= wanted.skip(done + 1));
        }
        operations.push(Operation::Run(request));
        proof {
            assert(operation_views(operations@) =~= operation_views(had).push(
                OperationView::Run(wanted[done]),
            ));
            assert(runs(wanted.take(done + 1)) =~= runs(wanted.take(done)).push(
                OperationView::Run(wanted[done]),
            ));
            assert(operation_views(operations@) =~= before + runs(wanted.take(done + 1)));
            done = done + 1;
        }
    }
    assert(wanted.take(done) == wanted);
}

impl Stage {
    /// The stage that runs `requests` in order.
    pub fn of(requests: Vec<ProcessRequest>, fatal: bool) -> (stage: Stage)
        ensures
            stage@ == (StageView {
                operations: runs(crate::spawn::request_views(requests@)),
                fatal,
            }),
    {
        let mut operations: Vec<Operation> = Vec::new();
        push_runs(&mut operations, requests);
        assert(operation_views(Seq::<Operation>::empty()) + runs(
            crate::spawn::request_views(requests@),
        ) =~= runs(crate::spawn::request_views(requests@)));
        Stage { operations, fatal }
    }
}

/// What the caller of a script is to do next.
#[derive(Clone, Copy, Debug, PartialEq, Eq, Structural)]
pub enum ScriptStep {
    /// Perform this operation of this stage and report how it went.
    Perform { stage: usize, operation: usize },
    /// Every stage has run.
    Completed,
    /// The operation at this place failed in a fatal stage: nothing after
    /// it is performed.
    Aborted { stage: usize, operation: usize },
}

/// The status of a command whose script came to `step`: an aborted script
/// is an internal error; any other step is no failure.
pub fn failure_status(step: ScriptStep) -> (failure: Option<Status>)
    ensures
        failure == (if step is Aborted {
            Some(Status::InternalServerError)
        } else {
            None::<Status>
        }),
{
    match step {
        ScriptStep::Aborted { .. } => Some(Status::InternalServerError),
        _ => None,
    }
}

/// The first stage at or after `from` that holds an operation, or the
/// number of stages if there is none.
pub open spec fn next_stage_with_work(script: Seq<Stage>, from: int) -> int
    decreases script.len() - from,
{
    if from < 0 || from >= script.len() {
        script.len() as int
    } else if script[from].operations@.len() > 0 {
        from
    } else {
        next_stage_with_work(script, from + 1)
    }
}

/// The step with which the script goes on at stage `from`.
pub open spec fn step_from(script: Seq<Stage>, from: int) -> ScriptStep {
    let stage = next_stage_with_work(script, from);
    if stage < script.len() {
        ScriptStep::Perform { stage: stage as usize, operation: 0 }
    } else {
        ScriptStep::Completed
    }
}

/// The step that follows the operation at (`stage`, `operation`), which
/// succeeded or failed.
pub open spec fn step_after(script: Seq<Stage>, stage: int, operation: int, succeeded: bool)
    -> ScriptStep {
    if succeeded {
        if operation + 1 < script[stage].operations@.len() {
            ScriptStep::Perform { stage: stage as usize, operation: (operation + 1) as usize }
        } else {
            step_from(script, stage + 1)
        }
    } else if script[stage].fatal {
        ScriptStep::Aborted { stage: stage as usize, operation: operation as usize }
    } else {
        step_from(script, stage + 1)
    }
}

pub proof fn lemma_next_stage_with_work(script: Seq<Stage>, from: int)
    requires
        0 <= from <= script.len(),
    ensures
        from <= next_stage_with_work(script, from) <= script.len(),
        next_stage_with_work(script, from) < script.len() ==> script[next_stage_with_work(
            script,
            from,
        )].operations@.len() > 0,
        forall|i: int|
            from <= i < next_stage_with_work(script, from) ==> (#[trigger] script[i]).operations@.len()
                == 0,
    decreases script.len() - from,
{
    if from < script.len() && script[from].operations@.len() == 0 {
        lemma_next_stage_with_work(script, from + 1);
    }
}

/// The place in a script of the operation that is being performed.
#[derive(Clone, Copy, Debug, PartialEq, Eq, Structural)]
pub struct ScriptRun {
    pub stage: usize,
    pub operation: usize,
}

impl ScriptRun {
    /// Whether the place names an operation of `script`.
    pub open spec fn in_script(&self, script: Seq<Stage>) -> bool {
        self.stage < script.len() && self.operation < script[self.stage as int].operations@.len()
    }

    fn seek(script: &Vec<Stage>, from: usize) -> (step: ScriptStep)
        requires
            from <= script.len(),
        ensures
            step == step_from(script@, from as int),
            step matches ScriptStep::Perform { stage, operation } ==> (ScriptRun {
                stage,
                operation,
            }).in_script(script@),
    {
        let mut stage: usize = from;
        while stage < script.len() && script[stage].operations.len() == 0
            invariant
                from <= stage <= script.len(),
                next_stage_with_work(script@, from as int) == next_stage_with_work(
                    script@,
                    stage as int,
                ),
            decreases script.len() - stage,
        {
            stage += 1;
        }
        if stage < script.len() {
            ScriptStep::Perform { stage, operation: 0 }
        } else {
            ScriptStep::Completed
        }
    }

    /// The first step of `script`.
    pub fn start(script: &Vec<Stage>) -> (step: ScriptStep)
        ensures
            step == step_from(script@, 0),
            step matches ScriptStep::Perform { stage, operation } ==> (ScriptRun {
                stage,
                operation,
            }).in_script(script@),
            !(step is Aborted),
    {
        ScriptRun::seek(script, 0)
    }

    /// The step that follows the operation at this place, given how it went.
    pub fn advance(&self, script: &Vec<Stage>, succeeded: bool) -> (step: ScriptStep)
        requires
            self.in_script(script@),
        ensures
            step == step_after(script@, self.stage as int, self.operation as int, succeeded),
            step matches ScriptStep::Perform { stage, operation } ==> (ScriptRun {
                stage,
                operation,
            }).in_script(script@),
    {
        let stages = script.len();
        let operations = script[self.stage].operations.len();
        if succeeded {
            if self.operation + 1 < operations {
                ScriptStep::Perform { stage: self.stage, operation: self.operation + 1 }
            } else {
                ScriptRun::seek(script, self.stage + 1)
            }
        } else if script[self.stage].fatal {
            ScriptStep::Aborted { stage: self.stage, operation: self.operation }
        } else {
            ScriptRun::seek(script, self.stage + 1)
        }
    }
}

/// A script is aborted only by a failure in a fatal stage, and at the place
/// of that failure; a failure elsewhere skips what is left of its stage.
/// Each step leads to a later place, so that a script ends.
pub proof fn script_policy(script: Seq<Stage>, run: ScriptRun, succeeded: bool)
    requires
        run.in_script(script),
        script.len() <= usize::MAX,
        script[run.stage as int].operations@.len() <= usize::MAX,
    ensures
        step_after(script, run.stage as int, run.operation as int, succeeded) is Aborted <==> !succeeded
            && script[run.stage as int].fatal,
        step_after(script, run.stage as int, run.operation as int, succeeded) matches ScriptStep::Aborted {
            stage,
            operation,
        } ==> stage == run.stage && operation == run.operation,
        step_after(script, run.stage as int, run.operation as int, succeeded) matches ScriptStep::Perform {
            stage,
            operation,
        } ==> {
            &&& stage > run.stage || (stage == run.stage && operation == run.operation + 1)
            &&& !succeeded ==> stage > run.stage
        },
{
    lemma_next_stage_with_work(script, run.stage + 1);
}

} // verus!
