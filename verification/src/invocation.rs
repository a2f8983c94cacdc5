//! One run of a droplet: the context it runs in and the steps of the run.
//!
//! Every run is independent of every other: it gets a context of its own and
//! leaves nothing behind but its result.

use crate::config::{RuntimeEnv, RuntimeEnvView, RuntimeResources, RuntimeResourcesView, Spec};
use crate::config::{SpecRuntime, SpecRuntimeView};
use crate::droplet::DropletHandle;
use crate::error::{DropletError, DropletErrorView};
use crate::foreign::text_from_utf8;
use crate::limits::{default_limits, LimitsView, StoreLimitsAsync, StoreLimitsAsyncBuilder};
use crate::quantity::{parse_quantity, QuantityParseError, ResourceQuantity};
use vstd::prelude::*;
use vstd::utf8::{decode_utf8, valid_utf8};
use wasmtime::component::Component;

verus! {

/// The number of bytes that the pipe behind the droplet's standard output
/// holds.
pub const STDOUT_PIPE_CAPACITY: usize = 65536;

/// The number of bytes that the droplet may write ahead of the pipe.
pub const STDOUT_WRITE_BUDGET: usize = 16384;

/// The name of the entry point that a droplet exports.
pub fn entry_point() -> (name: &'static str)
    ensures
        name@ == "handler"@,
{
    "handler"
}

/// What one run of a droplet gave: the text that the code wrote to its
/// standard output.
#[derive(Debug)]
pub struct DropletExecutionResult {
    pub stdout: String,
}

/// What a run is set up with.
pub struct ExecutionContext {
    /// The environment variables, in the order of the definition.
    pub env: Vec<RuntimeEnv>,
    /// The limiter attached to the run.
    pub limits: StoreLimitsAsync,
    /// The capacity of the pipe that captures the standard output.
    pub stdout_capacity: usize,
    /// The number of bytes that may be written ahead of the pipe.
    pub stdout_write_budget: usize,
}

/// A memory budget as a limit on the size of a linear memory. A budget
/// beyond the address space is a limit at its end: no request can be larger.
pub open spec fn memory_limit_of(bytes: u64) -> usize {
    if bytes > usize::MAX {
        usize::MAX
    } else {
        bytes as usize
    }
}

/// The limiter settings that a definition's resources ask for: the memory
/// budget as the limit on memory growth, and the defaults for the rest. The
/// CPU budget is no setting of the limiter.
pub open spec fn limits_of(resources: RuntimeResourcesView) -> Result<
    LimitsView,
    QuantityParseError,
> {
    match parse_quantity(resources.memory) {
        Err(error) => Err(error),
        Ok(quantity) => Ok(
            LimitsView {
                memory_size: Some(memory_limit_of(quantity.magnitude())),
                ..default_limits()
            },
        ),
    }
}

/// The environment variables that a definition asks for: those it lists, and
/// none where it lists none.
pub open spec fn env_of(runtime: SpecRuntimeView) -> Seq<RuntimeEnvView> {
    match runtime.env {
        Some(vars) => vars,
        None => Seq::empty(),
    }
}

/// The settings of a limiter that was made, or why none was made.
pub open spec fn limits_result_view(r: Result<StoreLimitsAsync, QuantityParseError>) -> Result<
    LimitsView,
    QuantityParseError,
> {
    match r {
        Ok(limits) => Ok(limits@),
        Err(error) => Err(error),
    }
}

/// Makes the limiter that a definition's resources ask for.
pub fn limits_for(resources: &RuntimeResources) -> (r: Result<StoreLimitsAsync, QuantityParseError>)
    ensures
        limits_result_view(r) == limits_of(resources@),
{
    match ResourceQuantity::try_from(resources.memory.as_str()) {
        Err(error) => Err(error),
        Ok(quantity) => {
            let bytes = match quantity {
                ResourceQuantity::Memory { bytes } => bytes,
                ResourceQuantity::Cpu { vcpu } => vcpu,
            };
            let limit: usize = if bytes > usize::MAX as u64 {
                usize::MAX
            } else {
                bytes as usize
            };
            Ok(StoreLimitsAsyncBuilder::new().memory_size(limit).build())
        },
    }
}

/// Copies the environment variables of a definition.
pub fn env_for(runtime: &SpecRuntime) -> (env: Vec<RuntimeEnv>)
    ensures
        env.deep_view() == env_of(runtime@),
{
    let mut env: Vec<RuntimeEnv> = Vec::new();
    match &runtime.env {
        None => {
            assert(env.deep_view() =~= Seq::<RuntimeEnvView>::empty());
        },
        Some(vars) => {
            let mut i: usize = 0;
            while i < vars.len()
                invariant
                    i <= vars.len(),
                    env.len() == i,
                    forall|k: int| 0 <= k < i ==> (#[trigger] env[k])@ == vars[k]@,
                decreases vars.len() - i,
            {
                let var = &vars[i];
                env.push(RuntimeEnv { name: var.name.clone(), value: var.value.clone() });
                i += 1;
            }
            assert(env.deep_view() =~= vars.deep_view());
        },
    }
    env
}

/// How far a run has come. Each stage but the last two waits for one answer
/// of the environment.
pub enum RunStage {
    /// An instance of the component is being made in the run's context.
    Instantiating,
    /// The entry point is being looked up among the instance's exports.
    Locating,
    /// The entry point runs.
    Invoking,
    /// The captured output is being read.
    Draining,
    /// The run has ended with a result.
    Done { result: DropletExecutionResult },
    /// The run has failed.
    Failed { error: DropletError },
}

pub enum RunStageView {
    Instantiating,
    Locating,
    Invoking,
    Draining,
    Done { stdout: Seq<char> },
    Failed { error: DropletErrorView },
}

impl View for RunStage {
    type V = RunStageView;

    open spec fn view(&self) -> RunStageView {
        match self {
            RunStage::Instantiating => RunStageView::Instantiating,
            RunStage::Locating => RunStageView::Locating,
            RunStage::Invoking => RunStageView::Invoking,
            RunStage::Draining => RunStageView::Draining,
            RunStage::Done { result } => RunStageView::Done { stdout: result.stdout@ },
            RunStage::Failed { error } => RunStageView::Failed { error: error@ },
        }
    }
}

/// What the environment reports back.
pub enum RunEvent {
    /// Whether an instance could be made.
    Instantiated(bool),
    /// Whether the instance exports the entry point.
    EntryLocated(bool),
    /// The entry point has returned (`None`), or the code has faulted, with
    /// the cause of the fault.
    Completed(Option<String>),
    /// All that the code wrote to its standard output, or `None` where it
    /// could not be read.
    Output(Option<Vec<u8>>),
}

pub enum RunEventView {
    Instantiated(bool),
    EntryLocated(bool),
    Completed(Option<Seq<char>>),
    Output(Option<Seq<u8>>),
}

impl View for RunEvent {
    type V = RunEventView;

    open spec fn view(&self) -> RunEventView {
        match self {
            RunEvent::Instantiated(done) => RunEventView::Instantiated(*done),
            RunEvent::EntryLocated(found) => RunEventView::EntryLocated(*found),
            RunEvent::Completed(fault) => RunEventView::Completed(
                match fault {
                    Some(cause) => Some(cause@),
                    None => None,
                },
            ),
            RunEvent::Output(bytes) => RunEventView::Output(
                match bytes {
                    Some(bytes) => Some(bytes@),
                    None => None,
                },
            ),
        }
    }
}

/// What the environment is to do next.
#[derive(Debug, Clone, Copy, PartialEq, Eq, Structural)]
pub enum RunAction {
    /// Make an instance of the component in the run's context.
    Instantiate,
    /// Look the entry point up among the instance's exports.
    LocateEntry,
    /// Call the entry point without arguments and wait until it has returned.
    Invoke,
    /// Read all that was written to the captured standard output.
    DrainOutput,
    /// Nothing: the run has ended.
    Finish,
}

/// What the captured output decodes to: the text that the bytes encode, or a
/// decoding error where they are no UTF-8.
pub open spec fn decoded_output(bytes: Seq<u8>) -> RunStageView {
    if valid_utf8(bytes) {
        RunStageView::Done { stdout: decode_utf8(bytes) }
    } else {
        RunStageView::Failed { error: DropletErrorView::OutputDecodeError }
    }
}

/// The step that a stage takes on an event. An event that does not answer
/// what the stage waits for leaves the stage as it is.
pub open spec fn run_step(stage: RunStageView, event: RunEventView) -> RunStageView {
    match (stage, event) {
        (RunStageView::Instantiating, RunEventView::Instantiated(true)) => RunStageView::Locating,
        (RunStageView::Instantiating, RunEventView::Instantiated(false)) => RunStageView::Failed {
            error: DropletErrorView::InstantiationError,
        },
        (RunStageView::Locating, RunEventView::EntryLocated(true)) => RunStageView::Invoking,
        (RunStageView::Locating, RunEventView::EntryLocated(false)) => RunStageView::Failed {
            error: DropletErrorView::HandlerNotFound,
        },
        (RunStageView::Invoking, RunEventView::Completed(None)) => RunStageView::Draining,
        (RunStageView::Invoking, RunEventView::Completed(Some(cause))) => RunStageView::Failed {
            error: DropletErrorView::ExecutionTrap { cause },
        },
        (RunStageView::Draining, RunEventView::Output(Some(bytes))) => decoded_output(bytes),
        (RunStageView::Draining, RunEventView::Output(None)) => RunStageView::Failed {
            error: DropletErrorView::OutputDecodeError,
        },
        (stage, _) => stage,
    }
}

/// What a stage waits for.
pub open spec fn run_action(stage: RunStageView) -> RunAction {
    match stage {
        RunStageView::Instantiating => RunAction::Instantiate,
        RunStageView::Locating => RunAction::LocateEntry,
        RunStageView::Invoking => RunAction::Invoke,
        RunStageView::Draining => RunAction::DrainOutput,
        RunStageView::Done { .. } => RunAction::Finish,
        RunStageView::Failed { .. } => RunAction::Finish,
    }
}

/// One run of a droplet: the component that runs, the context it runs in,
/// and the stage reached.
pub struct Invocation {
    context: ExecutionContext,
    component: Component,
    stage: RunStage,
}

pub struct InvocationView {
    pub component: Component,
    pub env: Seq<RuntimeEnvView>,
    pub limits: LimitsView,
    pub stdout_capacity: usize,
    pub stdout_write_budget: usize,
    pub stage: RunStageView,
}

impl View for Invocation {
    type V = InvocationView;

    closed spec fn view(&self) -> InvocationView {
        InvocationView {
            component: self.component,
            env: self.context.env.deep_view(),
            limits: self.context.limits@,
            stdout_capacity: self.context.stdout_capacity,
            stdout_write_budget: self.context.stdout_write_budget,
            stage: self.stage@,
        }
    }
}

impl InvocationView {
    /// The run after one more event.
    pub open spec fn step(self, event: RunEventView) -> InvocationView {
        InvocationView { stage: run_step(self.stage, event), ..self }
    }

    /// What the environment is to do next.
    pub open spec fn action(self) -> RunAction {
        run_action(self.stage)
    }
}

/// The run of a component that a definition's runtime part asks for, before
/// its first step: the environment and the limiter of the definition and a
/// pipe of the fixed size. There is none where the memory budget is no valid
/// quantity.
pub open spec fn planned_run(runtime: SpecRuntimeView, component: Component) -> Result<
    InvocationView,
    DropletErrorView,
> {
    match limits_of(runtime.resources) {
        Err(error) => Err(DropletErrorView::QuantityParseError(error)),
        Ok(limits) => Ok(
            InvocationView {
                component,
                env: env_of(runtime),
                limits,
                stdout_capacity: STDOUT_PIPE_CAPACITY,
                stdout_write_budget: STDOUT_WRITE_BUDGET,
                stage: RunStageView::Instantiating,
            },
        ),
    }
}

/// The view of a run that was started, or of why none was started.
pub open spec fn run_result_view(r: Result<Invocation, DropletError>) -> Result<
    InvocationView,
    DropletErrorView,
> {
    match r {
        Ok(run) => Ok(run@),
        Err(error) => Err(error@),
    }
}

/// How a run has ended, if it has.
pub enum RunOutcome {
    /// It has not ended: the run goes on.
    Pending(Invocation),
    /// The run has ended with a result.
    Done(DropletExecutionResult),
    /// The run has failed.
    Failed(DropletError),
}

impl DropletHandle {
    /// Starts a run of the droplet. The handle is only read: any number of
    /// runs may be started from it, each with a context of its own.
    pub fn run(&self) -> (r: Result<Invocation, DropletError>)
        ensures
            run_result_view(r) == planned_run(self@.definition.runtime(), self@.component),
    {
        let runtime = match &self.config().spec {
            Spec::Droplet { runtime, .. } => runtime,
        };
        match limits_for(&runtime.resources) {
            Err(error) => Err(DropletError::QuantityParseError(error)),
            Ok(limits) => Ok(
                Invocation {
                    context: ExecutionContext {
                        env: env_for(runtime),
                        limits,
                        stdout_capacity: STDOUT_PIPE_CAPACITY,
                        stdout_write_budget: STDOUT_WRITE_BUDGET,
                    },
                    component: self.component().clone(),
                    stage: RunStage::Instantiating,
                },
            ),
        }
    }
}

impl Invocation {
    /// What the run is set up with.
    pub fn context(&self) -> (context: &ExecutionContext)
        ensures
            context.env.deep_view() == self@.env,
            context.limits@ == self@.limits,
            context.stdout_capacity == self@.stdout_capacity,
            context.stdout_write_budget == self@.stdout_write_budget,
    {
        &self.context
    }

    /// The component that runs.
    pub fn component(&self) -> (component: &Component)
        ensures
            *component == self@.component,
    {
        &self.component
    }

    /// What the environment is to do next.
    pub fn action(&self) -> (action: RunAction)
        ensures
            action == self@.action(),
    {
        match &self.stage {
            RunStage::Instantiating => RunAction::Instantiate,
            RunStage::Locating => RunAction::LocateEntry,
            RunStage::Invoking => RunAction::Invoke,
            RunStage::Draining => RunAction::DrainOutput,
            RunStage::Done { .. } => RunAction::Finish,
            RunStage::Failed { .. } => RunAction::Finish,
        }
    }

    /// Takes the environment's answer and moves to the next stage.
    pub fn advance(self, event: RunEvent) -> (next: Invocation)
        ensures
            next@ == self@.step(event@),
    {
        let Invocation { context, component, stage } = self;
        let stage = match (stage, event) {
            (RunStage::Instantiating, RunEvent::Instantiated(true)) => RunStage::Locating,
            (RunStage::Instantiating, RunEvent::Instantiated(false)) => RunStage::Failed {
                error: DropletError::InstantiationError,
            },
            (RunStage::Locating, RunEvent::EntryLocated(true)) => RunStage::Invoking,
            (RunStage::Locating, RunEvent::EntryLocated(false)) => RunStage::Failed {
                error: DropletError::HandlerNotFound,
            },
            (RunStage::Invoking, RunEvent::Completed(None)) => RunStage::Draining,
            (RunStage::Invoking, RunEvent::Completed(Some(cause))) => RunStage::Failed {
                error: DropletError::ExecutionTrap { cause },
            },
            (RunStage::Draining, RunEvent::Output(Some(bytes))) => decode_output(bytes),
            (RunStage::Draining, RunEvent::Output(None)) => RunStage::Failed {
                error: DropletError::OutputDecodeError,
            },
            (stage, _) => stage,
        };
        Invocation { context, component, stage }
    }

    /// How the run has ended, if it has.
    pub fn outcome(self) -> (outcome: RunOutcome)
        ensures
            match outcome {
                RunOutcome::Pending(run) => run@ == self@ && self@.action() != RunAction::Finish,
                RunOutcome::Done(result) => self@.stage == (RunStageView::Done {
                    stdout: result.stdout@,
                }),
                RunOutcome::Failed(error) => self@.stage == (RunStageView::Failed {
                    error: error@,
                }),
            },
    {
        let Invocation { context, component, stage } = self;
        match stage {
            RunStage::Done { result } => RunOutcome::Done(result),
            RunStage::Failed { error } => RunOutcome::Failed(error),
            stage => RunOutcome::Pending(Invocation { context, component, stage }),
        }
    }
}

/// Decodes the captured output: the last stage of a run.
pub fn decode_output(bytes: Vec<u8>) -> (stage: RunStage)
    ensures
        stage@ == decoded_output(bytes@),
{
    match text_from_utf8(bytes) {
        Some(stdout) => RunStage::Done { result: DropletExecutionResult { stdout } },
        None => RunStage::Failed { error: DropletError::OutputDecodeError },
    }
}

/// A run carried to its end without a fault: an instance is made, the entry
/// point is found and returns, and `output` is what is read from the
/// captured standard output.
pub open spec fn completed_run(run: InvocationView, output: Seq<u8>) -> InvocationView {
    run.step(RunEventView::Instantiated(true)).step(RunEventView::EntryLocated(true)).step(
        RunEventView::Completed(None),
    ).step(RunEventView::Output(Some(output)))
}

/// A run carried to its end without a fault gives exactly the text that the
/// code wrote, where the bytes written are UTF-8, and a decoding error where
/// they are not.
pub proof fn lemma_run_returns_output(run: InvocationView, output: Seq<u8>)
    requires
        run.stage == RunStageView::Instantiating,
    ensures
        completed_run(run, output).stage == decoded_output(output),
        valid_utf8(output) ==> completed_run(run, output).stage == (RunStageView::Done {
            stdout: decode_utf8(output),
        }),
        !valid_utf8(output) ==> completed_run(run, output).stage == (RunStageView::Failed {
            error: DropletErrorView::OutputDecodeError,
        }),
{
}

/// A run that has ended stays as it is, whatever is reported to it.
pub proof fn lemma_run_end_is_final(run: InvocationView, event: RunEventView)
    requires
        run.action() == RunAction::Finish,
    ensures
        run.step(event) == run,
{
}

/// The limit that a memory budget sets answers every growth request as the
/// budget itself would: a request is beyond the limit exactly where it is
/// beyond the budget.
pub proof fn lemma_memory_limit_is_faithful(bytes: u64, desired: usize)
    ensures
        desired > memory_limit_of(bytes) <==> desired > bytes,
{
}

} // verus!
