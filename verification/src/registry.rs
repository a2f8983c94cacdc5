//! The registry of droplets: the live map from names to handles, and the
//! steps that create a droplet.
//!
//! The registry decides; the environment acts. Reading and writing the
//! durable store and the artifact cache, and loading and running code, are
//! actions that the registry asks for and whose outcome it is told.

use crate::config::{RootConfig, RootConfigView};
use crate::droplet::{BuildAction, BuildEvent, BuildEventView, BuildOutcome, BuildStageView};
use crate::droplet::{DropletHandle, DropletHandleView, HandleBuild, HandleBuildView};
use crate::error::{DropletError, DropletErrorView};
use crate::foreign::{
    compiled, live_entries, live_map_get, live_map_insert, live_map_new, no_entries,
};
use crate::invocation::{planned_run, run_result_view, Invocation, InvocationView};
use dashmap::DashMap;
use std::sync::Arc;
use vstd::prelude::*;
use wasmtime::Engine;

verus! {

/// The live map of droplets, each kept under the name of its definition.
///
/// Publishing takes the registry exclusively; looking up shares it.
pub struct ControlPanel {
    droplets: DashMap<String, Arc<DropletHandle>>,
}

impl View for ControlPanel {
    type V = Map<Seq<char>, DropletHandleView>;

    closed spec fn view(&self) -> Map<Seq<char>, DropletHandleView> {
        live_entries(self.droplets)
    }
}

/// Whether every droplet of a live map is kept under the name of its own
/// definition.
pub open spec fn keyed_by_name(live: Map<Seq<char>, DropletHandleView>) -> bool {
    forall|name: Seq<char>| #[trigger]
        live.contains_key(name) ==> live[name].definition.name() == name
}

/// What starting a run under a name comes to in a live map: the run that the
/// definition kept under the name asks for, or that no droplet is kept under
/// it.
pub open spec fn started_run(live: Map<Seq<char>, DropletHandleView>, name: Seq<char>) -> Result<
    InvocationView,
    DropletErrorView,
> {
    if live.contains_key(name) {
        planned_run(live[name].definition.runtime(), live[name].component)
    } else {
        Err(DropletErrorView::DropletNotFound)
    }
}

/// The view of an entry of the durable store at the start of a process: the
/// handle made again from a record, or why none could be made.
pub open spec fn entry_view(entry: Result<DropletHandle, DropletError>) -> Result<
    DropletHandleView,
    DropletErrorView,
> {
    match entry {
        Ok(handle) => Ok(handle@),
        Err(error) => Err(error@),
    }
}

/// The views of a list of entries.
pub open spec fn entry_views(entries: Seq<Result<DropletHandle, DropletError>>) -> Seq<
    Result<DropletHandleView, DropletErrorView>,
> {
    entries.map_values(|entry: Result<DropletHandle, DropletError>| entry_view(entry))
}

/// What bringing a list of entries into a live map comes to: each handle is
/// published under its name, in the order of the list; the first entry
/// without a handle ends it with its error.
pub open spec fn restored(
    live: Map<Seq<char>, DropletHandleView>,
    entries: Seq<Result<DropletHandleView, DropletErrorView>>,
) -> Result<Map<Seq<char>, DropletHandleView>, DropletErrorView>
    decreases entries.len(),
{
    if entries.len() == 0 {
        Ok(live)
    } else {
        match entries.first() {
            Err(error) => Err(error),
            Ok(handle) => restored(
                live.insert(handle.definition.name(), handle),
                entries.drop_first(),
            ),
        }
    }
}

/// The live map of a registry that has started, or why it has not.
pub open spec fn startup_view(r: Result<ControlPanel, DropletError>) -> Result<
    Map<Seq<char>, DropletHandleView>,
    DropletErrorView,
> {
    match r {
        Ok(panel) => Ok(panel@),
        Err(error) => Err(error@),
    }
}

impl ControlPanel {
    #[verifier::type_invariant]
    spec fn keyed(self) -> bool {
        keyed_by_name(live_entries(self.droplets))
    }

    /// A registry that holds no droplet.
    pub fn new() -> (panel: ControlPanel)
        ensures
            panel@ == no_entries(),
            keyed_by_name(panel@),
    {
        ControlPanel { droplets: live_map_new() }
    }

    /// The registry at the start of a process: what the durable store held,
    /// brought back. `entries` has one entry for each record of the store,
    /// in the store's order: the handle made again from the record, or why
    /// none could be made. The entries are taken in that order. The first one
    /// without a handle ends the start with its error, so that no droplet is
    /// run from a registry that holds only a part of the store.
    pub fn default(entries: Vec<Result<DropletHandle, DropletError>>) -> (r: Result<
        ControlPanel,
        DropletError,
    >)
        ensures
            startup_view(r) == restored(no_entries(), entry_views(entries@)),
            r matches Ok(panel) ==> keyed_by_name(panel@),
    {
        let mut rest = entries;
        let mut panel = ControlPanel::new();
                while rest.len() > 0
            invariant
                restored(panel@, entry_views(rest@)) == restored(no_entries(), entry_views(entries@)),
                keyed_by_name(panel@),
            decreases rest.len(),
        {
            let ghost before = rest@;
            let entry = rest.remove(0);
            proof {
                assert(entry_views(before).len() == before.len());
                assert(entry_views(rest@) =~= entry_views(before).drop_first());
                assert(entry_views(before).first() == entry_view(entry));
                assert(restored(panel@, entry_views(before)) == match entry_view(entry) {
                    Err(error) => Err(error),
                    Ok(handle) => restored(
                        panel@.insert(handle.definition.name(), handle),
                        entry_views(rest@),
                    ),
                });
            }
            match entry {
                Ok(handle) => {
                    panel.publish(handle);
                },
                Err(error) => {
                    return Err(error);
                },
            }
        }
        Ok(panel)
    }

    /// Publishes a handle under the name of its definition. A handle that
    /// was there under that name is replaced as a whole.
    pub fn publish(&mut self, handle: DropletHandle)
        ensures
            final(self)@ == old(self)@.insert(handle@.definition.name(), handle@),
            keyed_by_name(final(self)@),
    {
        proof {
            use_type_invariant(&*self);
        }
        let name = handle.name().clone();
        live_map_insert(&mut self.droplets, name, Arc::new(handle));
    }

    /// Takes one entry more into the registry while the process starts: one
    /// step of [`ControlPanel::default`]. An entry without a handle ends the
    /// start: its error comes back, and the registry with it is gone.
    pub fn restore(self, entry: Result<DropletHandle, DropletError>) -> (r: Result<
        ControlPanel,
        DropletError,
    >)
        ensures
            match r {
                Ok(panel) => entry matches Ok(handle) && panel@ == self@.insert(
                    handle@.definition.name(),
                    handle@,
                ) && keyed_by_name(panel@),
                Err(error) => entry == Err::<DropletHandle, DropletError>(error),
            },
    {
        match entry {
            Ok(handle) => {
                let mut panel = self;
                panel.publish(handle);
                Ok(panel)
            },
            Err(error) => Err(error),
        }
    }

    /// Finds the droplet kept under a name.
    pub fn lookup(&self, name: &str) -> (r: Result<Arc<DropletHandle>, DropletError>)
        ensures
            match r {
                Ok(handle) => self@.contains_key(name@) && handle@ == self@[name@]
                    && handle@.definition.name() == name@,
                Err(error) => !self@.contains_key(name@) && error@
                    == DropletErrorView::DropletNotFound,
            },
    {
        proof {
            use_type_invariant(self);
        }
        match live_map_get(&self.droplets, name) {
            Some(handle) => Ok(handle),
            None => Err(DropletError::DropletNotFound),
        }
    }

    /// Starts a run of the droplet kept under a name. An unknown name is
    /// reported as such; the registry is only read.
    pub fn run_droplet(&self, name: &str) -> (r: Result<Invocation, DropletError>)
        ensures
            run_result_view(r) == started_run(self@, name@),
    {
        match self.lookup(name) {
            Err(error) => Err(error),
            Ok(handle) => handle.run(),
        }
    }

    /// Starts to create a droplet from what was submitted: a definition, or
    /// `None` where the submitted text was no definition. The first thing to
    /// do with a definition is to write it to the durable store; without one
    /// the creation has failed already, and nothing is written anywhere.
    pub fn create_droplet(definition: Option<RootConfig>) -> (op: CreateOp)
        ensures
            op@ == create_begin(
                match definition {
                    Some(config) => Some(config@),
                    None => None,
                },
            ),
    {
        match definition {
            Some(config) => CreateOp { stage: CreateStage::Persisting { config } },
            None => CreateOp {
                stage: CreateStage::Failed { error: DropletError::ConfigParseError },
            },
        }
    }
}

/// What a record of the durable store gives when the process starts.
///
/// `record` is `None` where the record could not be read, and holds `None`
/// where what was read is no definition.
pub open spec fn stored_entry(record: Option<Option<RootConfigView>>) -> Result<
    RootConfigView,
    DropletErrorView,
> {
    match record {
        None => Err(DropletErrorView::StorageError),
        Some(None) => Err(DropletErrorView::ConfigParseError),
        Some(Some(definition)) => Ok(definition),
    }
}

/// Tells a definition of the durable store from a record that could not be
/// read and from one that is no definition.
pub fn stored_definition(record: Option<Option<RootConfig>>) -> (r: Result<RootConfig, DropletError>)
    ensures
        match r {
            Ok(config) => record == Some(Some(config)),
            Err(error) => !(record matches Some(Some(_))) && error@ == if record is None {
                DropletErrorView::StorageError
            } else {
                DropletErrorView::ConfigParseError
            },
        },
{
    match record {
        None => Err(DropletError::StorageError),
        Some(None) => Err(DropletError::ConfigParseError),
        Some(Some(config)) => Ok(config),
    }
}

/// How far the creation of a droplet has come.
pub enum CreateStage {
    /// The definition is being written to the durable store.
    Persisting { config: RootConfig },
    /// The handle is being made.
    Building { build: HandleBuild },
    /// The handle could not be made: the durable store is being put back to
    /// what it held before.
    Restoring { error: DropletError },
    /// The handle is made and waits to be published.
    Ready { handle: DropletHandle },
    /// The creation has failed.
    Failed { error: DropletError },
}

pub enum CreateStageView {
    Persisting { definition: RootConfigView },
    Building { build: HandleBuildView },
    Restoring { error: DropletErrorView },
    Ready { handle: DropletHandleView },
    Failed { error: DropletErrorView },
}

impl View for CreateStage {
    type V = CreateStageView;

    open spec fn view(&self) -> CreateStageView {
        match self {
            CreateStage::Persisting { config } => CreateStageView::Persisting {
                definition: config@,
            },
            CreateStage::Building { build } => CreateStageView::Building { build: build@ },
            CreateStage::Restoring { error } => CreateStageView::Restoring { error: error@ },
            CreateStage::Ready { handle } => CreateStageView::Ready { handle: handle@ },
            CreateStage::Failed { error } => CreateStageView::Failed { error: error@ },
        }
    }
}

/// What the environment reports back.
pub enum CreateEvent {
    /// Whether the definition was written to the durable store.
    Persisted(bool),
    /// An answer to the making of the handle.
    Build(BuildEvent),
    /// Whether the durable store was put back to what it held before.
    Restored(bool),
}

pub enum CreateEventView {
    Persisted(bool),
    Build(BuildEventView),
    Restored(bool),
}

impl View for CreateEvent {
    type V = CreateEventView;

    open spec fn view(&self) -> CreateEventView {
        match self {
            CreateEvent::Persisted(done) => CreateEventView::Persisted(*done),
            CreateEvent::Build(event) => CreateEventView::Build(event@),
            CreateEvent::Restored(done) => CreateEventView::Restored(*done),
        }
    }
}

/// What the environment is to do next.
#[derive(Debug, Clone, Copy, PartialEq, Eq, Structural)]
pub enum CreateAction {
    /// Write the definition to the durable store under its name, and keep
    /// what was there under that name.
    Persist,
    /// Do what the making of the handle asks for.
    Build(BuildAction),
    /// Put back what the durable store held under the name before: the
    /// definition kept at `Persist`, or nothing.
    Restore,
    /// Publish the handle in the registry.
    Publish,
    /// Nothing: the creation has failed.
    Finish,
}

/// The creation at its start.
pub open spec fn create_begin(definition: Option<RootConfigView>) -> CreateStageView {
    match definition {
        Some(definition) => CreateStageView::Persisting { definition },
        None => CreateStageView::Failed { error: DropletErrorView::ConfigParseError },
    }
}

/// Where the creation stands once the making of the handle has taken a step:
/// ready with the handle, on the way back where the making has failed, and
/// still making otherwise.
pub open spec fn after_build(build: HandleBuildView) -> CreateStageView {
    match build.stage {
        BuildStageView::Built { artifact, component } => CreateStageView::Ready {
            handle: DropletHandleView { definition: build.definition, artifact, component },
        },
        BuildStageView::Failed { error } => CreateStageView::Restoring { error },
        _ => CreateStageView::Building { build },
    }
}

/// The step that a stage takes on an event.
///
/// The definition is written to the durable store before anything else, so
/// that no droplet is live that the store does not hold. Where the handle
/// cannot be made after that, the store is put back before the failure is
/// reported. An event that does not answer what the stage waits for leaves
/// the stage as it is.
pub open spec fn create_step(stage: CreateStageView, event: CreateEventView) -> CreateStageView {
    match (stage, event) {
        (CreateStageView::Persisting { definition }, CreateEventView::Persisted(true)) => {
            CreateStageView::Building {
                build: HandleBuildView { definition, stage: BuildStageView::Probing },
            }
        },
        (CreateStageView::Persisting { .. }, CreateEventView::Persisted(false)) => {
            CreateStageView::Failed { error: DropletErrorView::StorageError }
        },
        (CreateStageView::Building { build }, CreateEventView::Build(event)) => after_build(
            build.step(event),
        ),
        (CreateStageView::Restoring { error }, CreateEventView::Restored(true)) => {
            CreateStageView::Failed { error }
        },
        (CreateStageView::Restoring { .. }, CreateEventView::Restored(false)) => {
            CreateStageView::Failed { error: DropletErrorView::StorageError }
        },
        (stage, _) => stage,
    }
}

/// The creation after the compile step with an engine: where the making of
/// the handle waits for the compiler, the creation after the answer of that
/// engine's compiler to the source bytes at hand; at any other stage, the
/// creation as it is.
pub open spec fn create_compile_step(stage: CreateStageView, engine: Engine) -> CreateStageView {
    match stage {
        CreateStageView::Building {
            build: HandleBuildView { stage: BuildStageView::Compiling { source }, .. },
        } => create_step(
            stage,
            CreateEventView::Build(BuildEventView::Compiled(compiled(engine, source))),
        ),
        _ => stage,
    }
}

/// What a stage waits for.
pub open spec fn create_action(stage: CreateStageView) -> CreateAction {
    match stage {
        CreateStageView::Persisting { .. } => CreateAction::Persist,
        CreateStageView::Building { build } => CreateAction::Build(build.action()),
        CreateStageView::Restoring { .. } => CreateAction::Restore,
        CreateStageView::Ready { .. } => CreateAction::Publish,
        CreateStageView::Failed { .. } => CreateAction::Finish,
    }
}

/// The creation of one droplet.
pub struct CreateOp {
    stage: CreateStage,
}

impl View for CreateOp {
    type V = CreateStageView;

    closed spec fn view(&self) -> CreateStageView {
        self.stage@
    }
}

/// How the creation has ended, if it has.
pub enum CreateOutcome {
    /// It has not ended: the creation goes on.
    Pending(CreateOp),
    /// The handle is made: it is to be published.
    Ready(DropletHandle),
    /// The creation has failed.
    Failed(DropletError),
}

impl CreateOp {
    /// While the creation is at the stage `Building`, the making of the
    /// handle goes on: a made or a failed handle ends that stage.
    #[verifier::type_invariant]
    spec fn building_goes_on(self) -> bool {
        self.stage@ is Building ==> self.stage@->build.action() != BuildAction::Finish
    }

    /// What the environment is to do next.
    pub fn action(&self) -> (action: CreateAction)
        ensures
            action == create_action(self@),
    {
        match &self.stage {
            CreateStage::Persisting { .. } => CreateAction::Persist,
            CreateStage::Building { build } => CreateAction::Build(build.action()),
            CreateStage::Restoring { .. } => CreateAction::Restore,
            CreateStage::Ready { .. } => CreateAction::Publish,
            CreateStage::Failed { .. } => CreateAction::Finish,
        }
    }

    /// The definition that is to be written to the durable store.
    pub fn definition(&self) -> (definition: Option<&RootConfig>)
        ensures
            match definition {
                Some(config) => self@ == (CreateStageView::Persisting { definition: config@ }),
                None => !(self@ is Persisting),
            },
    {
        match &self.stage {
            CreateStage::Persisting { config } => Some(config),
            _ => None,
        }
    }

    /// The making of the handle, while it goes on.
    pub fn build(&self) -> (build: Option<&HandleBuild>)
        ensures
            match build {
                Some(build) => self@ == (CreateStageView::Building { build: build@ }),
                None => !(self@ is Building),
            },
    {
        match &self.stage {
            CreateStage::Building { build } => Some(build),
            _ => None,
        }
    }

    /// Takes the environment's answer and moves to the next stage.
    pub fn advance(self, event: CreateEvent) -> (next: CreateOp)
        ensures
            next@ == create_step(self@, event@),
    {
        proof {
            use_type_invariant(&self);
        }
        let stage = match (self.stage, event) {
            (CreateStage::Persisting { config }, CreateEvent::Persisted(true)) => {
                CreateStage::Building { build: DropletHandle::new(config) }
            },
            (CreateStage::Persisting { .. }, CreateEvent::Persisted(false)) => {
                CreateStage::Failed { error: DropletError::StorageError }
            },
            (CreateStage::Building { build }, CreateEvent::Build(event)) => stage_after_build(
                build.advance(event),
            ),
            (CreateStage::Restoring { error }, CreateEvent::Restored(true)) => {
                CreateStage::Failed { error }
            },
            (CreateStage::Restoring { .. }, CreateEvent::Restored(false)) => {
                CreateStage::Failed { error: DropletError::StorageError }
            },
            (stage, _) => stage,
        };
        CreateOp { stage }
    }

    /// Compiles the source bytes with `engine` where the creation waits for
    /// that, and takes the compiler's answer as its next event: with an
    /// artifact the creation goes on to write the cache, without one it is
    /// on the way back with a compile error. At any other stage nothing
    /// happens.
    pub fn compile(self, engine: &Engine) -> (next: CreateOp)
        ensures
            next@ == create_compile_step(self@, *engine),
    {
        proof {
            use_type_invariant(&self);
        }
        match self.stage {
            CreateStage::Building { build } => CreateOp {
                stage: stage_after_build(build.compile(engine)),
            },
            stage => CreateOp { stage },
        }
    }

    /// How the creation has ended, if it has.
    pub fn outcome(self) -> (outcome: CreateOutcome)
        ensures
            match outcome {
                CreateOutcome::Pending(op) => op@ == self@ && !(self@ is Ready) && !(self@
                    is Failed),
                CreateOutcome::Ready(handle) => self@ == (CreateStageView::Ready {
                    handle: handle@,
                }),
                CreateOutcome::Failed(error) => self@ == (CreateStageView::Failed {
                    error: error@,
                }),
            },
    {
        proof {
            use_type_invariant(&self);
        }
        match self.stage {
            CreateStage::Ready { handle } => CreateOutcome::Ready(handle),
            CreateStage::Failed { error } => CreateOutcome::Failed(error),
            stage => CreateOutcome::Pending(CreateOp { stage }),
        }
    }
}

/// The stage of the creation once the making of the handle has taken a step.
fn stage_after_build(build: HandleBuild) -> (stage: CreateStage)
    ensures
        stage@ == after_build(build@),
        stage@ is Building ==> stage@->build.action() != BuildAction::Finish,
{
    match build.outcome() {
        BuildOutcome::Pending(build) => CreateStage::Building { build },
        BuildOutcome::Built(handle) => CreateStage::Ready { handle },
        BuildOutcome::Failed(error) => CreateStage::Restoring { error },
    }
}

} // verus!
