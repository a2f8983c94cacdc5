//! A droplet ready to run, and the steps that make one from its definition.

use crate::config::{RootConfig, RootConfigView, Spec, SpecSource};
use crate::error::{DropletError, DropletErrorView};
use crate::foreign::{compiled, precompile_component};
use std::path::PathBuf;
use vstd::prelude::*;
use wasmtime::component::Component;
use wasmtime::Engine;

verus! {

/// A droplet that can be run: its definition and its loaded component.
///
/// A handle is never changed. A new definition under the same name makes a
/// new handle that takes the place of the old one.
pub struct DropletHandle {
    config: RootConfig,
    component: Component,
    artifact: Ghost<Seq<u8>>,
}

/// What a handle stands for: the definition, the bytes of the compiled
/// artifact, and the component that was loaded from them.
pub struct DropletHandleView {
    pub definition: RootConfigView,
    pub artifact: Seq<u8>,
    pub component: Component,
}

impl View for DropletHandle {
    type V = DropletHandleView;

    closed spec fn view(&self) -> DropletHandleView {
        DropletHandleView {
            definition: self.config@,
            artifact: self.artifact@,
            component: self.component,
        }
    }
}

impl DropletHandle {
    /// The definition that the handle was made of.
    pub fn config(&self) -> (config: &RootConfig)
        ensures
            config@ == self@.definition,
    {
        &self.config
    }

    /// Starts to make the handle of a definition. Nothing was looked at yet:
    /// the first thing to do is to ask whether the artifact cache holds the
    /// droplet's name.
    pub fn new(config: RootConfig) -> (build: HandleBuild)
        ensures
            build@ == (HandleBuildView { definition: config@, stage: BuildStageView::Probing }),
    {
        HandleBuild { config, stage: BuildStage::Probing }
    }

    /// The name under which the droplet is kept.
    pub fn name(&self) -> (name: &String)
        ensures
            name@ == self@.definition.name(),
    {
        &self.config.metadata.name
    }

    /// The loaded component.
    pub fn component(&self) -> (component: &Component)
        ensures
            *component == self@.component,
    {
        &self.component
    }
}

/// How far the making of a handle has come. Each stage but the last two
/// waits for one answer of the environment.
pub enum BuildStage {
    /// Is there a cached artifact under the droplet's name?
    Probing,
    /// There is one: its bytes are being read.
    ReadingCache,
    /// There is none: the source bytes are being read.
    ReadingSource,
    /// The source bytes are here and go to the compiler.
    Compiling { source: Vec<u8> },
    /// The artifact is compiled and is being written to the cache.
    WritingCache { artifact: Vec<u8> },
    /// The artifact is being loaded into a component.
    Loading { artifact: Vec<u8> },
    /// The component is loaded.
    Built { origin: Ghost<Seq<u8>>, component: Component },
    /// The making has failed.
    Failed { error: DropletError },
}

pub enum BuildStageView {
    Probing,
    ReadingCache,
    ReadingSource,
    Compiling { source: Seq<u8> },
    WritingCache { artifact: Seq<u8> },
    Loading { artifact: Seq<u8> },
    Built { artifact: Seq<u8>, component: Component },
    Failed { error: DropletErrorView },
}

impl View for BuildStage {
    type V = BuildStageView;

    open spec fn view(&self) -> BuildStageView {
        match self {
            BuildStage::Probing => BuildStageView::Probing,
            BuildStage::ReadingCache => BuildStageView::ReadingCache,
            BuildStage::ReadingSource => BuildStageView::ReadingSource,
            BuildStage::Compiling { source } => BuildStageView::Compiling { source: source@ },
            BuildStage::WritingCache { artifact } => BuildStageView::WritingCache {
                artifact: artifact@,
            },
            BuildStage::Loading { artifact } => BuildStageView::Loading { artifact: artifact@ },
            BuildStage::Built { origin, component } => BuildStageView::Built {
                artifact: origin@,
                component: *component,
            },
            BuildStage::Failed { error } => BuildStageView::Failed { error: error@ },
        }
    }
}

/// What the environment reports back. A `None`, or a `false` in
/// `CacheWritten`, says that it could not do what was asked.
pub enum BuildEvent {
    /// Whether the cache holds an artifact under the droplet's name.
    CacheProbed(Option<bool>),
    /// The bytes of the cached artifact.
    CacheRead(Option<Vec<u8>>),
    /// The source bytes.
    SourceRead(Option<Vec<u8>>),
    /// The artifact that the compiler made of the source bytes.
    Compiled(Option<Vec<u8>>),
    /// Whether the artifact was written to the cache.
    CacheWritten(bool),
    /// The component that the engine loaded from the artifact.
    ArtifactLoaded(Option<Component>),
}

pub enum BuildEventView {
    CacheProbed(Option<bool>),
    CacheRead(Option<Seq<u8>>),
    SourceRead(Option<Seq<u8>>),
    Compiled(Option<Seq<u8>>),
    CacheWritten(bool),
    ArtifactLoaded(Option<Component>),
}

/// The view of bytes that may be missing.
pub open spec fn bytes_view(bytes: Option<Vec<u8>>) -> Option<Seq<u8>> {
    match bytes {
        Some(bytes) => Some(bytes@),
        None => None,
    }
}

impl View for BuildEvent {
    type V = BuildEventView;

    open spec fn view(&self) -> BuildEventView {
        match self {
            BuildEvent::CacheProbed(present) => BuildEventView::CacheProbed(*present),
            BuildEvent::CacheRead(bytes) => BuildEventView::CacheRead(bytes_view(*bytes)),
            BuildEvent::SourceRead(bytes) => BuildEventView::SourceRead(bytes_view(*bytes)),
            BuildEvent::Compiled(bytes) => BuildEventView::Compiled(bytes_view(*bytes)),
            BuildEvent::CacheWritten(done) => BuildEventView::CacheWritten(*done),
            BuildEvent::ArtifactLoaded(component) => BuildEventView::ArtifactLoaded(*component),
        }
    }
}

/// What the environment is to do next.
#[derive(Debug, Clone, Copy, PartialEq, Eq, Structural)]
pub enum BuildAction {
    /// Say whether the cache holds an artifact under the droplet's name.
    ProbeCache,
    /// Read the cached artifact.
    ReadCache,
    /// Read the source bytes from the path that the definition names.
    ReadSource,
    /// Compile the source bytes.
    Compile,
    /// Write the artifact to the cache under the droplet's name.
    WriteCache,
    /// Load the artifact into a component.
    LoadArtifact,
    /// Nothing: the making has ended.
    Finish,
}

/// The step that a stage takes on an event.
///
/// A cache hit is trusted: the artifact is loaded as it is and the source is
/// not looked at. On a miss the source is read, compiled, and the artifact
/// written to the cache before it is loaded. An event that does not answer
/// what the stage waits for leaves the stage as it is.
pub open spec fn build_step(stage: BuildStageView, event: BuildEventView) -> BuildStageView {
    match (stage, event) {
        (BuildStageView::Probing, BuildEventView::CacheProbed(Some(true))) => {
            BuildStageView::ReadingCache
        },
        (BuildStageView::Probing, BuildEventView::CacheProbed(Some(false))) => {
            BuildStageView::ReadingSource
        },
        (BuildStageView::Probing, BuildEventView::CacheProbed(None)) => BuildStageView::Failed {
            error: DropletErrorView::CacheIOError,
        },
        (BuildStageView::ReadingCache, BuildEventView::CacheRead(Some(artifact))) => {
            BuildStageView::Loading { artifact }
        },
        (BuildStageView::ReadingCache, BuildEventView::CacheRead(None)) => BuildStageView::Failed {
            error: DropletErrorView::CacheIOError,
        },
        (BuildStageView::ReadingSource, BuildEventView::SourceRead(Some(source))) => {
            BuildStageView::Compiling { source }
        },
        (BuildStageView::ReadingSource, BuildEventView::SourceRead(None)) => {
            BuildStageView::Failed { error: DropletErrorView::SourceReadError }
        },
        (BuildStageView::Compiling { .. }, BuildEventView::Compiled(Some(artifact))) => {
            BuildStageView::WritingCache { artifact }
        },
        (BuildStageView::Compiling { .. }, BuildEventView::Compiled(None)) => {
            BuildStageView::Failed { error: DropletErrorView::CompileError }
        },
        (BuildStageView::WritingCache { artifact }, BuildEventView::CacheWritten(true)) => {
            BuildStageView::Loading { artifact }
        },
        (BuildStageView::WritingCache { .. }, BuildEventView::CacheWritten(false)) => {
            BuildStageView::Failed { error: DropletErrorView::CacheIOError }
        },
        (BuildStageView::Loading { artifact }, BuildEventView::ArtifactLoaded(Some(component))) => {
            BuildStageView::Built { artifact, component }
        },
        (BuildStageView::Loading { .. }, BuildEventView::ArtifactLoaded(None)) => {
            BuildStageView::Failed { error: DropletErrorView::CompileError }
        },
        (stage, _) => stage,
    }
}

/// What a stage waits for.
pub open spec fn build_action(stage: BuildStageView) -> BuildAction {
    match stage {
        BuildStageView::Probing => BuildAction::ProbeCache,
        BuildStageView::ReadingCache => BuildAction::ReadCache,
        BuildStageView::ReadingSource => BuildAction::ReadSource,
        BuildStageView::Compiling { .. } => BuildAction::Compile,
        BuildStageView::WritingCache { .. } => BuildAction::WriteCache,
        BuildStageView::Loading { .. } => BuildAction::LoadArtifact,
        BuildStageView::Built { .. } => BuildAction::Finish,
        BuildStageView::Failed { .. } => BuildAction::Finish,
    }
}

/// The making of one handle: the definition and the stage reached.
pub struct HandleBuild {
    config: RootConfig,
    stage: BuildStage,
}

pub struct HandleBuildView {
    pub definition: RootConfigView,
    pub stage: BuildStageView,
}

impl View for HandleBuild {
    type V = HandleBuildView;

    closed spec fn view(&self) -> HandleBuildView {
        HandleBuildView { definition: self.config@, stage: self.stage@ }
    }
}

impl HandleBuildView {
    /// The making after the compile step with an engine: where it waits for
    /// the compiler, the making after the answer of that engine's compiler to
    /// the source bytes at hand; at any other stage, the making as it is.
    pub open spec fn compile_step(self, engine: Engine) -> HandleBuildView {
        match self.stage {
            BuildStageView::Compiling { source } => self.step(
                BuildEventView::Compiled(compiled(engine, source)),
            ),
            _ => self,
        }
    }

    /// The making after one more event.
    pub open spec fn step(self, event: BuildEventView) -> HandleBuildView {
        HandleBuildView { definition: self.definition, stage: build_step(self.stage, event) }
    }

    /// What the environment is to do next.
    pub open spec fn action(self) -> BuildAction {
        build_action(self.stage)
    }

    /// The bytes that the pending action works on: the source for the
    /// compiler, the artifact for the cache and for the loader.
    pub open spec fn payload(self) -> Option<Seq<u8>> {
        match self.stage {
            BuildStageView::Compiling { source } => Some(source),
            BuildStageView::WritingCache { artifact } => Some(artifact),
            BuildStageView::Loading { artifact } => Some(artifact),
            _ => None,
        }
    }
}

/// How the making of a handle has ended, if it has.
pub enum BuildOutcome {
    /// It has not ended: the making goes on.
    Pending(HandleBuild),
    /// The handle is made.
    Built(DropletHandle),
    /// The making has failed.
    Failed(DropletError),
}

impl HandleBuild {
    /// What the environment is to do next.
    pub fn action(&self) -> (action: BuildAction)
        ensures
            action == self@.action(),
    {
        match &self.stage {
            BuildStage::Probing => BuildAction::ProbeCache,
            BuildStage::ReadingCache => BuildAction::ReadCache,
            BuildStage::ReadingSource => BuildAction::ReadSource,
            BuildStage::Compiling { .. } => BuildAction::Compile,
            BuildStage::WritingCache { .. } => BuildAction::WriteCache,
            BuildStage::Loading { .. } => BuildAction::LoadArtifact,
            BuildStage::Built { .. } => BuildAction::Finish,
            BuildStage::Failed { .. } => BuildAction::Finish,
        }
    }

    /// The name of the droplet: the key of its artifact in the cache.
    pub fn name(&self) -> (name: &String)
        ensures
            name@ == self@.definition.name(),
    {
        &self.config.metadata.name
    }

    /// The path of the file that holds the source bytes.
    pub fn source_path(&self) -> (path: &PathBuf)
        ensures
            *path == self@.definition.source_path(),
    {
        match &self.config.spec {
            Spec::Droplet { source, .. } => match source {
                SpecSource::File { path } => path,
            },
        }
    }

    /// The bytes that the pending action works on.
    pub fn payload(&self) -> (bytes: Option<&Vec<u8>>)
        ensures
            match bytes {
                Some(bytes) => self@.payload() == Some(bytes@),
                None => self@.payload() is None,
            },
    {
        match &self.stage {
            BuildStage::Compiling { source } => Some(source),
            BuildStage::WritingCache { artifact } => Some(artifact),
            BuildStage::Loading { artifact } => Some(artifact),
            _ => None,
        }
    }

    /// Takes the environment's answer and moves to the next stage.
    pub fn advance(self, event: BuildEvent) -> (next: HandleBuild)
        ensures
            next@ == self@.step(event@),
    {
        let HandleBuild { config, stage } = self;
        let stage = match (stage, event) {
            (BuildStage::Probing, BuildEvent::CacheProbed(Some(true))) => BuildStage::ReadingCache,
            (BuildStage::Probing, BuildEvent::CacheProbed(Some(false))) => {
                BuildStage::ReadingSource
            },
            (BuildStage::Probing, BuildEvent::CacheProbed(None)) => BuildStage::Failed {
                error: DropletError::CacheIOError,
            },
            (BuildStage::ReadingCache, BuildEvent::CacheRead(Some(artifact))) => {
                BuildStage::Loading { artifact }
            },
            (BuildStage::ReadingCache, BuildEvent::CacheRead(None)) => BuildStage::Failed {
                error: DropletError::CacheIOError,
            },
            (BuildStage::ReadingSource, BuildEvent::SourceRead(Some(source))) => {
                BuildStage::Compiling { source }
            },
            (BuildStage::ReadingSource, BuildEvent::SourceRead(None)) => BuildStage::Failed {
                error: DropletError::SourceReadError,
            },
            (BuildStage::Compiling { .. }, BuildEvent::Compiled(Some(artifact))) => {
                BuildStage::WritingCache { artifact }
            },
            (BuildStage::Compiling { .. }, BuildEvent::Compiled(None)) => BuildStage::Failed {
                error: DropletError::CompileError,
            },
            (BuildStage::WritingCache { artifact }, BuildEvent::CacheWritten(true)) => {
                BuildStage::Loading { artifact }
            },
            (BuildStage::WritingCache { .. }, BuildEvent::CacheWritten(false)) => {
                BuildStage::Failed { error: DropletError::CacheIOError }
            },
            (BuildStage::Loading { artifact }, BuildEvent::ArtifactLoaded(Some(component))) => {
                BuildStage::Built { origin: Ghost(artifact@), component }
            },
            (BuildStage::Loading { .. }, BuildEvent::ArtifactLoaded(None)) => BuildStage::Failed {
                error: DropletError::CompileError,
            },
            (stage, _) => stage,
        };
        HandleBuild { config, stage }
    }

    /// Compiles the source bytes with `engine` where the making waits for
    /// that, and takes the compiler's answer as its next event: with an
    /// artifact the making goes on to write the cache, without one it has
    /// failed with a compile error. At any other stage nothing happens.
    pub fn compile(self, engine: &Engine) -> (next: HandleBuild)
        ensures
            next@ == self@.compile_step(*engine),
    {
        let event = match &self.stage {
            BuildStage::Compiling { source } => compile_source(engine, source.as_slice()),
            _ => {
                return self;
            },
        };
        self.advance(event)
    }

    /// How the making has ended, if it has.
    pub fn outcome(self) -> (outcome: BuildOutcome)
        ensures
            match outcome {
                BuildOutcome::Pending(build) => build@ == self@ && self@.action()
                    != BuildAction::Finish,
                BuildOutcome::Built(handle) => self@.stage == (BuildStageView::Built {
                    artifact: handle@.artifact,
                    component: handle@.component,
                }) && handle@.definition == self@.definition,
                BuildOutcome::Failed(error) => self@.stage == (BuildStageView::Failed {
                    error: error@,
                }),
            },
    {
        let HandleBuild { config, stage } = self;
        match stage {
            BuildStage::Built { origin, component } => BuildOutcome::Built(
                DropletHandle { config, component, artifact: origin },
            ),
            BuildStage::Failed { error } => BuildOutcome::Failed(error),
            stage => BuildOutcome::Pending(HandleBuild { config, stage }),
        }
    }
}

/// Compiles source bytes and tells the outcome as an event: the artifact, or
/// that there is none.
pub fn compile_source(engine: &Engine, source: &[u8]) -> (event: BuildEvent)
    ensures
        event@ == BuildEventView::Compiled(compiled(*engine, source@)),
{
    compiled_event(precompile_component(engine, source))
}

/// What the compiler's answer is as an event: the artifact that it made, or
/// that it made none.
pub open spec fn compiled_view(answer: Result<Vec<u8>, anyhow::Error>) -> BuildEventView {
    match answer {
        Ok(artifact) => BuildEventView::Compiled(Some(artifact@)),
        Err(_) => BuildEventView::Compiled(None),
    }
}

/// Tells the compiler's answer as an event. Why the compiler refused is not
/// kept: a refusal of any kind is a compile error.
pub fn compiled_event(answer: Result<Vec<u8>, anyhow::Error>) -> (event: BuildEvent)
    ensures
        event@ == compiled_view(answer),
{
    match answer {
        Ok(artifact) => BuildEvent::Compiled(Some(artifact)),
        Err(_) => BuildEvent::Compiled(None),
    }
}

/// A making that has ended stays as it is, whatever is reported to it.
pub proof fn lemma_build_end_is_final(build: HandleBuildView, event: BuildEventView)
    requires
        build.action() == BuildAction::Finish,
    ensures
        build.step(event) == build,
{
}

/// Takes the compiler's answer for the making that waits for it: an artifact
/// goes on to the cache, a refusal is a compile error.
pub proof fn lemma_compiled(build: HandleBuildView, outcome: Option<Seq<u8>>)
    requires
        build.action() == BuildAction::Compile,
    ensures
        build.step(BuildEventView::Compiled(outcome)).stage == match outcome {
            Some(artifact) => BuildStageView::WritingCache { artifact },
            None => BuildStageView::Failed { error: DropletErrorView::CompileError },
        },
{
}

} // verus!
