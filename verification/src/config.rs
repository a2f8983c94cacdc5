//! The data model of a droplet definition.
//!
//! Each type has a view that holds its content as mathematical values:
//! texts as `Seq<char>`, lists as `Seq`. A path stands in a view as it is:
//! nothing is known of a path but which path it is. Contracts elsewhere
//! speak of a definition through these views.

use std::path::PathBuf;
use vstd::prelude::*;

verus! {

/// An environment variable handed to the droplet.
#[derive(Debug, Clone)]
pub struct RuntimeEnv {
    pub name: String,
    pub value: String,
}

pub struct RuntimeEnvView {
    pub name: Seq<char>,
    pub value: Seq<char>,
}

impl View for RuntimeEnv {
    type V = RuntimeEnvView;

    open spec fn view(&self) -> RuntimeEnvView {
        RuntimeEnvView { name: self.name@, value: self.value@ }
    }
}

impl DeepView for RuntimeEnv {
    type V = RuntimeEnvView;

    open spec fn deep_view(&self) -> RuntimeEnvView {
        self@
    }
}

/// A directory of the host made visible to the droplet. Declared in a
/// definition and kept with it; the sandbox does not enforce it.
#[derive(Debug, Clone)]
pub struct RuntimeFilesystemMount {
    pub name: String,
    pub guest_path: String,
    pub host_path: String,
    pub read_only: bool,
}

pub struct RuntimeFilesystemMountView {
    pub name: Seq<char>,
    pub guest_path: Seq<char>,
    pub host_path: Seq<char>,
    pub read_only: bool,
}

impl View for RuntimeFilesystemMount {
    type V = RuntimeFilesystemMountView;

    open spec fn view(&self) -> RuntimeFilesystemMountView {
        RuntimeFilesystemMountView {
            name: self.name@,
            guest_path: self.guest_path@,
            host_path: self.host_path@,
            read_only: self.read_only,
        }
    }
}

impl DeepView for RuntimeFilesystemMount {
    type V = RuntimeFilesystemMountView;

    open spec fn deep_view(&self) -> RuntimeFilesystemMountView {
        self@
    }
}

/// The hosts that the droplet may reach. Declared in a definition and kept
/// with it; the sandbox does not enforce it.
#[derive(Debug, Clone)]
pub struct RuntimeNetwork {
    pub allowed_hosts: Vec<String>,
}

pub struct RuntimeNetworkView {
    pub allowed_hosts: Seq<Seq<char>>,
}

impl View for RuntimeNetwork {
    type V = RuntimeNetworkView;

    open spec fn view(&self) -> RuntimeNetworkView {
        RuntimeNetworkView { allowed_hosts: self.allowed_hosts.deep_view() }
    }
}

impl DeepView for RuntimeNetwork {
    type V = RuntimeNetworkView;

    open spec fn deep_view(&self) -> RuntimeNetworkView {
        self@
    }
}

/// The resource budgets of a droplet, each a quantity text such as `128Mi`.
#[derive(Debug, Clone)]
pub struct RuntimeResources {
    pub memory: String,
    pub cpu: String,
}

pub struct RuntimeResourcesView {
    pub memory: Seq<char>,
    pub cpu: Seq<char>,
}

impl View for RuntimeResources {
    type V = RuntimeResourcesView;

    open spec fn view(&self) -> RuntimeResourcesView {
        RuntimeResourcesView { memory: self.memory@, cpu: self.cpu@ }
    }
}

/// What a droplet gets at run time.
#[derive(Debug, Clone)]
pub struct SpecRuntime {
    pub env: Option<Vec<RuntimeEnv>>,
    pub filesystem: Option<Vec<RuntimeFilesystemMount>>,
    pub network: Option<RuntimeNetwork>,
    pub resources: RuntimeResources,
}

pub struct SpecRuntimeView {
    pub env: Option<Seq<RuntimeEnvView>>,
    pub filesystem: Option<Seq<RuntimeFilesystemMountView>>,
    pub network: Option<RuntimeNetworkView>,
    pub resources: RuntimeResourcesView,
}

impl View for SpecRuntime {
    type V = SpecRuntimeView;

    open spec fn view(&self) -> SpecRuntimeView {
        SpecRuntimeView {
            env: self.env.deep_view(),
            filesystem: self.filesystem.deep_view(),
            network: self.network.deep_view(),
            resources: self.resources@,
        }
    }
}

/// A secret made visible to the droplet at a path. Declared in a definition
/// and kept with it; the sandbox does not provide it.
#[derive(Debug, Clone)]
pub struct SpecSecret {
    pub name: String,
    pub mount_path: PathBuf,
}

pub struct SpecSecretView {
    pub name: Seq<char>,
    pub mount_path: PathBuf,
}

impl View for SpecSecret {
    type V = SpecSecretView;

    open spec fn view(&self) -> SpecSecretView {
        SpecSecretView { name: self.name@, mount_path: self.mount_path }
    }
}

impl DeepView for SpecSecret {
    type V = SpecSecretView;

    open spec fn deep_view(&self) -> SpecSecretView {
        self@
    }
}

/// Where the compilable bytes of a droplet come from. A file path is the one
/// kind of source there is.
#[derive(Debug, Clone)]
pub enum SpecSource {
    File { path: PathBuf },
}

pub enum SpecSourceView {
    File { path: PathBuf },
}

impl View for SpecSource {
    type V = SpecSourceView;

    open spec fn view(&self) -> SpecSourceView {
        match self {
            SpecSource::File { path } => SpecSourceView::File { path: *path },
        }
    }
}

/// The name under which a droplet is kept and run.
#[derive(Debug, Clone)]
pub struct Metadata {
    pub name: String,
}

pub struct MetadataView {
    pub name: Seq<char>,
}

impl View for Metadata {
    type V = MetadataView;

    open spec fn view(&self) -> MetadataView {
        MetadataView { name: self.name@ }
    }
}

/// What a definition defines. A droplet is the one kind there is.
#[derive(Debug, Clone)]
pub enum Spec {
    Droplet { source: SpecSource, runtime: SpecRuntime, secrets: Vec<SpecSecret> },
}

pub enum SpecView {
    Droplet { source: SpecSourceView, runtime: SpecRuntimeView, secrets: Seq<SpecSecretView> },
}

impl View for Spec {
    type V = SpecView;

    open spec fn view(&self) -> SpecView {
        match self {
            Spec::Droplet { source, runtime, secrets } => SpecView::Droplet {
                source: source@,
                runtime: runtime@,
                secrets: secrets.deep_view(),
            },
        }
    }
}

impl Spec {
    /// The three parts of a droplet definition. Every definition has them.
    pub fn as_droplet(&self) -> (parts: Option<(&SpecSource, &SpecRuntime, &Vec<SpecSecret>)>)
        ensures
            parts matches Some((source, runtime, secrets)) && *self == (Spec::Droplet {
                source: *source,
                runtime: *runtime,
                secrets: *secrets,
            }),
    {
        match self {
            Spec::Droplet { source, runtime, secrets } => Some((source, runtime, secrets)),
        }
    }
}

/// A droplet definition: what is submitted to create a droplet, and what is
/// kept to bring it back after a restart.
#[derive(Debug, Clone)]
pub struct RootConfig {
    pub api_version: String,
    pub metadata: Metadata,
    pub spec: Spec,
}

pub struct RootConfigView {
    pub api_version: Seq<char>,
    pub metadata: MetadataView,
    pub spec: SpecView,
}

impl View for RootConfig {
    type V = RootConfigView;

    open spec fn view(&self) -> RootConfigView {
        RootConfigView {
            api_version: self.api_version@,
            metadata: self.metadata@,
            spec: self.spec@,
        }
    }
}

impl RootConfigView {
    /// The name under which the definition is kept.
    pub open spec fn name(self) -> Seq<char> {
        self.metadata.name
    }

    /// The path of the file that holds the droplet's compilable bytes.
    pub open spec fn source_path(self) -> PathBuf {
        match self.spec {
            SpecView::Droplet { source: SpecSourceView::File { path }, .. } => path,
        }
    }

    /// What the droplet gets at run time.
    pub open spec fn runtime(self) -> SpecRuntimeView {
        match self.spec {
            SpecView::Droplet { runtime, .. } => runtime,
        }
    }
}

} // verus!
