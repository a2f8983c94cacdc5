//! Where the control plane keeps its files, and the engine it compiles with.

use crate::foreign::{join_path, path_below};
use std::path::PathBuf;
use vstd::prelude::*;
use wasmtime::Engine;

verus! {

/// The directories of the control plane: the root, and below it one for the
/// compiled artifacts and one for configuration.
pub struct StorageContext {
    pub root_dir: PathBuf,
    pub artifact_dir: PathBuf,
    pub config_dir: PathBuf,
}

impl StorageContext {
    /// Creates the layout below a root: the paths of the directories. To
    /// make the directories on disk is left to the caller.
    pub fn create(root_dir: PathBuf) -> (storage: StorageContext)
        ensures
            storage.root_dir == root_dir,
            storage.artifact_dir == path_below(root_dir, "artifacts"@),
            storage.config_dir == path_below(root_dir, "config"@),
    {
        StorageContext {
            artifact_dir: join_path(&root_dir, "artifacts"),
            config_dir: join_path(&root_dir, "config"),
            root_dir,
        }
    }

    /// The file that holds the compiled artifact of the droplet of a name:
    /// the file of that name in the directory of the artifacts. So one name
    /// has one file, whenever and however often it is asked for.
    pub fn artifact_path(&self, name: &str) -> (path: PathBuf)
        ensures
            path == path_below(self.artifact_dir, name@),
    {
        join_path(&self.artifact_dir, name)
    }
}

/// What the making of every handle needs: the storage layout and the engine.
pub struct ControlContext {
    storage: StorageContext,
    engine: Engine,
}

impl ControlContext {
    /// The storage layout, as given to [`ControlContext::new`].
    pub closed spec fn storage_of(&self) -> StorageContext {
        self.storage
    }

    /// The engine, as given to [`ControlContext::new`].
    pub closed spec fn engine_of(&self) -> Engine {
        self.engine
    }

    /// Puts a storage layout and an engine together.
    pub fn new(storage: StorageContext, engine: Engine) -> (cx: ControlContext)
        ensures
            cx.storage_of() == storage,
            cx.engine_of() == engine,
    {
        ControlContext { storage, engine }
    }

    /// The engine that compiles and loads the droplets.
    pub fn engine(&self) -> (engine: &Engine)
        ensures
            *engine == self.engine_of(),
    {
        &self.engine
    }

    /// The storage layout.
    pub fn storage(&self) -> (storage: &StorageContext)
        ensures
            *storage == self.storage_of(),
    {
        &self.storage
    }
}

} // verus!
