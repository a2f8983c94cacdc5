use mistctr::config::{Metadata, RootConfig, RuntimeResources, Spec, SpecRuntime, SpecSource};
use mistctr::droplet::{BuildAction, BuildEvent, DropletHandle};
use mistctr::error::DropletError;
use mistctr::invocation::{RunEvent, RunOutcome};
use mistctr::limits::GrowthVerdict;
use mistctr::quantity::QuantityParseError;
use mistctr::registry::{
    stored_definition, ControlPanel, CreateAction, CreateEvent, CreateOp, CreateOutcome,
};
use mistctr::storage::{ControlContext, StorageContext};
use std::path::PathBuf;
use wasmtime::component::Component;
use wasmtime::Engine;

const TINY_COMPONENT: [u8; 8] = [0x00, 0x61, 0x73, 0x6d, 0x0d, 0x00, 0x01, 0x00];

fn droplet(name: &str, memory: &str, source: &str) -> RootConfig {
    RootConfig {
        api_version: "v1".to_string(),
        metadata: Metadata { name: name.to_string() },
        spec: Spec::Droplet {
            source: SpecSource::File { path: PathBuf::from(source) },
            runtime: SpecRuntime {
                env: None,
                filesystem: None,
                network: None,
                resources: RuntimeResources { memory: memory.to_string(), cpu: "1".to_string() },
            },
            secrets: vec![],
        },
    }
}

fn component() -> Component {
    Component::new(&Engine::default(), TINY_COMPONENT).expect("the empty component compiles")
}

fn create_with_cold_cache(config: RootConfig) -> CreateOp {
    ControlPanel::create_droplet(Some(config))
        .advance(CreateEvent::Persisted(true))
        .advance(CreateEvent::Build(BuildEvent::CacheProbed(Some(false))))
        .advance(CreateEvent::Build(BuildEvent::SourceRead(Some(TINY_COMPONENT.to_vec()))))
        .compile(&Engine::default())
        .advance(CreateEvent::Build(BuildEvent::CacheWritten(true)))
        .advance(CreateEvent::Build(BuildEvent::ArtifactLoaded(Some(component()))))
}

fn create_with_warm_cache(config: RootConfig) -> CreateOp {
    ControlPanel::create_droplet(Some(config))
        .advance(CreateEvent::Persisted(true))
        .advance(CreateEvent::Build(BuildEvent::CacheProbed(Some(true))))
        .advance(CreateEvent::Build(BuildEvent::CacheRead(Some(vec![1, 2, 3]))))
        .advance(CreateEvent::Build(BuildEvent::ArtifactLoaded(Some(component()))))
}

fn made(op: CreateOp) -> DropletHandle {
    match op.outcome() {
        CreateOutcome::Ready(handle) => handle,
        CreateOutcome::Failed(error) => panic!("the creation failed: {error:?}"),
        CreateOutcome::Pending(_) => panic!("the creation has not ended"),
    }
}

fn failure(op: CreateOp) -> DropletError {
    match op.outcome() {
        CreateOutcome::Failed(error) => error,
        _ => panic!("the creation has not failed"),
    }
}

fn stdout_of(panel: &ControlPanel, name: &str, output: &[u8]) -> String {
    let run = match panel.run_droplet(name) {
        Ok(run) => run,
        Err(error) => panic!("the run did not start: {error:?}"),
    };
    let run = run
        .advance(RunEvent::Instantiated(true))
        .advance(RunEvent::EntryLocated(true))
        .advance(RunEvent::Completed(None))
        .advance(RunEvent::Output(Some(output.to_vec())));
    match run.outcome() {
        RunOutcome::Done(result) => result.stdout,
        _ => panic!("the run did not end with a result"),
    }
}

#[test]
fn scenario_echo_is_created_and_run() {
    let mut panel = ControlPanel::new();
    let op = create_with_cold_cache(droplet("echo", "128Mi", "/srv/echo.wasm"));
    assert_eq!(op.action(), CreateAction::Publish);
    panel.publish(made(op));
    assert_eq!(stdout_of(&panel, "echo", b"hi\n"), "hi\n");
}

#[test]
fn scenario_malformed_definition_changes_nothing() {
    let op = ControlPanel::create_droplet(None);
    assert_eq!(op.action(), CreateAction::Finish);
    assert!(op.definition().is_none());
    assert!(op.build().is_none());
    let op = op.advance(CreateEvent::Persisted(true));
    assert_eq!(op.action(), CreateAction::Finish);
    let error = failure(op);
    assert_eq!(error, DropletError::ConfigParseError);
    assert_eq!(error.status(), 400);
    let panel = ControlPanel::new();
    assert_eq!(panel.lookup("echo").err(), Some(DropletError::DropletNotFound));
}

#[test]
fn creation_persists_before_anything_else() {
    let op = ControlPanel::create_droplet(Some(droplet("echo", "128Mi", "/srv/echo.wasm")));
    assert_eq!(op.action(), CreateAction::Persist);
    assert_eq!(op.definition().expect("a definition to persist").metadata.name, "echo");
    let op = op.advance(CreateEvent::Build(BuildEvent::CacheProbed(Some(true))));
    assert_eq!(op.action(), CreateAction::Persist);
    let op = op.advance(CreateEvent::Persisted(true));
    assert_eq!(op.action(), CreateAction::Build(BuildAction::ProbeCache));
    assert!(op.definition().is_none());
    let build = op.build().expect("a handle in the making");
    assert_eq!(build.name(), "echo");
    assert_eq!(build.source_path(), &PathBuf::from("/srv/echo.wasm"));
}

#[test]
fn storage_failure_ends_the_creation() {
    let op = ControlPanel::create_droplet(Some(droplet("echo", "128Mi", "echo.wasm")))
        .advance(CreateEvent::Persisted(false));
    assert_eq!(op.action(), CreateAction::Finish);
    let error = failure(op);
    assert_eq!(error, DropletError::StorageError);
    assert_eq!(error.status(), 500);
}

#[test]
fn failed_build_puts_the_store_back() {
    let op = ControlPanel::create_droplet(Some(droplet("echo", "128Mi", "missing.wasm")))
        .advance(CreateEvent::Persisted(true))
        .advance(CreateEvent::Build(BuildEvent::CacheProbed(Some(false))))
        .advance(CreateEvent::Build(BuildEvent::SourceRead(None)));
    assert_eq!(op.action(), CreateAction::Restore);
    assert!(matches!(op.outcome(), CreateOutcome::Pending(_)));

    let restored = ControlPanel::create_droplet(Some(droplet("echo", "128Mi", "missing.wasm")))
        .advance(CreateEvent::Persisted(true))
        .advance(CreateEvent::Build(BuildEvent::CacheProbed(Some(false))))
        .advance(CreateEvent::Build(BuildEvent::SourceRead(None)))
        .advance(CreateEvent::Restored(true));
    assert_eq!(failure(restored), DropletError::SourceReadError);

    let stuck = ControlPanel::create_droplet(Some(droplet("echo", "128Mi", "missing.wasm")))
        .advance(CreateEvent::Persisted(true))
        .advance(CreateEvent::Build(BuildEvent::CacheProbed(None)))
        .advance(CreateEvent::Restored(false));
    assert_eq!(failure(stuck), DropletError::StorageError);
}

#[test]
fn compile_failure_is_reported_after_the_store_is_put_back() {
    let op = ControlPanel::create_droplet(Some(droplet("echo", "128Mi", "echo.wasm")))
        .advance(CreateEvent::Persisted(true))
        .advance(CreateEvent::Build(BuildEvent::CacheProbed(Some(false))))
        .advance(CreateEvent::Build(BuildEvent::SourceRead(Some(b"garbage".to_vec()))));
    assert_eq!(op.action(), CreateAction::Build(BuildAction::Compile));
    let op = op.compile(&Engine::default());
    assert_eq!(op.action(), CreateAction::Restore);
    assert_eq!(failure(op.advance(CreateEvent::Restored(true))), DropletError::CompileError);
}

#[test]
fn compile_is_a_no_op_where_it_is_not_due() {
    let op = ControlPanel::create_droplet(Some(droplet("echo", "128Mi", "echo.wasm")));
    let op = op.compile(&Engine::default());
    assert_eq!(op.action(), CreateAction::Persist);
    let op = ControlPanel::create_droplet(None).compile(&Engine::default());
    assert_eq!(failure(op), DropletError::ConfigParseError);
}

#[test]
fn unknown_name_is_not_found() {
    let mut panel = ControlPanel::new();
    assert_eq!(panel.lookup("nonexistent").err(), Some(DropletError::DropletNotFound));
    match panel.run_droplet("nonexistent") {
        Err(error) => {
            assert_eq!(error, DropletError::DropletNotFound);
            assert_eq!(error.status(), 404);
            assert_eq!(error.message(), "Droplet does not exist.");
        }
        Ok(_) => panic!("a run started for an unknown name"),
    }
    panel.publish(made(create_with_warm_cache(droplet("echo", "128Mi", "echo.wasm"))));
    assert_eq!(panel.lookup("nonexistent").err(), Some(DropletError::DropletNotFound));
    assert_eq!(panel.lookup("ech").err(), Some(DropletError::DropletNotFound));
    assert_eq!(panel.lookup("Echo").err(), Some(DropletError::DropletNotFound));
    assert!(panel.lookup("echo").is_ok());
}

#[test]
fn second_create_replaces_the_first() {
    let mut panel = ControlPanel::new();
    panel.publish(made(create_with_cold_cache(droplet("echo", "64Ki", "/srv/old.wasm"))));
    panel.publish(made(create_with_warm_cache(droplet("echo", "128Ki", "/srv/new.wasm"))));
    let handle = panel.lookup("echo").expect("the droplet is kept");
    assert_eq!(handle.config().metadata.name, "echo");
    match &handle.config().spec {
        Spec::Droplet { source: SpecSource::File { path }, runtime, .. } => {
            assert_eq!(path, &PathBuf::from("/srv/new.wasm"));
            assert_eq!(runtime.resources.memory, "128Ki");
        }
    }
    let run = panel.run_droplet("echo").ok().expect("the run starts");
    assert_eq!(run.context().limits.check_memory_growth(131072, None), GrowthVerdict::Allow);
    assert_eq!(run.context().limits.check_memory_growth(131073, None), GrowthVerdict::Deny);
    assert_eq!(stdout_of(&panel, "echo", b"new"), "new");
}

#[test]
fn droplets_of_other_names_are_left_alone() {
    let mut panel = ControlPanel::new();
    panel.publish(made(create_with_warm_cache(droplet("a", "1Ki", "a.wasm"))));
    panel.publish(made(create_with_warm_cache(droplet("b", "2Ki", "b.wasm"))));
    panel.publish(made(create_with_warm_cache(droplet("a", "3Ki", "a2.wasm"))));
    assert_eq!(panel.lookup("b").unwrap().config().metadata.name, "b");
    match &panel.lookup("b").unwrap().config().spec {
        Spec::Droplet { runtime, .. } => assert_eq!(runtime.resources.memory, "2Ki"),
    }
    match &panel.lookup("a").unwrap().config().spec {
        Spec::Droplet { runtime, .. } => assert_eq!(runtime.resources.memory, "3Ki"),
    }
}

#[test]
fn restart_brings_the_droplets_back() {
    let mut before = ControlPanel::new();
    before.publish(made(create_with_cold_cache(droplet("echo", "128Mi", "/srv/echo.wasm"))));
    assert_eq!(stdout_of(&before, "echo", b"hi\n"), "hi\n");

    let rebuilt = DropletHandle::new(droplet("echo", "128Mi", "/srv/echo.wasm"))
        .advance(BuildEvent::CacheProbed(Some(true)))
        .advance(BuildEvent::CacheRead(Some(vec![1, 2, 3])))
        .advance(BuildEvent::ArtifactLoaded(Some(component())));
    let entry = match rebuilt.outcome() {
        mistctr::droplet::BuildOutcome::Built(handle) => Ok(handle),
        _ => panic!("the handle was not made again"),
    };
    let after = match ControlPanel::new().restore(entry) {
        Ok(panel) => panel,
        Err(error) => panic!("the start failed: {error:?}"),
    };
    assert_eq!(stdout_of(&after, "echo", b"hi\n"), "hi\n");
}

#[test]
fn start_fails_as_a_whole_on_a_bad_entry() {
    let good = made(create_with_warm_cache(droplet("good", "1Ki", "good.wasm")));
    let panel = match ControlPanel::new().restore(Ok(good)) {
        Ok(panel) => panel,
        Err(error) => panic!("the start failed: {error:?}"),
    };
    assert!(panel.lookup("good").is_ok());
    match panel.restore(Err(DropletError::CacheIOError)) {
        Err(error) => assert_eq!(error, DropletError::CacheIOError),
        Ok(_) => panic!("the start went on past a bad entry"),
    }
    match ControlPanel::new().restore(Err(DropletError::ConfigParseError)) {
        Err(error) => assert_eq!(error, DropletError::ConfigParseError),
        Ok(_) => panic!("the start went on past a bad entry"),
    }
}

#[test]
fn bad_budget_is_reported_when_the_droplet_is_run() {
    let mut panel = ControlPanel::new();
    panel.publish(made(create_with_warm_cache(droplet("greedy", "all", "g.wasm"))));
    match panel.run_droplet("greedy") {
        Err(error) => {
            assert_eq!(error, DropletError::QuantityParseError(QuantityParseError::InvalidFormat));
            assert_eq!(error.status(), 500);
            assert_eq!(error.message(), "Invalid quantity format.");
        }
        Ok(_) => panic!("the run started"),
    }
}

#[test]
fn every_error_has_status_and_message() {
    let trap = DropletError::ExecutionTrap { cause: "unreachable".to_string() };
    let all = [
        (DropletError::ConfigParseError, 400, "Malformed droplet definition."),
        (
            DropletError::QuantityParseError(QuantityParseError::InvalidUnit),
            500,
            "Invalid quantity unit.",
        ),
        (DropletError::SourceReadError, 500, "Failed to read the droplet source."),
        (DropletError::CompileError, 500, "Failed to compile the droplet."),
        (DropletError::CacheIOError, 500, "Failed to access the artifact cache."),
        (DropletError::InstantiationError, 500, "Failed to instantiate the droplet."),
        (DropletError::HandlerNotFound, 500, "The droplet exports no handler."),
        (trap, 500, "The droplet trapped."),
        (DropletError::OutputDecodeError, 500, "The droplet output is not UTF-8."),
        (DropletError::DropletNotFound, 404, "Droplet does not exist."),
        (DropletError::StorageError, 500, "The droplet store failed."),
    ];
    for (error, status, message) in all.iter() {
        assert_eq!(error.status(), *status);
        assert_eq!(error.message(), *message);
    }
}

#[test]
fn storage_layout_hangs_below_the_root() {
    let storage = StorageContext::create(PathBuf::from("/var/lib/mist"));
    assert_eq!(storage.root_dir, PathBuf::from("/var/lib/mist"));
    assert_eq!(storage.artifact_dir, PathBuf::from("/var/lib/mist").join("artifacts"));
    assert_eq!(storage.config_dir, PathBuf::from("/var/lib/mist").join("config"));
    assert_eq!(
        storage.artifact_path("echo"),
        PathBuf::from("/var/lib/mist").join("artifacts").join("echo")
    );
    let cx = ControlContext::new(storage, Engine::default());
    assert_eq!(cx.storage().root_dir, PathBuf::from("/var/lib/mist"));
    assert!(cx.engine().precompile_component(&TINY_COMPONENT).is_ok());
}

#[test]
fn trap_is_described_with_its_cause() {
    let trap = DropletError::ExecutionTrap { cause: "wasm trap: unreachable".to_string() };
    assert_eq!(trap.describe(), "The droplet trapped. wasm trap: unreachable");
    assert_eq!(DropletError::DropletNotFound.describe(), "Droplet does not exist.");
    assert_eq!(
        DropletError::QuantityParseError(QuantityParseError::InvalidUnit).describe(),
        "Invalid quantity unit."
    );
}

#[test]
fn stored_records_are_told_apart() {
    assert_eq!(stored_definition(None).err(), Some(DropletError::StorageError));
    assert_eq!(stored_definition(Some(None)).err(), Some(DropletError::ConfigParseError));
    let kept = stored_definition(Some(Some(droplet("echo", "1Ki", "echo.wasm"))));
    assert_eq!(kept.expect("a definition").metadata.name, "echo");
}

#[test]
fn definition_clone_keeps_every_part() {
    let config = droplet("echo", "1Ki", "/srv/echo.wasm");
    let copy = config.clone();
    assert_eq!(copy.api_version, "v1");
    assert_eq!(copy.metadata.name, "echo");
    match (&config.spec, &copy.spec) {
        (
            Spec::Droplet { source: SpecSource::File { path: a }, runtime: ra, .. },
            Spec::Droplet { source: SpecSource::File { path: b }, runtime: rb, .. },
        ) => {
            assert_eq!(a, b);
            assert_eq!(b, &PathBuf::from("/srv/echo.wasm"));
            assert_eq!(ra.resources.memory, rb.resources.memory);
        }
    }
}

#[test]
fn one_name_has_one_artifact_file() {
    let storage = StorageContext::create(PathBuf::from("/var/lib/mist"));
    assert_eq!(storage.artifact_path("echo"), storage.artifact_path("echo"));
    assert_ne!(storage.artifact_path("echo"), storage.artifact_path("other"));
    assert_eq!(storage.artifact_path("echo"), storage.artifact_dir.join("echo"));
    assert_ne!(storage.artifact_path("echo"), storage.artifact_dir);
    let elsewhere = StorageContext::create(PathBuf::from("/tmp/mist"));
    assert_eq!(elsewhere.artifact_path("echo"), PathBuf::from("/tmp/mist/artifacts/echo"));
}

#[test]
fn start_brings_back_every_record() {
    let entries = vec![
        Ok(made(create_with_warm_cache(droplet("a", "1Ki", "a.wasm")))),
        Ok(made(create_with_warm_cache(droplet("b", "2Ki", "b.wasm")))),
        Ok(made(create_with_warm_cache(droplet("c", "3Ki", "c.wasm")))),
    ];
    let panel = match ControlPanel::default(entries) {
        Ok(panel) => panel,
        Err(error) => panic!("the start failed: {error:?}"),
    };
    for (name, memory) in [("a", "1Ki"), ("b", "2Ki"), ("c", "3Ki")] {
        let handle = panel.lookup(name).expect("the droplet is back");
        assert_eq!(handle.config().metadata.name, name);
        match &handle.config().spec {
            Spec::Droplet { runtime, .. } => assert_eq!(runtime.resources.memory, memory),
        }
        assert_eq!(stdout_of(&panel, name, name.as_bytes()), name);
    }
    assert_eq!(panel.lookup("d").err(), Some(DropletError::DropletNotFound));
    assert_eq!(panel.lookup("").err(), Some(DropletError::DropletNotFound));
}

#[test]
fn start_over_an_empty_store_holds_nothing() {
    let panel = match ControlPanel::default(vec![]) {
        Ok(panel) => panel,
        Err(error) => panic!("the start failed: {error:?}"),
    };
    assert_eq!(panel.lookup("echo").err(), Some(DropletError::DropletNotFound));
}

#[test]
fn start_ends_with_the_first_bad_record() {
    let entries = vec![
        Ok(made(create_with_warm_cache(droplet("a", "1Ki", "a.wasm")))),
        Err(DropletError::SourceReadError),
        Ok(made(create_with_warm_cache(droplet("c", "3Ki", "c.wasm")))),
        Err(DropletError::CacheIOError),
    ];
    match ControlPanel::default(entries) {
        Err(error) => assert_eq!(error, DropletError::SourceReadError),
        Ok(_) => panic!("the start went on past a bad record"),
    }
    match ControlPanel::default(vec![Err(DropletError::ConfigParseError)]) {
        Err(error) => assert_eq!(error, DropletError::ConfigParseError),
        Ok(_) => panic!("the start went on past a bad record"),
    }
}

#[test]
fn later_record_of_a_name_wins_at_the_start() {
    let entries = vec![
        Ok(made(create_with_warm_cache(droplet("a", "1Ki", "old.wasm")))),
        Ok(made(create_with_warm_cache(droplet("a", "2Ki", "new.wasm")))),
    ];
    let panel = match ControlPanel::default(entries) {
        Ok(panel) => panel,
        Err(error) => panic!("the start failed: {error:?}"),
    };
    match &panel.lookup("a").expect("the droplet is back").config().spec {
        Spec::Droplet { runtime, .. } => assert_eq!(runtime.resources.memory, "2Ki"),
    }
}
