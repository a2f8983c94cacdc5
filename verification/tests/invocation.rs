use mistctr::config::{
    Metadata, RootConfig, RuntimeEnv, RuntimeResources, Spec, SpecRuntime, SpecSource,
};
use mistctr::droplet::{BuildEvent, BuildOutcome, DropletHandle};
use mistctr::error::DropletError;
use mistctr::invocation::{
    decode_output, entry_point, env_for, limits_for, Invocation, RunAction, RunEvent, RunOutcome,
    RunStage, STDOUT_PIPE_CAPACITY, STDOUT_WRITE_BUDGET,
};
use mistctr::limits::GrowthVerdict;
use mistctr::quantity::QuantityParseError;
use std::path::PathBuf;
use wasmtime::component::Component;
use wasmtime::Engine;

fn runtime_with(memory: &str, env: Option<Vec<(&str, &str)>>) -> SpecRuntime {
    SpecRuntime {
        env: env.map(|vars| {
            vars.into_iter()
                .map(|(name, value)| RuntimeEnv { name: name.to_string(), value: value.to_string() })
                .collect()
        }),
        filesystem: None,
        network: None,
        resources: RuntimeResources { memory: memory.to_string(), cpu: "1".to_string() },
    }
}

fn handle_with(memory: &str, env: Option<Vec<(&str, &str)>>) -> DropletHandle {
    let config = RootConfig {
        api_version: "v1".to_string(),
        metadata: Metadata { name: "echo".to_string() },
        spec: Spec::Droplet {
            source: SpecSource::File { path: PathBuf::from("echo.wasm") },
            runtime: runtime_with(memory, env),
            secrets: vec![],
        },
    };
    let component =
        Component::new(&Engine::default(), [0x00, 0x61, 0x73, 0x6d, 0x0d, 0x00, 0x01, 0x00])
            .expect("the empty component compiles");
    let build = DropletHandle::new(config)
        .advance(BuildEvent::CacheProbed(Some(true)))
        .advance(BuildEvent::CacheRead(Some(vec![0])))
        .advance(BuildEvent::ArtifactLoaded(Some(component)));
    match build.outcome() {
        BuildOutcome::Built(handle) => handle,
        _ => panic!("the handle was not made"),
    }
}

fn started(handle: &DropletHandle) -> Invocation {
    match handle.run() {
        Ok(run) => run,
        Err(error) => panic!("the run did not start: {error:?}"),
    }
}

fn completed(run: Invocation, output: &[u8]) -> RunOutcome {
    run.advance(RunEvent::Instantiated(true))
        .advance(RunEvent::EntryLocated(true))
        .advance(RunEvent::Completed(None))
        .advance(RunEvent::Output(Some(output.to_vec())))
        .outcome()
}

#[test]
fn entry_point_is_named_handler() {
    assert_eq!(entry_point(), "handler");
}

#[test]
fn context_carries_env_limits_and_pipe() {
    let handle = handle_with("128Mi", Some(vec![("A", "1"), ("B", "two")]));
    let run = started(&handle);
    assert_eq!(run.action(), RunAction::Instantiate);
    let context = run.context();
    assert_eq!(context.env.len(), 2);
    assert_eq!(context.env[0].name, "A");
    assert_eq!(context.env[0].value, "1");
    assert_eq!(context.env[1].name, "B");
    assert_eq!(context.env[1].value, "two");
    assert_eq!(context.stdout_capacity, 65536);
    assert_eq!(context.stdout_capacity, STDOUT_PIPE_CAPACITY);
    assert_eq!(context.stdout_write_budget, 16384);
    assert_eq!(context.stdout_write_budget, STDOUT_WRITE_BUDGET);
    assert_eq!(context.limits.check_memory_growth(128 * 1024 * 1024, None), GrowthVerdict::Allow);
    assert_eq!(
        context.limits.check_memory_growth(128 * 1024 * 1024 + 1, None),
        GrowthVerdict::Deny
    );
    assert_eq!(context.limits.instances(), 10000);
}

#[test]
fn definition_without_env_gets_none() {
    let handle = handle_with("1Gi", None);
    assert!(started(&handle).context().env.is_empty());
    assert!(env_for(&runtime_with("1Gi", Some(vec![]))).is_empty());
}

#[test]
fn bad_memory_budget_fails_the_run_at_its_start() {
    let handle = handle_with("lots", None);
    match handle.run() {
        Err(error) => assert_eq!(
            error,
            DropletError::QuantityParseError(QuantityParseError::InvalidFormat)
        ),
        Ok(_) => panic!("the run started"),
    }
    let handle = handle_with("128", None);
    match handle.run() {
        Err(error) => {
            assert_eq!(error, DropletError::QuantityParseError(QuantityParseError::InvalidUnit))
        }
        Ok(_) => panic!("the run started"),
    }
}

#[test]
fn limits_follow_the_memory_budget() {
    let resources = RuntimeResources { memory: "64Ki".to_string(), cpu: "nonsense".to_string() };
    let limits = limits_for(&resources).expect("a valid budget");
    assert_eq!(limits.check_memory_growth(65536, None), GrowthVerdict::Allow);
    assert_eq!(limits.check_memory_growth(65537, None), GrowthVerdict::Deny);
    assert_eq!(limits.check_table_growth(usize::MAX, None), GrowthVerdict::Allow);
    let huge = RuntimeResources { memory: "1Q".to_string(), cpu: "1".to_string() };
    let limits = limits_for(&huge).expect("a valid budget");
    assert_eq!(limits.check_memory_growth(usize::MAX, None), GrowthVerdict::Allow);
    let bad = RuntimeResources { memory: "".to_string(), cpu: "1".to_string() };
    assert_eq!(limits_for(&bad).unwrap_err(), QuantityParseError::InvalidFormat);
}

#[test]
fn run_returns_what_the_code_wrote() {
    let handle = handle_with("128Mi", None);
    match completed(started(&handle), b"hi\n") {
        RunOutcome::Done(result) => assert_eq!(result.stdout, "hi\n"),
        _ => panic!("the run did not end with a result"),
    }
    match completed(started(&handle), "grüße ✓".as_bytes()) {
        RunOutcome::Done(result) => assert_eq!(result.stdout, "grüße ✓"),
        _ => panic!("the run did not end with a result"),
    }
    match completed(started(&handle), b"") {
        RunOutcome::Done(result) => assert_eq!(result.stdout, ""),
        _ => panic!("the run did not end with a result"),
    }
}

#[test]
fn run_goes_through_its_stages_in_order() {
    let handle = handle_with("128Mi", None);
    let run = started(&handle);
    assert_eq!(run.action(), RunAction::Instantiate);
    let run = run.advance(RunEvent::Instantiated(true));
    assert_eq!(run.action(), RunAction::LocateEntry);
    let run = run.advance(RunEvent::EntryLocated(true));
    assert_eq!(run.action(), RunAction::Invoke);
    let run = run.advance(RunEvent::Completed(None));
    assert_eq!(run.action(), RunAction::DrainOutput);
    let run = run.advance(RunEvent::Output(Some(b"done".to_vec())));
    assert_eq!(run.action(), RunAction::Finish);
}

#[test]
fn runs_of_one_handle_are_independent() {
    let handle = handle_with("128Mi", Some(vec![("A", "1")]));
    let first = started(&handle);
    let second = started(&handle);
    let first = first.advance(RunEvent::Instantiated(false));
    assert_eq!(second.action(), RunAction::Instantiate);
    assert_eq!(second.context().env[0].name, "A");
    match completed(second, b"second") {
        RunOutcome::Done(result) => assert_eq!(result.stdout, "second"),
        _ => panic!("the second run did not end with a result"),
    }
    match first.outcome() {
        RunOutcome::Failed(error) => assert_eq!(error, DropletError::InstantiationError),
        _ => panic!("the first run did not fail"),
    }
    match completed(started(&handle), b"third") {
        RunOutcome::Done(result) => assert_eq!(result.stdout, "third"),
        _ => panic!("the third run did not end with a result"),
    }
}

#[test]
fn run_failures_have_their_errors() {
    let handle = handle_with("128Mi", None);
    let run = started(&handle).advance(RunEvent::Instantiated(false));
    assert!(matches!(run.outcome(), RunOutcome::Failed(DropletError::InstantiationError)));

    let run = started(&handle)
        .advance(RunEvent::Instantiated(true))
        .advance(RunEvent::EntryLocated(false));
    assert!(matches!(run.outcome(), RunOutcome::Failed(DropletError::HandlerNotFound)));

    let run = started(&handle)
        .advance(RunEvent::Instantiated(true))
        .advance(RunEvent::EntryLocated(true))
        .advance(RunEvent::Completed(Some("out of bounds memory access".to_string())));
    match run.outcome() {
        RunOutcome::Failed(DropletError::ExecutionTrap { cause }) => {
            assert_eq!(cause, "out of bounds memory access")
        }
        _ => panic!("the run did not trap"),
    }

    assert!(matches!(
        completed(started(&handle), &[0x68, 0x69, 0xff]),
        RunOutcome::Failed(DropletError::OutputDecodeError)
    ));

    let run = started(&handle)
        .advance(RunEvent::Instantiated(true))
        .advance(RunEvent::EntryLocated(true))
        .advance(RunEvent::Completed(None))
        .advance(RunEvent::Output(None));
    assert!(matches!(run.outcome(), RunOutcome::Failed(DropletError::OutputDecodeError)));
}

#[test]
fn run_ignores_events_out_of_turn() {
    let handle = handle_with("128Mi", None);
    let run = started(&handle).advance(RunEvent::Output(Some(b"early".to_vec())));
    assert_eq!(run.action(), RunAction::Instantiate);
    let run = run.advance(RunEvent::Completed(None));
    assert_eq!(run.action(), RunAction::Instantiate);
    assert!(matches!(run.outcome(), RunOutcome::Pending(_)));
    let ended = completed(started(&handle), b"x");
    match ended {
        RunOutcome::Done(result) => assert_eq!(result.stdout, "x"),
        _ => panic!("the run did not end with a result"),
    }
}

#[test]
fn output_decodes_as_utf8_or_not_at_all() {
    match decode_output(vec![0xe2, 0x82, 0xac]) {
        RunStage::Done { result } => assert_eq!(result.stdout, "€"),
        _ => panic!("valid UTF-8 was refused"),
    }
    assert!(matches!(
        decode_output(vec![0xe2, 0x82]),
        RunStage::Failed { error: DropletError::OutputDecodeError }
    ));
    assert!(matches!(
        decode_output(vec![0xed, 0xa0, 0x80]),
        RunStage::Failed { error: DropletError::OutputDecodeError }
    ));
    assert!(matches!(
        decode_output(vec![0xc0, 0x80]),
        RunStage::Failed { error: DropletError::OutputDecodeError }
    ));
}

#[test]
fn many_runs_in_flight_keep_their_own_output() {
    let handle = handle_with("128Mi", None);
    let outputs: Vec<String> = (0..8).map(|i| format!("output of run {i}\n")).collect();
    let mut runs: Vec<Option<Invocation>> = (0..8).map(|_| Some(started(&handle))).collect();
    let steps: [fn(&str) -> RunEvent; 4] = [
        |_| RunEvent::Instantiated(true),
        |_| RunEvent::EntryLocated(true),
        |_| RunEvent::Completed(None),
        |text| RunEvent::Output(Some(text.as_bytes().to_vec())),
    ];
    for (round, step) in steps.iter().enumerate() {
        for turn in 0..8 {
            let index = (turn * 3 + round * 5) % 8;
            let run = runs[index].take().expect("the run is in flight");
            runs[index] = Some(run.advance(step(&outputs[index])));
        }
    }
    for (index, run) in runs.into_iter().enumerate() {
        match run.expect("the run is in flight").outcome() {
            RunOutcome::Done(result) => assert_eq!(result.stdout, outputs[index]),
            _ => panic!("run {index} did not end with a result"),
        }
    }
}
