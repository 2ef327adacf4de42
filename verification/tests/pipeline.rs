use prover_pipeline::codec::ExecutionInput;
use prover_pipeline::codec::encode;
use prover_pipeline::config::Config;
use prover_pipeline::errors::FetchErrorKind;
use prover_pipeline::errors::PipelineError;
use prover_pipeline::errors::RegistrationOutcome;
use prover_pipeline::ident::Application;
use prover_pipeline::ident::task_id;
use prover_pipeline::orchestrator::Action;
use prover_pipeline::orchestrator::Event;
use prover_pipeline::orchestrator::Phase;
use prover_pipeline::orchestrator::Pipeline;
use prover_pipeline::subscription::block_triggers;
use prover_pipeline::subscription::triggered_blocks;

fn config(interval: u64, estimate: bool) -> Config {
    Config::new(
        "http://localhost:8545".to_string(),
        "ws://localhost:8546".to_string(),
        interval,
        "http://[::]:50052".to_string(),
        1 << 30,
        "cache_dir".to_string(),
        false,
        estimate,
    )
    .expect("positive interval")
}

fn pipeline(interval: u64, estimate: bool) -> Pipeline {
    let app = Application::from_program(&vec![0x7f, b'E', b'L', b'F']);
    Pipeline::new(config(interval, estimate), app)
}

fn registered(interval: u64, estimate: bool) -> Pipeline {
    let (p, action) = pipeline(interval, estimate).step(Event::RegistrationDone {
        outcome: RegistrationOutcome::Accepted,
    });
    assert!(matches!(action, Action::Nothing));
    p
}

#[test]
fn config_rejects_zero_interval() {
    let r = Config::new(
        "http://localhost:8545".to_string(),
        "ws://localhost:8546".to_string(),
        0,
        "http://[::]:50052".to_string(),
        1024,
        "cache_dir".to_string(),
        false,
        false,
    );
    assert!(matches!(r, Err(PipelineError::Configuration)));
}

#[test]
fn config_keeps_values() {
    let c = Config::new(
        "http://node:8545".to_string(),
        "ws://node:8546".to_string(),
        100,
        "http://prover:50052".to_string(),
        4096,
        "inputs".to_string(),
        true,
        true,
    )
    .expect("positive interval");
    assert_eq!(c.rpc_http_url, "http://node:8545");
    assert_eq!(c.rpc_ws_url, "ws://node:8546");
    assert_eq!(c.block_interval, 100);
    assert_eq!(c.service_addr, "http://prover:50052");
    assert_eq!(c.max_message_size, 4096);
    assert_eq!(c.cache_dir, "inputs");
    assert!(c.use_gpu);
    assert!(c.estimate_cost);
}

#[test]
fn filter_forwards_multiples_only() {
    assert!(block_triggers(0, 100));
    assert!(!block_triggers(98, 100));
    assert!(!block_triggers(99, 100));
    assert!(block_triggers(100, 100));
    assert!(!block_triggers(150, 100));
    assert!(block_triggers(200, 100));
}

#[test]
fn filter_interval_one_forwards_everything() {
    assert!(block_triggers(0, 1));
    assert!(block_triggers(17, 1));
    assert!(block_triggers(u64::MAX, 1));
}

#[test]
fn filter_over_header_sequence() {
    let headers: Vec<u64> = vec![98, 99, 100, 150, 200];
    assert_eq!(triggered_blocks(&headers, 100), vec![100, 200]);
}

#[test]
fn task_id_is_deterministic() {
    assert_eq!(task_id(7), task_id(7));
    assert_eq!(task_id(12345), task_id(12345));
}

#[test]
fn task_id_exact_values() {
    assert_eq!(task_id(0), b"task-block-0".to_vec());
    assert_eq!(task_id(100), b"task-block-100".to_vec());
    assert_eq!(task_id(12345), b"task-block-12345".to_vec());
    assert_eq!(
        task_id(u64::MAX),
        b"task-block-18446744073709551615".to_vec()
    );
}

#[test]
fn application_identity_is_deterministic() {
    let program: Vec<u8> = vec![1, 2, 3, 4, 5];
    let a = Application::from_program(&program);
    let b = Application::from_program(&program);
    assert_eq!(a.id, b.id);
}

#[test]
fn registration_already_registered_is_absorbed() {
    // Registering the same program twice ends in an "already registered"
    // failure from the service; the run continues without a warning.
    let (p, action) = pipeline(100, false).step(Event::RegistrationDone {
        outcome: RegistrationOutcome::AlreadyRegistered,
    });
    assert!(matches!(action, Action::Nothing));
    assert!(matches!(p.phase, Phase::Watching));
}

#[test]
fn registration_other_failure_warns_and_continues() {
    let (p, action) = pipeline(100, false).step(Event::RegistrationDone {
        outcome: RegistrationOutcome::OtherFailure,
    });
    assert!(matches!(action, Action::WarnRegistration));
    assert!(matches!(p.phase, Phase::Watching));
}

#[test]
fn scenario_interval_100_triggers_blocks_100_and_200() {
    // Headers 98, 99, 100, 150, 200 arrive; exactly two pipeline runs
    // trigger, for blocks 100 and 200, in that order.
    let mut p = registered(100, false);
    let mut submitted: Vec<Vec<u8>> = Vec::new();
    for number in [98u64, 99, 100, 150, 200] {
        let (p1, action) = p.step(Event::HeaderArrived { number });
        p = p1;
        match action {
            Action::Nothing => continue,
            Action::FetchInput { block } => {
                assert_eq!(block, number);
                let artifact = ExecutionInput::from_bytes(number.to_le_bytes().to_vec());
                let (p2, action) = p.step(Event::InputReady { input: artifact });
                let Action::Submit { task_id: tid, encoded, use_gpu, .. } = action else {
                    panic!("input must be submitted");
                };
                assert_eq!(encoded, encode(ExecutionInput::from_bytes(number.to_le_bytes().to_vec())));
                assert!(!use_gpu);
                submitted.push(tid);
                let (p3, action) = p2.step(Event::SubmitDone { service_error: false });
                assert!(matches!(action, Action::Nothing));
                assert!(matches!(p3.phase, Phase::Watching));
                p = p3;
            }
            _ => panic!("a header triggers at most a fetch"),
        }
    }
    assert_eq!(submitted, vec![b"task-block-100".to_vec(), b"task-block-200".to_vec()]);
}

#[test]
fn fail_fast_no_submission_and_no_further_processing() {
    // If acquisition fails for block 100, no submission or estimate happens
    // for it, and later headers are absorbed without action.
    let p = registered(100, true);
    let (p, action) = p.step(Event::HeaderArrived { number: 100 });
    assert!(matches!(action, Action::FetchInput { block: 100 }));
    let (p, action) = p.step(Event::InputFailed { kind: FetchErrorKind::FetchFailed });
    assert!(matches!(action, Action::Nothing));
    assert!(matches!(
        p.phase,
        Phase::Aborted { error: PipelineError::Fetch { block: 100, kind: FetchErrorKind::FetchFailed } }
    ));
    let (p, action) = p.step(Event::HeaderArrived { number: 200 });
    assert!(matches!(action, Action::Nothing));
    assert!(matches!(p.phase, Phase::Aborted { .. }));
}

#[test]
fn block_unavailable_aborts_with_block_identified() {
    let p = registered(100, false);
    let (p, _) = p.step(Event::HeaderArrived { number: 300 });
    let (p, action) = p.step(Event::InputFailed { kind: FetchErrorKind::BlockUnavailable });
    assert!(matches!(action, Action::Nothing));
    assert!(matches!(
        p.phase,
        Phase::Aborted {
            error: PipelineError::Fetch { block: 300, kind: FetchErrorKind::BlockUnavailable }
        }
    ));
}

#[test]
fn submit_transport_failure_aborts() {
    let p = registered(100, false);
    let (p, _) = p.step(Event::HeaderArrived { number: 100 });
    let (p, _) = p.step(Event::InputReady { input: ExecutionInput::from_bytes(vec![1]) });
    let (p, action) = p.step(Event::SubmitFailed);
    assert!(matches!(action, Action::Nothing));
    assert!(matches!(
        p.phase,
        Phase::Aborted { error: PipelineError::RemoteCall { block: 100 } }
    ));
}

#[test]
fn embedded_service_error_does_not_abort() {
    let p = registered(100, false);
    let (p, _) = p.step(Event::HeaderArrived { number: 100 });
    let (p, _) = p.step(Event::InputReady { input: ExecutionInput::from_bytes(vec![1]) });
    let (p, action) = p.step(Event::SubmitDone { service_error: true });
    assert!(matches!(action, Action::Nothing));
    assert!(matches!(p.phase, Phase::Watching));
}

#[test]
fn estimate_uses_the_submitted_bytes() {
    let p = registered(100, true);
    let (p, _) = p.step(Event::HeaderArrived { number: 100 });
    let artifact: Vec<u8> = vec![3, 1, 4, 1, 5];
    let (p, submit_action) =
        p.step(Event::InputReady { input: ExecutionInput::from_bytes(artifact.clone()) });
    let Action::Submit { encoded: submitted_bytes, .. } = submit_action else {
        panic!("input must be submitted");
    };
    let (p, action) = p.step(Event::SubmitDone { service_error: false });
    let Action::Estimate { encoded, .. } = action else {
        panic!("estimation is enabled");
    };
    assert_eq!(encoded, submitted_bytes);
    let (p, action) = p.step(Event::EstimateDone { service_error: false });
    assert!(matches!(action, Action::Nothing));
    assert!(matches!(p.phase, Phase::Watching));
}

#[test]
fn estimate_transport_failure_aborts() {
    let p = registered(100, true);
    let (p, _) = p.step(Event::HeaderArrived { number: 100 });
    let (p, _) = p.step(Event::InputReady { input: ExecutionInput::from_bytes(vec![1]) });
    let (p, _) = p.step(Event::SubmitDone { service_error: false });
    let (p, action) = p.step(Event::EstimateFailed);
    assert!(matches!(action, Action::Nothing));
    assert!(matches!(
        p.phase,
        Phase::Aborted { error: PipelineError::RemoteCall { block: 100 } }
    ));
}

#[test]
fn stream_failure_aborts_the_run() {
    let p = registered(100, false);
    let (p, action) = p.step(Event::StreamFailed);
    assert!(matches!(action, Action::Nothing));
    assert!(matches!(p.phase, Phase::Aborted { error: PipelineError::ChainConnectivity }));
}

#[test]
fn errors_name_their_block() {
    let e = PipelineError::Fetch { block: 5, kind: FetchErrorKind::FetchFailed };
    assert_eq!(e.block_number(), Some(5));
    let e = PipelineError::RemoteCall { block: 9 };
    assert_eq!(e.block_number(), Some(9));
    assert_eq!(PipelineError::Configuration.block_number(), None);
    assert_eq!(PipelineError::ChainConnectivity.block_number(), None);
}

#[test]
fn stream_end_ends_the_run() {
    let p = registered(100, false);
    let (p, action) = p.step(Event::StreamEnded);
    assert!(matches!(action, Action::Nothing));
    assert!(matches!(p.phase, Phase::Ended));
    let (p, action) = p.step(Event::HeaderArrived { number: 100 });
    assert!(matches!(action, Action::Nothing));
    assert!(matches!(p.phase, Phase::Ended));
}

#[test]
fn submit_action_carries_app_identity_and_gpu_flag() {
    let program: Vec<u8> = vec![0x7f, 1, 2, 3];
    let app = Application::from_program(&program);
    let c = Config::new(
        "http://localhost:8545".to_string(),
        "ws://localhost:8546".to_string(),
        10,
        "http://[::]:50052".to_string(),
        1024,
        "cache_dir".to_string(),
        true,
        false,
    )
    .expect("positive interval");
    let p = Pipeline::new(c, app);
    let (p, _) = p.step(Event::RegistrationDone { outcome: RegistrationOutcome::Accepted });
    let (_, action) = {
        let (p, _) = p.step(Event::HeaderArrived { number: 20 });
        p.step(Event::InputReady { input: ExecutionInput::from_bytes(vec![9]) })
    };
    let Action::Submit { app_id, task_id: tid, use_gpu, .. } = action else {
        panic!("input must be submitted");
    };
    assert_eq!(app_id, program);
    assert_eq!(tid, b"task-block-20".to_vec());
    assert!(use_gpu);
}
