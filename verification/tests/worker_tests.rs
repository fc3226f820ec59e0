use alloy_control::execution::{ExecAction, ExecEvent, Execution, JobExecutor, Phase};
use alloy_control::models::{Job, JobResult, LogStream, SourceType};
use alloy_control::pool_init::{InitAction, InitEvent, InitPhase, PoolInit};
use alloy_control::vm_pool::VmState;
use alloy_control::worker_config::Config;
use alloy_control::worker_loop::{
    must_save_worker_id, stored_worker_id, worker_id_file, LoopAction, LoopEvent, LoopPhase,
    WorkerLoop,
};

fn job(id: u128) -> Job {
    Job::with_command_at(id, 0, 1, "make".into(), SourceType::Git, Some("https://h/r.git".into()))
}

fn ok(stdout: &str) -> ExecEvent {
    ExecEvent::CommandSucceeded { stdout: stdout.to_string() }
}

#[test]
fn a_run_goes_through_all_steps_and_releases_its_vm() {
    let mut run = Execution::begin(&job(5), Some(2), 60, 1_000_000);
    assert_eq!(run.phase(), Phase::Fetching);
    match run.next_action() {
        ExecAction::FetchSource { command } => assert_eq!(
            command,
            "cd ~ && git clone --depth 1 'https://h/r.git' workspace && cd workspace"
        ),
        other => panic!("unexpected {:?}", other),
    }
    run.handle(ok(""), 2_000_000);
    match run.next_action() {
        ExecAction::RunWork { command } => assert_eq!(command, "cd ~/workspace && make"),
        other => panic!("unexpected {:?}", other),
    }
    run.handle(ExecEvent::WorkExited { code: Some(3) }, 5_000_000);
    assert!(matches!(run.next_action(), ExecAction::UploadLog));
    run.handle(ExecEvent::LogUploaded, 5_100_000);
    match run.next_action() {
        ExecAction::ListArtifacts { command } => assert_eq!(
            command,
            "ls -la ~/Library/Developer/Xcode/DerivedData/**/*.xcresult 2>/dev/null || true"
        ),
        other => panic!("unexpected {:?}", other),
    }
    run.handle(ok(""), 5_200_000);
    assert_eq!(run.phase(), Phase::Listing(1));
    run.handle(ExecEvent::CommandFailed { stderr: "x".into() }, 5_300_000);
    assert_eq!(run.phase(), Phase::Listing(2));
    run.handle(ok("total 1\n-rw-r--r--  1 admin  staff  42 Oct 25 10:00 app.ipa\n"), 8_999_999);
    assert_eq!(run.phase(), Phase::Releasing);
    assert!(!run.is_finished());
    assert!(matches!(run.next_action(), ExecAction::ReleaseVm { slot: 2 }));
    // nothing but the release moves the run on
    run.handle(ExecEvent::DeadlineExpired, 9_000_000);
    run.handle(ok("late"), 9_000_000);
    assert_eq!(run.phase(), Phase::Releasing);
    run.handle(ExecEvent::VmReleased, 9_500_000);
    assert!(run.is_finished());
    match run.next_action() {
        ExecAction::Report { outcome: Ok(result) } => {
            assert_eq!(result.job_id, 5);
            assert_eq!(result.exit_code, 3);
            assert_eq!(result.build_millis, 7_000);
            assert_eq!(result.artifacts.len(), 1);
            assert_eq!(result.artifacts[0].name, "app.ipa");
            assert_eq!(result.artifacts[0].size_bytes, 42);
            assert_eq!(result.artifacts[0].path, "~/build/*.ipa");
        }
        other => panic!("unexpected {:?}", other),
    }
}

#[test]
fn timeout() {
    let mut run = Execution::begin(&job(5), Some(0), 1, 0);
    run.handle(ok(""), 1);
    assert_eq!(run.phase(), Phase::Running);
    run.handle(ExecEvent::DeadlineExpired, 60_000_000);
    assert!(matches!(run.next_action(), ExecAction::ReleaseVm { slot: 0 }));
    run.handle(ExecEvent::WorkExited { code: Some(0) }, 60_000_001);
    run.handle(ExecEvent::VmReleased, 60_000_002);
    match run.next_action() {
        ExecAction::Report { outcome: Err(message) } => {
            assert_eq!(message, "Job timed out after 1 minutes")
        }
        other => panic!("unexpected {:?}", other),
    }

    // the worker loop turns the failure into a stderr line and exit code -1
    let mut state = WorkerLoop::new(77, 2);
    state.step(LoopEvent::Started, false, 0);
    state.step(LoopEvent::HeartbeatDone, false, 0);
    state.step(LoopEvent::Claimed { job: Some(job(5)) }, false, 0);
    let log = state.step(
        LoopEvent::Executed { outcome: Err("Job timed out after 1 minutes".into()) },
        false,
        61_000_000,
    );
    match log {
        LoopAction::PushLog { entry } => {
            assert_eq!(entry.job_id, 5);
            assert_eq!(entry.stream, LogStream::Stderr);
            assert_eq!(entry.content, "Job execution failed on worker: Job timed out after 1 minutes");
            assert_eq!(entry.timestamp, 61_000_000);
        }
        other => panic!("unexpected {:?}", other),
    }
    match state.step(LoopEvent::LogPushed, false, 61_000_001) {
        LoopAction::Complete { worker_id, result } => {
            assert_eq!(worker_id, 77);
            assert_eq!(result.job_id, 5);
            assert_eq!(result.exit_code, -1);
            assert!(result.artifacts.is_empty());
            assert_eq!(result.build_millis, 61_000);
        }
        other => panic!("unexpected {:?}", other),
    }
}

#[test]
fn failures_before_the_work_still_release_the_vm() {
    let mut run = Execution::begin(&job(5), Some(1), 60, 0);
    run.handle(ExecEvent::CommandFailed { stderr: "fatal: repo not found".into() }, 1);
    assert!(matches!(run.next_action(), ExecAction::ReleaseVm { slot: 1 }));
    run.handle(ExecEvent::VmReleased, 2);
    match run.next_action() {
        ExecAction::Report { outcome: Err(m) } => {
            assert_eq!(m, "Failed to fetch source: fatal: repo not found")
        }
        other => panic!("unexpected {:?}", other),
    }

    let mut no_url = job(6);
    no_url.source_url = None;
    let mut run = Execution::begin(&no_url, Some(1), 60, 0);
    assert!(matches!(run.next_action(), ExecAction::ReleaseVm { slot: 1 }));
    run.handle(ExecEvent::VmReleased, 2);
    match run.next_action() {
        ExecAction::Report { outcome: Err(m) } => assert_eq!(m, "No source URL provided"),
        other => panic!("unexpected {:?}", other),
    }

    let mut no_work = job(7);
    no_work.command = None;
    let mut run = Execution::begin(&no_work, Some(1), 60, 0);
    run.handle(ok(""), 1);
    assert_eq!(run.phase(), Phase::Releasing);
    run.handle(ExecEvent::VmReleased, 2);
    match run.next_action() {
        ExecAction::Report { outcome: Err(m) } => assert_eq!(m, "Job has no command or script"),
        other => panic!("unexpected {:?}", other),
    }

    let mut run = Execution::begin(&job(8), Some(1), 60, 0);
    run.handle(ExecEvent::IoError { message: "spawn failed".into() }, 1);
    run.handle(ExecEvent::VmReleased, 2);
    match run.next_action() {
        ExecAction::Report { outcome: Err(m) } => assert_eq!(m, "spawn failed"),
        other => panic!("unexpected {:?}", other),
    }
}

#[test]
fn without_a_vm_the_run_fails_at_once() {
    let run = Execution::begin(&job(5), None, 60, 0);
    assert!(run.is_finished());
    match run.next_action() {
        ExecAction::Report { outcome: Err(m) } => assert_eq!(m, "No VMs available in pool"),
        other => panic!("unexpected {:?}", other),
    }
}

#[test]
fn a_run_without_exit_code_reports_minus_one() {
    let config = Config::from_vars(
        Some("http://o".into()), None, None, None, None, Some("5".into()), None, None, None, None, None,
    )
    .unwrap();
    let executor = JobExecutor::new(9, config);
    let mut run = executor.execute(&job(5), Some(0), 0);
    run.handle(ok(""), 1);
    run.handle(ExecEvent::WorkExited { code: None }, 2);
    run.handle(ExecEvent::LogUploaded, 3);
    for _ in 0..3 {
        run.handle(ok(""), 4);
    }
    run.handle(ExecEvent::VmReleased, 5);
    match run.next_action() {
        ExecAction::Report { outcome: Ok(result) } => {
            assert_eq!(result.exit_code, -1);
            assert!(result.artifacts.is_empty());
            assert_eq!(result.build_millis, 0);
        }
        other => panic!("unexpected {:?}", other),
    }
    let mut timed = executor.execute(&job(5), Some(0), 0);
    timed.handle(ExecEvent::DeadlineExpired, 1);
    timed.handle(ExecEvent::VmReleased, 2);
    match timed.next_action() {
        ExecAction::Report { outcome: Err(m) } => assert_eq!(m, "Job timed out after 5 minutes"),
        other => panic!("unexpected {:?}", other),
    }
}

#[test]
fn the_loop_heartbeats_claims_and_sleeps() {
    let mut state = WorkerLoop::new(77, 2);
    assert!(matches!(state.step(LoopEvent::Woke, false, 0), LoopAction::Wait));
    assert!(matches!(
        state.step(LoopEvent::Started, false, 0),
        LoopAction::Heartbeat { worker_id: 77, current_jobs: 0, capacity: 2 }
    ));
    assert!(matches!(state.step(LoopEvent::HeartbeatDone, false, 0), LoopAction::Claim { worker_id: 77 }));
    assert!(matches!(state.step(LoopEvent::Claimed { job: None }, false, 0), LoopAction::Sleep { seconds: 5 }));
    assert!(matches!(state.step(LoopEvent::Woke, false, 0), LoopAction::Heartbeat { .. }));
    state.step(LoopEvent::HeartbeatDone, false, 0);
    assert!(matches!(state.step(LoopEvent::ClaimFailed, false, 0), LoopAction::Sleep { seconds: 10 }));
    assert_eq!(state.phase, LoopPhase::Sleeping);
}

#[test]
fn a_claimed_job_is_reported_even_during_shutdown() {
    let mut state = WorkerLoop::new(77, 2);
    state.step(LoopEvent::Started, false, 0);
    state.step(LoopEvent::HeartbeatDone, false, 0);
    match state.step(LoopEvent::Claimed { job: Some(job(5)) }, true, 10) {
        LoopAction::Execute { job } => assert_eq!(job.id, 5),
        other => panic!("unexpected {:?}", other),
    }
    let result = JobResult { job_id: 999, exit_code: 0, artifacts: vec![], build_millis: 50 };
    match state.step(LoopEvent::Executed { outcome: Ok(result) }, true, 20) {
        LoopAction::Complete { worker_id, result } => {
            assert_eq!(worker_id, 77);
            assert_eq!(result.job_id, 5);
            assert_eq!(result.exit_code, 0);
            assert_eq!(result.build_millis, 50);
        }
        other => panic!("unexpected {:?}", other),
    }
    assert!(matches!(
        state.step(LoopEvent::CompletionReported, true, 30),
        LoopAction::Deregister { worker_id: 77 }
    ));
    assert!(matches!(state.step(LoopEvent::Claimed { job: Some(job(6)) }, true, 30), LoopAction::Wait));
    assert!(matches!(state.step(LoopEvent::Deregistered, true, 30), LoopAction::StopPool));
    assert!(matches!(state.step(LoopEvent::PoolStopped, true, 30), LoopAction::Exit));
    assert_eq!(state.phase, LoopPhase::Stopped);
    assert!(matches!(state.step(LoopEvent::Started, false, 30), LoopAction::Exit));
}

#[test]
fn the_worker_identity_survives_restarts() {
    let id = 0x550e8400_e29b_41d4_a716_446655440000u128;
    assert_eq!(worker_id_file(id), "550e8400-e29b-41d4-a716-446655440000\n");
    assert_eq!(stored_worker_id(&worker_id_file(id)), Some(id));
    assert_eq!(stored_worker_id("  550e8400-e29b-41d4-a716-446655440000 \r\n"), Some(id));
    assert_eq!(stored_worker_id("550e8400e29b41d4a716446655440000"), Some(id));
    assert_eq!(stored_worker_id(""), None);
    assert_eq!(stored_worker_id("not an id"), None);
    assert!(must_save_worker_id(id, None));
    assert!(must_save_worker_id(id, Some(1)));
    assert!(!must_save_worker_id(id, Some(id)));
}

fn done(success: bool, stdout: &str, stderr: &str) -> InitEvent {
    InitEvent::CommandDone { success, stdout: stdout.into(), stderr: stderr.into() }
}

#[test]
fn the_pool_is_initialised_slot_by_slot() {
    let mut init = PoolInit::new(2, "base", None);
    match init.advance(InitEvent::Begun) {
        InitAction::Clone { image, name } => {
            assert_eq!(image, "base");
            assert_eq!(name, "pool-vm-0");
        }
        other => panic!("unexpected {:?}", other),
    }
    match init.advance(done(true, "", "")) {
        InitAction::Start { name } => assert_eq!(name, "pool-vm-0"),
        other => panic!("unexpected {:?}", other),
    }
    assert!(matches!(init.advance(InitEvent::Started), InitAction::WaitForBoot { seconds: 30 }));
    match init.advance(InitEvent::Waited) {
        InitAction::QueryIp { name } => assert_eq!(name, "pool-vm-0"),
        other => panic!("unexpected {:?}", other),
    }
    match init.advance(done(true, " 192.168.64.2\n", "")) {
        InitAction::Clone { name, .. } => assert_eq!(name, "pool-vm-1"),
        other => panic!("unexpected {:?}", other),
    }
    // an image that exists already is reused
    assert!(matches!(
        init.advance(done(false, "", "error: VM \"pool-vm-1\" already exists")),
        InitAction::Start { .. }
    ));
    init.advance(InitEvent::Started);
    init.advance(InitEvent::Waited);
    // an address that cannot be had is left empty
    assert!(matches!(init.advance(done(false, "", "no ip")), InitAction::Finish));
    assert_eq!(init.phase(), InitPhase::Done);
    let pool = init.into_pool().unwrap();
    assert_eq!(pool.len(), 2);
    assert_eq!(pool.get(0).unwrap().ip, "192.168.64.2");
    assert_eq!(pool.get(1).unwrap().ip, "");
    assert_eq!(pool.get(1).unwrap().name, "pool-vm-1");
    assert_eq!(pool.get(0).unwrap().state, VmState::Ready);
    assert!(pool.needs_ip(1));
}

#[test]
fn a_failed_clone_ends_the_initialisation() {
    let mut init = PoolInit::new(1, "base", None);
    init.advance(InitEvent::Begun);
    match init.advance(done(false, "", "disk full")) {
        InitAction::Fail { message } => assert_eq!(message, "Failed to clone VM pool-vm-0: disk full"),
        other => panic!("unexpected {:?}", other),
    }
    assert_eq!(init.phase(), InitPhase::Failed);
    assert!(matches!(init.advance(InitEvent::Begun), InitAction::Wait));
    assert!(init.into_pool().is_none());

    let mut init = PoolInit::new(1, "base", None);
    init.advance(InitEvent::Begun);
    init.advance(done(true, "", ""));
    match init.advance(InitEvent::IoError { message: "tart: not found".into() }) {
        InitAction::Fail { message } => assert_eq!(message, "tart: not found"),
        other => panic!("unexpected {:?}", other),
    }
}

#[test]
fn the_setup_runs_once_per_vm_and_may_fail() {
    let mut init = PoolInit::new(2, "base", Some("./setup.sh".into()));
    init.advance(InitEvent::Begun);
    init.advance(done(true, "", ""));
    init.advance(InitEvent::Started);
    init.advance(InitEvent::Waited);
    match init.advance(done(true, "10.0.0.7\n", "")) {
        InitAction::ProbeSetup { path } => assert_eq!(path, "./setup.sh"),
        other => panic!("unexpected {:?}", other),
    }
    match init.advance(InitEvent::SetupProbed { is_file: true }) {
        InitAction::CopySetup { path, target } => {
            assert_eq!(path, "./setup.sh");
            assert_eq!(target, "admin@10.0.0.7:~/setup.sh");
        }
        other => panic!("unexpected {:?}", other),
    }
    match init.advance(done(true, "", "")) {
        InitAction::RunSetup { ip, command } => {
            assert_eq!(ip, "10.0.0.7");
            assert_eq!(command, "chmod +x ~/setup.sh && ~/setup.sh");
        }
        other => panic!("unexpected {:?}", other),
    }
    // a setup that fails is not fatal
    assert!(matches!(init.advance(done(false, "", "boom")), InitAction::Clone { .. }));
    init.advance(done(true, "", ""));
    init.advance(InitEvent::Started);
    init.advance(InitEvent::Waited);
    init.advance(done(true, "10.0.0.8", ""));
    match init.advance(InitEvent::SetupProbed { is_file: false }) {
        InitAction::RunSetup { ip, command } => {
            assert_eq!(ip, "10.0.0.8");
            assert_eq!(command, "./setup.sh");
        }
        other => panic!("unexpected {:?}", other),
    }
    assert!(matches!(init.advance(done(true, "", "")), InitAction::Finish));
    assert_eq!(init.into_pool().unwrap().len(), 2);

    // without an address there is nothing to set up
    let mut init = PoolInit::new(1, "base", Some("brew install x".into()));
    init.advance(InitEvent::Begun);
    init.advance(done(true, "", ""));
    init.advance(InitEvent::Started);
    init.advance(InitEvent::Waited);
    assert!(matches!(init.advance(done(true, "  \n", "")), InitAction::Finish));

    let mut empty = PoolInit::new(0, "base", None);
    assert!(matches!(empty.advance(InitEvent::Begun), InitAction::Finish));
    assert_eq!(empty.into_pool().unwrap().len(), 0);
}
