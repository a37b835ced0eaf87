use supervisor::process::{build_invocation, data_dir_arg, Platform, ProcessSpec};
use supervisor::supervisor::{LaunchAction, LaunchCause, LaunchEvent, Phase, Supervisor};

fn strings(v: &[&str]) -> Vec<String> {
    v.iter().map(|s| s.to_string()).collect()
}

fn spec(binary: &str, args: &[&str], log: &str) -> ProcessSpec {
    ProcessSpec::new(binary.to_string(), strings(args), log.to_string())
}

fn two_workers() -> Vec<ProcessSpec> {
    vec![
        spec("workerA", &["script.js", "flag=1"], "a.log"),
        spec("workerB", &["script2.js"], "b.log"),
    ]
}

const WINDOWS: Platform = Platform { supports_window_suppression: true };
const UNIX: Platform = Platform { supports_window_suppression: false };

#[test]
fn two_workers_launch_in_order_and_are_killed_on_close() {
    let mut sup: Supervisor<u32> = Supervisor::new(two_workers(), None, false, WINDOWS);
    let first = sup.start();
    match first {
        LaunchAction::Spawn { index, invocation } => {
            assert_eq!(index, 0);
            assert_eq!(invocation.binary, "workerA");
            assert_eq!(invocation.args, strings(&["script.js", "flag=1"]));
            assert_eq!(invocation.error_log, "a.log");
            assert!(invocation.suppress_console);
        }
        _ => panic!("expected a spawn request"),
    }
    let second = sup.on_launch(LaunchEvent::Spawned(100));
    match second {
        LaunchAction::Spawn { index, invocation } => {
            assert_eq!(index, 1);
            assert_eq!(invocation.binary, "workerB");
            assert_eq!(invocation.args, strings(&["script2.js"]));
            assert_eq!(invocation.error_log, "b.log");
            assert!(invocation.suppress_console);
        }
        _ => panic!("expected a spawn request"),
    }
    assert!(matches!(sup.on_launch(LaunchEvent::Spawned(200)), LaunchAction::Finished));
    assert_eq!(sup.phase(), Phase::Running);
    assert_eq!(sup.handle(0), Some(&100));
    assert_eq!(sup.handle(1), Some(&200));
    assert_eq!(sup.shutdown(), vec![100, 200]);
    assert_eq!(sup.phase(), Phase::Stopped);
}

#[test]
fn successful_start_fills_one_slot_per_spec_in_order() {
    let specs = vec![
        spec("node", &["./out/master_server.js"], "stderr_master.log"),
        spec("node", &["./out/db_server.js"], "stderr_db.log"),
        spec("node", &["./out/world_server.js"], "stderr_world.log"),
    ];
    let mut sup: Supervisor<u32> = Supervisor::new(specs, None, true, WINDOWS);
    let mut action = sup.start();
    let mut next_handle = 7;
    let mut requested = Vec::new();
    loop {
        match action {
            LaunchAction::Spawn { index, invocation } => {
                requested.push(index);
                assert!(!invocation.suppress_console);
                action = sup.on_launch(LaunchEvent::Spawned(next_handle));
                next_handle += 1;
            }
            LaunchAction::Finished => break,
            LaunchAction::Abort(_) => panic!("no spawn failed"),
        }
    }
    assert_eq!(requested, vec![0, 1, 2]);
    assert_eq!(sup.slot_count(), 3);
    for i in 0..3 {
        assert!(sup.is_occupied(i));
        assert_eq!(sup.handle(i), Some(&(7 + i as u32)));
    }
    assert!(!sup.is_occupied(3));
    assert_eq!(sup.handle(3), None);
}

#[test]
fn no_specs_finishes_at_once() {
    let mut sup: Supervisor<u32> = Supervisor::new(Vec::new(), None, false, WINDOWS);
    assert!(matches!(sup.start(), LaunchAction::Finished));
    assert_eq!(sup.phase(), Phase::Running);
    assert_eq!(sup.slot_count(), 0);
    assert!(sup.shutdown().is_empty());
}

#[test]
fn missing_binary_reports_which_spec_failed() {
    let mut sup: Supervisor<u32> = Supervisor::new(two_workers(), None, false, WINDOWS);
    sup.start();
    sup.on_launch(LaunchEvent::Spawned(1));
    let action = sup.on_launch(LaunchEvent::Failed(LaunchCause::Spawn("not found".to_string())));
    match action {
        LaunchAction::Abort(err) => {
            assert_eq!(err.index, 1);
            assert_eq!(err.binary, "workerB");
            match err.cause {
                LaunchCause::Spawn(msg) => assert_eq!(msg, "not found"),
                _ => panic!("wrong cause"),
            }
        }
        _ => panic!("expected an abort"),
    }
    assert_eq!(sup.phase(), Phase::Failed);
    assert_eq!(sup.slot_count(), 1);
    assert_eq!(sup.shutdown(), vec![1]);
}

#[test]
fn log_file_failure_on_first_spec_aborts_with_empty_registry() {
    let mut sup: Supervisor<u32> = Supervisor::new(two_workers(), None, false, UNIX);
    sup.start();
    let action = sup.on_launch(LaunchEvent::Failed(LaunchCause::LogFile("denied".to_string())));
    match action {
        LaunchAction::Abort(err) => {
            assert_eq!(err.index, 0);
            assert_eq!(err.binary, "workerA");
            assert!(matches!(err.cause, LaunchCause::LogFile(_)));
        }
        _ => panic!("expected an abort"),
    }
    assert_eq!(sup.slot_count(), 0);
}

#[test]
fn shutdown_empties_every_slot() {
    let mut sup: Supervisor<&str> = Supervisor::new(two_workers(), None, false, WINDOWS);
    sup.start();
    sup.on_launch(LaunchEvent::Spawned("running"));
    sup.on_launch(LaunchEvent::Spawned("exited"));
    let handles = sup.shutdown();
    assert_eq!(handles, vec!["running", "exited"]);
    assert_eq!(sup.slot_count(), 2);
    assert!(!sup.is_occupied(0));
    assert!(!sup.is_occupied(1));
}

#[test]
fn shutdown_twice_is_shutdown_once() {
    let mut sup: Supervisor<u32> = Supervisor::new(two_workers(), None, false, WINDOWS);
    sup.start();
    sup.on_launch(LaunchEvent::Spawned(5));
    sup.on_launch(LaunchEvent::Spawned(6));
    assert_eq!(sup.shutdown(), vec![5, 6]);
    assert!(sup.shutdown().is_empty());
    assert_eq!(sup.slot_count(), 2);
    assert_eq!(sup.phase(), Phase::Stopped);
}

#[test]
fn data_dir_is_appended_as_quoted_token() {
    assert_eq!(data_dir_arg("/home/u/data"), "app_data_path=\"/home/u/data\"");
    let s = spec("node", &["./out/db_server.js"], "stderr_db.log");
    let inv = build_invocation(&s, &Some("/d".to_string()), false, UNIX);
    assert_eq!(inv.args, strings(&["./out/db_server.js", "app_data_path=\"/d\""]));
    assert!(!inv.suppress_console);
    let inv = build_invocation(&s, &None, false, WINDOWS);
    assert_eq!(inv.args, strings(&["./out/db_server.js"]));
    assert!(inv.suppress_console);
    let inv = build_invocation(&s, &None, true, WINDOWS);
    assert!(!inv.suppress_console);
}

#[test]
fn spec_clone_keeps_every_field() {
    let s = spec("workerA", &["script.js", "flag=1"], "a.log");
    let c = s.clone();
    assert_eq!(c.binary, "workerA");
    assert_eq!(c.args, strings(&["script.js", "flag=1"]));
    assert_eq!(c.error_log, "a.log");
}
