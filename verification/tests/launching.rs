use cef_lifecycle::error::LifecycleError;
use cef_lifecycle::launch::{engine_arguments, launch_cef, Launch, LaunchAction};
use cef_lifecycle::paths::EnginePath;
use cef_lifecycle::reply::Reply;
use cef_lifecycle::store::{LifecycleStore, RunningInstance, ShutdownStep};

/// A host made of plain values: which ports are free, whether the bundle can be
/// copied and the process created, and at which attempt the engine answers.
struct FakeHost {
    free_ports: Vec<u16>,
    copy_fails: bool,
    spawn_fails: bool,
    ready_at: Option<u32>,
    control_fails: bool,
    attempts: u32,
    process_alive: bool,
    log: Vec<String>,
}

impl FakeHost {
    fn new() -> FakeHost {
        FakeHost {
            free_ports: vec![10000],
            copy_fails: false,
            spawn_fails: false,
            ready_at: Some(1),
            control_fails: false,
            attempts: 0,
            process_alive: false,
            log: Vec::new(),
        }
    }

    fn perform(&mut self, action: LaunchAction) -> Reply {
        match action {
            LaunchAction::RemoveDir { path } => {
                self.log.push(format!("remove {path:?}"));
                Reply::Failed("no such directory".to_string())
            }
            LaunchAction::CopyDir { from, to } => {
                self.log.push(format!("copy {from:?} {to:?}"));
                if self.copy_fails {
                    Reply::Failed("no bundle".to_string())
                } else {
                    Reply::Completed
                }
            }
            LaunchAction::ProbePort { port } => {
                if self.free_ports.contains(&port) {
                    self.log.push(format!("bind {port}"));
                    Reply::Completed
                } else {
                    Reply::Failed("address in use".to_string())
                }
            }
            LaunchAction::Spawn { executable, arguments } => {
                self.log.push(format!("spawn {executable:?} {}", arguments.join(" ")));
                if self.spawn_fails {
                    Reply::Failed("not executable".to_string())
                } else {
                    self.process_alive = true;
                    Reply::Completed
                }
            }
            LaunchAction::Sleep { millis } => {
                self.log.push(format!("sleep {millis}"));
                Reply::Completed
            }
            LaunchAction::ProbeEndpoint { address } => {
                self.attempts += 1;
                self.log.push(format!("probe {address}"));
                if self.ready_at == Some(self.attempts) {
                    Reply::Completed
                } else {
                    Reply::Failed(format!("refused {}", self.attempts))
                }
            }
            LaunchAction::ConnectControl { address } => {
                self.log.push(format!("connect {address}"));
                if self.control_fails {
                    Reply::Failed("handshake".to_string())
                } else {
                    Reply::Completed
                }
            }
            LaunchAction::Kill => {
                self.log.push("kill".to_string());
                self.process_alive = false;
                Reply::Completed
            }
            LaunchAction::Done { .. } | LaunchAction::Fail { .. } => unreachable!(),
        }
    }

    fn launch(&mut self, cache_dir: &str) -> (Result<String, LifecycleError>, Launch) {
        let mut launch = launch_cef(cache_dir);
        loop {
            match launch.action() {
                LaunchAction::Done { address, .. } => return (Ok(address), launch),
                LaunchAction::Fail { error } => return (Err(error), launch),
                action => {
                    let reply = self.perform(action);
                    launch = launch.advance(reply);
                }
            }
        }
    }
}

#[test]
fn engine_arguments_are_port_and_cache_path() {
    assert_eq!(engine_arguments(10000, "/cache"), vec!["--port", "10000", "--cache-path", "/cache"]);
    assert_eq!(engine_arguments(0, ""), vec!["--port", "0", "--cache-path", ""]);
}

#[test]
fn launch_on_first_free_port_returns_its_control_address() {
    let mut host = FakeHost::new();
    let (outcome, launch) = host.launch("/cache");
    assert_eq!(outcome, Ok("ws://localhost:10000/browser".to_string()));
    assert_eq!(launch, Launch::Running { cache_dir: "/cache".to_string(), port: 10000 });
    assert_eq!(
        host.log,
        vec![
            "remove StagingDir",
            "copy InstallDir StagingDir",
            "bind 10000",
            "spawn StagedExecutable --port 10000 --cache-path /cache",
            "sleep 500",
            "probe ws://localhost:10000",
            "connect ws://localhost:10000/browser",
        ]
    );
    assert!(host.process_alive);
}

#[test]
fn launch_skips_taken_ports() {
    let mut host = FakeHost::new();
    host.free_ports = vec![10002, 10005];
    let (outcome, _) = host.launch("/cache");
    assert_eq!(outcome, Ok("ws://localhost:10002/browser".to_string()));
    assert!(host.log.contains(&"spawn StagedExecutable --port 10002 --cache-path /cache".to_string()));
}

#[test]
fn launch_without_bundle_fails_with_copy_error() {
    let mut host = FakeHost::new();
    host.copy_fails = true;
    let (outcome, _) = host.launch("/cache");
    assert_eq!(outcome, Err(LifecycleError::Copy { cause: "no bundle".to_string() }));
    assert_eq!(host.log, vec!["remove StagingDir", "copy InstallDir StagingDir"]);
}

#[test]
fn launch_without_free_port_fails_before_any_spawn() {
    let mut host = FakeHost::new();
    host.free_ports = vec![];
    let (outcome, _) = host.launch("/cache");
    assert_eq!(outcome, Err(LifecycleError::NoPortAvailable));
    assert_eq!(host.log, vec!["remove StagingDir", "copy InstallDir StagingDir"]);
    assert!(!host.process_alive);
}

#[test]
fn launch_that_cannot_spawn_fails_with_spawn_error() {
    let mut host = FakeHost::new();
    host.spawn_fails = true;
    let (outcome, _) = host.launch("/cache");
    assert_eq!(
        outcome,
        Err(LifecycleError::Spawn {
            port: 10000,
            cache_dir: "/cache".to_string(),
            cause: "not executable".to_string()
        })
    );
    assert!(!host.log.contains(&"kill".to_string()));
}

#[test]
fn engine_that_never_answers_is_killed_and_reported() {
    let mut host = FakeHost::new();
    host.ready_at = None;
    let (outcome, _) = host.launch("/cache");
    assert_eq!(
        outcome,
        Err(LifecycleError::HealthCheck { port: 10000, last_failure: "refused 10".to_string() })
    );
    assert_eq!(host.attempts, 10);
    assert_eq!(host.log.last().map(String::as_str), Some("kill"));
    assert!(!host.process_alive);
}

#[test]
fn engine_that_answers_late_is_still_launched() {
    let mut host = FakeHost::new();
    host.ready_at = Some(10);
    let (outcome, _) = host.launch("/cache");
    assert_eq!(outcome, Ok("ws://localhost:10000/browser".to_string()));
    assert_eq!(host.attempts, 10);
}

#[test]
fn failed_control_connection_kills_the_engine() {
    let mut host = FakeHost::new();
    host.control_fails = true;
    let (outcome, _) = host.launch("/cache");
    assert_eq!(outcome, Err(LifecycleError::Connect { cause: "handshake".to_string() }));
    assert_eq!(host.log.last().map(String::as_str), Some("kill"));
    assert!(!host.process_alive);
}

#[test]
fn launch_ignores_replies_that_do_not_fit() {
    let start = launch_cef("/c").advance(Reply::Text("x".to_string()));
    assert_eq!(start, launch_cef("/c"));
    let running = Launch::Running { cache_dir: "/c".to_string(), port: 1 }.advance(Reply::Failed("x".to_string()));
    assert_eq!(running, Launch::Running { cache_dir: "/c".to_string(), port: 1 });
    let reaping = Launch::Reaping { error: LifecycleError::NoPortAvailable }.advance(Reply::Text("x".to_string()));
    assert_eq!(reaping.action(), LaunchAction::Kill);
}

#[test]
fn first_actions_of_a_launch() {
    let launch = launch_cef("/c");
    assert_eq!(launch.action(), LaunchAction::RemoveDir { path: EnginePath::StagingDir });
    let launch = launch.advance(Reply::Completed);
    assert_eq!(
        launch.action(),
        LaunchAction::CopyDir { from: EnginePath::InstallDir, to: EnginePath::StagingDir }
    );
    let launch = launch.advance(Reply::Completed);
    assert_eq!(launch.action(), LaunchAction::ProbePort { port: 10000 });
}

#[test]
fn launched_engine_is_stored_and_shut_down_once() {
    let mut store: LifecycleStore<u32, &'static str> = LifecycleStore::new();
    store.begin_launch().unwrap();
    let mut host = FakeHost::new();
    let (outcome, launch) = host.launch("/cache");
    assert!(outcome.is_ok());
    let instance = launch.into_instance(Some(42u32), Some("ws")).unwrap();
    assert_eq!(
        instance,
        RunningInstance { port: 10000, cache_dir: "/cache".to_string(), process: Some(42), connection: Some("ws") }
    );
    store.finish_launch(instance).unwrap();
    assert!(matches!(store.shutdown(), ShutdownStep::SendClose { connection: "ws", process: Some(42), .. }));
    assert_eq!(store.shutdown(), ShutdownStep::Nothing);
}

#[test]
fn failed_launch_yields_no_instance() {
    let launch = Launch::Failed { error: LifecycleError::NoPortAvailable };
    assert_eq!(launch.into_instance(Some(1u32), Some(2u32)), None);
    assert_eq!(launch_cef("/c").into_instance(Some(1u32), Some(2u32)), None);
}
