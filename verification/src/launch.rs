//! Launching the engine: staging the bundle, finding a port, creating the process,
//! waiting until it is ready and opening the control channel.
//!
//! Each step begins when the one before it has succeeded. A failure before the
//! process exists ends the launch at once; a failure after that ends it once the
//! process has been killed, so that no launch leaves an engine behind that nothing
//! keeps track of.

use vstd::prelude::*;
use crate::endpoint::control_address;
use crate::endpoint::control_endpoint_address;
use crate::error::LifecycleError;
use crate::error::LifecycleErrorView;
use crate::paths::EnginePath;
use crate::port::PortScan;
use crate::port::PORT_RANGE_END;
use crate::port::PORT_RANGE_START;
use crate::port::ScanAction;
use crate::port::find_available_port;
use crate::readiness::ProbeAction;
use crate::readiness::ProbeActionView;
use crate::readiness::Readiness;
use crate::readiness::ReadinessView;
use crate::readiness::READY_ATTEMPTS;
use crate::readiness::READY_INTERVAL_MS;
use crate::readiness::wait_for_cef;
use crate::reply::Reply;
use crate::reply::ReplyView;
use crate::store::RunningInstance;
use crate::text::decimal;
use crate::text::decimal_text;
use crate::text::texts;

verus! {

/// The progress of a launch. `cache_dir` is the engine's cache directory, written
/// as the engine is to be told it.
#[derive(Debug, PartialEq, Eq)]
pub enum Launch {
    /// What an earlier launch left in the staging directory is to be removed.
    ClearingStaging { cache_dir: String },
    /// The installed bundle is to be copied to the staging directory.
    Copying { cache_dir: String },
    /// A free port is being looked for.
    Scanning { cache_dir: String, scan: PortScan },
    /// The engine's process is to be created.
    Spawning { cache_dir: String, port: u16 },
    /// The process exists; it is being probed until it accepts connections.
    Probing { cache_dir: String, probe: Readiness },
    /// The engine is ready; the control channel is to be opened.
    Connecting { cache_dir: String, port: u16 },
    /// The launch failed after the process was created; the process is to be killed.
    Reaping { error: LifecycleError },
    /// The engine runs and the control channel is open.
    Running { cache_dir: String, port: u16 },
    /// The launch failed, and no process is left of it.
    Failed { error: LifecycleError },
}

/// A `Launch` with its texts as sequences of characters.
pub enum LaunchView {
    ClearingStaging { cache_dir: Seq<char> },
    Copying { cache_dir: Seq<char> },
    Scanning { cache_dir: Seq<char>, scan: PortScan },
    Spawning { cache_dir: Seq<char>, port: u16 },
    Probing { cache_dir: Seq<char>, probe: ReadinessView },
    Connecting { cache_dir: Seq<char>, port: u16 },
    Reaping { error: LifecycleErrorView },
    Running { cache_dir: Seq<char>, port: u16 },
    Failed { error: LifecycleErrorView },
}

/// What the host is to do for a launch.
#[derive(Debug, PartialEq, Eq)]
pub enum LaunchAction {
    /// Remove the directory at `path` with all it holds.
    RemoveDir { path: EnginePath },
    /// Copy the directory at `from`, with all it holds, to `to`.
    CopyDir { from: EnginePath, to: EnginePath },
    /// Bind a listener on `port`, release it at once, and report whether the bind succeeded.
    ProbePort { port: u16 },
    /// Create a process from the program at `executable` with these arguments, and keep its handle.
    Spawn { executable: EnginePath, arguments: Vec<String> },
    /// Wait for `millis` milliseconds.
    Sleep { millis: u64 },
    /// Try to connect to `address`, and drop the connection if it is accepted.
    ProbeEndpoint { address: String },
    /// Connect to `address` and keep the connection as the control channel.
    ConnectControl { address: String },
    /// Kill the process that this launch created.
    Kill,
    /// The launch is over: the engine listens on `port`, and its control channel is at `address`.
    Done { address: String, port: u16 },
    /// The launch is over: it failed.
    Fail { error: LifecycleError },
}

/// A `LaunchAction` with its texts as sequences of characters.
pub enum LaunchActionView {
    RemoveDir { path: EnginePath },
    CopyDir { from: EnginePath, to: EnginePath },
    ProbePort { port: u16 },
    Spawn { executable: EnginePath, arguments: Seq<Seq<char>> },
    Sleep { millis: u64 },
    ProbeEndpoint { address: Seq<char> },
    ConnectControl { address: Seq<char> },
    Kill,
    Done { address: Seq<char>, port: u16 },
    Fail { error: LifecycleErrorView },
}

impl View for Launch {
    type V = LaunchView;

    open spec fn view(&self) -> LaunchView {
        match *self {
            Launch::ClearingStaging { cache_dir } => LaunchView::ClearingStaging {
                cache_dir: cache_dir@,
            },
            Launch::Copying { cache_dir } => LaunchView::Copying { cache_dir: cache_dir@ },
            Launch::Scanning { cache_dir, scan } => LaunchView::Scanning {
                cache_dir: cache_dir@,
                scan,
            },
            Launch::Spawning { cache_dir, port } => LaunchView::Spawning {
                cache_dir: cache_dir@,
                port,
            },
            Launch::Probing { cache_dir, probe } => LaunchView::Probing {
                cache_dir: cache_dir@,
                probe: probe@,
            },
            Launch::Connecting { cache_dir, port } => LaunchView::Connecting {
                cache_dir: cache_dir@,
                port,
            },
            Launch::Reaping { error } => LaunchView::Reaping { error: error@ },
            Launch::Running { cache_dir, port } => LaunchView::Running {
                cache_dir: cache_dir@,
                port,
            },
            Launch::Failed { error } => LaunchView::Failed { error: error@ },
        }
    }
}

impl View for LaunchAction {
    type V = LaunchActionView;

    open spec fn view(&self) -> LaunchActionView {
        match *self {
            LaunchAction::RemoveDir { path } => LaunchActionView::RemoveDir { path },
            LaunchAction::CopyDir { from, to } => LaunchActionView::CopyDir { from, to },
            LaunchAction::ProbePort { port } => LaunchActionView::ProbePort { port },
            LaunchAction::Spawn { executable, arguments } => LaunchActionView::Spawn {
                executable,
                arguments: texts(arguments@),
            },
            LaunchAction::Sleep { millis } => LaunchActionView::Sleep { millis },
            LaunchAction::ProbeEndpoint { address } => LaunchActionView::ProbeEndpoint {
                address: address@,
            },
            LaunchAction::ConnectControl { address } => LaunchActionView::ConnectControl {
                address: address@,
            },
            LaunchAction::Kill => LaunchActionView::Kill,
            LaunchAction::Done { address, port } => LaunchActionView::Done {
                address: address@,
                port,
            },
            LaunchAction::Fail { error } => LaunchActionView::Fail { error: error@ },
        }
    }
}

/// The arguments that the engine is started with: its port and its cache directory.
pub open spec fn engine_arguments_of(port: u16, cache_dir: Seq<char>) -> Seq<Seq<char>> {
    seq!["--port"@, decimal(port as nat), "--cache-path"@, cache_dir]
}

impl LaunchView {
    /// The launch before anything was done.
    pub open spec fn started(cache_dir: Seq<char>) -> LaunchView {
        LaunchView::ClearingStaging { cache_dir }
    }

    /// Where a launch stands when its scan for a port stands at `scan`.
    pub open spec fn with_scan(cache_dir: Seq<char>, scan: PortScan) -> LaunchView {
        match scan {
            PortScan::Probing { next, end } => LaunchView::Scanning { cache_dir, scan },
            PortScan::Found { port } => LaunchView::Spawning { cache_dir, port },
            PortScan::Exhausted => LaunchView::Failed { error: LifecycleErrorView::NoPortAvailable },
        }
    }

    /// Where a launch stands when the probing of its engine stands at `probe`.
    pub open spec fn with_probe(cache_dir: Seq<char>, probe: ReadinessView) -> LaunchView {
        match probe {
            ReadinessView::Ready { port } => LaunchView::Connecting { cache_dir, port },
            ReadinessView::Unready { port, last_failure } => LaunchView::Reaping {
                error: LifecycleErrorView::HealthCheck { port, last_failure },
            },
            _ => LaunchView::Probing { cache_dir, probe },
        }
    }

    /// What the launch asks of the host in this state.
    pub open spec fn pending(self) -> LaunchActionView {
        match self {
            LaunchView::ClearingStaging { cache_dir } => LaunchActionView::RemoveDir {
                path: EnginePath::StagingDir,
            },
            LaunchView::Copying { cache_dir } => LaunchActionView::CopyDir {
                from: EnginePath::InstallDir,
                to: EnginePath::StagingDir,
            },
            LaunchView::Scanning { cache_dir, scan } => match scan {
                PortScan::Probing { next, end } => LaunchActionView::ProbePort { port: next },
                PortScan::Found { port } => LaunchActionView::Spawn {
                    executable: EnginePath::StagedExecutable,
                    arguments: engine_arguments_of(port, cache_dir),
                },
                PortScan::Exhausted => LaunchActionView::Fail {
                    error: LifecycleErrorView::NoPortAvailable,
                },
            },
            LaunchView::Spawning { cache_dir, port } => LaunchActionView::Spawn {
                executable: EnginePath::StagedExecutable,
                arguments: engine_arguments_of(port, cache_dir),
            },
            LaunchView::Probing { cache_dir, probe } => match probe {
                ReadinessView::Ready { port } => LaunchActionView::ConnectControl {
                    address: control_address(port),
                },
                ReadinessView::Unready { port, last_failure } => LaunchActionView::Kill,
                _ => match probe.pending() {
                    ProbeActionView::Sleep { millis } => LaunchActionView::Sleep { millis },
                    ProbeActionView::Connect { address } => LaunchActionView::ProbeEndpoint {
                        address,
                    },
                    _ => LaunchActionView::Kill,
                },
            },
            LaunchView::Connecting { cache_dir, port } => LaunchActionView::ConnectControl {
                address: control_address(port),
            },
            LaunchView::Reaping { error } => LaunchActionView::Kill,
            LaunchView::Running { cache_dir, port } => LaunchActionView::Done {
                address: control_address(port),
                port,
            },
            LaunchView::Failed { error } => LaunchActionView::Fail { error },
        }
    }

    /// The state after the host's reply to the pending action. Whether the staging
    /// directory could be cleared does not matter: the copy that follows tells. A
    /// port counts as free exactly if the bind on it succeeded. A reply that the
    /// pending action cannot have changes nothing, and neither does any reply once
    /// the launch is over.
    pub open spec fn after(self, reply: ReplyView) -> LaunchView {
        match self {
            LaunchView::ClearingStaging { cache_dir } => match reply {
                ReplyView::Text(_) => self,
                _ => LaunchView::Copying { cache_dir },
            },
            LaunchView::Copying { cache_dir } => match reply {
                ReplyView::Completed => LaunchView::with_scan(
                    cache_dir,
                    PortScan::over_range(PORT_RANGE_START, PORT_RANGE_END),
                ),
                ReplyView::Failed(cause) => LaunchView::Failed {
                    error: LifecycleErrorView::Copy { cause },
                },
                ReplyView::Text(_) => self,
            },
            LaunchView::Scanning { cache_dir, scan } => match reply {
                ReplyView::Completed => LaunchView::with_scan(cache_dir, scan.after(true)),
                ReplyView::Failed(_) => LaunchView::with_scan(cache_dir, scan.after(false)),
                ReplyView::Text(_) => self,
            },
            LaunchView::Spawning { cache_dir, port } => match reply {
                ReplyView::Completed => LaunchView::with_probe(
                    cache_dir,
                    ReadinessView::started(port, READY_ATTEMPTS, READY_INTERVAL_MS),
                ),
                ReplyView::Failed(cause) => LaunchView::Failed {
                    error: LifecycleErrorView::Spawn { port, cache_dir, cause },
                },
                ReplyView::Text(_) => self,
            },
            LaunchView::Probing { cache_dir, probe } => LaunchView::with_probe(
                cache_dir,
                probe.after(reply),
            ),
            LaunchView::Connecting { cache_dir, port } => match reply {
                ReplyView::Completed => LaunchView::Running { cache_dir, port },
                ReplyView::Failed(cause) => LaunchView::Reaping {
                    error: LifecycleErrorView::Connect { cause },
                },
                ReplyView::Text(_) => self,
            },
            LaunchView::Reaping { error } => match reply {
                ReplyView::Text(_) => self,
                _ => LaunchView::Failed { error },
            },
            _ => self,
        }
    }

    /// The state after a series of replies, the first reply first.
    pub open spec fn after_all(self, replies: Seq<ReplyView>) -> LaunchView
        decreases replies.len(),
    {
        if replies.len() == 0 {
            self
        } else {
            self.after(replies[0]).after_all(replies.drop_first())
        }
    }

    /// Whether the launch is over.
    pub open spec fn finished(self) -> bool {
        self is Running || self is Failed
    }

    /// Whether a process exists that this launch created and has not yet handed over or reaped.
    pub open spec fn holds_process(self) -> bool {
        self is Probing || self is Connecting || self is Reaping
    }
}

/// The arguments that the engine is started with: its port and its cache directory.
pub fn engine_arguments(port: u16, cache_dir: &str) -> (arguments: Vec<String>)
    ensures
        texts(arguments@) == engine_arguments_of(port, cache_dir@),
{
    let mut arguments: Vec<String> = Vec::new();
    arguments.push(String::from_str("--port"));
    arguments.push(decimal_text(port));
    arguments.push(String::from_str("--cache-path"));
    arguments.push(String::from_str(cache_dir));
    assert(texts(arguments@) =~= engine_arguments_of(port, cache_dir@));
    arguments
}

fn launch_with_scan(cache_dir: String, scan: PortScan) -> (launch: Launch)
    ensures
        launch@ == LaunchView::with_scan(cache_dir@, scan),
{
    match scan {
        PortScan::Probing { next: _, end: _ } => Launch::Scanning { cache_dir, scan },
        PortScan::Found { port } => Launch::Spawning { cache_dir, port },
        PortScan::Exhausted => Launch::Failed { error: LifecycleError::NoPortAvailable },
    }
}

fn launch_with_probe(cache_dir: String, probe: Readiness) -> (launch: Launch)
    ensures
        launch@ == LaunchView::with_probe(cache_dir@, probe@),
{
    match probe {
        Readiness::Ready { port } => Launch::Connecting { cache_dir, port },
        Readiness::Unready { port, last_failure } => Launch::Reaping {
            error: LifecycleError::HealthCheck { port, last_failure },
        },
        under_way => Launch::Probing { cache_dir, probe: under_way },
    }
}

impl Launch {
    /// The action that the host is to perform now.
    pub fn action(&self) -> (action: LaunchAction)
        ensures
            action@ == self@.pending(),
    {
        match self {
            Launch::ClearingStaging { cache_dir: _ } => LaunchAction::RemoveDir {
                path: EnginePath::StagingDir,
            },
            Launch::Copying { cache_dir: _ } => LaunchAction::CopyDir {
                from: EnginePath::InstallDir,
                to: EnginePath::StagingDir,
            },
            Launch::Scanning { cache_dir, scan } => match scan.action() {
                ScanAction::Probe { port } => LaunchAction::ProbePort { port },
                ScanAction::Allocated { port } => LaunchAction::Spawn {
                    executable: EnginePath::StagedExecutable,
                    arguments: engine_arguments(port, cache_dir.as_str()),
                },
                ScanAction::NoPortAvailable => LaunchAction::Fail {
                    error: LifecycleError::NoPortAvailable,
                },
            },
            Launch::Spawning { cache_dir, port } => LaunchAction::Spawn {
                executable: EnginePath::StagedExecutable,
                arguments: engine_arguments(*port, cache_dir.as_str()),
            },
            Launch::Probing { cache_dir: _, probe } => match probe.action() {
                ProbeAction::Sleep { millis } => LaunchAction::Sleep { millis },
                ProbeAction::Connect { address } => LaunchAction::ProbeEndpoint { address },
                ProbeAction::Ready => match probe {
                    Readiness::Ready { port } => LaunchAction::ConnectControl {
                        address: control_endpoint_address(*port),
                    },
                    _ => LaunchAction::Kill,
                },
                ProbeAction::GiveUp { error: _ } => LaunchAction::Kill,
            },
            Launch::Connecting { cache_dir: _, port } => LaunchAction::ConnectControl {
                address: control_endpoint_address(*port),
            },
            Launch::Reaping { error: _ } => LaunchAction::Kill,
            Launch::Running { cache_dir: _, port } => LaunchAction::Done {
                address: control_endpoint_address(*port),
                port: *port,
            },
            Launch::Failed { error } => LaunchAction::Fail { error: error.clone() },
        }
    }

    /// Takes the host's reply to the pending action.
    pub fn advance(self, reply: Reply) -> (launch: Launch)
        ensures
            launch@ == self@.after(reply@),
    {
        match self {
            Launch::ClearingStaging { cache_dir } => match reply {
                Reply::Text(_) => Launch::ClearingStaging { cache_dir },
                _ => Launch::Copying { cache_dir },
            },
            Launch::Copying { cache_dir } => match reply {
                Reply::Completed => launch_with_scan(cache_dir, find_available_port()),
                Reply::Failed(cause) => Launch::Failed { error: LifecycleError::Copy { cause } },
                Reply::Text(_) => Launch::Copying { cache_dir },
            },
            Launch::Scanning { cache_dir, scan } => match reply {
                Reply::Completed => launch_with_scan(cache_dir, scan.advance(true)),
                Reply::Failed(_) => launch_with_scan(cache_dir, scan.advance(false)),
                Reply::Text(_) => Launch::Scanning { cache_dir, scan },
            },
            Launch::Spawning { cache_dir, port } => match reply {
                Reply::Completed => launch_with_probe(cache_dir, wait_for_cef(port)),
                Reply::Failed(cause) => Launch::Failed {
                    error: LifecycleError::Spawn { port, cache_dir, cause },
                },
                Reply::Text(_) => Launch::Spawning { cache_dir, port },
            },
            Launch::Probing { cache_dir, probe } => launch_with_probe(
                cache_dir,
                probe.advance(reply),
            ),
            Launch::Connecting { cache_dir, port } => match reply {
                Reply::Completed => Launch::Running { cache_dir, port },
                Reply::Failed(cause) => Launch::Reaping {
                    error: LifecycleError::Connect { cause },
                },
                Reply::Text(_) => Launch::Connecting { cache_dir, port },
            },
            Launch::Reaping { error } => match reply {
                Reply::Text(_) => Launch::Reaping { error },
                _ => Launch::Failed { error },
            },
            other => other,
        }
    }
}

impl Launch {
    /// The instance that a launch brought up, with the handles that the host kept
    /// of it, ready to be stored. Only a launch whose engine runs yields one.
    pub fn into_instance<P, C>(self, process: Option<P>, connection: Option<C>) -> (instance: Option<
        RunningInstance<P, C>,
    >)
        ensures
            match self@ {
                LaunchView::Running { cache_dir, port } => {
                    &&& instance is Some
                    &&& instance->0.port == port
                    &&& instance->0.cache_dir@ == cache_dir
                    &&& instance->0.process == process
                    &&& instance->0.connection == connection
                },
                _ => instance is None,
            },
    {
        match self {
            Launch::Running { cache_dir, port } => Some(
                RunningInstance { port, cache_dir, process, connection },
            ),
            _ => None,
        }
    }
}

/// Starts a launch of the engine with the cache directory `cache_dir`.
pub fn launch_cef(cache_dir: &str) -> (launch: Launch)
    ensures
        launch@ == LaunchView::started(cache_dir@),
{
    Launch::ClearingStaging { cache_dir: String::from_str(cache_dir) }
}

/// While the ports that are probed are taken, the launch goes on to the next port
/// in order; the first port on which the bind succeeds is the one that the engine
/// is started on.
pub proof fn launch_takes_first_free_port(
    cache_dir: Seq<char>,
    next: u16,
    end: u16,
    replies: Seq<ReplyView>,
)
    requires
        replies.len() > 0,
        next + replies.len() - 1 < end,
        forall|i: int| 0 <= i < replies.len() - 1 ==> replies[i] is Failed,
        replies.last() is Completed,
    ensures
        (LaunchView::Scanning { cache_dir, scan: PortScan::Probing { next, end } }).after_all(
            replies,
        ) == (LaunchView::Spawning { cache_dir, port: (next + replies.len() - 1) as u16 }),
    decreases replies.len(),
{
    let scanning = LaunchView::Scanning { cache_dir, scan: PortScan::Probing { next, end } };
    let rest = replies.drop_first();
    if replies.len() == 1 {
        assert(replies[0] == replies.last());
        assert(scanning.after(replies[0]).after_all(rest) == scanning.after(replies[0]));
    } else {
        assert(replies[0] is Failed);
        assert(rest.last() == replies.last());
        assert forall|i: int| 0 <= i < rest.len() - 1 implies rest[i] is Failed by {
            assert(rest[i] == replies[i + 1]);
        }
        launch_takes_first_free_port(cache_dir, (next + 1) as u16, end, rest);
    }
}

/// Where every port of the range is taken, the launch fails with `NoPortAvailable`
/// after one probe of each port, and no process is created.
pub proof fn launch_gives_up_without_free_port(
    cache_dir: Seq<char>,
    next: u16,
    end: u16,
    replies: Seq<ReplyView>,
)
    requires
        next < end,
        replies.len() == end - next,
        forall|i: int| 0 <= i < replies.len() ==> replies[i] is Failed,
    ensures
        (LaunchView::Scanning { cache_dir, scan: PortScan::Probing { next, end } }).after_all(
            replies,
        ) == (LaunchView::Failed { error: LifecycleErrorView::NoPortAvailable }),
    decreases replies.len(),
{
    let scanning = LaunchView::Scanning { cache_dir, scan: PortScan::Probing { next, end } };
    let rest = replies.drop_first();
    assert(replies[0] is Failed);
    if next + 1 < end {
        assert forall|i: int| 0 <= i < rest.len() implies rest[i] is Failed by {
            assert(rest[i] == replies[i + 1]);
        }
        launch_gives_up_without_free_port(cache_dir, (next + 1) as u16, end, rest);
    } else {
        assert(scanning.after(replies[0]).after_all(rest) == scanning.after(replies[0]));
    }
}

/// From the staged bundle to the running engine, where nothing fails: the scan
/// begins at the first port of the range; the engine is started with the port it
/// was given and the cache directory; it is probed after one interval; and the
/// launch ends with the address of the control channel on that port.
pub proof fn undisturbed_launch_runs_engine(cache_dir: Seq<char>, port: u16)
    ensures
        LaunchView::started(cache_dir).after(ReplyView::Completed).after(ReplyView::Completed) == (
        LaunchView::Scanning {
            cache_dir,
            scan: PortScan::Probing { next: PORT_RANGE_START, end: PORT_RANGE_END },
        }),
        ({
            let spawning = LaunchView::Spawning { cache_dir, port };
            let sleeping = spawning.after(ReplyView::Completed);
            let probing = sleeping.after(ReplyView::Completed);
            let connecting = probing.after(ReplyView::Completed);
            let running = connecting.after(ReplyView::Completed);
            &&& spawning.pending() == (LaunchActionView::Spawn {
                executable: EnginePath::StagedExecutable,
                arguments: engine_arguments_of(port, cache_dir),
            })
            &&& sleeping.pending() == (LaunchActionView::Sleep { millis: READY_INTERVAL_MS })
            &&& probing.pending() is ProbeEndpoint
            &&& connecting.pending() == (LaunchActionView::ConnectControl {
                address: control_address(port),
            })
            &&& running == (LaunchView::Running { cache_dir, port })
            &&& running.pending() == (LaunchActionView::Done {
                address: control_address(port),
                port,
            })
        }),
{
}

/// A launch that fails while it holds a process kills the process before it
/// reports the failure: from a state with a process, the launch ends in failure
/// only by way of the state whose action is the kill.
pub proof fn failed_launch_reaps_process(launch: LaunchView, reply: ReplyView)
    requires
        launch.holds_process(),
    ensures
        launch.after(reply) is Failed ==> launch is Reaping,
        launch is Reaping ==> launch.pending() == LaunchActionView::Kill,
        launch.after(reply) is Running || launch.after(reply) is Failed || launch.after(
            reply,
        ).holds_process(),
{
}

/// Before the process is created there is nothing to kill, and the launch never asks for a kill.
pub proof fn launch_without_process_kills_nothing(launch: LaunchView)
    requires
        !launch.holds_process(),
    ensures
        launch.pending() != LaunchActionView::Kill,
{
}

/// A series of replies may be taken in two parts.
pub proof fn launch_replies_in_two_parts(
    launch: LaunchView,
    first: Seq<ReplyView>,
    then: Seq<ReplyView>,
)
    ensures
        launch.after_all(first + then) == launch.after_all(first).after_all(then),
    decreases first.len(),
{
    if first.len() == 0 {
        assert(first + then =~= then);
    } else {
        assert((first + then)[0] == first[0]);
        assert((first + then).drop_first() =~= first.drop_first() + then);
        launch_replies_in_two_parts(launch.after(first[0]), first.drop_first(), then);
    }
}

/// A launch on a host where the staged bundle can be had, the ports at the start
/// of the range are taken behind each other, the next one is free, and the engine
/// comes up at once: the engine runs on the first free port, and the launch is
/// over after one reply for each action.
pub proof fn launch_runs_engine_on_first_free_port(cache_dir: Seq<char>, taken: Seq<ReplyView>)
    requires
        taken.len() < PORT_RANGE_END - PORT_RANGE_START,
        forall|i: int| 0 <= i < taken.len() ==> taken[i] is Failed,
    ensures
        LaunchView::started(cache_dir).after_all(
            seq![ReplyView::Completed, ReplyView::Completed] + (taken + seq![ReplyView::Completed])
                + seq![
                ReplyView::Completed,
                ReplyView::Completed,
                ReplyView::Completed,
                ReplyView::Completed,
            ],
        ) == (LaunchView::Running {
            cache_dir,
            port: (PORT_RANGE_START + taken.len()) as u16,
        }),
{
    let staging = seq![ReplyView::Completed, ReplyView::Completed];
    let scanning = taken + seq![ReplyView::Completed];
    let starting = seq![
        ReplyView::Completed,
        ReplyView::Completed,
        ReplyView::Completed,
        ReplyView::Completed,
    ];
    let start = LaunchView::started(cache_dir);
    let port = (PORT_RANGE_START + taken.len()) as u16;
    launch_replies_in_two_parts(start, staging + scanning, starting);
    launch_replies_in_two_parts(start, staging, scanning);

    let copying = start.after(staging[0]);
    let scan = copying.after(staging[1]);
    let staged = staging.drop_first();
    assert(staged.drop_first().len() == 0);
    assert(copying.after_all(staged) == copying.after(staged[0]).after_all(staged.drop_first()));
    assert(start.after_all(staging) == scan);

    assert(scanning.last() is Completed);
    assert forall|i: int| 0 <= i < scanning.len() - 1 implies scanning[i] is Failed by {
        assert(scanning[i] == taken[i]);
    }
    launch_takes_first_free_port(cache_dir, PORT_RANGE_START, PORT_RANGE_END, scanning);
    let spawning = LaunchView::Spawning { cache_dir, port };
    assert(scan.after_all(scanning) == spawning);

    let sleeping = spawning.after(starting[0]);
    let probing = sleeping.after(starting[1]);
    let connecting = probing.after(starting[2]);
    let running = connecting.after(starting[3]);
    let s1 = starting.drop_first();
    let s2 = s1.drop_first();
    let s3 = s2.drop_first();
    assert(s3.drop_first().len() == 0);
    assert(connecting.after_all(s3) == connecting.after(s3[0]).after_all(s3.drop_first()));
    assert(probing.after_all(s2) == probing.after(s2[0]).after_all(s3));
    assert(sleeping.after_all(s1) == sleeping.after(s1[0]).after_all(s2));
    assert(spawning.after_all(starting) == running);
}

} // verus!
