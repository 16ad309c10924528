//! The lifecycle state store: the one place that holds the running engine, and the
//! shutdown that empties it.
//!
//! The store holds at most one running instance. A launch reserves the store
//! before it starts and fills it when the engine is up; shutdown takes the instance
//! out, so that it is shut down at most once. The handles of the process and of
//! the control connection are the host's own types; the store only moves them.

use vstd::prelude::*;
use crate::control::close_request;
use crate::control::construct_close_message;
use crate::control::json_text;
use crate::error::LifecycleError;
use crate::error::LifecycleErrorView;
use crate::reply::Reply;
use crate::reply::ReplyView;

verus! {

/// The engine that runs: where it listens, where it keeps its data, and the
/// handles by which it can be reached and ended.
#[derive(Debug, PartialEq, Eq)]
pub struct RunningInstance<P, C> {
    /// The port of the control endpoint.
    pub port: u16,
    /// The directory that the engine keeps its data in.
    pub cache_dir: String,
    /// The handle of the engine's process, if the host kept it.
    pub process: Option<P>,
    /// The connection to the control endpoint, if one is open.
    pub connection: Option<C>,
}

/// The store: empty, reserved by a launch under way, or holding the running instance.
#[derive(Debug, PartialEq, Eq)]
pub enum LifecycleStore<P, C> {
    /// No engine runs and none is being launched.
    Empty,
    /// A launch is under way; there is nothing to shut down yet.
    Launching,
    /// The engine runs.
    Running { instance: RunningInstance<P, C> },
}

/// A state of the shutdown sequence.
#[derive(Clone, Copy, Debug, PartialEq, Eq, Structural)]
pub enum ShutdownPhase {
    /// The engine runs and was not asked to close.
    Running,
    /// The close request is on its way; the engine ends on its own.
    Closing,
    /// The engine's process was ended, or there was none to end.
    Terminated,
}

/// What the host is to do to shut the engine down.
#[derive(Debug, PartialEq, Eq)]
pub enum ShutdownStep<P, C> {
    /// Nothing is stored that could be shut down: do nothing.
    Nothing,
    /// Send `message` on `connection` without waiting for an answer, and report
    /// how the sending went together with `process`.
    SendClose { connection: C, message: String, process: Option<P> },
    /// Kill the process behind `handle`. That it has ended already is no failure.
    Kill { handle: P },
}

/// What the host is to do after it tried to send the close request.
#[derive(Debug, PartialEq, Eq)]
pub enum CloseOutcome<P> {
    /// The request was sent. The engine ends on its own; the handle of its process,
    /// if there is one, is free to be dropped.
    Closing { process: Option<P> },
    /// The request could not be sent: kill the process behind `handle`, and log `error`.
    Kill { handle: P, error: LifecycleError },
    /// The request could not be sent and there is no process to kill: log `error`.
    Lost { error: LifecycleError },
}

impl<P, C> LifecycleStore<P, C> {
    /// The instance that the store holds, if it holds one.
    pub open spec fn held(self) -> Option<RunningInstance<P, C>> {
        match self {
            LifecycleStore::Running { instance } => Some(instance),
            _ => None,
        }
    }

    /// The store after its instance was taken out. A store without an instance stays as it is.
    pub open spec fn emptied(self) -> LifecycleStore<P, C> {
        match self {
            LifecycleStore::Running { instance } => LifecycleStore::Empty,
            _ => self,
        }
    }

    /// A store that holds nothing.
    pub fn new() -> (store: Self)
        ensures
            store is Empty,
    {
        LifecycleStore::Empty
    }

    /// Reserves the store for a launch. Fails with `AlreadyRunning`, and changes
    /// nothing, exactly if the store is not empty.
    pub fn begin_launch(&mut self) -> (reserved: Result<(), LifecycleError>)
        ensures
            *old(self) is Empty ==> reserved is Ok && *final(self) is Launching,
            !(*old(self) is Empty) ==> *final(self) == *old(self) && reserved is Err
                && reserved->Err_0@ == LifecycleErrorView::AlreadyRunning,
    {
        let mut current = LifecycleStore::Launching;
        core::mem::swap(self, &mut current);
        match current {
            LifecycleStore::Empty => Ok(()),
            mut other => {
                core::mem::swap(self, &mut other);
                Err(LifecycleError::AlreadyRunning)
            },
        }
    }

    /// Gives up the reservation of a launch that failed. Any other store stays as it is.
    pub fn abort_launch(&mut self)
        ensures
            *old(self) is Launching ==> *final(self) is Empty,
            !(*old(self) is Launching) ==> *final(self) == *old(self),
    {
        let mut current = LifecycleStore::Empty;
        core::mem::swap(self, &mut current);
        match current {
            LifecycleStore::Launching => {},
            mut other => {
                core::mem::swap(self, &mut other);
            },
        }
    }

    /// Stores the instance that a launch brought up. Succeeds exactly if the store
    /// was reserved by `begin_launch`; otherwise the store stays as it is and the
    /// instance is handed back.
    pub fn finish_launch(&mut self, instance: RunningInstance<P, C>) -> (stored: Result<
        (),
        RunningInstance<P, C>,
    >)
        ensures
            *old(self) is Launching ==> stored is Ok && *final(self) == (LifecycleStore::Running {
                instance,
            }),
            !(*old(self) is Launching) ==> *final(self) == *old(self) && stored == Err::<
                (),
                RunningInstance<P, C>,
            >(instance),
    {
        let mut current = LifecycleStore::Empty;
        core::mem::swap(self, &mut current);
        match current {
            LifecycleStore::Launching => {
                let mut filled = LifecycleStore::Running { instance };
                core::mem::swap(self, &mut filled);
                Ok(())
            },
            mut other => {
                core::mem::swap(self, &mut other);
                Err(instance)
            },
        }
    }

    /// Takes the running instance out of the store. Where the store holds none,
    /// nothing is taken and nothing changes.
    pub fn take(&mut self) -> (instance: Option<RunningInstance<P, C>>)
        ensures
            instance == old(self).held(),
            *final(self) == old(self).emptied(),
    {
        let mut current = LifecycleStore::Empty;
        core::mem::swap(self, &mut current);
        match current {
            LifecycleStore::Running { instance } => Some(instance),
            mut other => {
                core::mem::swap(self, &mut other);
                None
            },
        }
    }

    /// Begins the shutdown: takes the running instance out of the store and says
    /// what is to be done with it. With a control connection the close request is
    /// to be sent on it; without one the process is to be killed; where neither
    /// is there, or nothing was stored, nothing is to be done.
    pub fn shutdown(&mut self) -> (step: ShutdownStep<P, C>)
        ensures
            *final(self) == old(self).emptied(),
            match old(self).held() {
                None => step is Nothing,
                Some(instance) => match instance.connection {
                    Some(open) => {
                        &&& step is SendClose
                        &&& step->connection == open
                        &&& step->message@ == json_text(close_request())
                        &&& step->process == instance.process
                    },
                    None => match instance.process {
                        Some(handle) => step is Kill && step->handle == handle,
                        None => step is Nothing,
                    },
                },
            },
    {
        match self.take() {
            None => ShutdownStep::Nothing,
            Some(instance) => {
                let RunningInstance { port: _, cache_dir: _, process, connection } = instance;
                match connection {
                    Some(connection) => ShutdownStep::SendClose {
                        connection,
                        message: construct_close_message(),
                        process,
                    },
                    None => match process {
                        Some(handle) => ShutdownStep::Kill { handle },
                        None => ShutdownStep::Nothing,
                    },
                }
            },
        }
    }
}

impl<P, C> ShutdownStep<P, C> {
    /// The phase that the shutdown sequence is in once the host has performed this step.
    pub open spec fn phase_of(self) -> ShutdownPhase {
        match self {
            ShutdownStep::SendClose { connection, message, process } => ShutdownPhase::Closing,
            _ => ShutdownPhase::Terminated,
        }
    }

    /// The phase that the shutdown sequence is in once the host has performed this step.
    pub fn phase(&self) -> (phase: ShutdownPhase)
        ensures
            phase == self.phase_of(),
    {
        match self {
            ShutdownStep::SendClose { connection: _, message: _, process: _ } => ShutdownPhase::Closing,
            _ => ShutdownPhase::Terminated,
        }
    }
}

impl ShutdownPhase {
    /// Whether the shutdown sequence can go from this phase to `next`: forward
    /// only, from running over closing to terminated, or to terminated at once.
    pub open spec fn leads_to(self, next: ShutdownPhase) -> bool {
        match self {
            ShutdownPhase::Running => next is Closing || next is Terminated,
            ShutdownPhase::Closing => next is Terminated,
            ShutdownPhase::Terminated => false,
        }
    }
}

impl<P> CloseOutcome<P> {
    /// The phase that the shutdown sequence is in once the host has done what the
    /// outcome asks: still closing where the request was sent, terminated otherwise.
    pub open spec fn phase_of(self) -> ShutdownPhase {
        match self {
            CloseOutcome::Closing { process } => ShutdownPhase::Closing,
            _ => ShutdownPhase::Terminated,
        }
    }

    /// The phase that the shutdown sequence is in once the host has done what the outcome asks.
    pub fn phase(&self) -> (phase: ShutdownPhase)
        ensures
            phase == self.phase_of(),
    {
        match self {
            CloseOutcome::Closing { process: _ } => ShutdownPhase::Closing,
            _ => ShutdownPhase::Terminated,
        }
    }
}

/// Decides what follows the attempt to send the close request. A request that was
/// sent leaves the engine to end on its own. A request that could not be sent is
/// no reason to leave the process running: it is killed where there is a handle,
/// and the failure is handed on to be logged.
pub fn close_sent<P>(reply: Reply, process: Option<P>) -> (outcome: CloseOutcome<P>)
    ensures
        match reply@ {
            ReplyView::Failed(cause) => match process {
                Some(handle) => {
                    &&& outcome is Kill
                    &&& outcome->handle == handle
                    &&& outcome->Kill_error@ == LifecycleErrorView::ShutdownSend { cause }
                },
                None => {
                    &&& outcome is Lost
                    &&& outcome->Lost_error@ == LifecycleErrorView::ShutdownSend { cause }
                },
            },
            _ => outcome == (CloseOutcome::Closing { process }),
        },
{
    match reply {
        Reply::Failed(cause) => {
            let error = LifecycleError::ShutdownSend { cause };
            match process {
                Some(handle) => CloseOutcome::Kill { handle, error },
                None => CloseOutcome::Lost { error },
            }
        },
        _ => CloseOutcome::Closing { process },
    }
}

/// Shutdown leaves no instance in the store, so a second shutdown finds nothing:
/// it changes nothing and has nothing to send or to kill.
pub proof fn second_shutdown_finds_nothing<P, C>(store: LifecycleStore<P, C>)
    ensures
        store.emptied().held() is None,
        store.emptied().emptied() == store.emptied(),
{
}

/// A store holds an instance only between a launch that succeeded and the next shutdown:
/// an empty or reserved store holds none, and taking the instance empties the store.
pub proof fn store_holds_at_most_one_instance<P, C>(store: LifecycleStore<P, C>)
    ensures
        store is Running <==> store.held() is Some,
        store is Running ==> store.emptied() is Empty,
        !(store is Running) ==> store.emptied() == store,
{
}

/// The shutdown sequence only moves forward: a step leaves the running phase for
/// closing or terminated, what follows a close request stays closing or ends
/// terminated, and nothing leads out of terminated.
pub proof fn shutdown_only_moves_forward<P, C>(step: ShutdownStep<P, C>, outcome: CloseOutcome<P>)
    ensures
        ShutdownPhase::Running.leads_to(step.phase_of()),
        step is SendClose ==> step.phase_of() is Closing,
        outcome.phase_of() is Closing || ShutdownPhase::Closing.leads_to(outcome.phase_of()),
        forall|next: ShutdownPhase| !ShutdownPhase::Terminated.leads_to(next),
{
}

} // verus!
