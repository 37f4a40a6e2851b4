//! The node supervisor: exclusive authority over the lifecycle of the one
//! local node process.
//!
//! The supervisor is a state machine over plain values.  It decides every
//! lifecycle transition and records which account owns the current run;
//! the surrounding application performs the operating-system work (spawn,
//! terminate, kill) that each decision calls for and reports the outcome
//! back through [`NodeSupervisor::confirm_spawn`],
//! [`NodeSupervisor::spawn_failed`] and [`NodeSupervisor::process_exited`].
//! Callers serialize all operations through one exclusive lock around the
//! whole supervisor value.

use vstd::prelude::*;

verus! {

use crate::errors::NodeError;
use crate::strutil::str_eq;

/// Lifecycle status of the supervised node process.
#[derive(Clone, Copy, Debug, PartialEq, Eq, Structural)]
pub enum NodeStatus {
    /// No process; the last run (if any) ended by request.
    Stopped,
    /// A start was accepted; the spawn outcome is not yet known.
    Starting,
    /// The process is alive.
    Running,
    /// A graceful termination request has been issued; the process has not
    /// exited yet.
    ShuttingDown,
    /// The process exited on its own, without a stop request.
    Crashed,
}

/// Network, data directory and port configuration of one run.  Retained
/// for diagnostics and restart; never mutated after a successful start.
pub struct StartParams {
    pub network: String,
    pub datapath: Option<String>,
    pub daemon_listening_port: String,
    pub ldk_peer_listening_port: String,
}

/// The authoritative lifecycle record of the one local node process.
pub struct NodeSupervisor {
    status: NodeStatus,
    owning_account: Option<String>,
    process_id: Option<u64>,
    start_params: Option<StartParams>,
    platform_supported: bool,
}

impl NodeSupervisor {
    /// Current lifecycle status.
    pub closed spec fn status(&self) -> NodeStatus {
        self.status
    }

    /// The account owning the current run, if any.
    pub closed spec fn owning_account(&self) -> Option<Seq<char>> {
        match self.owning_account {
            Some(ref a) => Some(a@),
            None => None,
        }
    }

    /// Identifier of the operating-system process, once the spawn has been
    /// confirmed.
    pub closed spec fn process_id(&self) -> Option<u64> {
        self.process_id
    }

    /// The parameters of the current run, if any.
    pub closed spec fn start_params(&self) -> Option<StartParams> {
        self.start_params
    }

    /// Whether local node execution is supported on this platform.
    pub closed spec fn platform_supported(&self) -> bool {
        self.platform_supported
    }

    /// A process is considered live from an accepted start until its exit
    /// is observed.
    pub open spec fn spec_is_running(&self) -> bool {
        self.status() == NodeStatus::Starting || self.status() == NodeStatus::Running
            || self.status() == NodeStatus::ShuttingDown
    }

    /// Running, and owned by the account named `name`.
    pub open spec fn spec_is_running_for_account(&self, name: Seq<char>) -> bool {
        self.spec_is_running() && self.owning_account() == Some(name)
    }

    /// Invariant: an owning account and start parameters exist exactly
    /// while a run is in progress, and an operating-system process exists
    /// exactly once its spawn has been confirmed.
    pub open spec fn wf(&self) -> bool {
        &&& self.owning_account() is Some <==> self.spec_is_running()
        &&& self.start_params() is Some <==> self.spec_is_running()
        &&& self.process_id() is Some <==> (self.status() == NodeStatus::Running
            || self.status() == NodeStatus::ShuttingDown)
    }

    /// Creates a supervisor with no process.  `platform_supported` states
    /// whether this OS/build configuration can execute a local node.
    pub fn new(platform_supported: bool) -> (r: NodeSupervisor)
        ensures
            r.wf(),
            r.status() == NodeStatus::Stopped,
            r.owning_account() is None,
            r.process_id() is None,
            r.start_params() is None,
            r.platform_supported() == platform_supported,
    {
        NodeSupervisor {
            status: NodeStatus::Stopped,
            owning_account: None,
            process_id: None,
            start_params: None,
            platform_supported,
        }
    }

    /// Accepts or refuses a start request.
    ///
    /// A start is accepted only when no run is in progress (the last run
    /// ended in `Stopped` or `Crashed`; an active process is never
    /// replaced silently) and the platform supports local nodes.  On
    /// acceptance the supervisor records the owning account and the run
    /// parameters and enters `Starting`; the caller must then spawn the
    /// process and report the outcome through [`Self::confirm_spawn`] or
    /// [`Self::spawn_failed`].  On refusal the state is unchanged.
    pub fn start(&mut self, params: StartParams, account_name: String) -> (r: Result<
        (),
        NodeError,
    >)
        requires
            old(self).wf(),
        ensures
            final(self).wf(),
            final(self).platform_supported() == old(self).platform_supported(),
            r is Ok <==> ((old(self).status() == NodeStatus::Stopped || old(self).status()
                == NodeStatus::Crashed) && old(self).platform_supported()),
            match r {
                Ok(_) => {
                    &&& final(self).status() == NodeStatus::Starting
                    &&& final(self).owning_account() == Some(account_name@)
                    &&& final(self).start_params() == Some(params)
                    &&& final(self).process_id() is None
                },
                Err(e) => {
                    &&& *final(self) == *old(self)
                    &&& e == if old(self).spec_is_running() {
                        NodeError::AlreadyRunning
                    } else {
                        NodeError::PlatformUnsupported
                    }
                },
            },
    {
        match self.status {
            NodeStatus::Stopped | NodeStatus::Crashed => {
                if !self.platform_supported {
                    return Err(NodeError::PlatformUnsupported);
                }
                self.status = NodeStatus::Starting;
                self.owning_account = Some(account_name);
                self.start_params = Some(params);
                self.process_id = None;
                Ok(())
            },
            _ => Err(NodeError::AlreadyRunning),
        }
    }

    /// Records that the operating system created the process; the run is
    /// now `Running`.
    pub fn confirm_spawn(&mut self, pid: u64)
        requires
            old(self).wf(),
            old(self).status() == NodeStatus::Starting,
        ensures
            final(self).wf(),
            final(self).status() == NodeStatus::Running,
            final(self).process_id() == Some(pid),
            final(self).owning_account() == old(self).owning_account(),
            final(self).start_params() == old(self).start_params(),
            final(self).platform_supported() == old(self).platform_supported(),
    {
        self.status = NodeStatus::Running;
        self.process_id = Some(pid);
    }

    /// Records that the operating system refused to create the process;
    /// the supervisor returns to `Stopped` and reports the failure.
    pub fn spawn_failed(&mut self) -> (e: NodeError)
        requires
            old(self).wf(),
            old(self).status() == NodeStatus::Starting,
        ensures
            final(self).wf(),
            final(self).status() == NodeStatus::Stopped,
            final(self).owning_account() is None,
            final(self).process_id() is None,
            final(self).start_params() is None,
            final(self).platform_supported() == old(self).platform_supported(),
            e == NodeError::SpawnFailed,
    {
        self.status = NodeStatus::Stopped;
        self.owning_account = None;
        self.start_params = None;
        self.process_id = None;
        NodeError::SpawnFailed
    }

    /// Requests graceful termination of the process.
    ///
    /// Succeeds exactly when a confirmed process exists (`Running` or
    /// `ShuttingDown`); the caller must then issue the termination signal.
    /// The call records the request and returns at once — it does not wait
    /// for the exit, which is reported later through
    /// [`Self::process_exited`].  When no process exists the state is
    /// unchanged and `NotRunning` is reported.
    pub fn stop(&mut self) -> (r: Result<(), NodeError>)
        requires
            old(self).wf(),
        ensures
            final(self).wf(),
            r is Ok <==> (old(self).status() == NodeStatus::Running || old(self).status()
                == NodeStatus::ShuttingDown),
            match r {
                Ok(_) => {
                    &&& final(self).status() == NodeStatus::ShuttingDown
                    &&& final(self).owning_account() == old(self).owning_account()
                    &&& final(self).start_params() == old(self).start_params()
                    &&& final(self).process_id() == old(self).process_id()
                    &&& final(self).platform_supported() == old(self).platform_supported()
                },
                Err(e) => {
                    &&& *final(self) == *old(self)
                    &&& e == NodeError::NotRunning
                },
            },
    {
        match self.status {
            NodeStatus::Running | NodeStatus::ShuttingDown => {
                self.status = NodeStatus::ShuttingDown;
                Ok(())
            },
            _ => Err(NodeError::NotRunning),
        }
    }

    /// Synchronous variant of [`Self::stop`] used by the shutdown
    /// coordinator: it issues the same termination request and is meant to
    /// be followed by [`Self::is_running`] polling.
    pub fn shutdown(&mut self) -> (r: Result<(), NodeError>)
        requires
            old(self).wf(),
        ensures
            final(self).wf(),
            r is Ok <==> (old(self).status() == NodeStatus::Running || old(self).status()
                == NodeStatus::ShuttingDown),
            match r {
                Ok(_) => {
                    &&& final(self).status() == NodeStatus::ShuttingDown
                    &&& final(self).owning_account() == old(self).owning_account()
                    &&& final(self).start_params() == old(self).start_params()
                    &&& final(self).process_id() == old(self).process_id()
                    &&& final(self).platform_supported() == old(self).platform_supported()
                },
                Err(e) => {
                    &&& *final(self) == *old(self)
                    &&& e == NodeError::NotRunning
                },
            },
    {
        self.stop()
    }

    /// Records that the operating-system process terminated.  An exit
    /// during `ShuttingDown` is the requested stop; an exit during
    /// `Running` is an involuntary crash and is remembered as such.
    pub fn process_exited(&mut self)
        requires
            old(self).wf(),
            old(self).status() == NodeStatus::Running || old(self).status()
                == NodeStatus::ShuttingDown,
        ensures
            final(self).wf(),
            final(self).status() == if old(self).status() == NodeStatus::ShuttingDown {
                NodeStatus::Stopped
            } else {
                NodeStatus::Crashed
            },
            final(self).owning_account() is None,
            final(self).process_id() is None,
            final(self).start_params() is None,
            final(self).platform_supported() == old(self).platform_supported(),
    {
        match self.status {
            NodeStatus::ShuttingDown => {
                self.status = NodeStatus::Stopped;
            },
            _ => {
                self.status = NodeStatus::Crashed;
            },
        }
        self.owning_account = None;
        self.start_params = None;
        self.process_id = None;
    }

    /// Unconditionally clears the process: the caller kills whatever
    /// process may exist and the supervisor returns to `Stopped`.
    /// Idempotent — safe to call when already stopped.
    pub fn force_kill(&mut self)
        requires
            old(self).wf(),
        ensures
            final(self).wf(),
            final(self).status() == NodeStatus::Stopped,
            final(self).owning_account() is None,
            final(self).process_id() is None,
            final(self).start_params() is None,
            final(self).platform_supported() == old(self).platform_supported(),
    {
        self.status = NodeStatus::Stopped;
        self.owning_account = None;
        self.start_params = None;
        self.process_id = None;
    }

    /// Non-blocking liveness check; `Stopped` and `Crashed` both count as
    /// not running.
    pub fn is_running(&self) -> (r: bool)
        ensures
            r == self.spec_is_running(),
    {
        match self.status {
            NodeStatus::Starting | NodeStatus::Running | NodeStatus::ShuttingDown => true,
            _ => false,
        }
    }

    /// True iff a process is live and its run is owned by `name`.
    pub fn is_running_for_account(&self, name: &str) -> (r: bool)
        ensures
            r == self.spec_is_running_for_account(name@),
    {
        if !self.is_running() {
            return false;
        }
        match &self.owning_account {
            Some(a) => str_eq(a.as_str(), name),
            None => false,
        }
    }

    /// Account-scoped or global liveness query, as the UI issues it.
    pub fn is_node_running(&self, account_name: Option<&str>) -> (r: bool)
        ensures
            r == match account_name {
                Some(n) => self.spec_is_running_for_account(n@),
                None => self.spec_is_running(),
            },
    {
        match account_name {
            Some(n) => self.is_running_for_account(n),
            None => self.is_running(),
        }
    }

    /// Snapshot of the owning account.
    pub fn get_current_account(&self) -> (r: Option<String>)
        ensures
            match r {
                Some(a) => self.owning_account() == Some(a@),
                None => self.owning_account() is None,
            },
    {
        match &self.owning_account {
            Some(a) => Some(a.clone()),
            None => None,
        }
    }

    /// Current lifecycle status.
    pub fn current_status(&self) -> (r: NodeStatus)
        ensures
            r == self.status(),
    {
        self.status
    }

    /// Identifier of the confirmed operating-system process, if any.
    pub fn current_process_id(&self) -> (r: Option<u64>)
        ensures
            r == self.process_id(),
    {
        self.process_id
    }

    /// Whether this OS/build configuration can execute a local node.
    pub fn is_local_node_supported(&self) -> (r: bool)
        ensures
            r == self.platform_supported(),
    {
        self.platform_supported
    }

    /// Law: while no process is live — before any start, after a completed
    /// stop, and after a crash — the supervisor is running for no account.
    pub proof fn lemma_not_running_for_any_account(&self)
        requires
            !self.spec_is_running(),
        ensures
            forall|name: Seq<char>| !self.spec_is_running_for_account(name),
    {
    }
}

} // verus!
