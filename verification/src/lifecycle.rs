//! The initialize/start/stop state machine of the relay service: one
//! execution engine created at most once, one backend handle stored only
//! after a successful bootstrap, and at most one active listener, always
//! superseded before a new one is recorded.
//!
//! The engine, the backend bootstrap and the TCP bind happen outside this
//! crate; each method here takes their outcome as a plain value and decides
//! the status code and the next state.

use vstd::prelude::*;

verus! {

/// Status code for an operation that succeeded.
pub const STATUS_OK: i32 = 0;

/// Initialize: the data-directory argument was unusable.
pub const INIT_ERR_ARG: i32 = -1;

/// Initialize: the execution engine could not be created.
pub const INIT_ERR_ENGINE: i32 = -2;

/// Initialize: the backend bootstrap failed.
pub const INIT_ERR_BOOTSTRAP: i32 = -3;

/// Start: no backend handle is stored; initialize first.
pub const START_ERR_NO_BACKEND: i32 = -1;

/// Start: the execution engine is missing.
pub const START_ERR_NO_ENGINE: i32 = -2;

/// Start: the listener could not bind its port.
pub const START_ERR_BIND: i32 = -3;

/// The controller's state: which singletons exist, and the port of the one
/// active listener, if any.
pub struct Lifecycle {
    /// The process-wide execution engine has been created.
    pub engine_ready: bool,
    /// A bootstrapped backend handle is stored.
    pub backend_ready: bool,
    /// The port of the active listener task, if one is recorded.
    pub listener_port: Option<u16>,
}

/// What the first half of a start decides.
#[derive(PartialEq, Eq, Structural, Clone, Copy, Debug)]
pub enum StartStep {
    /// Refuse with this status; no bind is attempted.
    Refuse(i32),
    /// Both preconditions hold: bind the listener, then report the outcome
    /// with `bind_finished`.
    Bind,
}

impl Lifecycle {
    /// A listener is only ever recorded once the engine and the backend
    /// both stand.
    pub open spec fn wf(&self) -> bool {
        self.listener_port is Some ==> (self.engine_ready && self.backend_ready)
    }

    /// A fresh controller: nothing created, nothing running.
    pub fn new() -> (r: Lifecycle)
        ensures
            !r.engine_ready,
            !r.backend_ready,
            r.listener_port is None,
            r.wf(),
    {
        Lifecycle { engine_ready: false, backend_ready: false, listener_port: None }
    }

    /// Initialize, engine step: record the outcome of the one-time engine
    /// creation. An engine that already stands is never replaced, so a later
    /// failed creation cannot unseat it. Returns the status to report when
    /// no engine stands afterwards.
    pub fn engine_created(&mut self, ok: bool) -> (r: Option<i32>)
        requires
            old(self).wf(),
        ensures
            final(self).engine_ready == (old(self).engine_ready || ok),
            final(self).backend_ready == old(self).backend_ready,
            final(self).listener_port == old(self).listener_port,
            final(self).wf(),
            r is None <==> final(self).engine_ready,
            !final(self).engine_ready ==> r == Some(INIT_ERR_ENGINE),
    {
        if ok {
            self.engine_ready = true;
        }
        if self.engine_ready {
            None
        } else {
            Some(INIT_ERR_ENGINE)
        }
    }

    /// Initialize, bootstrap step: record the outcome of the backend
    /// bootstrap. Success stores the backend handle; failure leaves the
    /// state as it was, so a later initialize can retry.
    pub fn bootstrap_finished(&mut self, ok: bool) -> (r: i32)
        requires
            old(self).wf(),
            old(self).engine_ready,
        ensures
            final(self).engine_ready == old(self).engine_ready,
            final(self).listener_port == old(self).listener_port,
            ok ==> final(self).backend_ready && r == STATUS_OK,
            !ok ==> final(self).backend_ready == old(self).backend_ready && r
                == INIT_ERR_BOOTSTRAP,
            final(self).wf(),
    {
        if ok {
            self.backend_ready = true;
            STATUS_OK
        } else {
            INIT_ERR_BOOTSTRAP
        }
    }

    /// Start, first half: any previously recorded listener is dropped
    /// (cancelled) before anything else, then the preconditions are
    /// checked. A start refused for a missing backend or engine has thus
    /// already torn the old listener down, and no bind is attempted.
    pub fn start_begin(&mut self) -> (r: StartStep)
        requires
            old(self).wf(),
        ensures
            final(self).listener_port is None,
            final(self).engine_ready == old(self).engine_ready,
            final(self).backend_ready == old(self).backend_ready,
            final(self).wf(),
            !old(self).backend_ready ==> r == StartStep::Refuse(START_ERR_NO_BACKEND),
            old(self).backend_ready && !old(self).engine_ready ==> r == StartStep::Refuse(
                START_ERR_NO_ENGINE,
            ),
            old(self).backend_ready && old(self).engine_ready ==> r == StartStep::Bind,
    {
        self.listener_port = None;
        if !self.backend_ready {
            StartStep::Refuse(START_ERR_NO_BACKEND)
        } else if !self.engine_ready {
            StartStep::Refuse(START_ERR_NO_ENGINE)
        } else {
            StartStep::Bind
        }
    }

    /// Start, second half: record the outcome of the bind that
    /// `start_begin` called for. A successful bind records the new
    /// listener; a failed one leaves none, so the caller must treat a
    /// non-zero status as "no listener is running".
    pub fn bind_finished(&mut self, port: u16, ok: bool) -> (r: i32)
        requires
            old(self).wf(),
            old(self).engine_ready,
            old(self).backend_ready,
            old(self).listener_port is None,
        ensures
            final(self).engine_ready == old(self).engine_ready,
            final(self).backend_ready == old(self).backend_ready,
            ok ==> final(self).listener_port == Some(port) && r == STATUS_OK,
            !ok ==> final(self).listener_port is None && r == START_ERR_BIND,
            final(self).wf(),
    {
        if ok {
            self.listener_port = Some(port);
            STATUS_OK
        } else {
            START_ERR_BIND
        }
    }

    /// Stop: drop (cancel) the active listener if any. Always succeeds and
    /// is idempotent; the engine and the backend handle stay for a later
    /// start.
    pub fn stop(&mut self) -> (r: i32)
        requires
            old(self).wf(),
        ensures
            r == STATUS_OK,
            final(self).listener_port is None,
            final(self).engine_ready == old(self).engine_ready,
            final(self).backend_ready == old(self).backend_ready,
            final(self).wf(),
    {
        self.listener_port = None;
        STATUS_OK
    }

    /// Whether the execution engine stands.
    pub fn engine_present(&self) -> (r: bool)
        ensures
            r == self.engine_ready,
    {
        self.engine_ready
    }

    /// Whether a bootstrapped backend handle is stored.
    pub fn backend_present(&self) -> (r: bool)
        ensures
            r == self.backend_ready,
    {
        self.backend_ready
    }

    /// The port of the active listener, if one is recorded.
    pub fn current_port(&self) -> (r: Option<u16>)
        ensures
            r == self.listener_port,
    {
        self.listener_port
    }
}

} // verus!
