//! The session manager: singleton ownership of the network client's state.
//!
//! A `Session` is created exactly once per process, at startup, and is the
//! sole place where the attach/shutdown lifecycle of the overlay-network
//! client is decided. The client's own asynchronous calls (attach, state
//! query, shutdown) run outside this crate; the caller performs the action a
//! method here decides on, and reports what the network said back through
//! `observe_attachment` and `attach_failed`.

use vstd::prelude::*;

use crate::config::Config;

verus! {

/// Connectivity tier of the local node within the overlay network, from
/// fully disconnected to fully peered. Transitions are driven entirely by
/// the network library; the session only records the value it observed
/// last.
#[derive(Clone, Copy, Debug, PartialEq, Eq, Structural)]
pub enum AttachmentState {
    Detached,
    Attaching,
    AttachedWeak,
    AttachedGood,
    AttachedStrong,
    FullyAttached,
    OverAttached,
    Detaching,
}

/// Lifecycle phase of the session: running from startup until `shutdown`,
/// then terminally shut down.
#[derive(Clone, Copy, Debug, PartialEq, Eq, Structural)]
pub enum SessionPhase {
    Running,
    ShutDown,
}

/// The process-wide session state. Exactly one value of this type should
/// exist per process; callers keep it in write-once storage and hand out
/// references.
pub struct Session {
    /// The startup configuration the client was initialized with.
    pub config: Config,
    /// Running until `shutdown`, then terminally `ShutDown`.
    pub phase: SessionPhase,
    /// The attachment state most recently observed from the network.
    pub attachment: AttachmentState,
    /// Whether an attach request has been issued and no attachment change
    /// has been observed since.
    pub attach_pending: bool,
    /// The node identifiers of the local routing table, recorded once the
    /// client reports them.
    pub node_ids: Vec<String>,
}

/// An attach request goes out exactly when the session is running, the
/// network is detached, and no earlier request is still outstanding.
pub open spec fn attach_decision(s: Session) -> bool {
    &&& s.phase == SessionPhase::Running
    &&& s.attachment == AttachmentState::Detached
    &&& !s.attach_pending
}

/// The session state after one `ensure_attached` call.
pub open spec fn after_ensure_attached(s: Session) -> Session {
    Session {
        config: s.config,
        phase: s.phase,
        attachment: s.attachment,
        attach_pending: s.attach_pending || attach_decision(s),
        node_ids: s.node_ids,
    }
}

/// The session state after observing an attachment change: the new state is
/// recorded, and a pending attach request is considered answered unless the
/// network is still detached.
pub open spec fn after_observe(s: Session, st: AttachmentState) -> Session {
    Session {
        config: s.config,
        phase: s.phase,
        attachment: st,
        attach_pending: s.attach_pending && st == AttachmentState::Detached,
        node_ids: s.node_ids,
    }
}

/// The session state after a failed attach request: the request is no
/// longer outstanding, so the caller may retry.
pub open spec fn after_attach_failed(s: Session) -> Session {
    Session {
        config: s.config,
        phase: s.phase,
        attachment: s.attachment,
        attach_pending: false,
        node_ids: s.node_ids,
    }
}

/// The session state after `shutdown`: terminally shut down, detached, with
/// nothing outstanding.
pub open spec fn after_shutdown(s: Session) -> Session {
    Session {
        config: s.config,
        phase: SessionPhase::ShutDown,
        attachment: AttachmentState::Detached,
        attach_pending: false,
        node_ids: s.node_ids,
    }
}

impl Session {
    /// Creates the session state for a freshly started client: running,
    /// detached, nothing outstanding, no node identifiers recorded yet.
    pub fn start(config: Config) -> (s: Session)
        ensures
            s.phase == SessionPhase::Running,
            s.attachment == AttachmentState::Detached,
            !s.attach_pending,
            s.node_ids@.len() == 0,
            s.config == config,
    {
        Session {
            config,
            phase: SessionPhase::Running,
            attachment: AttachmentState::Detached,
            attach_pending: false,
            node_ids: Vec::new(),
        }
    }

    /// Decides whether an outbound attach request must be issued now.
    /// Returns true only when the session is running, detached, and no
    /// request is already outstanding; otherwise the call is a no-op, so
    /// repeated calls are safe.
    pub fn ensure_attached(&mut self) -> (issue_attach: bool)
        ensures
            issue_attach == attach_decision(*old(self)),
            *final(self) == after_ensure_attached(*old(self)),
    {
        let issue = self.phase == SessionPhase::Running
            && self.attachment == AttachmentState::Detached && !self.attach_pending;
        if issue {
            self.attach_pending = true;
        }
        issue
    }

    /// Records an attachment state reported by the network.
    pub fn observe_attachment(&mut self, st: AttachmentState)
        ensures
            *final(self) == after_observe(*old(self), st),
    {
        self.attachment = st;
        self.attach_pending = self.attach_pending && st == AttachmentState::Detached;
    }

    /// Records that an issued attach request failed, so a later
    /// `ensure_attached` may issue a fresh one.
    pub fn attach_failed(&mut self)
        ensures
            *final(self) == after_attach_failed(*old(self)),
    {
        self.attach_pending = false;
    }

    /// Records the node identifiers of the local routing table.
    pub fn record_node_ids(&mut self, ids: Vec<String>)
        ensures
            final(self).node_ids == ids,
            final(self).config == old(self).config,
            final(self).phase == old(self).phase,
            final(self).attachment == old(self).attachment,
            final(self).attach_pending == old(self).attach_pending,
    {
        self.node_ids = ids;
    }

    /// The first configured routing-table node identifier as text, or the
    /// empty string when none is assigned yet. Reads only local state.
    pub fn current_node_identity(&self) -> (r: String)
        ensures
            self.node_ids@.len() == 0 ==> r@ == Seq::<char>::empty(),
            self.node_ids@.len() > 0 ==> r@ == self.node_ids@[0]@,
    {
        if self.node_ids.len() == 0 {
            String::new()
        } else {
            self.node_ids[0].clone()
        }
    }

    /// Requests orderly teardown. Idempotent: shutting down an already
    /// shut-down session changes nothing further, and the session is left
    /// in a terminal, non-reusable state.
    pub fn shutdown(&mut self)
        ensures
            *final(self) == after_shutdown(*old(self)),
    {
        self.phase = SessionPhase::ShutDown;
        self.attachment = AttachmentState::Detached;
        self.attach_pending = false;
    }
}

/// The session state after `n` consecutive `ensure_attached` calls.
pub open spec fn ensure_attached_n(s: Session, n: nat) -> Session
    decreases n,
{
    if n == 0 {
        s
    } else {
        after_ensure_attached(ensure_attached_n(s, (n - 1) as nat))
    }
}

/// How many outbound attach requests `n` consecutive `ensure_attached`
/// calls issue.
pub open spec fn attach_requests_issued(s: Session, n: nat) -> nat
    decreases n,
{
    if n == 0 {
        0
    } else {
        attach_requests_issued(s, (n - 1) as nat) + if attach_decision(
            ensure_attached_n(s, (n - 1) as nat),
        ) {
            1nat
        } else {
            0nat
        }
    }
}

/// Ensuring attachment is idempotent: any number of consecutive
/// `ensure_attached` calls issues at most one outbound attach request, none
/// at all while the network is already attached (or a request is already
/// outstanding, or the session is shut down), and the session state settles
/// after the first call.
pub proof fn lemma_ensure_attached_idempotent(s: Session, n: nat)
    ensures
        attach_requests_issued(s, n) <= 1,
        !attach_decision(s) ==> attach_requests_issued(s, n) == 0,
        s.attachment != AttachmentState::Detached ==> attach_requests_issued(s, n) == 0,
        n >= 1 ==> ensure_attached_n(s, n) == after_ensure_attached(s),
    decreases n,
{
    if n > 0 {
        lemma_ensure_attached_idempotent(s, (n - 1) as nat);
    }
}

/// Shutting down is idempotent and terminal: a second shutdown changes
/// nothing, no attach request can go out afterwards, and no later
/// transition leaves the shut-down phase.
pub proof fn lemma_shutdown_terminal(s: Session, st: AttachmentState)
    ensures
        after_shutdown(after_shutdown(s)) == after_shutdown(s),
        !attach_decision(after_shutdown(s)),
        after_observe(after_shutdown(s), st).phase == SessionPhase::ShutDown,
        after_ensure_attached(after_shutdown(s)).phase == SessionPhase::ShutDown,
        after_attach_failed(after_shutdown(s)).phase == SessionPhase::ShutDown,
{
}

} // verus!
