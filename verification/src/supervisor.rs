//! The best-effort backend startup flow as a verified step machine.
//!
//! One `Startup` drives the fire-and-forget launch of the long-lived
//! backend service: check that the backend directory exists, check that the
//! startup script exists, and ask for one detached spawn. Every outcome —
//! success or any failure — is a `StartupReport` for the operator-facing
//! log; the machine has no error type at all, so startup can never raise a
//! failure to its caller.

use vstd::pervasive::unreached;
use vstd::prelude::*;

use crate::launch::service_attempt;
use crate::launch::service_launch;
use crate::launch::LaunchSpec;
use crate::paths::resolve;
use crate::paths::spec_backend_dir;
use crate::paths::spec_start_script;

verus! {

/// Where one startup attempt stands.
#[derive(Clone, Copy, Debug, PartialEq, Eq, Structural)]
pub enum SupPhase {
    /// Waiting for the existence probe of the backend directory.
    DirCheck,
    /// Waiting for the existence probe of the startup script.
    ScriptCheck,
    /// Waiting for the detached spawn to be accepted.
    Launching,
    /// Finished; a report was returned.
    Done,
}

/// One backend-startup attempt in flight.
pub struct Startup {
    pub resource_root: String,
    pub phase: SupPhase,
}

/// What the host reports back to the machine.
pub enum SupEvent {
    /// The result of an existence probe.
    FileStatus { exists: bool },
    /// Whether the operating system accepted the detached spawn request.
    SpawnStatus { accepted: bool, detail: String },
}

/// What the machine asks the host to do next.
pub enum SupAction {
    /// Probe whether the backend directory exists.
    ProbeDir { path: String },
    /// Probe whether the startup script exists.
    ProbeScript { path: String },
    /// Spawn the given launch detached, without waiting for completion.
    Run { launch: LaunchSpec },
}

/// What one startup attempt came to. A report, never an error: every
/// variant is meant for the log, and none aborts the caller.
pub enum StartupReport {
    /// The spawn request was accepted; the service is considered started.
    Started,
    /// The backend directory does not exist at the reported path.
    BackendMissing { detail: String },
    /// The startup script does not exist at the reported path.
    StartScriptMissing { detail: String },
    /// The operating system rejected the spawn request.
    SpawnRejected { detail: String },
}

/// `a` is the action the machine `m` asks for in its current phase.
pub open spec fn sup_action_for(m: Startup, a: SupAction) -> bool {
    match m.phase {
        SupPhase::DirCheck => match a {
            SupAction::ProbeDir { path } => path@ == spec_backend_dir(m.resource_root@),
            _ => false,
        },
        SupPhase::ScriptCheck => match a {
            SupAction::ProbeScript { path } => path@ == spec_start_script(m.resource_root@),
            _ => false,
        },
        SupPhase::Launching => match a {
            SupAction::Run { launch } => service_launch(
                launch,
                "bash"@,
                spec_start_script(m.resource_root@),
                spec_backend_dir(m.resource_root@),
            ),
            _ => false,
        },
        SupPhase::Done => false,
    }
}

/// `ev` is an event the current phase can receive.
pub open spec fn sup_event_fits(m: Startup, ev: SupEvent) -> bool {
    match m.phase {
        SupPhase::DirCheck => ev is FileStatus,
        SupPhase::ScriptCheck => ev is FileStatus,
        SupPhase::Launching => ev is SpawnStatus,
        SupPhase::Done => false,
    }
}

/// The whole transition table of the startup machine.
pub open spec fn sup_step_relation(
    pre: Startup,
    ev: SupEvent,
    post: Startup,
    r: Option<StartupReport>,
) -> bool {
    &&& post.resource_root == pre.resource_root
    &&& match pre.phase {
        SupPhase::DirCheck => match ev {
            SupEvent::FileStatus { exists } => if exists {
                post.phase is ScriptCheck && r is None
            } else {
                &&& post.phase is Done
                &&& r is Some
                &&& r->0 matches StartupReport::BackendMissing { detail } && detail@
                    == spec_backend_dir(pre.resource_root@)
            },
            _ => false,
        },
        SupPhase::ScriptCheck => match ev {
            SupEvent::FileStatus { exists } => if exists {
                post.phase is Launching && r is None
            } else {
                &&& post.phase is Done
                &&& r is Some
                &&& r->0 matches StartupReport::StartScriptMissing { detail } && detail@
                    == spec_start_script(pre.resource_root@)
            },
            _ => false,
        },
        SupPhase::Launching => match ev {
            SupEvent::SpawnStatus { accepted, detail } => {
                &&& post.phase is Done
                &&& r is Some
                &&& if accepted {
                    r->0 is Started
                } else {
                    r->0 matches StartupReport::SpawnRejected { detail: d } && d@ == detail@
                }
            },
            _ => false,
        },
        SupPhase::Done => false,
    }
}

impl Startup {
    /// A fresh startup attempt for the given resource root.
    pub fn new(resource_root: String) -> (m: Self)
        ensures
            m.resource_root == resource_root,
            m.phase is DirCheck,
    {
        Startup { resource_root, phase: SupPhase::DirCheck }
    }

    /// The machine still waits for an event.
    pub open spec fn in_progress(&self) -> bool {
        !(self.phase is Done)
    }

    /// What the host must do next.
    pub fn next_action(&self) -> (a: SupAction)
        requires
            self.in_progress(),
        ensures
            sup_action_for(*self, a),
    {
        match self.phase {
            SupPhase::DirCheck => {
                let layout = resolve(self.resource_root.as_str());
                SupAction::ProbeDir { path: layout.backend_dir }
            },
            SupPhase::ScriptCheck => {
                let layout = resolve(self.resource_root.as_str());
                SupAction::ProbeScript { path: layout.start_script }
            },
            SupPhase::Launching => {
                let layout = resolve(self.resource_root.as_str());
                SupAction::Run {
                    launch: service_attempt(
                        "bash".to_owned(),
                        layout.start_script,
                        layout.backend_dir,
                    ),
                }
            },
            SupPhase::Done => unreached(),
        }
    }

    /// Feeds the host's observation back. Returns `Some` report exactly
    /// when the attempt finishes, per `sup_step_relation`.
    pub fn step(&mut self, event: SupEvent) -> (r: Option<StartupReport>)
        requires
            old(self).in_progress(),
            sup_event_fits(*old(self), event),
        ensures
            sup_step_relation(*old(self), event, *final(self), r),
    {
        match self.phase {
            SupPhase::DirCheck => match event {
                SupEvent::FileStatus { exists } => {
                    if exists {
                        self.phase = SupPhase::ScriptCheck;
                        None
                    } else {
                        self.phase = SupPhase::Done;
                        let layout = resolve(self.resource_root.as_str());
                        Some(StartupReport::BackendMissing { detail: layout.backend_dir })
                    }
                },
                _ => unreached(),
            },
            SupPhase::ScriptCheck => match event {
                SupEvent::FileStatus { exists } => {
                    if exists {
                        self.phase = SupPhase::Launching;
                        None
                    } else {
                        self.phase = SupPhase::Done;
                        let layout = resolve(self.resource_root.as_str());
                        Some(StartupReport::StartScriptMissing { detail: layout.start_script })
                    }
                },
                _ => unreached(),
            },
            SupPhase::Launching => match event {
                SupEvent::SpawnStatus { accepted, detail } => {
                    self.phase = SupPhase::Done;
                    if accepted {
                        Some(StartupReport::Started)
                    } else {
                        Some(StartupReport::SpawnRejected { detail })
                    }
                },
                _ => unreached(),
            },
            SupPhase::Done => unreached(),
        }
    }
}

/// How many events the machine can still consume from a phase.
pub open spec fn sup_phase_rank(p: SupPhase) -> nat {
    match p {
        SupPhase::DirCheck => 3,
        SupPhase::ScriptCheck => 2,
        SupPhase::Launching => 1,
        SupPhase::Done => 0,
    }
}

/// Every step makes progress, so a host that performs the requested
/// actions gets a report after at most three events; and the report comes
/// exactly when the machine finishes.
pub proof fn lemma_sup_step_progress(
    pre: Startup,
    ev: SupEvent,
    post: Startup,
    r: Option<StartupReport>,
)
    requires
        sup_step_relation(pre, ev, post, r),
    ensures
        sup_phase_rank(post.phase) < sup_phase_rank(pre.phase),
        r is Some <==> post.phase is Done,
{
}

/// Startup absorbs every failure: whatever goes wrong — a missing backend
/// directory, a missing startup script, a rejected spawn — the machine ends
/// with a report for the log. Its result type carries no error, so nothing
/// can escalate to the caller.
pub proof fn lemma_startup_absorbs_failures(
    pre: Startup,
    ev: SupEvent,
    post: Startup,
    r: Option<StartupReport>,
)
    requires
        sup_step_relation(pre, ev, post, r),
    ensures
        ev == (SupEvent::FileStatus { exists: false }) ==> post.phase is Done && r is Some,
        (ev matches SupEvent::SpawnStatus { accepted: false, detail: _ }) ==> post.phase is Done
            && r is Some,
{
}

} // verus!
