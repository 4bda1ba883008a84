//! The one-shot classification flow as a verified step machine.
//!
//! One `Invocation` drives one classification request: check that the input
//! image exists, check that the classification script exists, launch the
//! primary interpreter, retry the spawn once with the fallback interpreter,
//! and classify the captured output. The machine only decides; the host
//! performs each requested probe or spawn and feeds the observed result
//! back through `step`.

use vstd::pervasive::unreached;
use vstd::prelude::*;

use crate::classify::classified;
use crate::classify::classify_stdout;
use crate::classify::ClassificationResult;
use crate::errors::ErrorKind;
use crate::errors::InvocationError;
use crate::launch::capture_attempt;
use crate::launch::capture_launch;
use crate::launch::LaunchSpec;
use crate::paths::resolve;
use crate::paths::spec_classify_script;

verus! {

/// Where one invocation stands.
#[derive(Clone, Copy, Debug, PartialEq, Eq, Structural)]
pub enum InvPhase {
    /// Waiting for the existence probe of the input image.
    ImageCheck,
    /// Waiting for the existence probe of the classification script.
    ScriptCheck,
    /// Waiting for the spawn of the primary interpreter.
    PrimaryRun,
    /// Waiting for the spawn of the fallback interpreter.
    FallbackRun,
    /// Finished; an outcome was returned.
    Done,
}

/// One classification request in flight.
pub struct Invocation {
    pub resource_root: String,
    pub image_path: String,
    pub primary_interpreter: String,
    pub fallback_interpreter: String,
    pub phase: InvPhase,
}

/// What the host observed of one spawn request.
pub enum SpawnResult {
    /// The operating system could not start the child at all.
    Failed { detail: String },
    /// The child ran to completion with the captured streams.
    Exited { exit_ok: bool, stdout: String, stderr: String },
}

/// What the host reports back to the machine.
pub enum InvEvent {
    /// The result of an existence probe.
    FileStatus { exists: bool },
    /// The result of a spawn request.
    Spawned { result: SpawnResult },
}

/// What the machine asks the host to do next.
pub enum InvAction {
    /// Probe whether the input image exists as a readable file.
    ProbeImage { path: String },
    /// Probe whether the classification script exists.
    ProbeScript { path: String },
    /// Spawn the given launch, wait, and capture its output.
    Run { launch: LaunchSpec },
}

/// The configuration fields of two machine values agree.
pub open spec fn same_config(a: Invocation, b: Invocation) -> bool {
    &&& a.resource_root == b.resource_root
    &&& a.image_path == b.image_path
    &&& a.primary_interpreter == b.primary_interpreter
    &&& a.fallback_interpreter == b.fallback_interpreter
}

/// `a` is the action the machine `m` asks for in its current phase.
pub open spec fn action_for(m: Invocation, a: InvAction) -> bool {
    match m.phase {
        InvPhase::ImageCheck => match a {
            InvAction::ProbeImage { path } => path@ == m.image_path@,
            _ => false,
        },
        InvPhase::ScriptCheck => match a {
            InvAction::ProbeScript { path } => path@ == spec_classify_script(m.resource_root@),
            _ => false,
        },
        InvPhase::PrimaryRun => match a {
            InvAction::Run { launch } => capture_launch(
                launch,
                m.primary_interpreter@,
                spec_classify_script(m.resource_root@),
                m.image_path@,
            ),
            _ => false,
        },
        InvPhase::FallbackRun => match a {
            InvAction::Run { launch } => capture_launch(
                launch,
                m.fallback_interpreter@,
                spec_classify_script(m.resource_root@),
                m.image_path@,
            ),
            _ => false,
        },
        InvPhase::Done => false,
    }
}

/// `ev` is an event the current phase can receive: a probe answer while a
/// probe is pending, a spawn answer while a spawn is pending.
pub open spec fn event_fits(m: Invocation, ev: InvEvent) -> bool {
    match m.phase {
        InvPhase::ImageCheck => ev is FileStatus,
        InvPhase::ScriptCheck => ev is FileStatus,
        InvPhase::PrimaryRun => ev is Spawned,
        InvPhase::FallbackRun => ev is Spawned,
        InvPhase::Done => false,
    }
}

/// `r` is the error of the given kind carrying the given detail text.
pub open spec fn error_outcome(
    r: Result<ClassificationResult, InvocationError>,
    kind: ErrorKind,
    detail: Seq<char>,
) -> bool {
    &&& r is Err
    &&& r->Err_0.kind == kind
    &&& r->Err_0.detail@ == detail
}

/// The outcome of a completed child run: classified output on a zero exit
/// status, the script failure carrying the standard-error text otherwise.
pub open spec fn run_outcome(
    exit_ok: bool,
    stdout: Seq<char>,
    stderr: Seq<char>,
    r: Result<ClassificationResult, InvocationError>,
) -> bool {
    if exit_ok {
        classified(stdout, r)
    } else {
        error_outcome(r, ErrorKind::ScriptFailed, stderr)
    }
}

/// The whole transition table of the invocation machine: how `post` and the
/// returned outcome `r` relate to the machine `pre` receiving `ev`.
pub open spec fn step_relation(
    pre: Invocation,
    ev: InvEvent,
    post: Invocation,
    r: Option<Result<ClassificationResult, InvocationError>>,
) -> bool {
    &&& same_config(pre, post)
    &&& match pre.phase {
        InvPhase::ImageCheck => match ev {
            InvEvent::FileStatus { exists } => if exists {
                post.phase is ScriptCheck && r is None
            } else {
                &&& post.phase is Done
                &&& r is Some
                &&& error_outcome(r->0, ErrorKind::InputNotFound, pre.image_path@)
            },
            _ => false,
        },
        InvPhase::ScriptCheck => match ev {
            InvEvent::FileStatus { exists } => if exists {
                post.phase is PrimaryRun && r is None
            } else {
                &&& post.phase is Done
                &&& r is Some
                &&& error_outcome(
                    r->0,
                    ErrorKind::ScriptNotFound,
                    spec_classify_script(pre.resource_root@),
                )
            },
            _ => false,
        },
        InvPhase::PrimaryRun => match ev {
            InvEvent::Spawned { result } => match result {
                SpawnResult::Failed { detail } => post.phase is FallbackRun && r is None,
                SpawnResult::Exited { exit_ok, stdout, stderr } => {
                    &&& post.phase is Done
                    &&& r is Some
                    &&& run_outcome(exit_ok, stdout@, stderr@, r->0)
                },
            },
            _ => false,
        },
        InvPhase::FallbackRun => match ev {
            InvEvent::Spawned { result } => match result {
                SpawnResult::Failed { detail } => {
                    &&& post.phase is Done
                    &&& r is Some
                    &&& error_outcome(r->0, ErrorKind::LaunchFailed, detail@)
                },
                SpawnResult::Exited { exit_ok, stdout, stderr } => {
                    &&& post.phase is Done
                    &&& r is Some
                    &&& run_outcome(exit_ok, stdout@, stderr@, r->0)
                },
            },
            _ => false,
        },
        InvPhase::Done => false,
    }
}

impl Invocation {
    /// A fresh invocation for one input image, with the deployed
    /// interpreter names tried in order.
    pub fn new(resource_root: String, image_path: String) -> (m: Self)
        ensures
            m.resource_root == resource_root,
            m.image_path == image_path,
            m.primary_interpreter@ == "python3"@,
            m.fallback_interpreter@ == "python"@,
            m.phase is ImageCheck,
    {
        Invocation {
            resource_root,
            image_path,
            primary_interpreter: "python3".to_owned(),
            fallback_interpreter: "python".to_owned(),
            phase: InvPhase::ImageCheck,
        }
    }

    /// The machine still waits for an event.
    pub open spec fn in_progress(&self) -> bool {
        !(self.phase is Done)
    }

    /// What the host must do next. The paths are recomputed from the
    /// resource root on every call.
    pub fn next_action(&self) -> (a: InvAction)
        requires
            self.in_progress(),
        ensures
            action_for(*self, a),
    {
        match self.phase {
            InvPhase::ImageCheck => InvAction::ProbeImage { path: self.image_path.clone() },
            InvPhase::ScriptCheck => {
                let layout = resolve(self.resource_root.as_str());
                InvAction::ProbeScript { path: layout.classify_script }
            },
            InvPhase::PrimaryRun => {
                let layout = resolve(self.resource_root.as_str());
                InvAction::Run {
                    launch: capture_attempt(
                        self.primary_interpreter.clone(),
                        layout.classify_script,
                        self.image_path.clone(),
                    ),
                }
            },
            InvPhase::FallbackRun => {
                let layout = resolve(self.resource_root.as_str());
                InvAction::Run {
                    launch: capture_attempt(
                        self.fallback_interpreter.clone(),
                        layout.classify_script,
                        self.image_path.clone(),
                    ),
                }
            },
            InvPhase::Done => unreached(),
        }
    }

    /// Feeds the host's observation back. Returns `Some` outcome exactly
    /// when the invocation finishes, per `step_relation`.
    pub fn step(&mut self, event: InvEvent) -> (r: Option<
        Result<ClassificationResult, InvocationError>,
    >)
        requires
            old(self).in_progress(),
            event_fits(*old(self), event),
        ensures
            step_relation(*old(self), event, *final(self), r),
    {
        match self.phase {
            InvPhase::ImageCheck => match event {
                InvEvent::FileStatus { exists } => {
                    if exists {
                        self.phase = InvPhase::ScriptCheck;
                        None
                    } else {
                        self.phase = InvPhase::Done;
                        Some(
                            Err(
                                InvocationError::new(
                                    ErrorKind::InputNotFound,
                                    self.image_path.clone(),
                                ),
                            ),
                        )
                    }
                },
                _ => unreached(),
            },
            InvPhase::ScriptCheck => match event {
                InvEvent::FileStatus { exists } => {
                    if exists {
                        self.phase = InvPhase::PrimaryRun;
                        None
                    } else {
                        self.phase = InvPhase::Done;
                        let layout = resolve(self.resource_root.as_str());
                        Some(
                            Err(
                                InvocationError::new(
                                    ErrorKind::ScriptNotFound,
                                    layout.classify_script,
                                ),
                            ),
                        )
                    }
                },
                _ => unreached(),
            },
            InvPhase::PrimaryRun => match event {
                InvEvent::Spawned { result } => match result {
                    SpawnResult::Failed { detail: _ } => {
                        self.phase = InvPhase::FallbackRun;
                        None
                    },
                    SpawnResult::Exited { exit_ok, stdout, stderr } => {
                        self.phase = InvPhase::Done;
                        Some(finish_run(exit_ok, stdout, stderr))
                    },
                },
                _ => unreached(),
            },
            InvPhase::FallbackRun => match event {
                InvEvent::Spawned { result } => match result {
                    SpawnResult::Failed { detail } => {
                        self.phase = InvPhase::Done;
                        Some(Err(InvocationError::new(ErrorKind::LaunchFailed, detail)))
                    },
                    SpawnResult::Exited { exit_ok, stdout, stderr } => {
                        self.phase = InvPhase::Done;
                        Some(finish_run(exit_ok, stdout, stderr))
                    },
                },
                _ => unreached(),
            },
            InvPhase::Done => unreached(),
        }
    }
}

/// Turns one completed child run into the invocation's outcome.
fn finish_run(exit_ok: bool, stdout: String, stderr: String) -> (r: Result<
    ClassificationResult,
    InvocationError,
>)
    ensures
        run_outcome(exit_ok, stdout@, stderr@, r),
{
    if exit_ok {
        classify_stdout(stdout.as_str())
    } else {
        Err(InvocationError::new(ErrorKind::ScriptFailed, stderr))
    }
}

/// How many events the machine can still consume from a phase.
pub open spec fn phase_rank(p: InvPhase) -> nat {
    match p {
        InvPhase::ImageCheck => 4,
        InvPhase::ScriptCheck => 3,
        InvPhase::PrimaryRun => 2,
        InvPhase::FallbackRun => 1,
        InvPhase::Done => 0,
    }
}

/// Every step makes progress, so a host that performs the requested
/// actions gets an outcome after at most four events; and the outcome
/// comes exactly when the machine finishes.
pub proof fn lemma_step_progress(
    pre: Invocation,
    ev: InvEvent,
    post: Invocation,
    r: Option<Result<ClassificationResult, InvocationError>>,
)
    requires
        step_relation(pre, ev, post, r),
    ensures
        phase_rank(post.phase) < phase_rank(pre.phase),
        r is Some <==> post.phase is Done,
{
}

/// A missing input ends the invocation at once with `InputNotFound`: the
/// only action the initial phase ever asks for is the image probe, so no
/// process launch is attempted.
pub proof fn lemma_missing_input_never_launches(
    pre: Invocation,
    post: Invocation,
    r: Option<Result<ClassificationResult, InvocationError>>,
)
    requires
        pre.phase is ImageCheck,
        step_relation(pre, InvEvent::FileStatus { exists: false }, post, r),
    ensures
        post.phase is Done,
        r is Some,
        error_outcome(r->0, ErrorKind::InputNotFound, pre.image_path@),
        forall|a: InvAction| action_for(pre, a) ==> a is ProbeImage,
{
}

/// Exactly one fallback attempt: a spawn failure of the primary interpreter
/// moves the machine to the single fallback attempt without an outcome, and
/// a spawn failure of the fallback ends it with `LaunchFailed`.
pub proof fn lemma_single_fallback(
    pre: Invocation,
    post: Invocation,
    r: Option<Result<ClassificationResult, InvocationError>>,
    detail: String,
)
    requires
        step_relation(
            pre,
            InvEvent::Spawned { result: SpawnResult::Failed { detail } },
            post,
            r,
        ),
    ensures
        pre.phase is PrimaryRun ==> post.phase is FallbackRun && r is None,
        pre.phase is FallbackRun ==> post.phase is Done && r is Some && error_outcome(
            r->0,
            ErrorKind::LaunchFailed,
            detail@,
        ),
{
}

/// The two outcomes carry the same answer or the same failure.
pub open spec fn outcome_equiv(
    a: Result<ClassificationResult, InvocationError>,
    b: Result<ClassificationResult, InvocationError>,
) -> bool {
    match (a, b) {
        (Ok(x), Ok(y)) => {
            &&& x.category@ == y.category@
            &&& x.confidence@ == y.confidence@
            &&& x.original_response@ == y.original_response@
        },
        (Err(x), Err(y)) => x.kind == y.kind && x.detail@ == y.detail@,
        _ => false,
    }
}

/// Interpreter choice is invisible on success: a child run that exits
/// cleanly with the same captured output yields the same outcome whether it
/// ran under the primary or the fallback interpreter.
pub proof fn lemma_fallback_invisible(
    pre1: Invocation,
    post1: Invocation,
    r1: Option<Result<ClassificationResult, InvocationError>>,
    pre2: Invocation,
    post2: Invocation,
    r2: Option<Result<ClassificationResult, InvocationError>>,
    out: String,
    err: String,
)
    requires
        pre1.phase is PrimaryRun,
        pre2.phase is FallbackRun,
        step_relation(
            pre1,
            InvEvent::Spawned {
                result: SpawnResult::Exited { exit_ok: true, stdout: out, stderr: err },
            },
            post1,
            r1,
        ),
        step_relation(
            pre2,
            InvEvent::Spawned {
                result: SpawnResult::Exited { exit_ok: true, stdout: out, stderr: err },
            },
            post2,
            r2,
        ),
    ensures
        r1 is Some,
        r2 is Some,
        outcome_equiv(r1->0, r2->0),
{
}

} // verus!
