//! The reference-input validator: judge every use of a path by the outcome
//! of the one operation that performed it.
//!
//! A path names external, mutable state, so a standalone existence or
//! permission probe can be stale (or plain wrong) by the time the path is
//! used. The policy here closes that window: the operation that uses the
//! path is itself the validity check, and its outcome alone decides whether
//! the use stands. A probe may still run first, purely to fail fast on an
//! obviously bad argument, but its verdict never enters the decision — see
//! [`decision_of`] and [`lemma_no_toctou_trust`].

use vstd::prelude::*;

verus! {

/// The operation a caller is about to perform on a path.
#[derive(Clone, Copy, Debug, PartialEq, Eq, Structural)]
pub enum Operation {
    Read,
    OpenForWrite,
    Stat,
}

/// What an early, advisory probe of an argument reported. A probe is a
/// user-experience courtesy only; it is consulted before any work starts
/// and never again.
#[derive(Clone, Copy, Debug, PartialEq, Eq, Structural)]
pub enum Probe {
    Passed,
    Failed,
}

/// The outcome the operating system reported for the one call that both
/// checked and used the path. Produced fresh at each point of use; never
/// cached across uses.
#[derive(Clone, Copy, Debug, PartialEq, Eq, Structural)]
pub enum UseOutcome {
    /// The operation completed.
    Succeeded,
    /// No object of that name existed when the operation ran.
    Missing,
    /// The object exists but the operation was not permitted.
    PermissionDenied,
    /// The object is not of the kind the operation needs.
    WrongKind,
    /// The object changed under an operation that had already been admitted.
    ChangedDuringUse,
}

/// Why a use of a path was rejected.
#[derive(Clone, Copy, Debug, PartialEq, Eq, Structural)]
pub enum PathError {
    NotFound,
    NotReadable,
    WrongKind,
    RaceDetected,
}

/// What each failure class says in an error message.
pub open spec fn path_error_text(class: PathError) -> Seq<char> {
    match class {
        PathError::NotFound => "path does not exist"@,
        PathError::NotReadable => "path is not readable"@,
        PathError::WrongKind => "path is not of the expected kind"@,
        PathError::RaceDetected => "path changed while it was in use"@,
    }
}

impl PathError {
    /// A short, non-empty description of the failure, for error reporting.
    pub fn describe(&self) -> (s: String)
        ensures
            s@ == path_error_text(*self),
            s@.len() > 0,
    {
        proof {
            reveal_strlit("path does not exist");
            reveal_strlit("path is not readable");
            reveal_strlit("path is not of the expected kind");
            reveal_strlit("path changed while it was in use");
        }
        match self {
            PathError::NotFound => String::from_str("path does not exist"),
            PathError::NotReadable => String::from_str("path is not readable"),
            PathError::WrongKind => String::from_str("path is not of the expected kind"),
            PathError::RaceDetected => String::from_str("path changed while it was in use"),
        }
    }
}

/// A handle witnessing that one operation on one path completed.
#[derive(Debug)]
pub struct Validated {
    pub path: String,
    pub op: Operation,
}

/// How each outcome of a use is classified: the operation's own result is
/// the only source of a verdict.
pub open spec fn outcome_class(outcome: UseOutcome) -> Option<PathError> {
    match outcome {
        UseOutcome::Succeeded => None,
        UseOutcome::Missing => Some(PathError::NotFound),
        UseOutcome::PermissionDenied => Some(PathError::NotReadable),
        UseOutcome::WrongKind => Some(PathError::WrongKind),
        UseOutcome::ChangedDuringUse => Some(PathError::RaceDetected),
    }
}

/// The validator's whole decision model. Everything the validator may
/// consult stands in the parameter list — and the verdict is a function of
/// the use's own outcome alone: the probe does not appear in the body.
pub open spec fn decision_of(probe: Option<Probe>, outcome: UseOutcome) -> Option<PathError> {
    outcome_class(outcome)
}

/// No time-of-check-to-time-of-use trust: two uses with the same operation
/// outcome get the same verdict, whatever any earlier probe reported — a
/// path that a probe blessed and that vanished before the use is judged by
/// the use; and a use is admitted exactly when its own operation succeeded.
pub proof fn lemma_no_toctou_trust(
    probe_then: Option<Probe>,
    probe_now: Option<Probe>,
    outcome: UseOutcome,
)
    ensures
        decision_of(probe_then, outcome) == decision_of(probe_now, outcome),
        decision_of(probe_then, outcome) is None <==> outcome is Succeeded,
{
}

/// Classify one outcome. Returns `None` exactly when the operation
/// completed, else the failure's class.
pub fn classify_outcome(outcome: UseOutcome) -> (r: Option<PathError>)
    ensures
        r == outcome_class(outcome),
{
    match outcome {
        UseOutcome::Succeeded => None,
        UseOutcome::Missing => Some(PathError::NotFound),
        UseOutcome::PermissionDenied => Some(PathError::NotReadable),
        UseOutcome::WrongKind => Some(PathError::WrongKind),
        UseOutcome::ChangedDuringUse => Some(PathError::RaceDetected),
    }
}

/// Screen one argument before any work starts. A user-experience
/// convenience only: it may fail fast on an argument whose probe already
/// failed, but a pass here is never sufficient — every actual use is judged
/// again, by [`validate_use`].
pub fn early_screen(probe: Probe) -> (rejected: bool)
    ensures
        rejected <==> probe is Failed,
{
    match probe {
        Probe::Passed => false,
        Probe::Failed => true,
    }
}

/// Judge one use of one path. The caller performed `op` on `path` in a
/// single call and reports that call's outcome; any earlier probe's verdict
/// may be passed in but cannot change the result. The use is admitted, with
/// a handle naming what succeeded, exactly when the operation itself
/// succeeded; every failure is classified by its cause.
pub fn validate_use(path: &str, op: Operation, probe: Option<Probe>, outcome: UseOutcome) -> (r:
    Result<Validated, PathError>)
    ensures
        r is Ok <==> outcome is Succeeded,
        r matches Ok(v) ==> v.path@ == path@ && v.op == op,
        r matches Err(e) ==> decision_of(probe, outcome) == Some(e),
        r is Err <==> decision_of(probe, outcome) is Some,
{
    match classify_outcome(outcome) {
        None => Ok(Validated { path: path.to_owned(), op }),
        Some(class) => Err(class),
    }
}

/// Judge a whole run from the outcomes of its uses, one per input, in
/// order. Every use is judged by its own outcome — a verdict is never
/// carried from one use to the next — and the first rejected use fails the
/// run, reporting its position and its failure's class.
pub fn process_inputs(outcomes: &Vec<UseOutcome>) -> (r: Result<(), (usize, PathError)>)
    ensures
        r is Ok <==> (forall|i: int|
            0 <= i < outcomes@.len() ==> #[trigger] outcomes@[i] is Succeeded),
        r matches Err(f) ==> {
            &&& 0 <= f.0 < outcomes@.len()
            &&& outcome_class(outcomes@[f.0 as int]) == Some(f.1)
            &&& forall|j: int| 0 <= j < f.0 ==> #[trigger] outcomes@[j] is Succeeded
        },
{
    let mut k: usize = 0;
    while k < outcomes.len()
        invariant
            0 <= k <= outcomes@.len(),
            forall|j: int| 0 <= j < k ==> #[trigger] outcomes@[j] is Succeeded,
        decreases outcomes@.len() - k,
    {
        match classify_outcome(outcomes[k]) {
            Some(class) => {
                return Err((k, class));
            },
            None => {},
        }
        k = k + 1;
    }
    Ok(())
}

} // verus!
