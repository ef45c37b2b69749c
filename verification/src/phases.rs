//! The phase machine of one coordinated write, for a driver that talks to
//! real stores: from each phase and the outcome of its store call, the
//! next phase and the next store call are decided here, and a driver only
//! performs the named call and feeds the outcome back. The transition
//! relation is exactly the write protocol: stage the document mutation,
//! stage the graph mutation, commit the document store, commit the graph
//! store, with aborts, rollbacks and compensation on the failure paths,
//! and a commit timeout ending in an unknown outcome that must not be
//! compensated.

use vstd::prelude::*;
use crate::saga::ErrKind;

verus! {

/// Where one logical write stands.
#[derive(Debug, Clone, Copy, PartialEq, Eq, Structural)]
pub enum Phase {
    Init,
    StageDocument,
    StageGraph,
    CommitDocument,
    CommitGraph,
    CompensateDocument,
    Applied,
    Failed,
    Unknown,
}

/// What the driver reports back from one store call.
#[derive(Debug, Clone, Copy, PartialEq, Eq, Structural)]
pub enum Event {
    Started,
    Succeeded,
    /// The call failed outright.
    FailedCall,
    /// The document staging found no document under the addressed id.
    NoDocument,
    /// The presence check of an update or delete matched no node.
    ZeroMatch,
    /// A commit call timed out: its outcome is unknown.
    TimedOut,
}

/// The store call the driver must perform next, or the verdict.
#[derive(Debug, Clone, Copy, PartialEq, Eq, Structural)]
pub enum Action {
    /// Open the document session and stage the document mutation.
    DoStageDocument,
    /// Open the graph transaction and stage the graph mutation, with the
    /// presence check where the operation requires one.
    DoStageGraph,
    /// Commit the document session.
    DoCommitDocument,
    /// Commit the graph transaction.
    DoCommitGraph,
    /// Abort the document session, roll back the graph transaction if one
    /// is open, then report the error: nothing was committed.
    DoAbortAndReport(ErrKind),
    /// Undo the committed document mutation, then report the error.
    DoCompensate,
    /// Report success: both stores are committed and agree.
    ReportApplied,
    /// Report the error of a finished failed write.
    ReportError(ErrKind),
}

/// The transition relation of the protocol. The document mutation is
/// staged before the graph mutation and committed before it, because the
/// document store is the source of truth: after a failed graph commit the
/// coordinator can still compensate the document store, while a committed
/// graph transaction could not be rolled back. A timeout during either
/// commit ends in `Unknown` and is never compensated, since the commit may
/// have succeeded.
pub open spec fn step_spec(phase: Phase, event: Event) -> (Phase, Action) {
    match (phase, event) {
        (Phase::Init, _) => (Phase::StageDocument, Action::DoStageDocument),
        (Phase::StageDocument, Event::Succeeded) => (Phase::StageGraph, Action::DoStageGraph),
        (Phase::StageDocument, Event::NoDocument) => (
            Phase::Failed,
            Action::DoAbortAndReport(ErrKind::NotFound),
        ),
        (Phase::StageDocument, _) => (
            Phase::Failed,
            Action::DoAbortAndReport(ErrKind::DocumentStore),
        ),
        (Phase::StageGraph, Event::Succeeded) => (
            Phase::CommitDocument,
            Action::DoCommitDocument,
        ),
        (Phase::StageGraph, Event::ZeroMatch) => (
            Phase::Failed,
            Action::DoAbortAndReport(ErrKind::GraphEntityMissing),
        ),
        (Phase::StageGraph, _) => (Phase::Failed, Action::DoAbortAndReport(ErrKind::GraphStore)),
        (Phase::CommitDocument, Event::Succeeded) => (Phase::CommitGraph, Action::DoCommitGraph),
        (Phase::CommitDocument, Event::TimedOut) => (
            Phase::Unknown,
            Action::ReportError(ErrKind::CommitOutcomeUnknown),
        ),
        (Phase::CommitDocument, _) => (
            Phase::Failed,
            Action::DoAbortAndReport(ErrKind::CommitFailure),
        ),
        (Phase::CommitGraph, Event::Succeeded) => (Phase::Applied, Action::ReportApplied),
        (Phase::CommitGraph, Event::TimedOut) => (
            Phase::Unknown,
            Action::ReportError(ErrKind::CommitOutcomeUnknown),
        ),
        (Phase::CommitGraph, _) => (Phase::CompensateDocument, Action::DoCompensate),
        (Phase::CompensateDocument, Event::Succeeded) => (
            Phase::Failed,
            Action::ReportError(ErrKind::GraphStore),
        ),
        (Phase::CompensateDocument, _) => (
            Phase::Failed,
            Action::ReportError(ErrKind::PartialFailure),
        ),
        (Phase::Applied, _) => (Phase::Applied, Action::ReportApplied),
        (Phase::Failed, _) => (Phase::Failed, Action::ReportError(ErrKind::GraphStore)),
        (Phase::Unknown, _) => (
            Phase::Unknown,
            Action::ReportError(ErrKind::CommitOutcomeUnknown),
        ),
    }
}

/// The next phase and action, given where the write stands and what the
/// last store call reported.
pub fn step(phase: Phase, event: Event) -> (r: (Phase, Action))
    ensures
        r == step_spec(phase, event),
{
    match (phase, event) {
        (Phase::Init, _) => (Phase::StageDocument, Action::DoStageDocument),
        (Phase::StageDocument, Event::Succeeded) => (Phase::StageGraph, Action::DoStageGraph),
        (Phase::StageDocument, Event::NoDocument) => (
            Phase::Failed,
            Action::DoAbortAndReport(ErrKind::NotFound),
        ),
        (Phase::StageDocument, _) => (
            Phase::Failed,
            Action::DoAbortAndReport(ErrKind::DocumentStore),
        ),
        (Phase::StageGraph, Event::Succeeded) => (
            Phase::CommitDocument,
            Action::DoCommitDocument,
        ),
        (Phase::StageGraph, Event::ZeroMatch) => (
            Phase::Failed,
            Action::DoAbortAndReport(ErrKind::GraphEntityMissing),
        ),
        (Phase::StageGraph, _) => (Phase::Failed, Action::DoAbortAndReport(ErrKind::GraphStore)),
        (Phase::CommitDocument, Event::Succeeded) => (Phase::CommitGraph, Action::DoCommitGraph),
        (Phase::CommitDocument, Event::TimedOut) => (
            Phase::Unknown,
            Action::ReportError(ErrKind::CommitOutcomeUnknown),
        ),
        (Phase::CommitDocument, _) => (
            Phase::Failed,
            Action::DoAbortAndReport(ErrKind::CommitFailure),
        ),
        (Phase::CommitGraph, Event::Succeeded) => (Phase::Applied, Action::ReportApplied),
        (Phase::CommitGraph, Event::TimedOut) => (
            Phase::Unknown,
            Action::ReportError(ErrKind::CommitOutcomeUnknown),
        ),
        (Phase::CommitGraph, _) => (Phase::CompensateDocument, Action::DoCompensate),
        (Phase::CompensateDocument, Event::Succeeded) => (
            Phase::Failed,
            Action::ReportError(ErrKind::GraphStore),
        ),
        (Phase::CompensateDocument, _) => (
            Phase::Failed,
            Action::ReportError(ErrKind::PartialFailure),
        ),
        (Phase::Applied, _) => (Phase::Applied, Action::ReportApplied),
        (Phase::Failed, _) => (Phase::Failed, Action::ReportError(ErrKind::GraphStore)),
        (Phase::Unknown, _) => (
            Phase::Unknown,
            Action::ReportError(ErrKind::CommitOutcomeUnknown),
        ),
    }
}

/// A commit timeout never leads to compensation: the commit may have
/// succeeded, and compensating against a possibly-succeeded commit would
/// corrupt the store that committed.
pub proof fn lemma_timeout_never_compensates(phase: Phase)
    ensures
        step_spec(phase, Event::TimedOut).1 != Action::DoCompensate,
{
}

} // verus!
