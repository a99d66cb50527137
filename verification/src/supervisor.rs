//! The supervisor: how the process ends once one of the two units has ended
//! or the user has interrupted it.
//!
//! There is no restart of a single unit. Whatever ends one unit ends the
//! process.

use crate::error::{ErrorView, Fe2IoError};
use vstd::prelude::*;

verus! {

/// How a unit ended.
#[derive(Debug, PartialEq, Eq)]
pub enum Joined {
    /// It returned without a failure.
    Finished,
    /// It returned this failure.
    Failed(Fe2IoError),
    /// It did not return: it panicked or was cancelled.
    Aborted(String),
}

/// A `Joined` as mathematical values.
pub enum JoinedView {
    Finished,
    Failed(ErrorView),
    Aborted(Seq<char>),
}

impl View for Joined {
    type V = JoinedView;

    open spec fn view(&self) -> JoinedView {
        match self {
            Joined::Finished => JoinedView::Finished,
            Joined::Failed(error) => JoinedView::Failed(error@),
            Joined::Aborted(detail) => JoinedView::Aborted(detail@),
        }
    }
}

impl DeepView for Joined {
    type V = JoinedView;

    open spec fn deep_view(&self) -> JoinedView {
        self@
    }
}

/// What the supervisor is woken by.
#[derive(Debug, PartialEq, Eq)]
pub enum SupervisorEvent {
    /// The user asked the process to stop.
    Interrupted,
    /// Waiting for a unit to end came back: with the way one ended, or with
    /// nothing because no unit was running.
    UnitEnded(Option<Joined>),
}

/// A `SupervisorEvent` as mathematical values.
pub enum SupervisorEventView {
    Interrupted,
    UnitEnded(Option<JoinedView>),
}

impl View for SupervisorEvent {
    type V = SupervisorEventView;

    open spec fn view(&self) -> SupervisorEventView {
        match self {
            SupervisorEvent::Interrupted => SupervisorEventView::Interrupted,
            SupervisorEvent::UnitEnded(joined) => SupervisorEventView::UnitEnded(
                joined.deep_view(),
            ),
        }
    }
}

/// How the process ends.
#[derive(Debug, PartialEq, Eq)]
pub enum Verdict {
    /// Cancel both units, whatever they are waiting for, and end cleanly.
    Shutdown,
    /// End cleanly; a unit has ended by itself.
    End,
    /// End with this condition.
    Fail(Fe2IoError),
}

/// A `Verdict` as mathematical values.
pub enum VerdictView {
    Shutdown,
    End,
    Fail(ErrorView),
}

impl View for Verdict {
    type V = VerdictView;

    open spec fn view(&self) -> VerdictView {
        match self {
            Verdict::Shutdown => VerdictView::Shutdown,
            Verdict::End => VerdictView::End,
            Verdict::Fail(error) => VerdictView::Fail(error@),
        }
    }
}

/// The outcome of waiting for a unit to end. The failure that a unit
/// returned is passed on as it is; a unit that did not return and a wait
/// that found no unit are failures of their own.
pub open spec fn wait_for_tasks_spec(joined: Option<JoinedView>) -> Result<(), ErrorView> {
    match joined {
        None => Err(ErrorView::NoTasks),
        Some(JoinedView::Aborted(detail)) => Err(ErrorView::Join(detail)),
        Some(JoinedView::Failed(error)) => Err(error),
        Some(JoinedView::Finished) => Ok(()),
    }
}

/// How the process ends after `event`.
pub open spec fn supervise_spec(event: SupervisorEventView) -> VerdictView {
    match event {
        SupervisorEventView::Interrupted => VerdictView::Shutdown,
        SupervisorEventView::UnitEnded(joined) => match wait_for_tasks_spec(joined) {
            Ok(()) => VerdictView::End,
            Err(error) => VerdictView::Fail(error),
        },
    }
}

/// Judges what waiting for a unit to end came back with.
pub fn wait_for_tasks(joined: Option<Joined>) -> (outcome: Result<(), Fe2IoError>)
    ensures
        match outcome {
            Ok(()) => wait_for_tasks_spec(joined.deep_view()) is Ok,
            Err(error) => wait_for_tasks_spec(joined.deep_view()) == Err::<(), _>(error@),
        },
{
    match joined {
        None => Err(Fe2IoError::NoTasks),
        Some(Joined::Aborted(detail)) => Err(Fe2IoError::Join(detail)),
        Some(Joined::Failed(error)) => Err(error),
        Some(Joined::Finished) => Ok(()),
    }
}

/// Decides how the process ends.
pub fn supervise(event: SupervisorEvent) -> (verdict: Verdict)
    ensures
        verdict@ == supervise_spec(event@),
{
    match event {
        SupervisorEvent::Interrupted => Verdict::Shutdown,
        SupervisorEvent::UnitEnded(joined) => match wait_for_tasks(joined) {
            Ok(()) => Verdict::End,
            Err(error) => Verdict::Fail(error),
        },
    }
}

/// The supervisor does not look at which failure ended a unit: a failure
/// that a unit returned is the condition the process ends with, and the two
/// failures that the supervisor adds itself are fatal.
pub proof fn lemma_supervisor_passes_failures_on(joined: Option<JoinedView>)
    ensures
        joined matches Some(JoinedView::Failed(error)) ==> supervise_spec(
            SupervisorEventView::UnitEnded(joined),
        ) == VerdictView::Fail(error),
        !(joined matches Some(JoinedView::Failed(_))) ==> (supervise_spec(
            SupervisorEventView::UnitEnded(joined),
        ) matches VerdictView::Fail(error) ==> error.is_fatal()),
        supervise_spec(SupervisorEventView::UnitEnded(joined)) != VerdictView::Shutdown,
{
}

} // verus!
