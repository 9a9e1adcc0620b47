//! Dataset lifecycle decisions: interpreting the remote side's answers to
//! create, delete and import requests, and the bounded-retry plan that
//! replaces an existing dataset by name.

use crate::knowledge::{spec_status_success, status_success, Dataset, IoError, IoErrorView};
use vstd::prelude::*;

verus! {

/// The status with which the dataset-administration capability signals a
/// name collision, distinctly from transport failure.
pub const STATUS_CONFLICT: u16 = 409;

/// The mathematical shape of a [`DatasetCreationError`].
pub enum DatasetCreationErrorView {
    NameAlreadyTaken(Seq<char>),
    IO(IoErrorView),
}

/// Why creating a named dataset failed. A name collision is recoverable
/// and carries a handle to the existing dataset, so the caller can choose
/// to reuse or replace it without a second lookup.
#[derive(Debug)]
pub enum DatasetCreationError {
    NameAlreadyTaken(Dataset),
    IO(IoError),
}

impl View for DatasetCreationError {
    type V = DatasetCreationErrorView;

    open spec fn view(&self) -> DatasetCreationErrorView {
        match self {
            DatasetCreationError::NameAlreadyTaken(d) => DatasetCreationErrorView::NameAlreadyTaken(
                d@,
            ),
            DatasetCreationError::IO(e) => DatasetCreationErrorView::IO(e@),
        }
    }
}

/// The mathematical shape of a [`DatasetDeletionError`].
pub enum DatasetDeletionErrorView {
    DatasetNotFound,
    IO(IoErrorView),
}

/// Why deleting a dataset failed.
#[derive(Debug)]
pub enum DatasetDeletionError {
    DatasetNotFound,
    IO(IoError),
}

impl View for DatasetDeletionError {
    type V = DatasetDeletionErrorView;

    open spec fn view(&self) -> DatasetDeletionErrorView {
        match self {
            DatasetDeletionError::DatasetNotFound => DatasetDeletionErrorView::DatasetNotFound,
            DatasetDeletionError::IO(e) => DatasetDeletionErrorView::IO(e@),
        }
    }
}

/// Why importing serialized graph data into a dataset failed; an
/// unexpected status carries the response body for diagnosability.
#[derive(Debug)]
pub enum ImportError {
    Transport(String),
    UnexpectedStatus { status: u16, body: String },
}

/// Decides a create request from its transport outcome: the conflict
/// status is the recoverable name collision, carrying the existing
/// dataset's handle; a success status yields the new handle; anything
/// else is the fatal transport failure.
pub fn interpret_create_response(name: String, outcome: Result<u16, String>) -> (r: Result<
    Dataset,
    DatasetCreationError,
>)
    ensures
        match outcome {
            Err(detail) => r == Err::<Dataset, DatasetCreationError>(
                DatasetCreationError::IO(IoError::Transport { detail }),
            ),
            Ok(status) => if status == STATUS_CONFLICT {
                r matches Err(DatasetCreationError::NameAlreadyTaken(d)) && d@ == name@
            } else if spec_status_success(status) {
                r matches Ok(d) && d@ == name@
            } else {
                r == Err::<Dataset, DatasetCreationError>(
                    DatasetCreationError::IO(IoError::UnexpectedStatus { status }),
                )
            },
        },
{
    match outcome {
        Err(detail) => Err(DatasetCreationError::IO(IoError::Transport { detail })),
        Ok(status) => {
            if status == STATUS_CONFLICT {
                Err(DatasetCreationError::NameAlreadyTaken(Dataset::new(name)))
            } else if status_success(status) {
                Ok(Dataset::new(name))
            } else {
                Err(DatasetCreationError::IO(IoError::UnexpectedStatus { status }))
            }
        },
    }
}

/// Decides a delete request from its transport outcome: the conflict
/// status means the dataset was not found; a success status means it is
/// gone; anything else is the fatal transport failure.
pub fn interpret_delete_response(outcome: Result<u16, String>) -> (r: Result<
    (),
    DatasetDeletionError,
>)
    ensures
        match outcome {
            Err(detail) => r == Err::<(), DatasetDeletionError>(
                DatasetDeletionError::IO(IoError::Transport { detail }),
            ),
            Ok(status) => if status == STATUS_CONFLICT {
                r == Err::<(), DatasetDeletionError>(DatasetDeletionError::DatasetNotFound)
            } else if spec_status_success(status) {
                r == Ok::<(), DatasetDeletionError>(())
            } else {
                r == Err::<(), DatasetDeletionError>(
                    DatasetDeletionError::IO(IoError::UnexpectedStatus { status }),
                )
            },
        },
{
    match outcome {
        Err(detail) => Err(DatasetDeletionError::IO(IoError::Transport { detail })),
        Ok(status) => {
            if status == STATUS_CONFLICT {
                Err(DatasetDeletionError::DatasetNotFound)
            } else if status_success(status) {
                Ok(())
            } else {
                Err(DatasetDeletionError::IO(IoError::UnexpectedStatus { status }))
            }
        },
    }
}

/// Decides an import request from its transport outcome and the response
/// body: a success status means the data was accepted; anything else
/// fails, carrying status and body. Repeated imports are not idempotent at
/// this layer: they may duplicate statements.
pub fn interpret_import_response(outcome: Result<u16, String>, body: String) -> (r: Result<
    (),
    ImportError,
>)
    ensures
        match outcome {
            Err(detail) => r == Err::<(), ImportError>(ImportError::Transport(detail)),
            Ok(status) => if spec_status_success(status) {
                r == Ok::<(), ImportError>(())
            } else {
                r == Err::<(), ImportError>(ImportError::UnexpectedStatus { status, body })
            },
        },
{
    match outcome {
        Err(detail) => Err(ImportError::Transport(detail)),
        Ok(status) => {
            if status_success(status) {
                Ok(())
            } else {
                Err(ImportError::UnexpectedStatus { status, body })
            }
        },
    }
}

/// The request an overwrite plan asks its driver to perform next.
#[derive(Debug)]
pub enum LifecycleRequest {
    Create(String),
    Delete(Dataset),
}

/// The mathematical shape of a [`LifecycleRequest`].
pub enum LifecycleRequestView {
    Create(Seq<char>),
    Delete(Seq<char>),
}

impl View for LifecycleRequest {
    type V = LifecycleRequestView;

    open spec fn view(&self) -> LifecycleRequestView {
        match self {
            LifecycleRequest::Create(name) => LifecycleRequestView::Create(name@),
            LifecycleRequest::Delete(d) => LifecycleRequestView::Delete(d@),
        }
    }
}

/// Which answer an overwrite plan is waiting for.
#[derive(Debug, Clone, Copy, PartialEq, Eq, Structural)]
pub enum OverwritePhase {
    AwaitingFirstCreate,
    AwaitingDelete,
    AwaitingSecondCreate,
}

/// The mathematical shape of an [`OverwriteMachine`].
pub struct OverwriteMachineView {
    pub name: Seq<char>,
    pub phase: OverwritePhase,
}

/// The running state of one plan to create a dataset overwriting an
/// existing one of the same name.
#[derive(Debug)]
pub struct OverwriteMachine {
    name: String,
    phase: OverwritePhase,
}

impl View for OverwriteMachine {
    type V = OverwriteMachineView;

    closed spec fn view(&self) -> OverwriteMachineView {
        OverwriteMachineView { name: self.name@, phase: self.phase }
    }
}

/// The mathematical shape of an [`OverwriteError`].
pub enum OverwriteErrorView {
    CreateFailed(IoErrorView),
    DeleteFailed(DatasetDeletionErrorView),
    RaceCondition(Seq<char>),
}

/// Why replacing a dataset failed. A second name collision, after the
/// existing dataset was deleted, means another actor re-created the name
/// in between: the distinct race-condition outcome, carrying the handle
/// that reappeared — the plan never retries past it.
#[derive(Debug)]
pub enum OverwriteError {
    CreateFailed(IoError),
    DeleteFailed(DatasetDeletionError),
    RaceCondition(Dataset),
}

impl View for OverwriteError {
    type V = OverwriteErrorView;

    open spec fn view(&self) -> OverwriteErrorView {
        match self {
            OverwriteError::CreateFailed(e) => OverwriteErrorView::CreateFailed(e@),
            OverwriteError::DeleteFailed(e) => OverwriteErrorView::DeleteFailed(e@),
            OverwriteError::RaceCondition(d) => OverwriteErrorView::RaceCondition(d@),
        }
    }
}

/// One step's outcome: the plan either continues with a next request or is
/// done with a result.
#[derive(Debug)]
pub enum OverwriteStep {
    Next(OverwriteMachine, LifecycleRequest),
    Done(Result<Dataset, OverwriteError>),
}

/// The mathematical shape of an [`OverwriteStep`].
pub enum OverwriteStepView {
    Next(OverwriteMachineView, LifecycleRequestView),
    Done(Result<Seq<char>, OverwriteErrorView>),
}

impl View for OverwriteStep {
    type V = OverwriteStepView;

    open spec fn view(&self) -> OverwriteStepView {
        match self {
            OverwriteStep::Next(m, req) => OverwriteStepView::Next(m@, req@),
            OverwriteStep::Done(r) => OverwriteStepView::Done(
                match r {
                    Ok(d) => Ok(d@),
                    Err(e) => Err(e@),
                },
            ),
        }
    }
}

/// A create outcome, viewed.
pub open spec fn spec_creation_outcome_view(outcome: Result<Dataset, DatasetCreationError>) -> Result<
    Seq<char>,
    DatasetCreationErrorView,
> {
    match outcome {
        Ok(d) => Ok(d@),
        Err(e) => Err(e@),
    }
}

/// A delete outcome, viewed.
pub open spec fn spec_deletion_outcome_view(outcome: Result<(), DatasetDeletionError>) -> Result<
    (),
    DatasetDeletionErrorView,
> {
    match outcome {
        Ok(u) => Ok(u),
        Err(e) => Err(e@),
    }
}

/// Starting the plan: the first request is the create attempt for `name`.
pub open spec fn spec_overwrite_start(name: Seq<char>) -> (OverwriteMachineView, LifecycleRequestView) {
    (
        OverwriteMachineView { name, phase: OverwritePhase::AwaitingFirstCreate },
        LifecycleRequestView::Create(name),
    )
}

/// Advancing the plan on a create outcome: success finishes with the
/// handle; a collision after the first attempt asks for the delete; a
/// collision after the second attempt is the race-condition outcome; a
/// transport failure finishes with it.
pub open spec fn spec_overwrite_on_create(
    m: OverwriteMachineView,
    outcome: Result<Seq<char>, DatasetCreationErrorView>,
) -> OverwriteStepView {
    match outcome {
        Ok(created) => OverwriteStepView::Done(Ok(created)),
        Err(DatasetCreationErrorView::NameAlreadyTaken(existing)) => if m.phase
            == OverwritePhase::AwaitingFirstCreate {
            OverwriteStepView::Next(
                OverwriteMachineView { name: m.name, phase: OverwritePhase::AwaitingDelete },
                LifecycleRequestView::Delete(existing),
            )
        } else {
            OverwriteStepView::Done(Err(OverwriteErrorView::RaceCondition(existing)))
        },
        Err(DatasetCreationErrorView::IO(e)) => OverwriteStepView::Done(
            Err(OverwriteErrorView::CreateFailed(e)),
        ),
    }
}

/// Advancing the plan on a delete outcome: success asks for the second
/// create attempt; any failure finishes with it.
pub open spec fn spec_overwrite_on_delete(
    m: OverwriteMachineView,
    outcome: Result<(), DatasetDeletionErrorView>,
) -> OverwriteStepView {
    match outcome {
        Ok(_) => OverwriteStepView::Next(
            OverwriteMachineView { name: m.name, phase: OverwritePhase::AwaitingSecondCreate },
            LifecycleRequestView::Create(m.name),
        ),
        Err(e) => OverwriteStepView::Done(Err(OverwriteErrorView::DeleteFailed(e))),
    }
}

impl OverwriteMachine {
    /// Whether the plan is waiting for the answer to a create request.
    pub fn awaiting_create(&self) -> (b: bool)
        ensures
            b == (self@.phase == OverwritePhase::AwaitingFirstCreate || self@.phase
                == OverwritePhase::AwaitingSecondCreate),
    {
        match self.phase {
            OverwritePhase::AwaitingFirstCreate => true,
            OverwritePhase::AwaitingSecondCreate => true,
            OverwritePhase::AwaitingDelete => false,
        }
    }

    /// Whether the plan is waiting for the answer to the delete request.
    pub fn awaiting_delete(&self) -> (b: bool)
        ensures
            b == (self@.phase == OverwritePhase::AwaitingDelete),
    {
        match self.phase {
            OverwritePhase::AwaitingDelete => true,
            OverwritePhase::AwaitingFirstCreate => false,
            OverwritePhase::AwaitingSecondCreate => false,
        }
    }

    /// Begins replacing the dataset named `name`; the returned request is
    /// the first create attempt.
    pub fn start(name: String) -> (r: (OverwriteMachine, LifecycleRequest))
        ensures
            (r.0@, r.1@) == spec_overwrite_start(name@),
    {
        let request_name = name.clone();
        (
            OverwriteMachine { name, phase: OverwritePhase::AwaitingFirstCreate },
            LifecycleRequest::Create(request_name),
        )
    }

    /// Advances the plan on the outcome of the create request it asked
    /// for; the plan must be waiting for a create answer.
    pub fn on_create(self, outcome: Result<Dataset, DatasetCreationError>) -> (r: OverwriteStep)
        requires
            self@.phase == OverwritePhase::AwaitingFirstCreate || self@.phase
                == OverwritePhase::AwaitingSecondCreate,
        ensures
            r@ == spec_overwrite_on_create(self@, spec_creation_outcome_view(outcome)),
    {
        match outcome {
            Ok(created) => OverwriteStep::Done(Ok(created)),
            Err(DatasetCreationError::NameAlreadyTaken(existing)) => {
                if matches!(self.phase, OverwritePhase::AwaitingFirstCreate) {
                    OverwriteStep::Next(
                        OverwriteMachine { name: self.name, phase: OverwritePhase::AwaitingDelete },
                        LifecycleRequest::Delete(existing),
                    )
                } else {
                    OverwriteStep::Done(Err(OverwriteError::RaceCondition(existing)))
                }
            },
            Err(DatasetCreationError::IO(e)) => OverwriteStep::Done(
                Err(OverwriteError::CreateFailed(e)),
            ),
        }
    }

    /// Advances the plan on the outcome of the delete request it asked
    /// for; the plan must be waiting for the delete answer.
    pub fn on_delete(self, outcome: Result<(), DatasetDeletionError>) -> (r: OverwriteStep)
        requires
            self@.phase == OverwritePhase::AwaitingDelete,
        ensures
            r@ == spec_overwrite_on_delete(self@, spec_deletion_outcome_view(outcome)),
    {
        match outcome {
            Ok(_) => {
                let request_name = self.name.clone();
                OverwriteStep::Next(
                    OverwriteMachine {
                        name: self.name,
                        phase: OverwritePhase::AwaitingSecondCreate,
                    },
                    LifecycleRequest::Create(request_name),
                )
            },
            Err(e) => OverwriteStep::Done(Err(OverwriteError::DeleteFailed(e))),
        }
    }
}

/// The bounded-retry law of dataset replacement: started for a taken name,
/// the plan performs exactly one create attempt, one delete of the
/// existing dataset, and one more create attempt, in that order; and when
/// the second create also reports a collision, the plan ends in the
/// distinct race-condition outcome instead of retrying again.
pub proof fn lemma_overwrite_bounded_retry(name: Seq<char>, existing: Seq<char>, race: Seq<char>)
    ensures
        spec_overwrite_start(name).1 == LifecycleRequestView::Create(name),
        spec_overwrite_on_create(
            spec_overwrite_start(name).0,
            Err(DatasetCreationErrorView::NameAlreadyTaken(existing)),
        ) == OverwriteStepView::Next(
            OverwriteMachineView { name, phase: OverwritePhase::AwaitingDelete },
            LifecycleRequestView::Delete(existing),
        ),
        spec_overwrite_on_delete(
            OverwriteMachineView { name, phase: OverwritePhase::AwaitingDelete },
            Ok(()),
        ) == OverwriteStepView::Next(
            OverwriteMachineView { name, phase: OverwritePhase::AwaitingSecondCreate },
            LifecycleRequestView::Create(name),
        ),
        spec_overwrite_on_create(
            OverwriteMachineView { name, phase: OverwritePhase::AwaitingSecondCreate },
            Err(DatasetCreationErrorView::NameAlreadyTaken(race)),
        ) == OverwriteStepView::Done(Err(OverwriteErrorView::RaceCondition(race))),
{
}

} // verus!
