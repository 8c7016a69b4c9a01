//! The conversation between an operation and its host.
//!
//! An operation never touches the disk. It names one call for the host to
//! make, the host makes it on the path the operation was started for and
//! reports what came of it, and the operation names the next call or ends
//! with its result. An operation opens at most one handle, asks for every
//! control operation through it, and asks for it to be closed before it
//! ends, however it ends.

use vstd::prelude::*;
use crate::error::JunctionError;

verus! {

/// What an operation intends to do with the handle it asks for. The host
/// turns the intent into its own open flags; every intent opens the entry
/// itself, never what it redirects to.
#[derive(Clone, Copy, Debug, PartialEq, Eq, Structural)]
pub enum Access {
    /// Read the reparse record.
    ReadMetadata,
    /// Install a reparse record.
    WriteMetadata,
    /// Clear the reparse record.
    DeleteMetadata,
}

/// One call that the host is asked to make.
#[derive(Debug, PartialEq, Eq)]
pub enum Action {
    /// Make the junction path an ordinary empty directory; fail if anything
    /// is there already.
    CreateDirectory,
    /// Remove the directory at the junction path.
    RemoveDirectory,
    /// Open a handle on the path with the given intent.
    Open(Access),
    /// Bring the target path into absolute form.
    Resolve,
    /// Install the given reparse record through the open handle.
    Install(Vec<u8>),
    /// Clear the reparse record through the open handle, with the given
    /// request.
    Clear(Vec<u8>),
    /// Read the reparse record through the open handle.
    Read,
    /// Close the open handle.
    Close,
}

/// An `Action` as contracts see it.
pub enum ActionView {
    CreateDirectory,
    RemoveDirectory,
    Open(Access),
    Resolve,
    Install(Seq<u8>),
    Clear(Seq<u8>),
    Read,
    Close,
}

impl View for Action {
    type V = ActionView;

    open spec fn view(&self) -> ActionView {
        match *self {
            Action::CreateDirectory => ActionView::CreateDirectory,
            Action::RemoveDirectory => ActionView::RemoveDirectory,
            Action::Open(access) => ActionView::Open(access),
            Action::Resolve => ActionView::Resolve,
            Action::Install(bytes) => ActionView::Install(bytes@),
            Action::Clear(bytes) => ActionView::Clear(bytes@),
            Action::Read => ActionView::Read,
            Action::Close => ActionView::Close,
        }
    }
}

/// What the host reports after a call.
#[derive(Debug, PartialEq, Eq)]
pub enum Event {
    /// Nothing was asked yet: the operation starts.
    Started,
    /// The call succeeded and has nothing to hand over.
    Done,
    /// The absolute form of the target.
    Path(Vec<u16>),
    /// The reparse record that was read.
    Data(Vec<u8>),
    /// The call failed with this host error code.
    Failed(u32),
}

/// An `Event` as contracts see it.
pub enum EventView {
    Started,
    Done,
    Path(Seq<u16>),
    Data(Seq<u8>),
    Failed(u32),
}

impl View for Event {
    type V = EventView;

    open spec fn view(&self) -> EventView {
        match *self {
            Event::Started => EventView::Started,
            Event::Done => EventView::Done,
            Event::Path(units) => EventView::Path(units@),
            Event::Data(bytes) => EventView::Data(bytes@),
            Event::Failed(code) => EventView::Failed(code),
        }
    }
}

/// Where `delete`, `junction_exists` and `get_target` stand in their
/// conversation. `T` is what the operation returns.
#[derive(Debug, PartialEq, Eq)]
pub enum Stage<T> {
    /// Nothing was asked yet.
    Begin,
    /// The handle was asked for.
    Opening,
    /// The control operation on the handle was asked for.
    Pending,
    /// The handle is being closed; this is the result to end with.
    Closing(Result<T, JunctionError>),
}

impl<T: View> View for Stage<T> {
    type V = Stage<T::V>;

    open spec fn view(&self) -> Stage<T::V> {
        match *self {
            Stage::Begin => Stage::Begin,
            Stage::Opening => Stage::Opening,
            Stage::Pending => Stage::Pending,
            Stage::Closing(Ok(value)) => Stage::Closing(Ok(value@)),
            Stage::Closing(Err(reason)) => Stage::Closing(Err(reason)),
        }
    }
}

/// Where `create` stands in its conversation.
#[derive(Clone, Copy, Debug, PartialEq, Eq, Structural)]
pub enum CreateStage {
    /// Nothing was asked yet.
    Begin,
    /// The directory was asked for.
    Creating,
    /// The handle was asked for.
    Opening,
    /// The absolute target was asked for.
    Resolving,
    /// The reparse record was handed over.
    Installing,
    /// The record is installed and the handle is being closed.
    Closing,
    /// The handle is being closed after this failure; the directory goes
    /// next.
    Abandoning(JunctionError),
    /// The directory is being removed again because of this failure.
    RollingBack(JunctionError),
}

impl View for CreateStage {
    type V = CreateStage;

    open spec fn view(&self) -> CreateStage {
        *self
    }
}

/// What an operation says next: a call to make and the stage in which to
/// hand back its outcome, or the operation's result.
#[derive(Debug, PartialEq, Eq)]
pub enum Step<S, T> {
    /// Make this call, then come back in this stage with its outcome.
    Perform(Action, S),
    /// The operation has ended with this result.
    Finish(Result<T, JunctionError>),
}

/// A `Step` as contracts see it.
pub enum StepView<S, T> {
    Perform(ActionView, S),
    Finish(Result<T, JunctionError>),
}

impl<S: View, T: View> View for Step<S, T> {
    type V = StepView<S::V, T::V>;

    open spec fn view(&self) -> StepView<S::V, T::V> {
        match *self {
            Step::Perform(action, stage) => StepView::Perform(action@, stage@),
            Step::Finish(Ok(value)) => StepView::Finish(Ok(value@)),
            Step::Finish(Err(reason)) => StepView::Finish(Err(reason)),
        }
    }
}

} // verus!
