//! The four operations on junctions, each as the rule that says what to ask
//! of the host next.
//!
//! An operation is started in its first stage with `Event::Started`. Each
//! `Step::Perform` names a call and a stage; the host makes the call and
//! calls the operation again in that stage with the outcome. `Step::Finish`
//! ends the operation.

use vstd::prelude::*;
use crate::codec::{decode, decoded, encode, encoded, has_mount_tag, is_mount_point,
    removal_record, removal_request};
use crate::error::{classified, classify, JunctionError};
use crate::path::{external_form, internal_form, to_external, to_internal};
use crate::protocol::{Access, Action, ActionView, CreateStage, Event, EventView, Stage, Step,
    StepView};

verus! {

/// The step that closes the handle of a failed `create`; the directory is
/// removed after it.
pub open spec fn abandon(reason: JunctionError) -> StepView<CreateStage, ()> {
    StepView::Perform(ActionView::Close, CreateStage::Abandoning(reason))
}

/// The step that removes the directory of a failed `create`.
pub open spec fn roll_back(reason: JunctionError) -> StepView<CreateStage, ()> {
    StepView::Perform(ActionView::RemoveDirectory, CreateStage::RollingBack(reason))
}

/// What `create` says in each stage.
///
/// The directory is made first, and a failure to make it ends the operation
/// with that failure. From then on every failure first closes the handle, if
/// one is open, and removes the directory again: a failed `create` leaves
/// nothing behind. Any answer but a path to the request for the absolute
/// target means that the target is invalid. What comes of closing the handle
/// or of removing the directory does not change the result.
pub open spec fn create_step(stage: CreateStage, event: EventView) -> StepView<CreateStage, ()> {
    match stage {
        CreateStage::Begin => StepView::Perform(
            ActionView::CreateDirectory,
            CreateStage::Creating,
        ),
        CreateStage::Creating => match event {
            EventView::Failed(code) => StepView::Finish(Err(classified(code))),
            _ => StepView::Perform(ActionView::Open(Access::WriteMetadata), CreateStage::Opening),
        },
        CreateStage::Opening => match event {
            EventView::Failed(code) => roll_back(classified(code)),
            _ => StepView::Perform(ActionView::Resolve, CreateStage::Resolving),
        },
        CreateStage::Resolving => match event {
            EventView::Path(target) => match encoded(internal_form(target)) {
                Ok(bytes) => StepView::Perform(ActionView::Install(bytes), CreateStage::Installing),
                Err(reason) => abandon(reason),
            },
            _ => abandon(JunctionError::TargetInvalid),
        },
        CreateStage::Installing => match event {
            EventView::Failed(code) => abandon(classified(code)),
            _ => StepView::Perform(ActionView::Close, CreateStage::Closing),
        },
        CreateStage::Closing => StepView::Finish(Ok(())),
        CreateStage::Abandoning(reason) => roll_back(reason),
        CreateStage::RollingBack(reason) => StepView::Finish(Err(reason)),
    }
}

/// Creates a junction: says what to ask of the host next, given the stage
/// and the outcome of the call that was asked for last.
pub fn create(stage: CreateStage, event: Event) -> (step: Step<CreateStage, ()>)
    ensures
        step@ == create_step(stage, event@),
{
    match stage {
        CreateStage::Begin => Step::Perform(Action::CreateDirectory, CreateStage::Creating),
        CreateStage::Creating => match event {
            Event::Failed(code) => Step::Finish(Err(classify(code))),
            _ => Step::Perform(Action::Open(Access::WriteMetadata), CreateStage::Opening),
        },
        CreateStage::Opening => match event {
            Event::Failed(code) => Step::Perform(
                Action::RemoveDirectory,
                CreateStage::RollingBack(classify(code)),
            ),
            _ => Step::Perform(Action::Resolve, CreateStage::Resolving),
        },
        CreateStage::Resolving => match event {
            Event::Path(target) => {
                let internal = to_internal(&target);
                match encode(&internal) {
                    Ok(bytes) => Step::Perform(Action::Install(bytes), CreateStage::Installing),
                    Err(reason) => Step::Perform(Action::Close, CreateStage::Abandoning(reason)),
                }
            },
            _ => Step::Perform(
                Action::Close,
                CreateStage::Abandoning(JunctionError::TargetInvalid),
            ),
        },
        CreateStage::Installing => match event {
            Event::Failed(code) => Step::Perform(
                Action::Close,
                CreateStage::Abandoning(classify(code)),
            ),
            _ => Step::Perform(Action::Close, CreateStage::Closing),
        },
        CreateStage::Closing => Step::Finish(Ok(())),
        CreateStage::Abandoning(reason) => Step::Perform(
            Action::RemoveDirectory,
            CreateStage::RollingBack(reason),
        ),
        CreateStage::RollingBack(reason) => Step::Finish(Err(reason)),
    }
}

/// The step that closes the handle and keeps `result` to end with.
pub open spec fn close_with<T>(result: Result<T, JunctionError>) -> StepView<Stage<T>, T> {
    StepView::Perform(ActionView::Close, Stage::Closing(result))
}

/// What `delete` says in each stage.
///
/// A path that cannot be opened ends the operation with the failure that the
/// host gave, which for a missing path is `NotFound`. The host is then asked
/// to clear the reparse record under the mount-point tag, and it is the host
/// that refuses an entry with no record or with a record of another kind.
/// The directory itself is never asked to be removed.
pub open spec fn delete_step(stage: Stage<()>, event: EventView) -> StepView<Stage<()>, ()> {
    match stage {
        Stage::Begin => StepView::Perform(ActionView::Open(Access::DeleteMetadata), Stage::Opening),
        Stage::Opening => match event {
            EventView::Failed(code) => StepView::Finish(Err(classified(code))),
            _ => StepView::Perform(ActionView::Clear(removal_record()), Stage::Pending),
        },
        Stage::Pending => match event {
            EventView::Failed(code) => close_with(Err(classified(code))),
            _ => close_with(Ok(())),
        },
        Stage::Closing(result) => StepView::Finish(result),
    }
}

/// Deletes a junction's reparse record: says what to ask of the host next.
pub fn delete(stage: Stage<()>, event: Event) -> (step: Step<Stage<()>, ()>)
    ensures
        step@ == delete_step(stage@, event@),
{
    match stage {
        Stage::Begin => Step::Perform(Action::Open(Access::DeleteMetadata), Stage::Opening),
        Stage::Opening => match event {
            Event::Failed(code) => Step::Finish(Err(classify(code))),
            _ => Step::Perform(Action::Clear(removal_request()), Stage::Pending),
        },
        Stage::Pending => match event {
            Event::Failed(code) => Step::Perform(
                Action::Close,
                Stage::Closing(Err(classify(code))),
            ),
            _ => Step::Perform(Action::Close, Stage::Closing(Ok(()))),
        },
        Stage::Closing(result) => Step::Finish(result),
    }
}

/// What `junction_exists` says in each stage.
///
/// Only here is a missing path an ordinary answer: `false`. A path that is
/// there but holds no mount-point record is an error, so that a caller can
/// tell the two apart. An answer to the read that brings no record counts as
/// an entry without one.
pub open spec fn junction_exists_step(stage: Stage<bool>, event: EventView) -> StepView<
    Stage<bool>,
    bool,
> {
    match stage {
        Stage::Begin => StepView::Perform(ActionView::Open(Access::ReadMetadata), Stage::Opening),
        Stage::Opening => match event {
            EventView::Failed(code) => if classified(code) == JunctionError::NotFound {
                StepView::Finish(Ok(false))
            } else {
                StepView::Finish(Err(classified(code)))
            },
            _ => StepView::Perform(ActionView::Read, Stage::Pending),
        },
        Stage::Pending => match event {
            EventView::Failed(code) => close_with(Err(classified(code))),
            EventView::Data(bytes) => if has_mount_tag(bytes) {
                close_with(Ok(true))
            } else {
                close_with(Err(JunctionError::NotAJunction))
            },
            _ => close_with(Err(JunctionError::NotAJunction)),
        },
        Stage::Closing(result) => StepView::Finish(result),
    }
}

/// Tells whether a path is a junction: says what to ask of the host next.
pub fn junction_exists(stage: Stage<bool>, event: Event) -> (step: Step<Stage<bool>, bool>)
    ensures
        step@ == junction_exists_step(stage@, event@),
{
    match stage {
        Stage::Begin => Step::Perform(Action::Open(Access::ReadMetadata), Stage::Opening),
        Stage::Opening => match event {
            Event::Failed(code) => {
                let reason = classify(code);
                if reason == JunctionError::NotFound {
                    Step::Finish(Ok(false))
                } else {
                    Step::Finish(Err(reason))
                }
            },
            _ => Step::Perform(Action::Read, Stage::Pending),
        },
        Stage::Pending => {
            let result = match event {
                Event::Failed(code) => Err(classify(code)),
                Event::Data(bytes) => {
                    if is_mount_point(&bytes) {
                        Ok(true)
                    } else {
                        Err(JunctionError::NotAJunction)
                    }
                },
                _ => Err(JunctionError::NotAJunction),
            };
            Step::Perform(Action::Close, Stage::Closing(result))
        },
        Stage::Closing(result) => Step::Finish(result),
    }
}

/// What `get_target` says in each stage.
///
/// A path that cannot be opened ends the operation with the host's failure.
/// The record that was read is checked and its substitute name handed out in
/// external form.
pub open spec fn get_target_step(stage: Stage<Seq<u16>>, event: EventView) -> StepView<
    Stage<Seq<u16>>,
    Seq<u16>,
> {
    match stage {
        Stage::Begin => StepView::Perform(ActionView::Open(Access::ReadMetadata), Stage::Opening),
        Stage::Opening => match event {
            EventView::Failed(code) => StepView::Finish(Err(classified(code))),
            _ => StepView::Perform(ActionView::Read, Stage::Pending),
        },
        Stage::Pending => match event {
            EventView::Failed(code) => close_with(Err(classified(code))),
            EventView::Data(bytes) => match decoded(bytes) {
                Ok(name) => close_with(Ok(external_form(name))),
                Err(reason) => close_with(Err(reason)),
            },
            _ => close_with(Err(JunctionError::NotAJunction)),
        },
        Stage::Closing(result) => StepView::Finish(result),
    }
}

/// Reads the target of a junction: says what to ask of the host next.
pub fn get_target(stage: Stage<Vec<u16>>, event: Event) -> (step: Step<
    Stage<Vec<u16>>,
    Vec<u16>,
>)
    ensures
        step@ == get_target_step(stage@, event@),
{
    match stage {
        Stage::Begin => Step::Perform(Action::Open(Access::ReadMetadata), Stage::Opening),
        Stage::Opening => match event {
            Event::Failed(code) => Step::Finish(Err(classify(code))),
            _ => Step::Perform(Action::Read, Stage::Pending),
        },
        Stage::Pending => {
            let result = match event {
                Event::Failed(code) => Err(classify(code)),
                Event::Data(bytes) => match decode(&bytes) {
                    Ok(name) => Ok(to_external(&name)),
                    Err(reason) => Err(reason),
                },
                _ => Err(JunctionError::NotAJunction),
            };
            Step::Perform(Action::Close, Stage::Closing(result))
        },
        Stage::Closing(result) => Step::Finish(result),
    }
}

} // verus!
