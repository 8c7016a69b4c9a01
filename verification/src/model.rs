//! A host that keeps its word, and what the operations achieve against it.
//!
//! The model knows one path, the junction path: what stands there, and which
//! handle the running operation holds on it. It says how an honest file
//! system answers each call. Running an operation against it shows what the
//! order of calls achieves as a whole: what is returned, what stands at the
//! path afterwards, how many handles it took, and whether one was left open.

use vstd::prelude::*;
use crate::codec::{consistent, decoded, fits, has_mount_tag, lemma_decode_of_encode, record,
    removal_record};
use crate::error::{JunctionError, ERROR_ALREADY_EXISTS, ERROR_FILE_NOT_FOUND,
    ERROR_INVALID_REPARSE_DATA, ERROR_NOT_A_REPARSE_POINT, ERROR_REPARSE_TAG_MISMATCH};
use crate::ops::{create_step, delete_step, get_target_step, junction_exists_step};
use crate::path::{external_form, internal_form, lemma_external_of_internal};
use crate::protocol::{Access, ActionView, CreateStage, EventView, Stage, StepView};

verus! {

/// What stands at the junction path.
pub enum Entry {
    /// Nothing.
    Absent,
    /// An ordinary file.
    File,
    /// An ordinary directory.
    Directory,
    /// A directory that carries this reparse record.
    Reparse(Seq<u8>),
}

/// The junction path as one operation sees it.
pub struct Disk {
    /// What stands at the path.
    pub entry: Entry,
    /// The intent of the handle that the operation holds, if it holds one.
    pub handle: Option<Access>,
    /// How many handles the operation has opened so far.
    pub opened: nat,
}

/// The path with `entry` at it, before an operation starts.
pub open spec fn at_start(entry: Entry) -> Disk {
    Disk { entry, handle: None, opened: 0 }
}

/// The disk with another entry at the path.
pub open spec fn with_entry(disk: Disk, entry: Entry) -> Disk {
    Disk { entry, ..disk }
}

/// The code with which the model refuses a call that its handle does not
/// allow.
pub const ERROR_ACCESS_DENIED: u32 = 5;

/// The code with which the model refuses a call on a handle that was never
/// opened.
pub const ERROR_INVALID_HANDLE: u32 = 6;

/// The code with which the model refuses to remove what a handle is still
/// open on.
pub const ERROR_SHARING_VIOLATION: u32 = 32;

/// The code with which the model refuses a name it cannot resolve.
pub const ERROR_INVALID_NAME: u32 = 123;

/// The code with which the model refuses a directory call on a file.
pub const ERROR_DIRECTORY: u32 = 267;

/// How the host answers a control operation that needs a handle of intent
/// `needed`, or of any intent where none is named, when the handle does not
/// allow it; `None` where it does.
pub open spec fn refusal(disk: Disk, needed: Option<Access>) -> Option<EventView> {
    match disk.handle {
        None => Some(EventView::Failed(ERROR_INVALID_HANDLE)),
        Some(held) => if needed is Some && needed != Some(held) {
            Some(EventView::Failed(ERROR_ACCESS_DENIED))
        } else {
            None
        },
    }
}

/// How the host answers `action`, and the state of the path afterwards.
/// `resolved` is the absolute form of the target, where it has one.
pub open spec fn answer(disk: Disk, resolved: Option<Seq<u16>>, action: ActionView) -> (
    Disk,
    EventView,
) {
    match action {
        ActionView::CreateDirectory => match disk.entry {
            Entry::Absent => (with_entry(disk, Entry::Directory), EventView::Done),
            _ => (disk, EventView::Failed(ERROR_ALREADY_EXISTS)),
        },
        ActionView::RemoveDirectory => match disk.entry {
            Entry::Absent => (disk, EventView::Failed(ERROR_FILE_NOT_FOUND)),
            Entry::File => (disk, EventView::Failed(ERROR_DIRECTORY)),
            _ => if disk.handle is Some {
                (disk, EventView::Failed(ERROR_SHARING_VIOLATION))
            } else {
                (with_entry(disk, Entry::Absent), EventView::Done)
            },
        },
        ActionView::Open(access) => match disk.entry {
            Entry::Absent => (disk, EventView::Failed(ERROR_FILE_NOT_FOUND)),
            _ => (
                Disk { handle: Some(access), opened: disk.opened + 1, ..disk },
                EventView::Done,
            ),
        },
        ActionView::Resolve => match resolved {
            Some(target) => (disk, EventView::Path(target)),
            None => (disk, EventView::Failed(ERROR_INVALID_NAME)),
        },
        ActionView::Install(bytes) => match refusal(disk, Some(Access::WriteMetadata)) {
            Some(failure) => (disk, failure),
            None => match disk.entry {
                Entry::Absent => (disk, EventView::Failed(ERROR_FILE_NOT_FOUND)),
                Entry::File => (disk, EventView::Failed(ERROR_DIRECTORY)),
                _ => (with_entry(disk, Entry::Reparse(bytes)), EventView::Done),
            },
        },
        ActionView::Clear(request) => match refusal(disk, Some(Access::DeleteMetadata)) {
            Some(failure) => (disk, failure),
            None => match disk.entry {
                Entry::Absent => (disk, EventView::Failed(ERROR_FILE_NOT_FOUND)),
                Entry::Reparse(bytes) => if request != removal_record() {
                    (disk, EventView::Failed(ERROR_INVALID_REPARSE_DATA))
                } else if has_mount_tag(bytes) {
                    (with_entry(disk, Entry::Directory), EventView::Done)
                } else {
                    (disk, EventView::Failed(ERROR_REPARSE_TAG_MISMATCH))
                },
                _ => (disk, EventView::Failed(ERROR_NOT_A_REPARSE_POINT)),
            },
        },
        ActionView::Close => match disk.handle {
            None => (disk, EventView::Failed(ERROR_INVALID_HANDLE)),
            Some(_) => (Disk { handle: None, ..disk }, EventView::Done),
        },
        ActionView::Read => match refusal(disk, None) {
            Some(failure) => (disk, failure),
            None => match disk.entry {
                Entry::Absent => (disk, EventView::Failed(ERROR_FILE_NOT_FOUND)),
                Entry::Reparse(bytes) => (disk, EventView::Data(bytes)),
                _ => (disk, EventView::Failed(ERROR_NOT_A_REPARSE_POINT)),
            },
        },
    }
}

/// How a run ended.
pub struct Outcome<T> {
    /// What stands at the path in the end.
    pub entry: Entry,
    /// How many handles the operation opened.
    pub opened: nat,
    /// Whether a handle was still open when the run ended.
    pub holding: bool,
    /// The operation's result, if it ended within the calls allowed.
    pub result: Option<Result<T, JunctionError>>,
}

/// Runs an operation, given by its rule `step`, against the host from the
/// given stage and event on, for at most `fuel` calls.
pub open spec fn run<S, T>(
    step: spec_fn(S, EventView) -> StepView<S, T>,
    disk: Disk,
    resolved: Option<Seq<u16>>,
    stage: S,
    event: EventView,
    fuel: nat,
) -> Outcome<T>
    decreases fuel,
{
    match step(stage, event) {
        StepView::Finish(result) => Outcome {
            entry: disk.entry,
            opened: disk.opened,
            holding: disk.handle is Some,
            result: Some(result),
        },
        StepView::Perform(action, next) => if fuel == 0 {
            Outcome {
                entry: disk.entry,
                opened: disk.opened,
                holding: disk.handle is Some,
                result: None,
            }
        } else {
            let (after, outcome) = answer(disk, resolved, action);
            run(step, after, resolved, next, outcome, (fuel - 1) as nat)
        },
    }
}

/// No operation asks for more calls than this.
pub open spec fn enough() -> nat {
    6
}

/// `create` run from its start on `entry`.
pub open spec fn created(entry: Entry, resolved: Option<Seq<u16>>) -> Outcome<()> {
    run(
        |stage: CreateStage, event: EventView| create_step(stage, event),
        at_start(entry),
        resolved,
        CreateStage::Begin,
        EventView::Started,
        enough(),
    )
}

/// `delete` run from its start on `entry`.
pub open spec fn deleted(entry: Entry) -> Outcome<()> {
    run(
        |stage: Stage<()>, event: EventView| delete_step(stage, event),
        at_start(entry),
        None,
        Stage::Begin,
        EventView::Started,
        enough(),
    )
}

/// `junction_exists` run from its start on `entry`.
pub open spec fn probed(entry: Entry) -> Outcome<bool> {
    run(
        |stage: Stage<bool>, event: EventView| junction_exists_step(stage, event),
        at_start(entry),
        None,
        Stage::Begin,
        EventView::Started,
        enough(),
    )
}

/// `get_target` run from its start on `entry`.
pub open spec fn target_read(entry: Entry) -> Outcome<Seq<u16>> {
    run(
        |stage: Stage<Seq<u16>>, event: EventView| get_target_step(stage, event),
        at_start(entry),
        None,
        Stage::Begin,
        EventView::Started,
        enough(),
    )
}

/// Whether `entry` is a junction: a directory whose record has the
/// mount-point tag.
pub open spec fn is_junction(entry: Entry) -> bool {
    entry matches Entry::Reparse(bytes) && has_mount_tag(bytes)
}

/// Creating at a free path for a target that fits succeeds and leaves a
/// directory with the record of that target.
pub proof fn lemma_create_installs(target: Seq<u16>)
    requires
        fits(internal_form(target)),
    ensures
        created(Entry::Absent, Some(target)).result == Some(Ok::<(), JunctionError>(())),
        created(Entry::Absent, Some(target)).entry == Entry::Reparse(
            record(internal_form(target)),
        ),
{
    reveal_with_fuel(run, 7);
}

/// Reading the target of a junction gives the external form of the
/// substitute name in its record, and changes nothing.
pub proof fn lemma_get_target_reads(bytes: Seq<u8>, name: Seq<u16>)
    requires
        decoded(bytes) == Ok::<Seq<u16>, JunctionError>(name),
    ensures
        target_read(Entry::Reparse(bytes)).result == Some(
            Ok::<Seq<u16>, JunctionError>(external_form(name)),
        ),
        target_read(Entry::Reparse(bytes)).entry == Entry::Reparse(bytes),
{
    reveal_with_fuel(run, 7);
}

/// A junction created at a free path for a target that fits is reported as
/// a junction afterwards, and reading its target gives the target back.
pub proof fn lemma_create_then_get_target(target: Seq<u16>)
    requires
        fits(internal_form(target)),
    ensures
        created(Entry::Absent, Some(target)).result == Some(Ok::<(), JunctionError>(())),
        is_junction(created(Entry::Absent, Some(target)).entry),
        probed(created(Entry::Absent, Some(target)).entry).result == Some(
            Ok::<bool, JunctionError>(true),
        ),
        target_read(created(Entry::Absent, Some(target)).entry).result == Some(
            Ok::<Seq<u16>, JunctionError>(target),
        ),
{
    let bytes = record(internal_form(target));
    lemma_create_installs(target);
    lemma_decode_of_encode(internal_form(target));
    lemma_external_of_internal(target);
    lemma_get_target_reads(bytes, internal_form(target));
    lemma_exists_tells_kinds_apart(Entry::Reparse(bytes));
}

/// A free path is reported as no junction, without an error, and stays free.
pub proof fn lemma_exists_on_free_path()
    ensures
        probed(Entry::Absent).result == Some(Ok::<bool, JunctionError>(false)),
        probed(Entry::Absent).entry == Entry::Absent,
{
    reveal_with_fuel(run, 7);
}

/// A path that holds something is reported as a junction exactly if that is
/// a directory with a mount-point record; anything else there is an error,
/// not `false`. Nothing at the path changes.
pub proof fn lemma_exists_tells_kinds_apart(entry: Entry)
    requires
        entry != Entry::Absent,
    ensures
        probed(entry).entry == entry,
        is_junction(entry) ==> probed(entry).result == Some(Ok::<bool, JunctionError>(true)),
        !is_junction(entry) ==> probed(entry).result == Some(
            Err::<bool, JunctionError>(JunctionError::NotAJunction),
        ),
{
    reveal_with_fuel(run, 7);
}

/// Deleting at a free path fails with `NotFound`; deleting at a path that
/// holds anything but a junction fails with `NotAJunction`; neither changes
/// what is there.
pub proof fn lemma_delete_refuses(entry: Entry)
    requires
        !is_junction(entry),
    ensures
        deleted(entry).entry == entry,
        entry == Entry::Absent ==> deleted(entry).result == Some(
            Err::<(), JunctionError>(JunctionError::NotFound),
        ),
        entry != Entry::Absent ==> deleted(entry).result == Some(
            Err::<(), JunctionError>(JunctionError::NotAJunction),
        ),
{
    reveal_with_fuel(run, 7);
}

/// Deleting a junction succeeds and leaves an ordinary directory, which is
/// then reported as no junction by an error.
pub proof fn lemma_delete_leaves_directory(entry: Entry)
    requires
        is_junction(entry),
    ensures
        deleted(entry).result == Some(Ok::<(), JunctionError>(())),
        deleted(entry).entry == Entry::Directory,
        probed(deleted(entry).entry).result == Some(
            Err::<bool, JunctionError>(JunctionError::NotAJunction),
        ),
        probed(deleted(entry).entry).entry == Entry::Directory,
{
    reveal_with_fuel(run, 7);
}

/// Creating at a path that holds anything fails with `AlreadyExists`,
/// whatever the target, and leaves what is there.
pub proof fn lemma_create_collision(entry: Entry, resolved: Option<Seq<u16>>)
    requires
        entry != Entry::Absent,
    ensures
        created(entry, resolved).result == Some(
            Err::<(), JunctionError>(JunctionError::AlreadyExists),
        ),
        created(entry, resolved).entry == entry,
{
    reveal_with_fuel(run, 7);
}

/// Creating a junction for a target whose record would pass the limit fails
/// with `BufferTooLarge`, and the path is free again afterwards.
pub proof fn lemma_create_refuses_long_target(target: Seq<u16>)
    requires
        !fits(internal_form(target)),
    ensures
        created(Entry::Absent, Some(target)).result == Some(
            Err::<(), JunctionError>(JunctionError::BufferTooLarge),
        ),
        created(Entry::Absent, Some(target)).entry == Entry::Absent,
{
    reveal_with_fuel(run, 7);
}

/// Creating a junction for a target that has no absolute form fails with
/// `TargetInvalid`, and the path is free again afterwards.
pub proof fn lemma_create_refuses_invalid_target()
    ensures
        created(Entry::Absent, None).result == Some(
            Err::<(), JunctionError>(JunctionError::TargetInvalid),
        ),
        created(Entry::Absent, None).entry == Entry::Absent,
{
    reveal_with_fuel(run, 7);
}

/// A `create` that fails leaves the path as it found it: no directory of its
/// own making stays behind.
pub proof fn lemma_failed_create_leaves_no_trace(entry: Entry, resolved: Option<Seq<u16>>)
    requires
        created(entry, resolved).result matches Some(Err(_)),
    ensures
        created(entry, resolved).entry == entry,
{
    reveal_with_fuel(run, 7);
}

/// Reading the target of a free path fails with `NotFound`, and of anything
/// that is no junction with `NotAJunction`. A junction whose record
/// contradicts itself is reported as corrupt. Nothing at the path changes.
pub proof fn lemma_get_target_refuses(entry: Entry)
    ensures
        target_read(entry).entry == entry,
        entry == Entry::Absent ==> target_read(entry).result == Some(
            Err::<Seq<u16>, JunctionError>(JunctionError::NotFound),
        ),
        entry != Entry::Absent && !is_junction(entry) ==> target_read(entry).result == Some(
            Err::<Seq<u16>, JunctionError>(JunctionError::NotAJunction),
        ),
        entry matches Entry::Reparse(bytes) && has_mount_tag(bytes) && !consistent(bytes)
            ==> target_read(entry).result == Some(
            Err::<Seq<u16>, JunctionError>(JunctionError::CorruptData),
        ),
{
    reveal_with_fuel(run, 7);
}

/// Whether a run ended, with at most one handle opened on the way and none
/// left open.
pub open spec fn tidy<T>(outcome: Outcome<T>) -> bool {
    outcome.result is Some && outcome.opened <= 1 && !outcome.holding
}

/// Whatever stands at the path and however the operation ends, it ends
/// within the calls allowed for, has opened at most one handle, and has
/// closed it.
pub proof fn lemma_operations_end(entry: Entry, resolved: Option<Seq<u16>>)
    ensures
        tidy(created(entry, resolved)),
        tidy(deleted(entry)),
        tidy(probed(entry)),
        tidy(target_read(entry)),
{
    reveal_with_fuel(run, 7);
}

} // verus!
