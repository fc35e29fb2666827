//! The four operations on junctions, each as a transition function: from the
//! state of the operation and the outcome of the system call that it waited
//! on, to the next call and the next state, or to the result.
//!
//! An operation begins in its state `Idle`, with the event `Begin`. The
//! caller makes the call that a step asks for, on the paths that it was
//! given, and hands the outcome to the next step, until a step is `Done`.

use crate::buffer::fits;
use crate::c::{io_reparse_tag_mount_point, IO_REPARSE_TAG_MOUNT_POINT};
use crate::cast::{
    decode, decoded, encode_mount_point, encoded_mount_point, padded, parsed,
    BytesAsReparseDataBuffer,
};
use crate::error::Error;
use crate::helpers::{
    delete_reparse_point, get_full_path, get_reparse_data_point, open_reparse_point,
    set_reparse_point, spec_delete_reparse_point, spec_get_full_path, spec_get_reparse_data_point,
    spec_open_reparse_point, spec_set_reparse_point, FullPathState, OpenState,
};
use crate::host::{output, Action, ActionView, Event, EventView, PrivilegeMode, Step, StepView};
use vstd::prelude::*;

verus! {

/// How far the creation of a junction has come, with the reparse data held
/// in a `B`.
#[derive(Debug, Clone, PartialEq, Eq)]
pub enum CreateOf<B> {
    /// Nothing was asked for yet.
    Idle,
    /// The target path is being resolved.
    Resolving(FullPathState),
    /// The directory of the junction is being created. `data` is the reparse
    /// data to set on it.
    CreatingDir { data: B },
    /// The directory is being opened.
    Opening { data: B, open: OpenState },
    /// The reparse data is being set.
    Writing,
}

/// The state of a creation as the operation holds it.
pub type Create = CreateOf<Vec<u8>>;

/// The state of a creation as the contracts speak of it.
pub type CreateView = CreateOf<Seq<u8>>;

/// How far the removal of a junction has come.
#[derive(Debug, Clone, Copy, PartialEq, Eq, Structural)]
pub enum Delete {
    /// Nothing was asked for yet.
    Idle,
    /// The junction is being opened.
    Opening(OpenState),
    /// The reparse data is being removed.
    Deleting,
}

/// How far a query has come: the test whether a junction exists, or the
/// reading of its target.
#[derive(Debug, Clone, Copy, PartialEq, Eq, Structural)]
pub enum Query {
    /// Nothing was asked for yet.
    Idle,
    /// The path is being tested for existence.
    Probing,
    /// The path is being opened.
    Opening(OpenState),
    /// The reparse data is being read.
    Reading,
}

impl View for Create {
    type V = CreateView;

    open spec fn view(&self) -> CreateView {
        match *self {
            CreateOf::Idle => CreateOf::Idle,
            CreateOf::Resolving(inner) => CreateOf::Resolving(inner),
            CreateOf::CreatingDir { data } => CreateOf::CreatingDir { data: data@ },
            CreateOf::Opening { data, open } => CreateOf::Opening { data: data@, open },
            CreateOf::Writing => CreateOf::Writing,
        }
    }
}

impl View for Delete {
    type V = Delete;

    open spec fn view(&self) -> Delete {
        *self
    }
}

impl View for Query {
    type V = Query;

    open spec fn view(&self) -> Query {
        *self
    }
}

/// What follows a step of the path resolution in the creation of a junction:
/// the next step of the resolution, or its error; and once the path is
/// resolved, the creation of the directory if a junction can point to the
/// path, and the error `TargetTooLong` if none can.
pub open spec fn create_after_full_path(inner: StepView<FullPathState, Seq<u16>>) -> StepView<
    CreateView,
    (),
> {
    match inner {
        StepView::Next { state, action } => StepView::Next {
            state: CreateView::Resolving(state),
            action,
        },
        StepView::Done(Ok(path)) => if fits(path) {
            StepView::Next {
                state: CreateView::CreatingDir { data: encoded_mount_point(path) },
                action: ActionView::CreateDir,
            }
        } else {
            StepView::Done(Err(Error::TargetTooLong))
        },
        StepView::Done(Err(error)) => StepView::Done(Err(error)),
    }
}

/// What follows a step of the opening in the creation of a junction: the
/// next step of the opening, or its error; and once the directory is open,
/// the call that sets `data` as its reparse data.
pub open spec fn create_after_open(inner: StepView<OpenState, ()>, data: Seq<u8>) -> StepView<
    CreateView,
    (),
> {
    match inner {
        StepView::Next { state, action } => StepView::Next {
            state: CreateView::Opening { data, open: state },
            action,
        },
        StepView::Done(Ok(_)) => StepView::Next {
            state: CreateView::Writing,
            action: spec_set_reparse_point(data),
        },
        StepView::Done(Err(error)) => StepView::Done(Err(error)),
    }
}

/// How the creation of a junction goes on from `state` when `event` comes
/// in.
///
/// The target path is resolved to an absolute path. Where no junction can
/// point to that path, because its substitute name does not fit in the
/// largest buffer, the creation ends with `TargetTooLong`, and nothing was
/// changed. Else a directory is created at the junction path, it is opened
/// to write, and the reparse data of a junction that points to the absolute
/// path is set on it. The first call that fails ends the creation with that
/// error, and what was made before stays.
pub open spec fn spec_create(state: CreateView, event: EventView, mode: PrivilegeMode) -> StepView<
    CreateView,
    (),
> {
    match state {
        CreateView::Idle => create_after_full_path(
            spec_get_full_path(FullPathState::Idle, EventView::Begin),
        ),
        CreateView::Resolving(inner) => create_after_full_path(spec_get_full_path(inner, event)),
        CreateView::CreatingDir { data } => match event.failure() {
            Some(error) => StepView::Done(Err(error)),
            None => create_after_open(
                spec_open_reparse_point(OpenState::Idle, EventView::Begin, true, mode),
                data,
            ),
        },
        CreateView::Opening { data, open } => create_after_open(
            spec_open_reparse_point(open, event, true, mode),
            data,
        ),
        CreateView::Writing => match event.failure() {
            Some(error) => StepView::Done(Err(error)),
            None => StepView::Done(Ok(())),
        },
    }
}

/// What follows a step of the opening in the removal of a junction: the next
/// step of the opening, or its error; and once the junction is open, the call
/// that removes its reparse data.
pub open spec fn delete_after_open(inner: StepView<OpenState, ()>) -> StepView<Delete, ()> {
    match inner {
        StepView::Next { state, action } => StepView::Next {
            state: Delete::Opening(state),
            action,
        },
        StepView::Done(Ok(_)) => StepView::Next {
            state: Delete::Deleting,
            action: spec_delete_reparse_point(),
        },
        StepView::Done(Err(error)) => StepView::Done(Err(error)),
    }
}

/// How the removal of a junction goes on from `state` when `event` comes in.
///
/// The junction path is opened to write, and the reparse data of a mount
/// point is removed from it. The first call that fails ends the removal with
/// that error. The directory and what is in it are not touched.
pub open spec fn spec_delete(state: Delete, event: EventView, mode: PrivilegeMode) -> StepView<
    Delete,
    (),
> {
    match state {
        Delete::Idle => delete_after_open(
            spec_open_reparse_point(OpenState::Idle, EventView::Begin, true, mode),
        ),
        Delete::Opening(open) => delete_after_open(
            spec_open_reparse_point(open, event, true, mode),
        ),
        Delete::Deleting => match event.failure() {
            Some(error) => StepView::Done(Err(error)),
            None => StepView::Done(Ok(())),
        },
    }
}

/// What follows a step of the opening in a query: the next step of the
/// opening, or its error; and once the path is open, the call that reads its
/// reparse data.
pub open spec fn query_after_open<T>(inner: StepView<OpenState, ()>) -> StepView<Query, T> {
    match inner {
        StepView::Next { state, action } => StepView::Next { state: Query::Opening(state), action },
        StepView::Done(Ok(_)) => StepView::Next {
            state: Query::Reading,
            action: spec_get_reparse_data_point(),
        },
        StepView::Done(Err(error)) => StepView::Done(Err(error)),
    }
}

/// Whether the reparse data in `bytes` is that of a junction: whether its
/// tag is that of a mount point.
pub open spec fn is_mount_point(bytes: Seq<u8>) -> bool {
    parsed(padded(bytes)).reparse_tag == IO_REPARSE_TAG_MOUNT_POINT()
}

/// What the test whether a junction exists makes of the reparse data in
/// `bytes`: there is a junction if the tag of the data is that of a mount
/// point, and data with another tag is an error.
pub open spec fn found(bytes: Seq<u8>) -> Result<bool, Error> {
    if is_mount_point(bytes) {
        Ok(true)
    } else {
        Err(Error::NotMountPoint)
    }
}

/// How the test whether a junction exists goes on from `state` when `event`
/// comes in.
///
/// Where nothing exists at the path, there is no junction, and the test ends
/// with `false`: it ends so in no other case. Else the path is opened to read
/// and its reparse data is read: the test ends with `true` if the tag of the
/// data is that of a mount point, and with `NotMountPoint` if it is another.
/// The first call that fails ends the test with that error: so does the
/// reading of the data of a path that is no reparse point.
pub open spec fn spec_junction_exists(
    state: Query,
    event: EventView,
    mode: PrivilegeMode,
) -> StepView<Query, bool> {
    match state {
        Query::Idle => StepView::Next { state: Query::Probing, action: ActionView::Exists },
        Query::Probing => if event.present() {
            query_after_open(
                spec_open_reparse_point(OpenState::Idle, EventView::Begin, false, mode),
            )
        } else {
            StepView::Done(Ok(false))
        },
        Query::Opening(open) => query_after_open(
            spec_open_reparse_point(open, event, false, mode),
        ),
        Query::Reading => match event.failure() {
            Some(error) => StepView::Done(Err(error)),
            None => StepView::Done(found(output(event))),
        },
    }
}

/// How the reading of the target of a junction goes on from `state` when
/// `event` comes in.
///
/// Where nothing exists at the path, it ends with `NotFound`. Else the path
/// is opened to read, its reparse data is read, and the target is decoded
/// from it: the substitute name without the prefix of non-interpreted
/// paths, or `NotMountPoint` where the tag of the data is not that of a
/// mount point. The first call that fails ends the reading with that error:
/// so does the reading of the data of a path that is no reparse point.
pub open spec fn spec_get_target(state: Query, event: EventView, mode: PrivilegeMode) -> StepView<
    Query,
    Seq<u16>,
> {
    match state {
        Query::Idle => StepView::Next { state: Query::Probing, action: ActionView::Exists },
        Query::Probing => if event.present() {
            query_after_open(
                spec_open_reparse_point(OpenState::Idle, EventView::Begin, false, mode),
            )
        } else {
            StepView::Done(Err(Error::NotFound))
        },
        Query::Opening(open) => query_after_open(
            spec_open_reparse_point(open, event, false, mode),
        ),
        Query::Reading => match event.failure() {
            Some(error) => StepView::Done(Err(error)),
            None => StepView::Done(decoded(output(event))),
        },
    }
}

/// What follows a step of `get_full_path` in `create`.
fn after_full_path(inner: Step<FullPathState, Vec<u16>>) -> (step: Step<Create, ()>)
    ensures
        step@ == create_after_full_path(inner@),
{
    match inner {
        Step::Next { state, action } => Step::Next { state: Create::Resolving(state), action },
        Step::Done(Ok(path)) => match encode_mount_point(path.as_slice()) {
            Ok(data) => Step::Next {
                state: Create::CreatingDir { data },
                action: Action::CreateDir,
            },
            Err(error) => Step::Done(Err(error)),
        },
        Step::Done(Err(error)) => Step::Done(Err(error)),
    }
}

/// What follows a step of `open_reparse_point` in `create`.
fn create_opened(inner: Step<OpenState, ()>, data: Vec<u8>) -> (step: Step<Create, ()>)
    ensures
        step@ == create_after_open(inner@, data@),
{
    match inner {
        Step::Next { state, action } => Step::Next {
            state: Create::Opening { data, open: state },
            action,
        },
        Step::Done(Ok(_)) => Step::Next { state: Create::Writing, action: set_reparse_point(data) },
        Step::Done(Err(error)) => Step::Done(Err(error)),
    }
}

/// What follows a step of `open_reparse_point` in `delete`.
fn delete_opened(inner: Step<OpenState, ()>) -> (step: Step<Delete, ()>)
    ensures
        step@ == delete_after_open(inner@),
{
    match inner {
        Step::Next { state, action } => Step::Next { state: Delete::Opening(state), action },
        Step::Done(Ok(_)) => Step::Next {
            state: Delete::Deleting,
            action: delete_reparse_point(),
        },
        Step::Done(Err(error)) => Step::Done(Err(error)),
    }
}

/// What follows a step of `open_reparse_point` in a query.
fn query_opened<T: View>(inner: Step<OpenState, ()>) -> (step: Step<Query, T>)
    ensures
        step@ == query_after_open::<T::V>(inner@),
{
    match inner {
        Step::Next { state, action } => Step::Next { state: Query::Opening(state), action },
        Step::Done(Ok(_)) => Step::Next {
            state: Query::Reading,
            action: get_reparse_data_point(),
        },
        Step::Done(Err(error)) => Step::Done(Err(error)),
    }
}

/// Creates a junction point from the specified directory to the specified
/// target directory: says how the creation goes on from `state` when `event`
/// comes in.
pub fn create(state: Create, event: Event, mode: PrivilegeMode) -> (step: Step<Create, ()>)
    ensures
        step@ == spec_create(state@, event@, mode),
{
    match state {
        Create::Idle => {
            // We're using low-level APIs to create the junction, and these are more picky
            // about paths. For example, forward slashes cannot be used as a path separator,
            // so we should try to canonicalize the path first.
            let begin: Event = Event::Begin;
            after_full_path(get_full_path(FullPathState::Idle, begin))
        },
        Create::Resolving(inner) => after_full_path(get_full_path(inner, event)),
        Create::CreatingDir { data } => match event.failure() {
            Some(error) => Step::Done(Err(error)),
            None => {
                let begin: Event = Event::Begin;
                create_opened(open_reparse_point(OpenState::Idle, &begin, true, mode), data)
            },
        },
        Create::Opening { data, open } => create_opened(
            open_reparse_point(open, &event, true, mode),
            data,
        ),
        Create::Writing => match event.failure() {
            Some(error) => Step::Done(Err(error)),
            None => Step::Done(Ok(())),
        },
    }
}

/// Deletes a `junction` reparse point from the specified file or directory:
/// says how the removal goes on from `state` when `event` comes in.
///
/// This function deletes the junction point only, leaving the target
/// directory and its content as is.
pub fn delete(state: Delete, event: Event, mode: PrivilegeMode) -> (step: Step<Delete, ()>)
    ensures
        step@ == spec_delete(state, event@, mode),
{
    match state {
        Delete::Idle => {
            let begin: Event = Event::Begin;
            delete_opened(open_reparse_point(OpenState::Idle, &begin, true, mode))
        },
        Delete::Opening(open) => delete_opened(open_reparse_point(open, &event, true, mode)),
        Delete::Deleting => match event.failure() {
            Some(error) => Step::Done(Err(error)),
            None => Step::Done(Ok(())),
        },
    }
}

/// Determines whether the specified path exists and refers to a junction
/// point: says how the test goes on from `state` when `event` comes in.
pub fn junction_exists(state: Query, event: Event, mode: PrivilegeMode) -> (step: Step<Query, bool>)
    ensures
        step@ == spec_junction_exists(state, event@, mode),
{
    match state {
        Query::Idle => Step::Next { state: Query::Probing, action: Action::Exists },
        Query::Probing => if event.present() {
            let begin: Event = Event::Begin;
            query_opened(open_reparse_point(OpenState::Idle, &begin, false, mode))
        } else {
            Step::Done(Ok(false))
        },
        Query::Opening(open) => query_opened(open_reparse_point(open, &event, false, mode)),
        Query::Reading => match event.failure() {
            Some(error) => Step::Done(Err(error)),
            None => {
                let bytes = event.output();
                let data = BytesAsReparseDataBuffer::from_bytes(bytes.as_slice());
                let rdb = data.assume_init();
                // The reparse tag indicates if this is a junction or not
                if rdb.ReparseTag == io_reparse_tag_mount_point() {
                    Step::Done(Ok(true))
                } else {
                    Step::Done(Err(Error::NotMountPoint))
                }
            },
        },
    }
}

/// Gets the target of the specified junction point: says how the reading
/// goes on from `state` when `event` comes in.
pub fn get_target(state: Query, event: Event, mode: PrivilegeMode) -> (step: Step<Query, Vec<u16>>)
    ensures
        step@ == spec_get_target(state, event@, mode),
{
    match state {
        Query::Idle => Step::Next { state: Query::Probing, action: Action::Exists },
        Query::Probing => if event.present() {
            let begin: Event = Event::Begin;
            query_opened(open_reparse_point(OpenState::Idle, &begin, false, mode))
        } else {
            Step::Done(Err(Error::NotFound))
        },
        Query::Opening(open) => query_opened(open_reparse_point(open, &event, false, mode)),
        Query::Reading => match event.failure() {
            Some(error) => Step::Done(Err(error)),
            None => {
                let bytes = event.output();
                Step::Done(decode(bytes.as_slice()))
            },
        },
    }
}

} // verus!
