//! The steps that the operations on junctions share: resolving a path,
//! opening a reparse point, enabling a privilege, and the three control codes
//! for reparse data.

use crate::c::{
    error_insufficient_buffer, file_flag_backup_semantics, file_flag_open_reparse_point,
    fsctl_delete_reparse_point, fsctl_get_reparse_point, fsctl_set_reparse_point, generic_read,
    generic_write, io_reparse_tag_mount_point, maximum_reparse_data_buffer_size,
    se_privilege_enabled, token_adjust_privileges, ERROR_INSUFFICIENT_BUFFER,
    FILE_FLAG_BACKUP_SEMANTICS, FILE_FLAG_OPEN_REPARSE_POINT, FSCTL_DELETE_REPARSE_POINT,
    FSCTL_GET_REPARSE_POINT, FSCTL_SET_REPARSE_POINT, GENERIC_READ, GENERIC_WRITE,
    IO_REPARSE_TAG_MOUNT_POINT, MAXIMUM_REPARSE_DATA_BUFFER_SIZE,
    REPARSE_GUID_DATA_BUFFER_HEADER_SIZE, SE_PRIVILEGE_ENABLED, TOKEN_ADJUST_PRIVILEGES,
};
use crate::cast::{u32_bytes, zeros};
use crate::error::Error;
use crate::host::{
    written, Action, ActionView, Event, EventView, OpenRequest, Privilege, PrivilegeMode, Step,
    StepView,
};
use vstd::prelude::*;

verus! {

/// Number of code units of the buffer that a path is first resolved into.
pub const INITIAL_PATH_CAPACITY: u32 = 512;

/// Error code: not all privileges or groups referenced are assigned to the
/// caller.
pub const ERROR_NOT_ALL_ASSIGNED: u32 = 1300;

/// How far the resolution of a path has come.
#[derive(Debug, Clone, Copy, PartialEq, Eq, Structural)]
pub enum FullPathState {
    /// Nothing was asked for yet.
    Idle,
    /// A resolution into a buffer of `capacity` code units was asked for.
    Resolving { capacity: u32 },
}

/// How far the enabling of a privilege has come.
#[derive(Debug, Clone, Copy, PartialEq, Eq, Structural)]
pub enum PrivilegeState {
    /// Nothing was asked for yet.
    Idle,
    /// The token of the process is being opened.
    OpeningToken,
    /// The identifier of the privilege is being looked up.
    LookingUp,
    /// The privilege is being set on the token.
    Adjusting,
}

/// How far the opening of a reparse point has come.
#[derive(Debug, Clone, Copy, PartialEq, Eq, Structural)]
pub enum OpenState {
    /// Nothing was asked for yet.
    Idle,
    /// The path is being opened for the first time.
    First,
    /// The first attempt was denied, and a privilege is being enabled.
    Elevating(PrivilegeState),
    /// The path is being opened for the second time.
    Second,
}

impl View for FullPathState {
    type V = FullPathState;

    open spec fn view(&self) -> FullPathState {
        *self
    }
}

impl View for PrivilegeState {
    type V = PrivilegeState;

    open spec fn view(&self) -> PrivilegeState {
        *self
    }
}

impl View for OpenState {
    type V = OpenState;

    open spec fn view(&self) -> OpenState {
        *self
    }
}

/// Twice `capacity`, or the largest capacity that 32 bits can count if that
/// is less.
pub open spec fn doubled(capacity: u32) -> u32 {
    if 2 * capacity > u32::MAX {
        u32::MAX
    } else {
        (2 * capacity) as u32
    }
}

/// How the resolution of a path goes on from `state` when `event` comes in.
///
/// A path is resolved into a buffer of `INITIAL_PATH_CAPACITY` code units
/// first. A call that returns zero has failed, with the last error. A call
/// that leaves the last error at `ERROR_INSUFFICIENT_BUFFER` is made again
/// with the capacity doubled; one that reports more code units than the
/// buffer holds, with a buffer of as many as it reported. Any other call has
/// written the path: as many code units as it reported, without a terminator.
pub open spec fn spec_get_full_path(state: FullPathState, event: EventView) -> StepView<
    FullPathState,
    Seq<u16>,
> {
    match state {
        FullPathState::Idle => StepView::Next {
            state: FullPathState::Resolving { capacity: INITIAL_PATH_CAPACITY },
            action: ActionView::GetFullPathName { capacity: INITIAL_PATH_CAPACITY },
        },
        FullPathState::Resolving { capacity } => {
            if event.reported() == 0 {
                StepView::Done(Err(Error::Os(event.last_error())))
            } else if event.last_error() == ERROR_INSUFFICIENT_BUFFER() {
                StepView::Next {
                    state: FullPathState::Resolving { capacity: doubled(capacity) },
                    action: ActionView::GetFullPathName { capacity: doubled(capacity) },
                }
            } else if event.reported() > capacity {
                StepView::Next {
                    state: FullPathState::Resolving { capacity: event.reported() },
                    action: ActionView::GetFullPathName { capacity: event.reported() },
                }
            } else if event.reported() <= written(event).len() {
                StepView::Done(Ok(written(event).take(event.reported() as int)))
            } else {
                StepView::Done(Ok(written(event)))
            }
        },
    }
}

/// Resolves a path to an absolute path, without the terminating null
/// character: says how the resolution goes on from `state` when `event`
/// comes in.
pub fn get_full_path(state: FullPathState, event: Event) -> (step: Step<FullPathState, Vec<u16>>)
    ensures
        step@ == spec_get_full_path(state, event@),
{
    match state {
        FullPathState::Idle => Step::Next {
            state: FullPathState::Resolving { capacity: INITIAL_PATH_CAPACITY },
            action: Action::GetFullPathName { capacity: INITIAL_PATH_CAPACITY },
        },
        FullPathState::Resolving { capacity } => {
            let k: u32 = event.reported();
            let last_error: u32 = event.last_error();
            if k == 0 {
                Step::Done(Err(Error::Os(last_error)))
            } else if last_error == error_insufficient_buffer() {
                let n: u32 = if capacity > u32::MAX / 2 {
                    u32::MAX
                } else {
                    2 * capacity
                };
                Step::Next {
                    state: FullPathState::Resolving { capacity: n },
                    action: Action::GetFullPathName { capacity: n },
                }
            } else if k > capacity {
                Step::Next {
                    state: FullPathState::Resolving { capacity: k },
                    action: Action::GetFullPathName { capacity: k },
                }
            } else {
                let ghost whole = written(event@);
                let mut path: Vec<u16> = event.written();
                path.truncate(k as usize);
                assert(k <= whole.len() ==> path@ =~= whole.take(k as int));
                Step::Done(Ok(path))
            }
        },
    }
}

/// Each new attempt to resolve a path has a larger buffer than the one
/// before, until the buffer has the largest capacity that 32 bits can count.
pub proof fn lemma_full_path_grows(capacity: u32, event: EventView)
    requires
        capacity > 0,
    ensures
        spec_get_full_path(FullPathState::Resolving { capacity }, event) matches StepView::Next {
            state,
            action,
        } ==> {
            &&& state matches FullPathState::Resolving { capacity: next }
            &&& action == ActionView::GetFullPathName { capacity: next }
            &&& next > capacity || capacity == u32::MAX
        },
{
}

/// The privilege that an operation enables after access was denied: the one
/// to create symbolic links, or in the administrative mode the one of
/// restore for an operation that writes and the one of backup for one that
/// reads.
pub open spec fn spec_privilege_name(mode: PrivilegeMode, write: bool) -> Privilege {
    match mode {
        PrivilegeMode::Minimal => Privilege::CreateSymbolicLink,
        PrivilegeMode::Administrative => if write {
            Privilege::Restore
        } else {
            Privilege::Backup
        },
    }
}

/// The privilege that an operation enables after access was denied.
#[verifier::when_used_as_spec(spec_privilege_name)]
pub fn privilege_name(mode: PrivilegeMode, write: bool) -> (privilege: Privilege)
    ensures
        privilege == spec_privilege_name(mode, write),
{
    match mode {
        PrivilegeMode::Minimal => Privilege::CreateSymbolicLink,
        PrivilegeMode::Administrative => if write {
            Privilege::Restore
        } else {
            Privilege::Backup
        },
    }
}

/// How the enabling of a privilege goes on from `state` when `event` comes
/// in.
///
/// The token of the process is opened for the adjustment of privileges, the
/// identifier of the privilege is looked up, and the privilege is set on the
/// token as enabled. The first call that fails ends it with that error. An
/// adjustment that succeeds and leaves the last error at
/// `ERROR_NOT_ALL_ASSIGNED` has not set the privilege: it ends with that
/// error too.
///
/// A privilege that was enabled stays enabled for the rest of the life of
/// the process: nothing here asks to disable it again. To enable it once
/// more changes nothing.
pub open spec fn spec_set_privilege(
    state: PrivilegeState,
    event: EventView,
    write: bool,
    mode: PrivilegeMode,
) -> StepView<PrivilegeState, ()> {
    match state {
        PrivilegeState::Idle => StepView::Next {
            state: PrivilegeState::OpeningToken,
            action: ActionView::OpenProcessToken { desired_access: TOKEN_ADJUST_PRIVILEGES() },
        },
        PrivilegeState::OpeningToken => match event.failure() {
            Some(error) => StepView::Done(Err(error)),
            None => StepView::Next {
                state: PrivilegeState::LookingUp,
                action: ActionView::LookupPrivilegeValue {
                    privilege: privilege_name(mode, write),
                },
            },
        },
        PrivilegeState::LookingUp => match event.failure() {
            Some(error) => StepView::Done(Err(error)),
            None => StepView::Next {
                state: PrivilegeState::Adjusting,
                action: ActionView::AdjustTokenPrivileges { attributes: SE_PRIVILEGE_ENABLED() },
            },
        },
        PrivilegeState::Adjusting => match event.failure() {
            Some(error) => StepView::Done(Err(error)),
            None => if event.last_error() == ERROR_NOT_ALL_ASSIGNED {
                StepView::Done(Err(Error::Os(ERROR_NOT_ALL_ASSIGNED)))
            } else {
                StepView::Done(Ok(()))
            },
        },
    }
}

/// Enables the privilege that lets an operation open a reparse point: says
/// how the enabling goes on from `state` when `event` comes in.
pub fn set_privilege(
    state: PrivilegeState,
    event: &Event,
    write: bool,
    mode: PrivilegeMode,
) -> (step: Step<PrivilegeState, ()>)
    ensures
        step@ == spec_set_privilege(state, event@, write, mode),
{
    match state {
        PrivilegeState::Idle => Step::Next {
            state: PrivilegeState::OpeningToken,
            action: Action::OpenProcessToken { desired_access: token_adjust_privileges() },
        },
        PrivilegeState::OpeningToken => match event.failure() {
            Some(error) => Step::Done(Err(error)),
            None => Step::Next {
                state: PrivilegeState::LookingUp,
                action: Action::LookupPrivilegeValue { privilege: privilege_name(mode, write) },
            },
        },
        PrivilegeState::LookingUp => match event.failure() {
            Some(error) => Step::Done(Err(error)),
            None => Step::Next {
                state: PrivilegeState::Adjusting,
                action: Action::AdjustTokenPrivileges { attributes: se_privilege_enabled() },
            },
        },
        PrivilegeState::Adjusting => match event.failure() {
            Some(error) => Step::Done(Err(error)),
            None => if event.last_error() == ERROR_NOT_ALL_ASSIGNED {
                Step::Done(Err(Error::Os(ERROR_NOT_ALL_ASSIGNED)))
            } else {
                Step::Done(Ok(()))
            },
        },
    }
}

/// How a reparse point is opened: to read, and to write as well where
/// `write` is set; shared with nobody; as the reparse point itself, with the
/// flag that a directory needs.
pub open spec fn spec_open_request(write: bool) -> OpenRequest {
    OpenRequest {
        access_mode: GENERIC_READ() | if write {
            GENERIC_WRITE()
        } else {
            0u32
        },
        share_mode: 0,
        custom_flags: FILE_FLAG_OPEN_REPARSE_POINT() | FILE_FLAG_BACKUP_SEMANTICS(),
    }
}

/// How a reparse point is opened.
#[verifier::when_used_as_spec(spec_open_request)]
pub fn open_request(write: bool) -> (request: OpenRequest)
    ensures
        request == spec_open_request(write),
{
    let access: u32 = generic_read() | if write {
        generic_write()
    } else {
        0
    };
    // Set this flag to obtain a handle to a directory. Appropriate security checks
    // still apply when this flag is used without SE_BACKUP_NAME and SE_RESTORE_NAME
    // privileges.
    let dir_attrs: u32 = file_flag_open_reparse_point() | file_flag_backup_semantics();
    OpenRequest { access_mode: access, share_mode: 0, custom_flags: dir_attrs }
}

/// The access rights and the flags of `spec_open_request` as numbers.
pub proof fn lemma_open_request(write: bool)
    ensures
        spec_open_request(true).access_mode == 0xC000_0000u32,
        spec_open_request(false).access_mode == 0x8000_0000u32,
        spec_open_request(write).custom_flags == 0x0220_0000u32,
{
    assert(0x8000_0000u32 | 0x4000_0000u32 == 0xC000_0000u32) by (bit_vector);
    assert(0x8000_0000u32 | 0u32 == 0x8000_0000u32) by (bit_vector);
    assert(0x0020_0000u32 | 0x0200_0000u32 == 0x0220_0000u32) by (bit_vector);
}

/// What follows a step of the enabling of a privilege in the opening of a
/// reparse point: the next step of the enabling, its error, or the second
/// attempt once the privilege is enabled.
pub open spec fn spec_after_privilege(inner: StepView<PrivilegeState, ()>, write: bool) -> StepView<
    OpenState,
    (),
> {
    match inner {
        StepView::Next { state, action } => StepView::Next {
            state: OpenState::Elevating(state),
            action,
        },
        StepView::Done(Ok(_)) => StepView::Next {
            state: OpenState::Second,
            action: ActionView::Open(open_request(write)),
        },
        StepView::Done(Err(error)) => StepView::Done(Err(error)),
    }
}

/// How the opening of a reparse point goes on from `state` when `event`
/// comes in.
///
/// The path is opened as `spec_open_request` says. Where that fails because
/// permission was denied, the privilege of `spec_privilege_name` is enabled
/// and the path is opened once more, in the same way; whatever comes of the
/// second attempt is final. An attempt that fails for another reason, or a
/// privilege that cannot be enabled, ends it with that error.
pub open spec fn spec_open_reparse_point(
    state: OpenState,
    event: EventView,
    write: bool,
    mode: PrivilegeMode,
) -> StepView<OpenState, ()> {
    match state {
        OpenState::Idle => StepView::Next {
            state: OpenState::First,
            action: ActionView::Open(open_request(write)),
        },
        OpenState::First => match event.failure() {
            None => StepView::Done(Ok(())),
            Some(error) => if event.permission_denied() {
                spec_after_privilege(
                    spec_set_privilege(PrivilegeState::Idle, EventView::Begin, write, mode),
                    write,
                )
            } else {
                StepView::Done(Err(error))
            },
        },
        OpenState::Elevating(inner) => spec_after_privilege(
            spec_set_privilege(inner, event, write, mode),
            write,
        ),
        OpenState::Second => match event.failure() {
            None => StepView::Done(Ok(())),
            Some(error) => StepView::Done(Err(error)),
        },
    }
}

/// What follows a step of `set_privilege` in the opening of a reparse point.
fn after_privilege(inner: Step<PrivilegeState, ()>, write: bool) -> (step: Step<OpenState, ()>)
    ensures
        step@ == spec_after_privilege(inner@, write),
{
    match inner {
        Step::Next { state, action } => Step::Next { state: OpenState::Elevating(state), action },
        Step::Done(Ok(_)) => Step::Next {
            state: OpenState::Second,
            action: Action::Open(open_request(write)),
        },
        Step::Done(Err(error)) => Step::Done(Err(error)),
    }
}

/// Opens a path as a reparse point: says how the opening goes on from
/// `state` when `event` comes in.
pub fn open_reparse_point(
    state: OpenState,
    event: &Event,
    write: bool,
    mode: PrivilegeMode,
) -> (step: Step<OpenState, ()>)
    ensures
        step@ == spec_open_reparse_point(state, event@, write, mode),
{
    match state {
        // Opens existing directory path
        OpenState::Idle => Step::Next {
            state: OpenState::First,
            action: Action::Open(open_request(write)),
        },
        OpenState::First => match event.failure() {
            None => Step::Done(Ok(())),
            Some(error) => if event.permission_denied() {
                let begin: Event = Event::Begin;
                after_privilege(set_privilege(PrivilegeState::Idle, &begin, write, mode), write)
            } else {
                Step::Done(Err(error))
            },
        },
        OpenState::Elevating(inner) => after_privilege(
            set_privilege(inner, event, write, mode),
            write,
        ),
        OpenState::Second => match event.failure() {
            None => Step::Done(Ok(())),
            Some(error) => Step::Done(Err(error)),
        },
    }
}

/// How many calls the opening of a reparse point can still ask for when it
/// is in `state`.
pub open spec fn calls_left(state: OpenState) -> nat {
    match state {
        OpenState::Idle => 5,
        OpenState::First => 4,
        OpenState::Elevating(PrivilegeState::Idle) => 4,
        OpenState::Elevating(PrivilegeState::OpeningToken) => 3,
        OpenState::Elevating(PrivilegeState::LookingUp) => 2,
        OpenState::Elevating(PrivilegeState::Adjusting) => 1,
        OpenState::Second => 0,
    }
}

/// A path is opened twice at most: a second attempt follows only on a first
/// one that was denied, and whatever comes of it is final. With each step
/// one call less is left to ask for, so that the opening ends after five
/// calls at most.
pub proof fn lemma_open_is_retried_once(
    state: OpenState,
    event: EventView,
    write: bool,
    mode: PrivilegeMode,
)
    ensures
        spec_open_reparse_point(OpenState::Second, event, write, mode) is Done,
        spec_open_reparse_point(state, event, write, mode) matches StepView::Next {
            state: next,
            action,
        } ==> {
            &&& calls_left(next) < calls_left(state)
            &&& action is Open ==> action == ActionView::Open(open_request(write))
            &&& next is Second <==> action is Open && !(state is Idle)
            &&& next is Second ==> state is First || state is Elevating
            &&& next is Second && state is First ==> event.permission_denied()
        },
{
}

/// The call that reads the reparse data of the open path: the control code
/// `FSCTL_GET_REPARSE_POINT` without input, with room for the largest
/// reparse data buffer.
pub open spec fn spec_get_reparse_data_point() -> ActionView {
    ActionView::DeviceIoControl {
        code: FSCTL_GET_REPARSE_POINT(),
        input: Seq::empty(),
        output_capacity: MAXIMUM_REPARSE_DATA_BUFFER_SIZE(),
    }
}

/// The call that sets `data` as the reparse data of the open path: the
/// control code `FSCTL_SET_REPARSE_POINT` with `data` as input, without
/// output.
pub open spec fn spec_set_reparse_point(data: Seq<u8>) -> ActionView {
    ActionView::DeviceIoControl {
        code: FSCTL_SET_REPARSE_POINT(),
        input: data,
        output_capacity: 0,
    }
}

/// The input that removes the reparse data of a mount point: a header of
/// `REPARSE_GUID_DATA_BUFFER_HEADER_SIZE` bytes that holds the tag of mount
/// points and is zero elsewhere.
pub open spec fn delete_request_bytes() -> Seq<u8> {
    u32_bytes(IO_REPARSE_TAG_MOUNT_POINT()) + zeros(REPARSE_GUID_DATA_BUFFER_HEADER_SIZE - 4)
}

/// The call that removes the reparse data of the open path, if it is that of
/// a mount point: the control code `FSCTL_DELETE_REPARSE_POINT` with
/// `delete_request_bytes` as input, without output.
pub open spec fn spec_delete_reparse_point() -> ActionView {
    ActionView::DeviceIoControl {
        code: FSCTL_DELETE_REPARSE_POINT(),
        input: delete_request_bytes(),
        output_capacity: 0,
    }
}

/// The call that reads the reparse data of the open path.
pub fn get_reparse_data_point() -> (action: Action)
    ensures
        action@ == spec_get_reparse_data_point(),
{
    let input: Vec<u8> = Vec::new();
    Action::DeviceIoControl {
        code: fsctl_get_reparse_point(),
        input,
        output_capacity: maximum_reparse_data_buffer_size(),
    }
}

/// The call that sets `data` as the reparse data of the open path.
pub fn set_reparse_point(data: Vec<u8>) -> (action: Action)
    ensures
        action@ == spec_set_reparse_point(data@),
{
    Action::DeviceIoControl { code: fsctl_set_reparse_point(), input: data, output_capacity: 0 }
}

/// The call that removes the reparse data of the open path, if it is that of
/// a mount point.
pub fn delete_reparse_point() -> (action: Action)
    ensures
        action@ == spec_delete_reparse_point(),
{
    let tag: u32 = io_reparse_tag_mount_point();
    let size: usize = REPARSE_GUID_DATA_BUFFER_HEADER_SIZE as usize;
    let mut input: Vec<u8> = vec![0u8; size];
    input.set(0, ((tag % 65536) % 256) as u8);
    input.set(1, ((tag % 65536) / 256) as u8);
    input.set(2, ((tag / 65536) % 256) as u8);
    input.set(3, ((tag / 65536) / 256) as u8);
    assert(input@ =~= delete_request_bytes());
    Action::DeviceIoControl { code: fsctl_delete_reparse_point(), input, output_capacity: 0 }
}

} // verus!
