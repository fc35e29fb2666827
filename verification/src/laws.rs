//! What holds of the operations together, whatever the caller hands them.
//!
//! The file system is not part of this crate: an operation sees of it what
//! its caller hands back. Each statement here therefore speaks of the calls
//! that the operations ask for, and of what they make of an outcome. Where
//! one depends on how the file system answers, it says what it takes the
//! answer to be.

use crate::buffer::{fits, mount_point};
use crate::c::{
    FSCTL_DELETE_REPARSE_POINT, FSCTL_GET_REPARSE_POINT, SE_PRIVILEGE_ENABLED,
    TOKEN_ADJUST_PRIVILEGES,
};
use crate::cast::{encoded_mount_point, lemma_decode_encode, lemma_parsed_to_bytes, zeros};
use crate::error::Error;
use crate::helpers::{
    delete_request_bytes, spec_delete_reparse_point, spec_get_full_path,
    spec_get_reparse_data_point, spec_open_reparse_point, spec_open_request, spec_privilege_name,
    spec_set_reparse_point, FullPathState, OpenState, PrivilegeState, INITIAL_PATH_CAPACITY,
};
use crate::host::{ActionView, EventView, PrivilegeMode, StepView};
use crate::internals::{
    is_mount_point, spec_create, spec_delete, spec_get_target, spec_junction_exists, CreateView,
    Delete, Query,
};
use crate::utf16::WCHAR_SIZE;
use vstd::prelude::*;

verus! {

/// Whether `action` leaves every file and directory as it is: it creates
/// nothing, opens nothing to write, and sets or removes no reparse data.
pub open spec fn reads_only(action: ActionView) -> bool {
    match action {
        ActionView::CreateDir => false,
        ActionView::Open(request) => request == spec_open_request(false),
        ActionView::DeviceIoControl { code, .. } => code == FSCTL_GET_REPARSE_POINT(),
        _ => true,
    }
}

/// Whether `action` changes no more of a file or directory than its reparse
/// data, and of that removes the data of a mount point or nothing.
pub open spec fn removes_reparse_data_only(action: ActionView) -> bool {
    match action {
        ActionView::CreateDir => false,
        ActionView::DeviceIoControl { code, input, .. } => code == FSCTL_DELETE_REPARSE_POINT()
            && input == delete_request_bytes(),
        _ => true,
    }
}

/// The state that `create` is in once it was handed `events` one after the
/// other, from its beginning; `None` once it has ended.
pub open spec fn create_state_after(events: Seq<EventView>, mode: PrivilegeMode) -> Option<
    CreateView,
>
    decreases events.len(),
{
    if events.len() == 0 {
        Some(CreateView::Idle)
    } else {
        match create_state_after(events.drop_last(), mode) {
            Some(state) => match spec_create(state, events.last(), mode) {
                StepView::Next { state, .. } => Some(state),
                StepView::Done(_) => None,
            },
            None => None,
        }
    }
}

/// The step that `create` takes when it is handed the last of `events`,
/// after all the others; `None` if it has ended before.
pub open spec fn create_last_step(events: Seq<EventView>, mode: PrivilegeMode) -> Option<
    StepView<CreateView, ()>,
>
    recommends
        events.len() > 0,
{
    match create_state_after(events.drop_last(), mode) {
        Some(state) => Some(spec_create(state, events.last(), mode)),
        None => None,
    }
}

/// Whether the reparse data that `create` holds in `state`, if it holds any,
/// is that of a junction to a path that fits.
pub open spec fn create_holds_junction(state: CreateView) -> bool {
    match state {
        CreateView::CreatingDir { data } => exists|path: Seq<u16>| #[trigger]
            fits(path) && data == encoded_mount_point(path),
        CreateView::Opening { data, .. } => exists|path: Seq<u16>| #[trigger]
            fits(path) && data == encoded_mount_point(path),
        _ => true,
    }
}

/// What `create` writes, `get_target` reads back. Once `create` has resolved
/// the target to `path`, which fits, it goes on to create the directory and
/// holds the reparse data of a junction to `path`; once the directory is
/// open, it asks to set that data. From the same data, handed to it as the
/// reparse data that it read, `get_target` ends with `path`.
///
/// This takes the file system to hand back the reparse data of a path as it
/// was set.
pub proof fn lemma_get_target_after_create(
    inner: FullPathState,
    event: EventView,
    path: Seq<u16>,
    mode: PrivilegeMode,
)
    requires
        spec_get_full_path(inner, event) == StepView::<FullPathState, Seq<u16>>::Done(Ok(path)),
        fits(path),
    ensures
        spec_create(CreateView::Resolving(inner), event, mode) matches StepView::Next {
            state: CreateView::CreatingDir { data },
            action: ActionView::CreateDir,
        } && data == encoded_mount_point(path),
        forall|open: OpenState, opened: EventView|
            (#[trigger] spec_create(
                CreateView::Opening { data: encoded_mount_point(path), open },
                opened,
                mode,
            )) matches StepView::Next { action: ActionView::DeviceIoControl { input, .. }, .. }
                ==> input == encoded_mount_point(path),
        spec_get_target(Query::Reading, EventView::Output(encoded_mount_point(path)), mode)
            == StepView::<Query, Seq<u16>>::Done(Ok(path)),
{
    lemma_decode_encode(path);
}

/// `junction_exists` before a junction is created, while it is there, and
/// after it was removed. Where nothing exists at the path, it ends with
/// `false`, without opening anything. From the reparse data that `create`
/// sets for a path that fits, it ends with `true`. Where the read of the
/// reparse data fails, as it does on the directory that `delete` leaves, it
/// ends with that error and reports no junction.
///
/// This takes the file system to hand back the reparse data of a path as it
/// was set, and to fail the read of reparse data on a directory that has
/// none.
pub proof fn lemma_junction_exists_before_and_after(
    path: Seq<u16>,
    code: u32,
    permission_denied: bool,
    mode: PrivilegeMode,
)
    requires
        fits(path),
    ensures
        spec_junction_exists(Query::Probing, EventView::Existence(false), mode) == StepView::<
            Query,
            bool,
        >::Done(Ok(false)),
        is_mount_point(encoded_mount_point(path)),
        spec_junction_exists(Query::Reading, EventView::Output(encoded_mount_point(path)), mode)
            == StepView::<Query, bool>::Done(Ok(true)),
        spec_junction_exists(
            Query::Reading,
            (EventView::Failure { code, permission_denied }),
            mode,
        ) == StepView::<Query, bool>::Done(Err(Error::Os(code))),
{
    lemma_parsed_to_bytes(mount_point(path), zeros(2 * WCHAR_SIZE));
}

/// A query changes nothing: whatever its state and
/// whatever it is handed, a step of `junction_exists` or of `get_target`
/// asks for no call that creates a directory, opens the path to write, or
/// sets or removes reparse data. And what a query ends with depends on
/// nothing but what it is handed: two queries that are handed the same
/// outcomes take the same steps.
pub proof fn lemma_queries_read_only(state: Query, event: EventView, mode: PrivilegeMode)
    ensures
        spec_junction_exists(state, event, mode) matches StepView::Next { action, .. }
            ==> reads_only(action),
        spec_get_target(state, event, mode) matches StepView::Next { action, .. } ==> reads_only(
            action,
        ),
{
}

/// A query never takes for a junction what is none.
/// Where the reading of the reparse data fails, as it does on a directory
/// that is no reparse point, both queries end with the error of the read,
/// unchanged. Where the data has another tag than that of a mount point,
/// both end with `NotMountPoint`. Where nothing exists at the path,
/// `get_target` ends with `NotFound`. So `junction_exists` ends with `true`,
/// and `get_target` with a path, only from reparse data with the tag of a
/// mount point; and `junction_exists` ends with `false` only where nothing
/// exists at the path.
pub proof fn lemma_not_a_junction(
    code: u32,
    permission_denied: bool,
    bytes: Seq<u8>,
    mode: PrivilegeMode,
)
    ensures
        spec_junction_exists(
            Query::Reading,
            (EventView::Failure { code, permission_denied }),
            mode,
        ) == StepView::<Query, bool>::Done(Err(Error::Os(code))),
        spec_get_target(Query::Reading, (EventView::Failure { code, permission_denied }), mode)
            == StepView::<Query, Seq<u16>>::Done(Err(Error::Os(code))),
        !is_mount_point(bytes) ==> spec_junction_exists(
            Query::Reading,
            EventView::Output(bytes),
            mode,
        ) == StepView::<Query, bool>::Done(Err(Error::NotMountPoint)),
        !is_mount_point(bytes) ==> spec_get_target(Query::Reading, EventView::Output(bytes), mode)
            == StepView::<Query, Seq<u16>>::Done(Err(Error::NotMountPoint)),
        spec_get_target(Query::Probing, EventView::Existence(false), mode) == StepView::<
            Query,
            Seq<u16>,
        >::Done(Err(Error::NotFound)),
        forall|state: Query, event: EventView|
            (#[trigger] spec_junction_exists(state, event, mode)) == StepView::<
                Query,
                bool,
            >::Done(Ok(true)) ==> state is Reading && event is Output && is_mount_point(
                event->Output_0,
            ),
        forall|state: Query, event: EventView|
            (#[trigger] spec_junction_exists(state, event, mode)) == StepView::<
                Query,
                bool,
            >::Done(Ok(false)) ==> state is Probing && !event.present(),
        forall|state: Query, event: EventView|
            (#[trigger] spec_get_target(state, event, mode)) matches StepView::Done(Ok(_))
                ==> state is Reading && event is Output && is_mount_point(event->Output_0),
{
}

/// `create` decides on the length of the target as soon as the target is
/// resolved: it refuses a path that does not fit with `TargetTooLong`, and
/// asks for the directory only for a path that fits.
pub proof fn lemma_create_checks_length_first(
    inner: FullPathState,
    event: EventView,
    mode: PrivilegeMode,
)
    ensures
        match spec_get_full_path(inner, event) {
            StepView::Done(Ok(path)) => if fits(path) {
                spec_create(CreateView::Resolving(inner), event, mode) matches StepView::Next {
                    state: CreateView::CreatingDir { data },
                    action: ActionView::CreateDir,
                } && data == encoded_mount_point(path)
            } else {
                spec_create(CreateView::Resolving(inner), event, mode) == StepView::<
                    CreateView,
                    (),
                >::Done(Err(Error::TargetTooLong))
            },
            StepView::Done(Err(error)) => spec_create(CreateView::Resolving(inner), event, mode)
                == StepView::<CreateView, ()>::Done(Err(error)),
            StepView::Next { state, action } => action is GetFullPathName && spec_create(
                CreateView::Resolving(inner),
                event,
                mode,
            ) == StepView::<CreateView, ()>::Next { state: CreateView::Resolving(state), action },
        },
{
}

/// While `create` has not got beyond the resolution of the target path, it
/// has asked for nothing but path resolutions, from its beginning on.
proof fn lemma_resolving_changes_nothing(events: Seq<EventView>, mode: PrivilegeMode)
    requires
        create_state_after(events, mode) matches Some(state) && (state is Idle
            || state is Resolving),
    ensures
        forall|i: int|
            1 <= i <= events.len() ==> (#[trigger] create_last_step(events.take(i), mode)
                matches Some(StepView::Next { action, .. }) && action is GetFullPathName),
    decreases events.len(),
{
    if events.len() > 0 {
        let before = events.drop_last();
        lemma_resolving_changes_nothing(before, mode);
        assert forall|i: int| 1 <= i <= events.len() implies (#[trigger] create_last_step(
            events.take(i),
            mode,
        ) matches Some(StepView::Next { action, .. }) && action is GetFullPathName) by {
            if i < events.len() {
                assert(events.take(i) =~= before.take(i));
            } else {
                assert(events.take(i) =~= events);
            }
        }
    }
}

/// Where `create` ends with `TargetTooLong`, it has changed
/// nothing: every call that it asked for, from its beginning on, was a path
/// resolution. No directory was created.
pub proof fn lemma_too_long_target_changes_nothing(events: Seq<EventView>, mode: PrivilegeMode)
    requires
        events.len() > 0,
        create_last_step(events, mode) == Some(
            StepView::<CreateView, ()>::Done(Err(Error::TargetTooLong)),
        ),
    ensures
        forall|i: int|
            1 <= i < events.len() ==> (#[trigger] create_last_step(events.take(i), mode)
                matches Some(StepView::Next { action, .. }) && action is GetFullPathName),
{
    let before = events.drop_last();
    lemma_resolving_changes_nothing(before, mode);
    assert forall|i: int| 1 <= i < events.len() implies (#[trigger] create_last_step(
        events.take(i),
        mode,
    ) matches Some(StepView::Next { action, .. }) && action is GetFullPathName) by {
        assert(events.take(i) =~= before.take(i));
    }
}

/// Whatever `create` is handed, the reparse data that it holds stays that of
/// a junction to a path that fits, and the only control code that it asks
/// for is the one that sets the data that it holds.
pub proof fn lemma_create_sets_a_junction(state: CreateView, event: EventView, mode: PrivilegeMode)
    requires
        create_holds_junction(state),
    ensures
        spec_create(state, event, mode) matches StepView::Next { state: next, action } ==> {
            &&& create_holds_junction(next)
            &&& action is DeviceIoControl ==> (state matches CreateView::Opening { data, .. }
                && action == spec_set_reparse_point(data))
        },
{
    if let CreateView::Resolving(inner) = state {
        if let StepView::Done(Ok(path)) = spec_get_full_path(inner, event) {
            if fits(path) {
                assert(fits(path) && encoded_mount_point(path) == encoded_mount_point(path));
            }
        }
    }
}

/// `delete` removes reparse data, and nothing else. Whatever its state and
/// whatever it is handed, a step of `delete` asks for no call that creates or
/// removes a file or a directory, and for no change to reparse data but the
/// removal of the data of a mount point from the junction path.
pub proof fn lemma_delete_removes_reparse_data_only(
    state: Delete,
    event: EventView,
    mode: PrivilegeMode,
)
    ensures
        spec_delete(state, event, mode) matches StepView::Next { action, .. }
            ==> removes_reparse_data_only(action),
{
}

/// The course of a query on a path where something exists, when every call
/// succeeds at once: the test for existence, the opening to read, and the
/// read of the reparse data.
pub proof fn lemma_course_of_queries(mode: PrivilegeMode)
    ensures
        spec_junction_exists(Query::Idle, EventView::Begin, mode) == (StepView::<
            Query,
            bool,
        >::Next { state: Query::Probing, action: ActionView::Exists }),
        spec_junction_exists(Query::Probing, EventView::Existence(true), mode) == (StepView::<
            Query,
            bool,
        >::Next {
            state: Query::Opening(OpenState::First),
            action: ActionView::Open(spec_open_request(false)),
        }),
        spec_junction_exists(Query::Opening(OpenState::First), EventView::Success, mode)
            == (StepView::<Query, bool>::Next {
            state: Query::Reading,
            action: spec_get_reparse_data_point(),
        }),
        spec_get_target(Query::Idle, EventView::Begin, mode) == (StepView::<
            Query,
            Seq<u16>,
        >::Next { state: Query::Probing, action: ActionView::Exists }),
        spec_get_target(Query::Probing, EventView::Existence(true), mode) == (StepView::<
            Query,
            Seq<u16>,
        >::Next {
            state: Query::Opening(OpenState::First),
            action: ActionView::Open(spec_open_request(false)),
        }),
        spec_get_target(Query::Opening(OpenState::First), EventView::Success, mode)
            == (StepView::<Query, Seq<u16>>::Next {
            state: Query::Reading,
            action: spec_get_reparse_data_point(),
        }),
{
}

/// The course of `delete` when every call succeeds at once: the opening to
/// write, and the removal of the reparse data.
pub proof fn lemma_course_of_delete(output: Seq<u8>, mode: PrivilegeMode)
    ensures
        spec_delete(Delete::Idle, EventView::Begin, mode) == (StepView::<Delete, ()>::Next {
            state: Delete::Opening(OpenState::First),
            action: ActionView::Open(spec_open_request(true)),
        }),
        spec_delete(Delete::Opening(OpenState::First), EventView::Success, mode) == (StepView::<
            Delete,
            (),
        >::Next { state: Delete::Deleting, action: spec_delete_reparse_point() }),
        spec_delete(Delete::Deleting, EventView::Output(output), mode) == StepView::<
            Delete,
            (),
        >::Done(Ok(())),
{
}

/// The course of `create` when every call succeeds at once and the target
/// is resolved to `path`, which fits: the path resolution, the creation of
/// the directory, its opening to write, and the setting of the reparse data
/// of a junction to `path`.
pub proof fn lemma_course_of_create(
    inner: FullPathState,
    resolved: EventView,
    path: Seq<u16>,
    output: Seq<u8>,
    mode: PrivilegeMode,
)
    requires
        fits(path),
        spec_get_full_path(inner, resolved) == StepView::<FullPathState, Seq<u16>>::Done(Ok(path)),
    ensures
        spec_create(CreateView::Idle, EventView::Begin, mode) matches StepView::Next {
            state: CreateView::Resolving(FullPathState::Resolving { capacity }),
            action: ActionView::GetFullPathName { capacity: asked },
        } && capacity == INITIAL_PATH_CAPACITY && asked == INITIAL_PATH_CAPACITY,
        spec_create(CreateView::Resolving(inner), resolved, mode) == (StepView::<
            CreateView,
            (),
        >::Next {
            state: CreateView::CreatingDir { data: encoded_mount_point(path) },
            action: ActionView::CreateDir,
        }),
        spec_create(
            (CreateView::CreatingDir { data: encoded_mount_point(path) }),
            EventView::Success,
            mode,
        ) == (StepView::<CreateView, ()>::Next {
            state: CreateView::Opening {
                data: encoded_mount_point(path),
                open: OpenState::First,
            },
            action: ActionView::Open(spec_open_request(true)),
        }),
        spec_create(
            (CreateView::Opening { data: encoded_mount_point(path), open: OpenState::First }),
            EventView::Success,
            mode,
        ) == (StepView::<CreateView, ()>::Next {
            state: CreateView::Writing,
            action: spec_set_reparse_point(encoded_mount_point(path)),
        }),
        spec_create(CreateView::Writing, EventView::Output(output), mode) == StepView::<
            CreateView,
            (),
        >::Done(Ok(())),
{
}

/// The course of an opening that is denied at first: the token of the
/// process is opened, the privilege is looked up and set, and the path is
/// opened once more, as before.
pub proof fn lemma_course_of_a_denied_opening(code: u32, write: bool, mode: PrivilegeMode)
    ensures
        spec_open_reparse_point(
            OpenState::First,
            (EventView::Failure { code, permission_denied: true }),
            write,
            mode,
        ) == (StepView::<OpenState, ()>::Next {
            state: OpenState::Elevating(PrivilegeState::OpeningToken),
            action: ActionView::OpenProcessToken { desired_access: TOKEN_ADJUST_PRIVILEGES() },
        }),
        spec_open_reparse_point(
            OpenState::Elevating(PrivilegeState::OpeningToken),
            EventView::Success,
            write,
            mode,
        ) == (StepView::<OpenState, ()>::Next {
            state: OpenState::Elevating(PrivilegeState::LookingUp),
            action: ActionView::LookupPrivilegeValue {
                privilege: spec_privilege_name(mode, write),
            },
        }),
        spec_open_reparse_point(
            OpenState::Elevating(PrivilegeState::LookingUp),
            EventView::Success,
            write,
            mode,
        ) == (StepView::<OpenState, ()>::Next {
            state: OpenState::Elevating(PrivilegeState::Adjusting),
            action: ActionView::AdjustTokenPrivileges { attributes: SE_PRIVILEGE_ENABLED() },
        }),
        spec_open_reparse_point(
            OpenState::Elevating(PrivilegeState::Adjusting),
            (EventView::Adjusted { last_error: 0 }),
            write,
            mode,
        ) == (StepView::<OpenState, ()>::Next {
            state: OpenState::Second,
            action: ActionView::Open(spec_open_request(write)),
        }),
        spec_open_reparse_point(
            OpenState::Second,
            (EventView::Failure { code, permission_denied: true }),
            write,
            mode,
        ) == StepView::<OpenState, ()>::Done(Err(Error::Os(code))),
{
}

} // verus!
