use junction::error::Error;
use junction::helpers::{
    delete_reparse_point, get_full_path, get_reparse_data_point, open_reparse_point,
    open_request, privilege_name, set_privilege, set_reparse_point, FullPathState, OpenState,
    PrivilegeState, ERROR_NOT_ALL_ASSIGNED, INITIAL_PATH_CAPACITY,
};
use junction::host::{Action, Event, OpenRequest, Privilege, PrivilegeMode, Step};


const ERROR_ACCESS_DENIED: u32 = 5;
const ERROR_INSUFFICIENT_BUFFER: u32 = 122;
const ERROR_NO_SUCH_PRIVILEGE: u32 = 1313;
const ERROR_FILE_NOT_FOUND: u32 = 2;

fn denied() -> Event {
    Event::Failure { code: ERROR_ACCESS_DENIED, permission_denied: true }
}

fn failed(code: u32) -> Event {
    Event::Failure { code, permission_denied: false }
}

fn resolved(reported: u32, last_error: u32, buffer: Vec<u16>) -> Event {
    Event::FullPathName { reported, last_error, buffer }
}

fn read_open() -> Action {
    Action::Open(OpenRequest { access_mode: 0x8000_0000, share_mode: 0, custom_flags: 0x0220_0000 })
}

fn write_open() -> Action {
    Action::Open(OpenRequest { access_mode: 0xC000_0000, share_mode: 0, custom_flags: 0x0220_0000 })
}

#[test]
fn full_path_starts_with_512_code_units() {
    assert_eq!(INITIAL_PATH_CAPACITY, 512);
    assert_eq!(
        get_full_path(FullPathState::Idle, Event::Begin),
        Step::Next {
            state: FullPathState::Resolving { capacity: 512 },
            action: Action::GetFullPathName { capacity: 512 },
        }
    );
}

#[test]
fn full_path_is_trimmed_to_the_count_reported() {
    let mut buffer: Vec<u16> = "C:\\dir".encode_utf16().collect();
    buffer.resize(512, 0xFFFF);
    let step = get_full_path(FullPathState::Resolving { capacity: 512 }, resolved(6, 0, buffer));
    assert_eq!(step, Step::Done(Ok("C:\\dir".encode_utf16().collect())));
}

#[test]
fn full_path_that_fills_the_buffer() {
    let buffer = vec![0x61u16; 512];
    let step =
        get_full_path(FullPathState::Resolving { capacity: 512 }, resolved(512, 0, buffer.clone()));
    assert_eq!(step, Step::Done(Ok(buffer)));
}

#[test]
fn full_path_failure_is_the_last_error() {
    let step = get_full_path(
        FullPathState::Resolving { capacity: 512 },
        resolved(0, 123, vec![0; 512]),
    );
    assert_eq!(step, Step::Done(Err(Error::Os(123))));
    // Zero is a failure even when the last error tells of a small buffer.
    let step = get_full_path(
        FullPathState::Resolving { capacity: 512 },
        resolved(0, ERROR_INSUFFICIENT_BUFFER, vec![0; 512]),
    );
    assert_eq!(step, Step::Done(Err(Error::Os(ERROR_INSUFFICIENT_BUFFER))));
    let step = get_full_path(FullPathState::Resolving { capacity: 512 }, failed(161));
    assert_eq!(step, Step::Done(Err(Error::Os(161))));
}

#[test]
fn full_path_doubles_on_insufficient_buffer() {
    let mut capacity = 512u32;
    let mut seen = vec![];
    for _ in 0..30 {
        let step = get_full_path(
            FullPathState::Resolving { capacity },
            resolved(7, ERROR_INSUFFICIENT_BUFFER, vec![]),
        );
        match step {
            Step::Next {
                state: FullPathState::Resolving { capacity: next },
                action: Action::GetFullPathName { capacity: asked },
            } => {
                assert_eq!(next, asked);
                capacity = next;
                seen.push(next);
            }
            other => panic!("{other:?}"),
        }
    }
    assert_eq!(&seen[..4], &[1024, 2048, 4096, 8192]);
    assert_eq!(seen[21], 0x8000_0000);
    // Capped at what 32 bits can count.
    assert_eq!(seen[22], u32::MAX);
    assert_eq!(seen[29], u32::MAX);
}

#[test]
fn full_path_grows_to_the_count_reported() {
    let step = get_full_path(
        FullPathState::Resolving { capacity: 512 },
        resolved(601, 0, vec![0; 512]),
    );
    assert_eq!(
        step,
        Step::Next {
            state: FullPathState::Resolving { capacity: 601 },
            action: Action::GetFullPathName { capacity: 601 },
        }
    );
    let step = get_full_path(
        FullPathState::Resolving { capacity: 512 },
        resolved(513, 0, vec![0; 512]),
    );
    assert_eq!(
        step,
        Step::Next {
            state: FullPathState::Resolving { capacity: 513 },
            action: Action::GetFullPathName { capacity: 513 },
        }
    );
}

#[test]
fn full_path_from_a_buffer_shorter_than_reported() {
    let step = get_full_path(
        FullPathState::Resolving { capacity: 512 },
        resolved(10, 0, vec![1, 2, 3]),
    );
    assert_eq!(step, Step::Done(Ok(vec![1, 2, 3])));
}

#[test]
fn privilege_names() {
    assert_eq!(privilege_name(PrivilegeMode::Minimal, true), Privilege::CreateSymbolicLink);
    assert_eq!(privilege_name(PrivilegeMode::Minimal, false), Privilege::CreateSymbolicLink);
    assert_eq!(privilege_name(PrivilegeMode::Administrative, true), Privilege::Restore);
    assert_eq!(privilege_name(PrivilegeMode::Administrative, false), Privilege::Backup);
}

#[test]
fn set_privilege_asks_for_three_calls() {
    let mode = PrivilegeMode::Minimal;
    let step = set_privilege(PrivilegeState::Idle, &Event::Begin, true, mode);
    assert_eq!(
        step,
        Step::Next {
            state: PrivilegeState::OpeningToken,
            action: Action::OpenProcessToken { desired_access: 0x20 },
        }
    );
    let step = set_privilege(PrivilegeState::OpeningToken, &Event::Success, true, mode);
    assert_eq!(
        step,
        Step::Next {
            state: PrivilegeState::LookingUp,
            action: Action::LookupPrivilegeValue { privilege: Privilege::CreateSymbolicLink },
        }
    );
    let step = set_privilege(PrivilegeState::LookingUp, &Event::Success, true, mode);
    assert_eq!(
        step,
        Step::Next {
            state: PrivilegeState::Adjusting,
            action: Action::AdjustTokenPrivileges { attributes: 2 },
        }
    );
    let step =
        set_privilege(PrivilegeState::Adjusting, &Event::Adjusted { last_error: 0 }, true, mode);
    assert_eq!(step, Step::Done(Ok(())));
}

#[test]
fn set_privilege_looks_up_the_name_of_its_mode() {
    let step = set_privilege(
        PrivilegeState::OpeningToken,
        &Event::Success,
        true,
        PrivilegeMode::Administrative,
    );
    assert_eq!(
        step,
        Step::Next {
            state: PrivilegeState::LookingUp,
            action: Action::LookupPrivilegeValue { privilege: Privilege::Restore },
        }
    );
    let step = set_privilege(
        PrivilegeState::OpeningToken,
        &Event::Success,
        false,
        PrivilegeMode::Administrative,
    );
    assert_eq!(
        step,
        Step::Next {
            state: PrivilegeState::LookingUp,
            action: Action::LookupPrivilegeValue { privilege: Privilege::Backup },
        }
    );
}

#[test]
fn set_privilege_partial_assignment_is_a_failure() {
    assert_eq!(ERROR_NOT_ALL_ASSIGNED, 1300);
    let step = set_privilege(
        PrivilegeState::Adjusting,
        &Event::Adjusted { last_error: 1300 },
        true,
        PrivilegeMode::Minimal,
    );
    assert_eq!(step, Step::Done(Err(Error::Os(1300))));
    let step = set_privilege(
        PrivilegeState::Adjusting,
        &Event::Adjusted { last_error: 1299 },
        true,
        PrivilegeMode::Minimal,
    );
    assert_eq!(step, Step::Done(Ok(())));
}

#[test]
fn set_privilege_ends_with_the_first_failure() {
    let mode = PrivilegeMode::Minimal;
    for state in [PrivilegeState::OpeningToken, PrivilegeState::LookingUp, PrivilegeState::Adjusting]
    {
        let step = set_privilege(state, &failed(ERROR_NO_SUCH_PRIVILEGE), false, mode);
        assert_eq!(step, Step::Done(Err(Error::Os(ERROR_NO_SUCH_PRIVILEGE))));
    }
}

#[test]
fn open_request_flags() {
    assert_eq!(
        open_request(false),
        OpenRequest { access_mode: 0x8000_0000, share_mode: 0, custom_flags: 0x0220_0000 }
    );
    assert_eq!(
        open_request(true),
        OpenRequest { access_mode: 0xC000_0000, share_mode: 0, custom_flags: 0x0220_0000 }
    );
}

#[test]
fn open_succeeds_at_once() {
    let mode = PrivilegeMode::Minimal;
    assert_eq!(
        open_reparse_point(OpenState::Idle, &Event::Begin, false, mode),
        Step::Next { state: OpenState::First, action: read_open() }
    );
    assert_eq!(
        open_reparse_point(OpenState::Idle, &Event::Begin, true, mode),
        Step::Next { state: OpenState::First, action: write_open() }
    );
    assert_eq!(
        open_reparse_point(OpenState::First, &Event::Success, true, mode),
        Step::Done(Ok(()))
    );
}

#[test]
fn open_failure_that_is_no_denial_is_final() {
    let step = open_reparse_point(
        OpenState::First,
        &failed(ERROR_FILE_NOT_FOUND),
        true,
        PrivilegeMode::Minimal,
    );
    assert_eq!(step, Step::Done(Err(Error::Os(ERROR_FILE_NOT_FOUND))));
}

#[test]
fn open_is_retried_once_after_a_denial() {
    let mode = PrivilegeMode::Administrative;
    let mut calls = vec![];
    let mut state = OpenState::Idle;
    let mut replies = vec![
        Event::Begin,
        denied(),
        Event::Success,
        Event::Success,
        Event::Adjusted { last_error: 0 },
        denied(),
    ]
    .into_iter();
    let result = loop {
        match open_reparse_point(state, &replies.next().unwrap(), true, mode) {
            Step::Next { state: next, action } => {
                calls.push(action);
                state = next;
            }
            Step::Done(result) => break result,
        }
    };
    assert_eq!(result, Err(Error::Os(ERROR_ACCESS_DENIED)));
    assert_eq!(
        calls,
        vec![
            write_open(),
            Action::OpenProcessToken { desired_access: 0x20 },
            Action::LookupPrivilegeValue { privilege: Privilege::Restore },
            Action::AdjustTokenPrivileges { attributes: 2 },
            write_open(),
        ]
    );
    assert!(replies.next().is_none());
}

#[test]
fn open_succeeds_at_the_second_attempt() {
    let mode = PrivilegeMode::Minimal;
    let step = open_reparse_point(OpenState::First, &denied(), false, mode);
    assert_eq!(
        step,
        Step::Next {
            state: OpenState::Elevating(PrivilegeState::OpeningToken),
            action: Action::OpenProcessToken { desired_access: 0x20 },
        }
    );
    let step = open_reparse_point(
        OpenState::Elevating(PrivilegeState::OpeningToken),
        &Event::Success,
        false,
        mode,
    );
    assert_eq!(
        step,
        Step::Next {
            state: OpenState::Elevating(PrivilegeState::LookingUp),
            action: Action::LookupPrivilegeValue { privilege: Privilege::CreateSymbolicLink },
        }
    );
    let step = open_reparse_point(
        OpenState::Elevating(PrivilegeState::Adjusting),
        &Event::Adjusted { last_error: 0 },
        false,
        mode,
    );
    assert_eq!(step, Step::Next { state: OpenState::Second, action: read_open() });
    assert_eq!(
        open_reparse_point(OpenState::Second, &Event::Success, false, mode),
        Step::Done(Ok(()))
    );
}

#[test]
fn open_ends_with_the_failure_of_the_privilege() {
    let mode = PrivilegeMode::Minimal;
    let step = open_reparse_point(
        OpenState::Elevating(PrivilegeState::Adjusting),
        &Event::Adjusted { last_error: 1300 },
        true,
        mode,
    );
    assert_eq!(step, Step::Done(Err(Error::Os(1300))));
    let step = open_reparse_point(
        OpenState::Elevating(PrivilegeState::LookingUp),
        &failed(ERROR_NO_SUCH_PRIVILEGE),
        true,
        mode,
    );
    assert_eq!(step, Step::Done(Err(Error::Os(ERROR_NO_SUCH_PRIVILEGE))));
}

#[test]
fn control_codes() {
    assert_eq!(
        get_reparse_data_point(),
        Action::DeviceIoControl { code: 0x0009_00A8, input: vec![], output_capacity: 16384 }
    );
    assert_eq!(
        set_reparse_point(vec![1, 2, 3]),
        Action::DeviceIoControl { code: 0x0009_00A4, input: vec![1, 2, 3], output_capacity: 0 }
    );
    let mut header = vec![0u8; 24];
    header[..4].copy_from_slice(&[0x03, 0x00, 0x00, 0xA0]);
    assert_eq!(
        delete_reparse_point(),
        Action::DeviceIoControl { code: 0x0009_00AC, input: header, output_capacity: 0 }
    );
}

#[test]
fn events_without_what_is_asked_of_them() {
    let event: Event = Event::Success;
    assert_eq!(event.reported(), 0);
    assert_eq!(event.last_error(), 0);
    assert_eq!(event.failure(), None);
    assert!(!event.permission_denied());
    assert!(event.present());
    assert_eq!(event.clone().written(), Vec::<u16>::new());
    assert_eq!(event.output(), Vec::<u8>::new());

    let event: Event = Event::Failure { code: 5, permission_denied: true };
    assert_eq!(event.last_error(), 5);
    assert_eq!(event.failure(), Some(Error::Os(5)));
    assert!(event.permission_denied());
    assert!(!event.present());

    let event: Event = Event::Existence(false);
    assert!(!event.present());
    assert_eq!(event.failure(), None);

    let event: Event = Event::FullPathName { reported: 3, last_error: 9, buffer: vec![1, 2, 3, 4] };
    assert_eq!(event.reported(), 3);
    assert_eq!(event.last_error(), 9);
    assert_eq!(event.written(), vec![1, 2, 3, 4]);

    let event: Event = Event::Output(vec![7, 8]);
    assert_eq!(event.output(), vec![7, 8]);
    let event: Event = Event::Adjusted { last_error: 1300 };
    assert_eq!(event.last_error(), 1300);
}
