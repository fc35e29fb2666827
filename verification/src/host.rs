//! What passes between this crate and the caller who makes the system calls:
//! the calls that an operation asks for, and what is handed back of each.
//!
//! The types that carry bytes or code units have a parameter for what holds
//! them: a `Vec` in executable code, a `Seq` in contracts. Each has a name for
//! either use, and the view of the first is the second.

use crate::error::Error;
use vstd::prelude::*;

verus! {

/// A privilege of a process.
#[derive(Debug, Clone, Copy, PartialEq, Eq, Structural)]
pub enum Privilege {
    /// `SeCreateSymbolicLinkPrivilege`
    CreateSymbolicLink,
    /// `SeBackupPrivilege`
    Backup,
    /// `SeRestorePrivilege`
    Restore,
}

/// Which privileges an operation may enable after access was denied.
#[derive(Debug, Clone, Copy, PartialEq, Eq, Structural)]
pub enum PrivilegeMode {
    /// Only the privilege to create symbolic links, which setting a reparse
    /// point asks for.
    Minimal,
    /// The privileges of backup and restore, which pass the access checks on
    /// directories altogether.
    Administrative,
}

/// How to open the file or directory that an operation works on.
#[derive(Debug, Clone, Copy, PartialEq, Eq, Structural)]
pub struct OpenRequest {
    /// The access rights to ask for.
    pub access_mode: u32,
    /// What others may do with the file while it is open. Zero is nothing.
    pub share_mode: u32,
    /// The flags of the open call.
    pub custom_flags: u32,
}

/// A system call that an operation asks its caller to make, with bytes held
/// in a `B`.
#[derive(Debug, Clone, PartialEq, Eq)]
pub enum ActionOf<B> {
    /// Resolve the target path to an absolute path, into a buffer of
    /// `capacity` code units, with the last error cleared before the call.
    GetFullPathName { capacity: u32 },
    /// Find out whether anything exists at the junction path.
    Exists,
    /// Create a directory at the junction path.
    CreateDir,
    /// Open the junction path.
    Open(OpenRequest),
    /// Open the access token of the current process.
    OpenProcessToken { desired_access: u32 },
    /// Look up the identifier of `privilege` on the local system.
    LookupPrivilegeValue { privilege: Privilege },
    /// Set the privilege that was looked up, alone, with `attributes`, on the
    /// token that was opened, and read the last error behind the call.
    AdjustTokenPrivileges { attributes: u32 },
    /// Send the control code `code` to the open junction path, with `input`
    /// and room for `output_capacity` bytes of output.
    DeviceIoControl { code: u32, input: B, output_capacity: u32 },
}

/// What the caller hands back of a system call, with code units held in a
/// `W` and bytes in a `B`.
///
/// An operation takes from an event what the call that it waits on reports,
/// whatever the variant: an event that does not hold it counts as a call that
/// succeeded and had nothing to report.
#[derive(Debug, Clone, PartialEq, Eq)]
pub enum EventOf<W, B> {
    /// No call was made yet.
    Begin,
    /// The path resolution returned `reported`, and `last_error` was the last
    /// error behind it. `buffer` is the buffer that it wrote to, whole.
    FullPathName { reported: u32, last_error: u32, buffer: W },
    /// Whether anything exists at the junction path.
    Existence(bool),
    /// The call succeeded.
    Success,
    /// The privileges were adjusted, and `last_error` was the last error
    /// behind the call.
    Adjusted { last_error: u32 },
    /// The control code was carried out, with this output.
    Output(B),
    /// The call failed with the error code `code`. `permission_denied` says
    /// whether the error is one of denied permission.
    Failure { code: u32, permission_denied: bool },
}

/// How an operation with states `S` and results `T` goes on: with a call to
/// make, or with its result.
#[derive(Debug, PartialEq, Eq)]
pub enum StepOf<S, T, B> {
    /// The operation is in `state` and waits for the outcome of `action`.
    Next { state: S, action: ActionOf<B> },
    /// The operation has ended.
    Done(Result<T, Error>),
}

/// A call as an operation hands it out.
pub type Action = ActionOf<Vec<u8>>;

/// A call as the contracts speak of it.
pub type ActionView = ActionOf<Seq<u8>>;

/// An outcome as an operation is handed it.
pub type Event = EventOf<Vec<u16>, Vec<u8>>;

/// An outcome as the contracts speak of it.
pub type EventView = EventOf<Seq<u16>, Seq<u8>>;

/// A step as an operation returns it.
pub type Step<S, T> = StepOf<S, T, Vec<u8>>;

/// A step as the contracts speak of it.
pub type StepView<S, T> = StepOf<S, T, Seq<u8>>;

impl View for Action {
    type V = ActionView;

    open spec fn view(&self) -> ActionView {
        match *self {
            ActionOf::GetFullPathName { capacity } => ActionOf::GetFullPathName { capacity },
            ActionOf::Exists => ActionOf::Exists,
            ActionOf::CreateDir => ActionOf::CreateDir,
            ActionOf::Open(request) => ActionOf::Open(request),
            ActionOf::OpenProcessToken { desired_access } => ActionOf::OpenProcessToken {
                desired_access,
            },
            ActionOf::LookupPrivilegeValue { privilege } => ActionOf::LookupPrivilegeValue {
                privilege,
            },
            ActionOf::AdjustTokenPrivileges { attributes } => ActionOf::AdjustTokenPrivileges {
                attributes,
            },
            ActionOf::DeviceIoControl { code, input, output_capacity } => ActionOf::DeviceIoControl {
                code,
                input: input@,
                output_capacity,
            },
        }
    }
}

impl View for Event {
    type V = EventView;

    open spec fn view(&self) -> EventView {
        match *self {
            EventOf::Begin => EventOf::Begin,
            EventOf::FullPathName { reported, last_error, buffer } => EventOf::FullPathName {
                reported,
                last_error,
                buffer: buffer@,
            },
            EventOf::Existence(present) => EventOf::Existence(present),
            EventOf::Success => EventOf::Success,
            EventOf::Adjusted { last_error } => EventOf::Adjusted { last_error },
            EventOf::Output(bytes) => EventOf::Output(bytes@),
            EventOf::Failure { code, permission_denied } => EventOf::Failure {
                code,
                permission_denied,
            },
        }
    }
}

impl<S: View, T: View> View for Step<S, T> {
    type V = StepView<S::V, T::V>;

    open spec fn view(&self) -> StepView<S::V, T::V> {
        match *self {
            StepOf::Next { state, action } => StepOf::Next { state: state@, action: action@ },
            StepOf::Done(Ok(value)) => StepOf::Done(Ok(value@)),
            StepOf::Done(Err(e)) => StepOf::Done(Err(e)),
        }
    }
}

impl<W, B> EventOf<W, B> {
    /// The number of code units that a path resolution reported. An event
    /// that is not the outcome of one reports none.
    pub open spec fn spec_reported(&self) -> u32 {
        match *self {
            EventOf::FullPathName { reported, .. } => reported,
            _ => 0,
        }
    }

    /// The error code that the event carries: the code of a failure, or the
    /// last error behind a call. An event without one carries zero.
    pub open spec fn spec_last_error(&self) -> u32 {
        match *self {
            EventOf::FullPathName { last_error, .. } => last_error,
            EventOf::Adjusted { last_error } => last_error,
            EventOf::Failure { code, .. } => code,
            _ => 0,
        }
    }

    /// The error of the call, if the event says that the call failed. An
    /// event that is no failure is the outcome of a call that succeeded.
    pub open spec fn spec_failure(&self) -> Option<Error> {
        match *self {
            EventOf::Failure { code, .. } => Some(Error::Os(code)),
            _ => None,
        }
    }

    /// Whether the call failed because permission was denied.
    pub open spec fn spec_permission_denied(&self) -> bool {
        match *self {
            EventOf::Failure { permission_denied, .. } => permission_denied,
            _ => false,
        }
    }

    /// Whether something exists at the junction path. A test that failed has
    /// found nothing.
    pub open spec fn spec_present(&self) -> bool {
        match *self {
            EventOf::Existence(present) => present,
            EventOf::Failure { .. } => false,
            _ => true,
        }
    }

    /// The number of code units that a path resolution reported. An event
    /// that is not the outcome of one reports none.
    #[verifier::when_used_as_spec(spec_reported)]
    pub fn reported(&self) -> (count: u32)
        ensures
            count == self.spec_reported(),
    {
        match self {
            EventOf::FullPathName { reported, .. } => *reported,
            _ => 0,
        }
    }

    /// The error code that the event carries: the code of a failure, or the
    /// last error behind a call. An event without one carries zero.
    #[verifier::when_used_as_spec(spec_last_error)]
    pub fn last_error(&self) -> (code: u32)
        ensures
            code == self.spec_last_error(),
    {
        match self {
            EventOf::FullPathName { last_error, .. } => *last_error,
            EventOf::Adjusted { last_error } => *last_error,
            EventOf::Failure { code, .. } => *code,
            _ => 0,
        }
    }

    /// The error of the call, if the event says that the call failed. An
    /// event that is no failure is the outcome of a call that succeeded.
    #[verifier::when_used_as_spec(spec_failure)]
    pub fn failure(&self) -> (error: Option<Error>)
        ensures
            error == self.spec_failure(),
    {
        match self {
            EventOf::Failure { code, .. } => Some(Error::Os(*code)),
            _ => None,
        }
    }

    /// Whether the call failed because permission was denied.
    #[verifier::when_used_as_spec(spec_permission_denied)]
    pub fn permission_denied(&self) -> (denied: bool)
        ensures
            denied == self.spec_permission_denied(),
    {
        match self {
            EventOf::Failure { permission_denied, .. } => *permission_denied,
            _ => false,
        }
    }

    /// Whether something exists at the junction path. A test that failed has
    /// found nothing.
    #[verifier::when_used_as_spec(spec_present)]
    pub fn present(&self) -> (present: bool)
        ensures
            present == self.spec_present(),
    {
        match self {
            EventOf::Existence(present) => *present,
            EventOf::Failure { .. } => false,
            _ => true,
        }
    }
}

/// The code units that a path resolution wrote. An event that is not the
/// outcome of one has written none.
pub open spec fn written(event: EventView) -> Seq<u16> {
    match event {
        EventOf::FullPathName { buffer, .. } => buffer,
        _ => Seq::empty(),
    }
}

/// The output of a control code. An event that is not the outcome of one has
/// no output.
pub open spec fn output(event: EventView) -> Seq<u8> {
    match event {
        EventOf::Output(bytes) => bytes,
        _ => Seq::empty(),
    }
}

impl Event {
    /// The code units that a path resolution wrote. An event that is not the
    /// outcome of one has written none.
    pub fn written(self) -> (buffer: Vec<u16>)
        ensures
            buffer@ == written(self@),
    {
        match self {
            EventOf::FullPathName { buffer, .. } => buffer,
            _ => Vec::new(),
        }
    }

    /// The output of a control code. An event that is not the outcome of one
    /// has no output.
    pub fn output(self) -> (bytes: Vec<u8>)
        ensures
            bytes@ == output(self@),
    {
        match self {
            EventOf::Output(bytes) => bytes,
            _ => Vec::new(),
        }
    }
}

} // verus!
