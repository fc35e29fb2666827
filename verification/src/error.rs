//! The error type of the crate.

use vstd::prelude::*;

verus! {

/// Why an operation on a junction failed.
#[derive(Debug, Clone, Copy, PartialEq, Eq, Structural)]
pub enum Error {
    /// A system call failed. The code is the one that the operating system
    /// reported, unchanged.
    Os(u32),
    /// Nothing exists at the path of the junction.
    NotFound,
    /// The path carries reparse data whose tag is not that of a mount point.
    NotMountPoint,
    /// The target path is too long for a reparse data buffer.
    TargetTooLong,
    /// The reparse data places the substitute name outside of its buffer.
    InvalidData,
}

/// The kind of an error, for a caller who sorts errors as `std::io` does.
#[derive(Debug, Clone, Copy, PartialEq, Eq, Structural)]
pub enum ErrorKind {
    /// The error of a system call: the error code decides on the kind.
    Os,
    /// An entity was not found.
    NotFound,
    /// A parameter was incorrect.
    InvalidInput,
    /// Data was not valid for the operation.
    InvalidData,
    /// None of the other kinds.
    Other,
}

impl Error {
    /// The kind of the error: that of a parameter for a target that is too
    /// long, that of a path where nothing is for a junction that does not
    /// exist, no kind in particular for reparse data of another tag.
    pub open spec fn spec_kind(&self) -> ErrorKind {
        match *self {
            Error::Os(_) => ErrorKind::Os,
            Error::NotFound => ErrorKind::NotFound,
            Error::NotMountPoint => ErrorKind::Other,
            Error::TargetTooLong => ErrorKind::InvalidInput,
            Error::InvalidData => ErrorKind::InvalidData,
        }
    }

    /// The kind of the error.
    #[verifier::when_used_as_spec(spec_kind)]
    pub fn kind(&self) -> (kind: ErrorKind)
        ensures
            kind == self.spec_kind(),
    {
        match self {
            Error::Os(_) => ErrorKind::Os,
            Error::NotFound => ErrorKind::NotFound,
            Error::NotMountPoint => ErrorKind::Other,
            Error::TargetTooLong => ErrorKind::InvalidInput,
            Error::InvalidData => ErrorKind::InvalidData,
        }
    }

    /// The text that describes the error.
    pub open spec fn spec_message(self) -> Seq<char> {
        match self {
            Error::Os(_) => "operating system error"@,
            Error::NotFound => "`junction` does not exist"@,
            Error::NotMountPoint => "not a reparse tag mount point"@,
            Error::TargetTooLong => "`target` is too long"@,
            Error::InvalidData => "substitute name outside of the reparse data buffer"@,
        }
    }

    /// The text that describes the error.
    pub fn message(&self) -> (text: &'static str)
        ensures
            text@ == self.spec_message(),
    {
        match self {
            Error::Os(_) => "operating system error",
            Error::NotFound => "`junction` does not exist",
            Error::NotMountPoint => "not a reparse tag mount point",
            Error::TargetTooLong => "`target` is too long",
            Error::InvalidData => "substitute name outside of the reparse data buffer",
        }
    }

    /// The code that the operating system reported, if this error comes from
    /// it.
    pub fn raw_os_error(&self) -> (code: Option<u32>)
        ensures
            code == (match *self {
                Error::Os(c) => Some(c),
                _ => None::<u32>,
            }),
    {
        match self {
            Error::Os(c) => Some(*c),
            _ => None,
        }
    }
}

} // verus!
