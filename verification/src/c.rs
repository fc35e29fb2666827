//! Constants of the Windows API that this crate works with.
//!
//! The executable code takes each value from the `windows-sys` bindings, so
//! that it follows them. The contracts state the values as numbers: that a
//! binding has the stated value is believed, not proved.

#![allow(non_snake_case)]

use vstd::prelude::*;

verus! {

/// Reparse Data Buffer header size
pub const REPARSE_DATA_BUFFER_HEADER_SIZE: u16 = 8;

/// Reparse GUID Data Buffer header size
pub const REPARSE_GUID_DATA_BUFFER_HEADER_SIZE: u16 = 24;

/// MountPointReparseBuffer header size
pub const MOUNT_POINT_REPARSE_BUFFER_HEADER_SIZE: u16 = 8;

/// Tag of the reparse points that are mount points, which junctions are.
pub open spec fn IO_REPARSE_TAG_MOUNT_POINT() -> u32 {
    0xA000_0003u32
}

/// Largest size in bytes of a reparse data buffer, header included.
pub open spec fn MAXIMUM_REPARSE_DATA_BUFFER_SIZE() -> u32 {
    16384u32
}

/// Access right to read an object.
pub open spec fn GENERIC_READ() -> u32 {
    0x8000_0000u32
}

/// Access right to write an object.
pub open spec fn GENERIC_WRITE() -> u32 {
    0x4000_0000u32
}

/// Open flag: open the reparse point itself, not what it leads to.
pub open spec fn FILE_FLAG_OPEN_REPARSE_POINT() -> u32 {
    0x0020_0000u32
}

/// Open flag: needed to obtain a handle to a directory.
pub open spec fn FILE_FLAG_BACKUP_SEMANTICS() -> u32 {
    0x0200_0000u32
}

/// Control code that reads the reparse data of an open file or directory.
pub open spec fn FSCTL_GET_REPARSE_POINT() -> u32 {
    0x0009_00A8u32
}

/// Control code that sets the reparse data of an open file or directory.
pub open spec fn FSCTL_SET_REPARSE_POINT() -> u32 {
    0x0009_00A4u32
}

/// Control code that removes the reparse data of an open file or directory.
pub open spec fn FSCTL_DELETE_REPARSE_POINT() -> u32 {
    0x0009_00ACu32
}

/// Error code: the buffer handed to a system call is too small.
pub open spec fn ERROR_INSUFFICIENT_BUFFER() -> u32 {
    122u32
}

/// Privilege attribute: the privilege is enabled.
pub open spec fn SE_PRIVILEGE_ENABLED() -> u32 {
    2u32
}

/// Token access right: to enable or disable the privileges of the token.
pub open spec fn TOKEN_ADJUST_PRIVILEGES() -> u32 {
    32u32
}

/// `IO_REPARSE_TAG_MOUNT_POINT` of `windows-sys`. Trusted: it is 2684354563,
/// which is `0xA000_0003`.
#[verifier::external_body]
pub(crate) fn io_reparse_tag_mount_point() -> (value: u32)
    ensures
        value == IO_REPARSE_TAG_MOUNT_POINT(),
{
    windows_sys::Win32::System::SystemServices::IO_REPARSE_TAG_MOUNT_POINT
}

/// `MAXIMUM_REPARSE_DATA_BUFFER_SIZE` of `windows-sys`. Trusted: it is 16384.
#[verifier::external_body]
pub(crate) fn maximum_reparse_data_buffer_size() -> (value: u32)
    ensures
        value == MAXIMUM_REPARSE_DATA_BUFFER_SIZE(),
{
    windows_sys::Win32::Storage::FileSystem::MAXIMUM_REPARSE_DATA_BUFFER_SIZE
}

/// `GENERIC_READ` of `windows-sys`. Trusted: it is 2147483648, which is
/// `0x8000_0000`.
#[verifier::external_body]
pub(crate) fn generic_read() -> (value: u32)
    ensures
        value == GENERIC_READ(),
{
    windows_sys::Win32::Foundation::GENERIC_READ
}

/// `GENERIC_WRITE` of `windows-sys`. Trusted: it is 1073741824, which is
/// `0x4000_0000`.
#[verifier::external_body]
pub(crate) fn generic_write() -> (value: u32)
    ensures
        value == GENERIC_WRITE(),
{
    windows_sys::Win32::Foundation::GENERIC_WRITE
}

/// `FILE_FLAG_OPEN_REPARSE_POINT` of `windows-sys`. Trusted: it is 2097152,
/// which is `0x0020_0000`.
#[verifier::external_body]
pub(crate) fn file_flag_open_reparse_point() -> (value: u32)
    ensures
        value == FILE_FLAG_OPEN_REPARSE_POINT(),
{
    windows_sys::Win32::Storage::FileSystem::FILE_FLAG_OPEN_REPARSE_POINT
}

/// `FILE_FLAG_BACKUP_SEMANTICS` of `windows-sys`. Trusted: it is 33554432,
/// which is `0x0200_0000`.
#[verifier::external_body]
pub(crate) fn file_flag_backup_semantics() -> (value: u32)
    ensures
        value == FILE_FLAG_BACKUP_SEMANTICS(),
{
    windows_sys::Win32::Storage::FileSystem::FILE_FLAG_BACKUP_SEMANTICS
}

/// `FSCTL_GET_REPARSE_POINT` of `windows-sys`. Trusted: it is 589992, which is
/// `0x0009_00A8`.
#[verifier::external_body]
pub(crate) fn fsctl_get_reparse_point() -> (value: u32)
    ensures
        value == FSCTL_GET_REPARSE_POINT(),
{
    windows_sys::Win32::System::Ioctl::FSCTL_GET_REPARSE_POINT
}

/// `FSCTL_SET_REPARSE_POINT` of `windows-sys`. Trusted: it is 589988, which is
/// `0x0009_00A4`.
#[verifier::external_body]
pub(crate) fn fsctl_set_reparse_point() -> (value: u32)
    ensures
        value == FSCTL_SET_REPARSE_POINT(),
{
    windows_sys::Win32::System::Ioctl::FSCTL_SET_REPARSE_POINT
}

/// `FSCTL_DELETE_REPARSE_POINT` of `windows-sys`. Trusted: it is 589996, which
/// is `0x0009_00AC`.
#[verifier::external_body]
pub(crate) fn fsctl_delete_reparse_point() -> (value: u32)
    ensures
        value == FSCTL_DELETE_REPARSE_POINT(),
{
    windows_sys::Win32::System::Ioctl::FSCTL_DELETE_REPARSE_POINT
}

/// `ERROR_INSUFFICIENT_BUFFER` of `windows-sys`. Trusted: it is 122.
#[verifier::external_body]
pub(crate) fn error_insufficient_buffer() -> (value: u32)
    ensures
        value == ERROR_INSUFFICIENT_BUFFER(),
{
    windows_sys::Win32::Foundation::ERROR_INSUFFICIENT_BUFFER
}

/// `SE_PRIVILEGE_ENABLED` of `windows-sys`. Trusted: it is 2.
#[verifier::external_body]
pub(crate) fn se_privilege_enabled() -> (value: u32)
    ensures
        value == SE_PRIVILEGE_ENABLED(),
{
    windows_sys::Win32::Security::SE_PRIVILEGE_ENABLED
}

/// `TOKEN_ADJUST_PRIVILEGES` of `windows-sys`. Trusted: it is 32.
#[verifier::external_body]
pub(crate) fn token_adjust_privileges() -> (value: u32)
    ensures
        value == TOKEN_ADJUST_PRIVILEGES(),
{
    windows_sys::Win32::Security::TOKEN_ADJUST_PRIVILEGES
}

} // verus!
