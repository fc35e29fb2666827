//! The reparse data of a mount point, as a value: its header fields and the
//! UTF-16 code units that follow them.

#![allow(non_snake_case)]
#![allow(non_camel_case_types)]

use crate::c::{
    io_reparse_tag_mount_point, maximum_reparse_data_buffer_size, IO_REPARSE_TAG_MOUNT_POINT,
    MAXIMUM_REPARSE_DATA_BUFFER_SIZE, MOUNT_POINT_REPARSE_BUFFER_HEADER_SIZE,
    REPARSE_DATA_BUFFER_HEADER_SIZE,
};
use crate::error::Error;
use crate::utf16::{non_interpreted_path_prefix, prefix_code_units, WCHAR_SIZE};
use vstd::prelude::*;

verus! {

/// The part of a reparse data buffer that is particular to mount points.
#[derive(Debug, Clone, PartialEq, Eq)]
pub struct MountPointReparseBuffer {
    /// Offset, in bytes, of the substitute name string in the `PathBuffer` array.
    /// Note that this offset must be divided by `sizeof(u16)` to get the array index.
    pub SubstituteNameOffset: u16,
    /// Length, in bytes, of the substitute name string. If this string is `NULL`-terminated,
    /// it does not include space for the `UNICODE_NULL` character.
    pub SubstituteNameLength: u16,
    /// Offset, in bytes, of the print name string in the `PathBuffer` array.
    /// Note that this offset must be divided by `sizeof(u16)` to get the array index.
    pub PrintNameOffset: u16,
    /// Length, in bytes, of the print name string. If this string is `NULL`-terminated,
    /// it does not include space for the `UNICODE_NULL` character.
    pub PrintNameLength: u16,
    /// The code units that hold the substitute name and the print name, at the
    /// offsets that the four fields above give.
    pub PathBuffer: Vec<u16>,
}

/// This structure contains reparse point data for a Microsoft reparse point.
#[derive(Debug, Clone, PartialEq, Eq)]
pub struct REPARSE_DATA_BUFFER {
    /// Reparse point tag. Must be a Microsoft reparse point tag.
    pub ReparseTag: u32,
    /// Size, in bytes, of the data after the `Reserved` member.
    pub ReparseDataLength: u16,
    /// Reserved. It is set to 0 and ignored when read.
    pub Reserved: u16,
    /// The offsets and lengths of the two names, and the names.
    pub ReparseBuffer: MountPointReparseBuffer,
}

/// What a `MountPointReparseBuffer` holds.
#[verifier::ext_equal]
pub struct MountPoint {
    pub substitute_name_offset: u16,
    pub substitute_name_length: u16,
    pub print_name_offset: u16,
    pub print_name_length: u16,
    pub path_buffer: Seq<u16>,
}

/// What a `REPARSE_DATA_BUFFER` holds.
#[verifier::ext_equal]
pub struct ReparseData {
    pub reparse_tag: u32,
    pub reparse_data_length: u16,
    pub reserved: u16,
    pub reparse_buffer: MountPoint,
}

impl View for MountPointReparseBuffer {
    type V = MountPoint;

    open spec fn view(&self) -> MountPoint {
        MountPoint {
            substitute_name_offset: self.SubstituteNameOffset,
            substitute_name_length: self.SubstituteNameLength,
            print_name_offset: self.PrintNameOffset,
            print_name_length: self.PrintNameLength,
            path_buffer: self.PathBuffer@,
        }
    }
}

impl View for REPARSE_DATA_BUFFER {
    type V = ReparseData;

    open spec fn view(&self) -> ReparseData {
        ReparseData {
            reparse_tag: self.ReparseTag,
            reparse_data_length: self.ReparseDataLength,
            reserved: self.Reserved,
            reparse_buffer: self.ReparseBuffer@,
        }
    }
}

/// Number of bytes that the two headers of a mount point's reparse data take
/// together.
pub open spec fn HEADERS_SIZE() -> int {
    REPARSE_DATA_BUFFER_HEADER_SIZE + MOUNT_POINT_REPARSE_BUFFER_HEADER_SIZE
}

/// Largest number of bytes that a substitute name can take: what the largest
/// buffer leaves after the two headers and the two terminators.
pub open spec fn MAX_AVAILABLE_PATH_BUFFER() -> int {
    MAXIMUM_REPARSE_DATA_BUFFER_SIZE() - HEADERS_SIZE() - 2 * WCHAR_SIZE
}

/// Number of code units that the largest buffer holds after the two headers.
pub open spec fn PATH_BUFFER_CAPACITY() -> int {
    (MAXIMUM_REPARSE_DATA_BUFFER_SIZE() - HEADERS_SIZE()) / (WCHAR_SIZE as int)
}

/// Number of bytes that the substitute name of `target` takes: the prefix and
/// the target, without a terminator.
pub open spec fn substitute_name_size(target: Seq<u16>) -> int {
    (non_interpreted_path_prefix().len() + target.len()) * WCHAR_SIZE
}

/// Whether a junction can point to `target`: whether its substitute name fits
/// in the largest buffer.
pub open spec fn fits(target: Seq<u16>) -> bool {
    substitute_name_size(target) <= MAX_AVAILABLE_PATH_BUFFER()
}

/// The reparse data of a junction that points to `target`, an absolute path.
pub open spec fn mount_point(target: Seq<u16>) -> ReparseData {
    let size = substitute_name_size(target);
    ReparseData {
        reparse_tag: IO_REPARSE_TAG_MOUNT_POINT(),
        reparse_data_length: (MOUNT_POINT_REPARSE_BUFFER_HEADER_SIZE + size + 2
            * WCHAR_SIZE) as u16,
        reserved: 0,
        reparse_buffer: MountPoint {
            substitute_name_offset: 0,
            substitute_name_length: size as u16,
            print_name_offset: (size + WCHAR_SIZE) as u16,
            print_name_length: 0,
            path_buffer: non_interpreted_path_prefix() + target,
        },
    }
}

/// Number of bytes of the buffer that `data` describes, both headers included.
pub open spec fn total_size(data: ReparseData) -> int {
    REPARSE_DATA_BUFFER_HEADER_SIZE + data.reparse_data_length
}

/// What this crate writes: the reparse data of a mount point with the
/// substitute name first, an empty print name behind its terminator, and a
/// length that counts both names and both terminators.
pub open spec fn well_formed(data: ReparseData) -> bool {
    let buffer = data.reparse_buffer;
    &&& data.reparse_tag == IO_REPARSE_TAG_MOUNT_POINT()
    &&& data.reserved == 0
    &&& data.reparse_data_length == MOUNT_POINT_REPARSE_BUFFER_HEADER_SIZE
        + buffer.substitute_name_length + 2 * WCHAR_SIZE
    &&& buffer.substitute_name_offset == 0
    &&& buffer.substitute_name_length == buffer.path_buffer.len() * WCHAR_SIZE
    &&& buffer.print_name_offset == buffer.substitute_name_length + WCHAR_SIZE
    &&& buffer.print_name_length == 0
    &&& non_interpreted_path_prefix().is_prefix_of(buffer.path_buffer)
    &&& total_size(data) <= MAXIMUM_REPARSE_DATA_BUFFER_SIZE()
}

/// `wide` without the prefix of non-interpreted paths, if it starts with it.
pub open spec fn strip_prefix(wide: Seq<u16>) -> Seq<u16> {
    if non_interpreted_path_prefix().is_prefix_of(wide) {
        wide.skip(non_interpreted_path_prefix().len() as int)
    } else {
        wide
    }
}

/// The code units of the substitute name, where the buffer holds all of them.
/// Offset and length count bytes: half of each is an index into the buffer.
pub open spec fn substitute_name(buffer: MountPoint) -> Option<Seq<u16>> {
    let start = buffer.substitute_name_offset as int / WCHAR_SIZE as int;
    let count = buffer.substitute_name_length as int / WCHAR_SIZE as int;
    if start + count <= buffer.path_buffer.len() {
        Some(buffer.path_buffer.subrange(start, start + count))
    } else {
        None
    }
}

/// The path that reparse data leads to: the substitute name of a mount point,
/// without the prefix of non-interpreted paths.
pub open spec fn target(data: ReparseData) -> Result<Seq<u16>, Error> {
    if data.reparse_tag != IO_REPARSE_TAG_MOUNT_POINT() {
        Err(Error::NotMountPoint)
    } else {
        match substitute_name(data.reparse_buffer) {
            Some(name) => Ok(strip_prefix(name)),
            None => Err(Error::InvalidData),
        }
    }
}

/// Largest number of bytes that a substitute name can take.
pub fn max_available_path_buffer() -> (size: u16)
    ensures
        size == MAX_AVAILABLE_PATH_BUFFER(),
{
    let whole: u32 = maximum_reparse_data_buffer_size();
    let headers: u32 = (REPARSE_DATA_BUFFER_HEADER_SIZE
        + MOUNT_POINT_REPARSE_BUFFER_HEADER_SIZE) as u32;
    let terminators: u32 = (2 * WCHAR_SIZE) as u32;
    (whole - headers - terminators) as u16
}

impl MountPointReparseBuffer {
    /// The code units of the substitute name, or `None` where offset and
    /// length lead outside of `PathBuffer`.
    pub fn substitute_name(&self) -> (name: Option<Vec<u16>>)
        ensures
            match name {
                Some(units) => substitute_name(self@) == Some(units@),
                None => substitute_name(self@) == None::<Seq<u16>>,
            },
    {
        let start: usize = (self.SubstituteNameOffset / WCHAR_SIZE) as usize;
        let count: usize = (self.SubstituteNameLength / WCHAR_SIZE) as usize;
        if start + count > self.PathBuffer.len() {
            return None;
        }
        let mut units: Vec<u16> = Vec::new();
        let mut i: usize = 0;
        while i < count
            invariant
                i <= count,
                start + count <= self.PathBuffer.len(),
                units@ == self.PathBuffer@.subrange(start as int, start + i),
            decreases count - i,
        {
            units.push(self.PathBuffer[start + i]);
            i += 1;
            assert(units@ =~= self.PathBuffer@.subrange(start as int, start + i));
        }
        Some(units)
    }
}

/// `wide` without the prefix of non-interpreted paths, if it starts with it.
pub fn strip_non_interpreted_prefix(wide: Vec<u16>) -> (rest: Vec<u16>)
    ensures
        rest@ == strip_prefix(wide@),
{
    let prefix = prefix_code_units();
    let ghost marker = non_interpreted_path_prefix();
    if wide.len() < 4 {
        return wide;
    }
    let mut same: bool = true;
    let mut i: usize = 0;
    while i < 4
        invariant
            i <= 4,
            wide.len() >= 4,
            prefix@ == marker,
            marker == non_interpreted_path_prefix(),
            same <==> (forall|j: int| 0 <= j < i ==> wide@[j] == marker[j]),
        decreases 4 - i,
    {
        if wide[i] != prefix[i] {
            same = false;
        }
        i += 1;
    }
    if !same {
        assert(!marker.is_prefix_of(wide@)) by {
            if marker.is_prefix_of(wide@) {
                let j = choose|j: int| 0 <= j < 4 && wide@[j] != marker[j];
                assert(wide@.subrange(0, 4)[j] == wide@[j]);
            }
        }
        return wide;
    }
    assert(marker =~= wide@.subrange(0, 4));
    let mut rest: Vec<u16> = Vec::new();
    let mut k: usize = 4;
    while k < wide.len()
        invariant
            4 <= k <= wide.len(),
            rest@ == wide@.subrange(4, k as int),
        decreases wide.len() - k,
    {
        rest.push(wide[k]);
        k += 1;
        assert(rest@ =~= wide@.subrange(4, k as int));
    }
    assert(rest@ =~= wide@.skip(4));
    rest
}

impl REPARSE_DATA_BUFFER {
    /// The reparse data of a junction that points to `target`, an absolute
    /// path without a terminator. `target` is refused where its substitute
    /// name does not fit in the largest buffer.
    pub fn mount_point(target: &[u16]) -> (made: Result<REPARSE_DATA_BUFFER, Error>)
        ensures
            match made {
                Ok(data) => fits(target@) && data@ == mount_point(target@),
                Err(e) => !fits(target@) && e == Error::TargetTooLong,
            },
    {
        let prefix = prefix_code_units();
        // "\??\" + target, as a count that 16 bits hold
        let len: usize = prefix.len().saturating_add(target.len());
        let min_len: u16 = if len > u16::MAX as usize {
            u16::MAX
        } else {
            len as u16
        };
        // Len without `UNICODE_NULL` at the end
        let target_len_in_bytes: u16 = if min_len > u16::MAX / WCHAR_SIZE {
            u16::MAX
        } else {
            min_len * WCHAR_SIZE
        };
        // Check for buffer overflow.
        if target_len_in_bytes > max_available_path_buffer() {
            return Err(Error::TargetTooLong);
        }
        let mut path: Vec<u16> = Vec::new();
        path.extend_from_slice(prefix.as_slice());
        path.extend_from_slice(target);
        let size: u16 = target_len_in_bytes + (MOUNT_POINT_REPARSE_BUFFER_HEADER_SIZE + 2
            * WCHAR_SIZE);
        let data = REPARSE_DATA_BUFFER {
            // The type of reparse point
            ReparseTag: io_reparse_tag_mount_point(),
            ReparseDataLength: size,
            Reserved: 0,
            ReparseBuffer: MountPointReparseBuffer {
                // The target stands at offset 0 of PathBuffer
                SubstituteNameOffset: 0,
                SubstituteNameLength: target_len_in_bytes,
                // PrintName is not used. Its offset is right after SubstituteName
                PrintNameOffset: target_len_in_bytes + WCHAR_SIZE,
                PrintNameLength: 0,
                PathBuffer: path,
            },
        };
        assert(data@ =~= mount_point(target@));
        Ok(data)
    }

    /// Number of bytes of the buffer that the data describes, both headers
    /// included.
    pub fn size(&self) -> (size: u32)
        ensures
            size == total_size(self@),
    {
        self.ReparseDataLength as u32 + REPARSE_DATA_BUFFER_HEADER_SIZE as u32
    }

    /// The path that the data leads to: the substitute name of a mount point,
    /// without the prefix of non-interpreted paths.
    ///
    /// Fails with `NotMountPoint` where the tag is not that of a mount point,
    /// and with `InvalidData` where the substitute name is not inside
    /// `PathBuffer`.
    pub fn target(&self) -> (found: Result<Vec<u16>, Error>)
        ensures
            match found {
                Ok(path) => target(self@) == Ok::<Seq<u16>, Error>(path@),
                Err(e) => target(self@) == Err::<Seq<u16>, Error>(e),
            },
    {
        if self.ReparseTag != io_reparse_tag_mount_point() {
            return Err(Error::NotMountPoint);
        }
        match self.ReparseBuffer.substitute_name() {
            // In case of "\??\C:\foo\bar"
            Some(name) => Ok(strip_non_interpreted_prefix(name)),
            None => Err(Error::InvalidData),
        }
    }
}

/// What `mount_point` makes is well formed, and leads back to the target.
pub proof fn lemma_mount_point(path: Seq<u16>)
    requires
        fits(path),
    ensures
        well_formed(mount_point(path)),
        target(mount_point(path)) == Ok::<Seq<u16>, Error>(path),
{
    let data = mount_point(path);
    let marker = non_interpreted_path_prefix();
    let buffer = data.reparse_buffer.path_buffer;
    assert(buffer.subrange(0, 4) =~= marker);
    assert(buffer.subrange(0, buffer.len() as int) =~= buffer);
    assert(buffer.skip(4) =~= path);
}

} // verus!
