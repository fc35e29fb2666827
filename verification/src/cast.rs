//! The reparse data buffer as bytes: the layout that the file system reads
//! and writes, with every integer in little-endian order.

use crate::buffer::{
    fits, mount_point, strip_prefix, substitute_name, target, total_size, MountPoint,
    MountPointReparseBuffer, ReparseData, HEADERS_SIZE, PATH_BUFFER_CAPACITY, REPARSE_DATA_BUFFER,
};
use crate::c::{maximum_reparse_data_buffer_size, MAXIMUM_REPARSE_DATA_BUFFER_SIZE};
use crate::error::Error;
use crate::utf16::{non_interpreted_path_prefix, WCHAR_SIZE};
use vstd::prelude::*;

verus! {

/// The low byte of `value`.
pub open spec fn low_byte(value: u16) -> u8 {
    (value % 256) as u8
}

/// The high byte of `value`.
pub open spec fn high_byte(value: u16) -> u8 {
    (value / 256) as u8
}

/// The 16-bit integer that `bytes` holds at `at`.
pub open spec fn read_u16(bytes: Seq<u8>, at: int) -> u16 {
    (bytes[at] + 256 * bytes[at + 1]) as u16
}

/// The 32-bit integer that `bytes` holds at `at`.
pub open spec fn read_u32(bytes: Seq<u8>, at: int) -> u32 {
    (read_u16(bytes, at) + 65536 * read_u16(bytes, at + 2)) as u32
}

/// The two bytes of `value`.
pub open spec fn u16_bytes(value: u16) -> Seq<u8> {
    seq![low_byte(value), high_byte(value)]
}

/// The four bytes of `value`.
pub open spec fn u32_bytes(value: u32) -> Seq<u8> {
    u16_bytes((value % 65536) as u16) + u16_bytes((value / 65536) as u16)
}

/// The bytes of the two headers of `data`.
pub open spec fn header_bytes(data: ReparseData) -> Seq<u8> {
    u32_bytes(data.reparse_tag) + u16_bytes(data.reparse_data_length) + u16_bytes(data.reserved)
        + u16_bytes(data.reparse_buffer.substitute_name_offset) + u16_bytes(
        data.reparse_buffer.substitute_name_length,
    ) + u16_bytes(data.reparse_buffer.print_name_offset) + u16_bytes(
        data.reparse_buffer.print_name_length,
    )
}

/// The bytes of `units`, two for each.
pub open spec fn wide_bytes(units: Seq<u16>) -> Seq<u8> {
    Seq::new(
        2 * units.len(),
        |i: int|
            if i % 2 == 0 {
                low_byte(units[i / 2])
            } else {
                high_byte(units[i / 2])
            },
    )
}

/// The bytes of `data`: the two headers, then the path buffer.
pub open spec fn to_bytes(data: ReparseData) -> Seq<u8> {
    header_bytes(data) + wide_bytes(data.reparse_buffer.path_buffer)
}

/// `bytes` with `written` over its beginning.
pub open spec fn overwritten(bytes: Seq<u8>, written: Seq<u8>) -> Seq<u8> {
    Seq::new(
        bytes.len(),
        |i: int|
            if i < written.len() {
                written[i]
            } else {
                bytes[i]
            },
    )
}

/// A buffer of the largest size that starts with `bytes`, as far as they fit,
/// and holds zeros behind them.
pub open spec fn padded(bytes: Seq<u8>) -> Seq<u8> {
    Seq::new(
        MAXIMUM_REPARSE_DATA_BUFFER_SIZE() as nat,
        |i: int|
            if i < bytes.len() {
                bytes[i]
            } else {
                0u8
            },
    )
}

/// `size` bytes that are zero.
pub open spec fn zeros(size: int) -> Seq<u8> {
    Seq::new(size as nat, |i: int| 0u8)
}

/// Reparse data as read from `bytes`: the header fields, and as the path
/// buffer every code unit that `bytes` holds after the two headers.
pub open spec fn parsed(bytes: Seq<u8>) -> ReparseData {
    ReparseData {
        reparse_tag: read_u32(bytes, 0),
        reparse_data_length: read_u16(bytes, 4),
        reserved: read_u16(bytes, 6),
        reparse_buffer: MountPoint {
            substitute_name_offset: read_u16(bytes, 8),
            substitute_name_length: read_u16(bytes, 10),
            print_name_offset: read_u16(bytes, 12),
            print_name_length: read_u16(bytes, 14),
            path_buffer: Seq::new(
                ((bytes.len() - HEADERS_SIZE()) / 2) as nat,
                |i: int| read_u16(bytes, HEADERS_SIZE() + 2 * i),
            ),
        },
    }
}

/// Reads the 16-bit integer at `at`.
fn get_u16(bytes: &Vec<u8>, at: usize) -> (value: u16)
    requires
        at + 1 < bytes.len(),
    ensures
        value == read_u16(bytes@, at as int),
{
    bytes[at] as u16 + 256 * (bytes[at + 1] as u16)
}

/// Writes `value` at `at`.
fn put_u16(bytes: &mut Vec<u8>, at: usize, value: u16)
    requires
        at + 1 < old(bytes).len(),
    ensures
        final(bytes)@ == old(bytes)@.update(at as int, low_byte(value)).update(
            at + 1,
            high_byte(value),
        ),
{
    bytes.set(at, (value % 256) as u8);
    bytes.set(at + 1, (value / 256) as u8);
}

/// A buffer of the largest size that reparse data can have, to encode reparse
/// data in and to decode it from.
pub struct BytesAsReparseDataBuffer {
    value: Vec<u8>,
}

impl View for BytesAsReparseDataBuffer {
    type V = Seq<u8>;

    closed spec fn view(&self) -> Seq<u8> {
        self.value@
    }
}

impl BytesAsReparseDataBuffer {
    /// The buffer has the largest size that reparse data can have.
    #[verifier::type_invariant]
    pub open spec fn full_size(&self) -> bool {
        self@.len() == MAXIMUM_REPARSE_DATA_BUFFER_SIZE()
    }

    /// A buffer of zeros.
    pub fn new() -> (buffer: Self)
        ensures
            buffer@ == zeros(MAXIMUM_REPARSE_DATA_BUFFER_SIZE() as int),
    {
        let value: Vec<u8> = vec![0u8; maximum_reparse_data_buffer_size() as usize];
        assert(value@ =~= zeros(MAXIMUM_REPARSE_DATA_BUFFER_SIZE() as int));
        BytesAsReparseDataBuffer { value }
    }

    /// A buffer that starts with `bytes`, as far as they fit, and holds zeros
    /// behind them.
    pub fn from_bytes(bytes: &[u8]) -> (buffer: Self)
        ensures
            buffer@ == padded(bytes@),
    {
        let mut value: Vec<u8> = vec![0u8; maximum_reparse_data_buffer_size() as usize];
        let count: usize = if bytes.len() < value.len() {
            bytes.len()
        } else {
            value.len()
        };
        let mut i: usize = 0;
        while i < count
            invariant
                i <= count,
                count <= bytes.len(),
                count <= value.len(),
                value.len() == MAXIMUM_REPARSE_DATA_BUFFER_SIZE(),
                forall|j: int| 0 <= j < i ==> value@[j] == bytes@[j],
                forall|j: int| i <= j < value.len() ==> value@[j] == 0u8,
            decreases count - i,
        {
            value.set(i, bytes[i]);
            i += 1;
        }
        assert(value@ =~= padded(bytes@));
        BytesAsReparseDataBuffer { value }
    }

    /// The buffer with `data` written to its beginning: the two headers, then
    /// the path buffer. What lies behind them stays as it is.
    ///
    /// Fails with `TargetTooLong`, and only then, where the path buffer of
    /// `data` holds more code units than the buffer has room for.
    pub fn write(self, data: &REPARSE_DATA_BUFFER) -> (written: Result<Self, Error>)
        ensures
            match written {
                Ok(buffer) => data@.reparse_buffer.path_buffer.len() <= PATH_BUFFER_CAPACITY()
                    && buffer@ == overwritten(self@, to_bytes(data@)),
                Err(e) => data@.reparse_buffer.path_buffer.len() > PATH_BUFFER_CAPACITY() && e
                    == Error::TargetTooLong,
            },
    {
        proof {
            use_type_invariant(&self);
        }
        let ghost before = self.value@;
        let ghost header = header_bytes(data@);
        let ghost units = data.ReparseBuffer.PathBuffer@;
        let count: usize = data.ReparseBuffer.PathBuffer.len();
        let mut value: Vec<u8> = self.value;
        if count > (value.len() - 16) / 2 {
            return Err(Error::TargetTooLong);
        }
        put_u16(&mut value, 0, (data.ReparseTag % 65536) as u16);
        put_u16(&mut value, 2, (data.ReparseTag / 65536) as u16);
        put_u16(&mut value, 4, data.ReparseDataLength);
        put_u16(&mut value, 6, data.Reserved);
        put_u16(&mut value, 8, data.ReparseBuffer.SubstituteNameOffset);
        put_u16(&mut value, 10, data.ReparseBuffer.SubstituteNameLength);
        put_u16(&mut value, 12, data.ReparseBuffer.PrintNameOffset);
        put_u16(&mut value, 14, data.ReparseBuffer.PrintNameLength);
        assert(header.len() == 16);
        assert(forall|j: int| 0 <= j < 16 ==> value@[j] == header[j]);
        let mut i: usize = 0;
        while i < count
            invariant
                i <= count,
                count == units.len(),
                units == data.ReparseBuffer.PathBuffer@,
                count <= PATH_BUFFER_CAPACITY(),
                header.len() == 16,
                value@.len() == MAXIMUM_REPARSE_DATA_BUFFER_SIZE(),
                before.len() == MAXIMUM_REPARSE_DATA_BUFFER_SIZE(),
                forall|j: int| 0 <= j < 16 ==> value@[j] == header[j],
                forall|j: int| 16 <= j < 16 + 2 * i ==> value@[j] == wide_bytes(units)[j - 16],
                forall|j: int| 16 + 2 * i <= j < before.len() ==> value@[j] == before[j],
            decreases count - i,
        {
            put_u16(&mut value, 16 + 2 * i, data.ReparseBuffer.PathBuffer[i]);
            i += 1;
        }
        assert(value@ =~= overwritten(before, to_bytes(data@)));
        Ok(BytesAsReparseDataBuffer { value })
    }

    /// The first `size` bytes of the buffer, or all of it where it holds
    /// less.
    pub fn take(&self, size: u32) -> (bytes: Vec<u8>)
        ensures
            bytes@ == self@.take(
                if size <= MAXIMUM_REPARSE_DATA_BUFFER_SIZE() {
                    size as int
                } else {
                    MAXIMUM_REPARSE_DATA_BUFFER_SIZE() as int
                },
            ),
    {
        proof {
            use_type_invariant(self);
        }
        let count: usize = if (size as usize) < self.value.len() {
            size as usize
        } else {
            self.value.len()
        };
        let mut bytes: Vec<u8> = Vec::new();
        let mut i: usize = 0;
        while i < count
            invariant
                i <= count,
                count <= self.value.len(),
                bytes@ == self.value@.take(i as int),
            decreases count - i,
        {
            bytes.push(self.value[i]);
            i += 1;
            assert(bytes@ =~= self.value@.take(i as int));
        }
        bytes
    }

    /// The reparse data that the buffer holds: the header fields, and as the
    /// path buffer every code unit behind the two headers.
    pub fn assume_init(&self) -> (data: REPARSE_DATA_BUFFER)
        ensures
            data@ == parsed(self@),
    {
        proof {
            use_type_invariant(self);
        }
        let tag_low: u16 = get_u16(&self.value, 0);
        let tag_high: u16 = get_u16(&self.value, 2);
        let count: usize = (self.value.len() - 16) / 2;
        let mut path: Vec<u16> = Vec::new();
        let mut i: usize = 0;
        while i < count
            invariant
                i <= count,
                count == (self.value.len() - 16) / 2,
                self.value.len() == MAXIMUM_REPARSE_DATA_BUFFER_SIZE(),
                path.len() == i,
                forall|j: int| 0 <= j < i ==> path@[j] == read_u16(self.value@, 16 + 2 * j),
            decreases count - i,
        {
            path.push(get_u16(&self.value, 16 + 2 * i));
            i += 1;
        }
        let data = REPARSE_DATA_BUFFER {
            ReparseTag: tag_low as u32 + 65536 * (tag_high as u32),
            ReparseDataLength: get_u16(&self.value, 4),
            Reserved: get_u16(&self.value, 6),
            ReparseBuffer: MountPointReparseBuffer {
                SubstituteNameOffset: get_u16(&self.value, 8),
                SubstituteNameLength: get_u16(&self.value, 10),
                PrintNameOffset: get_u16(&self.value, 12),
                PrintNameLength: get_u16(&self.value, 14),
                PathBuffer: path,
            },
        };
        assert(data@ =~= parsed(self@));
        data
    }
}

/// The reparse data of a junction that points to `target`, as the bytes to
/// hand to the file system: the two headers, the substitute name, and two
/// terminators, which are zero.
pub open spec fn encoded_mount_point(target: Seq<u16>) -> Seq<u8> {
    to_bytes(mount_point(target)) + zeros(2 * WCHAR_SIZE)
}

/// The path that the reparse data in `bytes` leads to, where `bytes` is the
/// beginning of a buffer that holds zeros behind them.
pub open spec fn decoded(bytes: Seq<u8>) -> Result<Seq<u16>, Error> {
    target(parsed(padded(bytes)))
}

/// Encodes the reparse data of a junction that points to `target`, an
/// absolute path without a terminator.
///
/// Fails with `TargetTooLong`, and only then, where the substitute name of
/// `target` does not fit in the largest buffer.
pub fn encode_mount_point(target: &[u16]) -> (encoded: Result<Vec<u8>, Error>)
    ensures
        match encoded {
            Ok(bytes) => fits(target@) && bytes@ == encoded_mount_point(target@),
            Err(e) => !fits(target@) && e == Error::TargetTooLong,
        },
{
    let data = REPARSE_DATA_BUFFER::mount_point(target)?;
    let size: u32 = data.size();
    let buffer = BytesAsReparseDataBuffer::new().write(&data)?;
    let bytes = buffer.take(size);
    assert(bytes@ =~= encoded_mount_point(target@));
    Ok(bytes)
}

/// Decodes the path that the reparse data in `bytes` leads to.
///
/// Fails with `NotMountPoint` where the tag is not that of a mount point, and
/// with `InvalidData` where the substitute name is not inside the buffer.
pub fn decode(bytes: &[u8]) -> (found: Result<Vec<u16>, Error>)
    ensures
        match found {
            Ok(path) => decoded(bytes@) == Ok::<Seq<u16>, Error>(path@),
            Err(e) => decoded(bytes@) == Err::<Seq<u16>, Error>(e),
        },
{
    BytesAsReparseDataBuffer::from_bytes(bytes).assume_init().target()
}

/// A 16-bit integer is read as it was written.
proof fn lemma_read_u16(bytes: Seq<u8>, at: int, value: u16)
    requires
        0 <= at,
        at + 1 < bytes.len(),
        bytes[at] == low_byte(value),
        bytes[at + 1] == high_byte(value),
    ensures
        read_u16(bytes, at) == value,
{
}

/// A 32-bit integer is read as it was written.
proof fn lemma_read_u32(bytes: Seq<u8>, at: int, value: u32)
    requires
        0 <= at,
        at + 3 < bytes.len(),
        bytes.subrange(at, at + 4) == u32_bytes(value),
    ensures
        read_u32(bytes, at) == value,
{
    let written = bytes.subrange(at, at + 4);
    assert(written[0] == bytes[at]);
    assert(written[1] == bytes[at + 1]);
    assert(written[2] == bytes[at + 2]);
    assert(written[3] == bytes[at + 3]);
    lemma_read_u16(bytes, at, (value % 65536) as u16);
    lemma_read_u16(bytes, at + 2, (value / 65536) as u16);
}

/// Reparse data is read as it was written: from a buffer that starts with
/// the bytes of `data`, the header fields come back as they are, and the path
/// buffer comes back with what follows it in the buffer behind it.
pub proof fn lemma_parsed_to_bytes(data: ReparseData, rest: Seq<u8>)
    requires
        data.reparse_buffer.path_buffer.len() <= PATH_BUFFER_CAPACITY(),
    ensures
        parsed(padded(to_bytes(data) + rest)).reparse_tag == data.reparse_tag,
        parsed(padded(to_bytes(data) + rest)).reparse_data_length == data.reparse_data_length,
        parsed(padded(to_bytes(data) + rest)).reserved == data.reserved,
        parsed(padded(to_bytes(data) + rest)).reparse_buffer.substitute_name_offset
            == data.reparse_buffer.substitute_name_offset,
        parsed(padded(to_bytes(data) + rest)).reparse_buffer.substitute_name_length
            == data.reparse_buffer.substitute_name_length,
        parsed(padded(to_bytes(data) + rest)).reparse_buffer.print_name_offset
            == data.reparse_buffer.print_name_offset,
        parsed(padded(to_bytes(data) + rest)).reparse_buffer.print_name_length
            == data.reparse_buffer.print_name_length,
        parsed(padded(to_bytes(data) + rest)).reparse_buffer.path_buffer.len()
            == PATH_BUFFER_CAPACITY(),
        parsed(padded(to_bytes(data) + rest)).reparse_buffer.path_buffer.take(
            data.reparse_buffer.path_buffer.len() as int,
        ) == data.reparse_buffer.path_buffer,
{
    let units = data.reparse_buffer.path_buffer;
    let header = header_bytes(data);
    let bytes = padded(to_bytes(data) + rest);
    let read = parsed(bytes);
    assert(header.len() == 16);
    assert(forall|j: int| 0 <= j < 16 ==> bytes[j] == header[j]);
    assert(bytes.subrange(0, 4) =~= u32_bytes(data.reparse_tag));
    lemma_read_u32(bytes, 0, data.reparse_tag);
    lemma_read_u16(bytes, 4, data.reparse_data_length);
    lemma_read_u16(bytes, 6, data.reserved);
    lemma_read_u16(bytes, 8, data.reparse_buffer.substitute_name_offset);
    lemma_read_u16(bytes, 10, data.reparse_buffer.substitute_name_length);
    lemma_read_u16(bytes, 12, data.reparse_buffer.print_name_offset);
    lemma_read_u16(bytes, 14, data.reparse_buffer.print_name_length);
    assert forall|i: int| 0 <= i < units.len() implies #[trigger] read.reparse_buffer.path_buffer[i]
        == units[i] by {
        assert(bytes[16 + 2 * i] == wide_bytes(units)[2 * i]);
        assert(bytes[16 + 2 * i + 1] == wide_bytes(units)[2 * i + 1]);
        lemma_read_u16(bytes, 16 + 2 * i, units[i]);
    }
    assert(read.reparse_buffer.path_buffer.take(units.len() as int) =~= units);
}

/// What `encode_mount_point` writes, `decode` reads back: the path that was
/// encoded, whatever it is, as long as it fits. What it writes is as long as
/// its header says, and no longer than the largest buffer.
pub proof fn lemma_decode_encode(path: Seq<u16>)
    requires
        fits(path),
    ensures
        encoded_mount_point(path).len() == total_size(mount_point(path)),
        encoded_mount_point(path).len() <= MAXIMUM_REPARSE_DATA_BUFFER_SIZE(),
        decoded(encoded_mount_point(path)) == Ok::<Seq<u16>, Error>(path),
{
    let data = mount_point(path);
    let units = data.reparse_buffer.path_buffer;
    let count = units.len() as int;
    let bytes = encoded_mount_point(path);
    let buffer = parsed(padded(bytes)).reparse_buffer;
    assert(count == 4 + path.len());
    assert(data.reparse_buffer.substitute_name_length == 2 * count);
    assert(bytes.len() == total_size(data)) by {
        assert(header_bytes(data).len() == 16);
    }
    lemma_parsed_to_bytes(data, zeros(2 * WCHAR_SIZE));
    assert(substitute_name(buffer) == Some(units)) by {
        assert(buffer.path_buffer.subrange(0, count) =~= buffer.path_buffer.take(count));
    }
    assert(strip_prefix(units) == path) by {
        assert(units.subrange(0, 4) =~= non_interpreted_path_prefix());
        assert(units.skip(4) =~= path);
    }
}

} // verus!
