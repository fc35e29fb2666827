use junction::buffer::{
    max_available_path_buffer, strip_non_interpreted_prefix, MountPointReparseBuffer,
    REPARSE_DATA_BUFFER,
};
use junction::c::{
    MOUNT_POINT_REPARSE_BUFFER_HEADER_SIZE, REPARSE_DATA_BUFFER_HEADER_SIZE,
    REPARSE_GUID_DATA_BUFFER_HEADER_SIZE,
};
use junction::cast::{decode, encode_mount_point, BytesAsReparseDataBuffer};
use junction::error::{Error, ErrorKind};

const IO_REPARSE_TAG_MOUNT_POINT: u32 = 0xA000_0003;
const IO_REPARSE_TAG_SYMLINK: u32 = 0xA000_000C;
const MAXIMUM_REPARSE_DATA_BUFFER_SIZE: usize = 16 * 1024;

fn wide(text: &str) -> Vec<u16> {
    text.encode_utf16().collect()
}

fn le_bytes(units: &[u16]) -> Vec<u8> {
    let mut bytes = Vec::new();
    for unit in units {
        bytes.push((unit & 0xFF) as u8);
        bytes.push((unit >> 8) as u8);
    }
    bytes
}

/// A buffer as another producer might have written it.
fn raw(tag: u32, offset: u16, length: u16, path: &[u16]) -> Vec<u8> {
    let mut bytes = Vec::new();
    bytes.extend_from_slice(&tag.to_le_bytes());
    bytes.extend_from_slice(&((8 + 2 * path.len()) as u16).to_le_bytes());
    bytes.extend_from_slice(&0u16.to_le_bytes());
    bytes.extend_from_slice(&offset.to_le_bytes());
    bytes.extend_from_slice(&length.to_le_bytes());
    bytes.extend_from_slice(&0u16.to_le_bytes());
    bytes.extend_from_slice(&0u16.to_le_bytes());
    bytes.extend_from_slice(&le_bytes(path));
    bytes
}

#[test]
fn header_sizes() {
    assert_eq!(REPARSE_DATA_BUFFER_HEADER_SIZE, 8);
    assert_eq!(MOUNT_POINT_REPARSE_BUFFER_HEADER_SIZE, 8);
    assert_eq!(REPARSE_GUID_DATA_BUFFER_HEADER_SIZE, 24);
    assert_eq!(max_available_path_buffer(), 16364);
}

#[test]
fn mount_point_fields() {
    let target = wide(r"C:\real\dir");
    let data = REPARSE_DATA_BUFFER::mount_point(&target).unwrap();
    assert_eq!(data.ReparseTag, IO_REPARSE_TAG_MOUNT_POINT);
    assert_eq!(data.Reserved, 0);
    assert_eq!(data.ReparseBuffer.SubstituteNameOffset, 0);
    assert_eq!(data.ReparseBuffer.SubstituteNameLength, 30);
    assert_eq!(data.ReparseBuffer.PrintNameOffset, 32);
    assert_eq!(data.ReparseBuffer.PrintNameLength, 0);
    assert_eq!(data.ReparseDataLength, 42);
    assert_eq!(data.size(), 50);
    assert_eq!(data.ReparseBuffer.PathBuffer, wide(r"\??\C:\real\dir"));
}

#[test]
fn data_length_counts_both_names_and_both_terminators() {
    for len in [0usize, 1, 2, 100, 8178] {
        let target = vec![0x61u16; len];
        let data = REPARSE_DATA_BUFFER::mount_point(&target).unwrap();
        let name = data.ReparseBuffer.SubstituteNameLength;
        assert_eq!(usize::from(name), 2 * (4 + len));
        assert_eq!(data.ReparseDataLength, 4 * 2 + name + 2 * 2);
        assert_eq!(data.ReparseBuffer.PrintNameOffset, name + 2);
        assert_eq!(data.size(), u32::from(name) + 20);
    }
}

#[test]
fn encoded_bytes_of_a_short_target() {
    let bytes = encode_mount_point(&wide(r"C:\real\dir")).unwrap();
    let mut expected: Vec<u8> = vec![
        0x03, 0x00, 0x00, 0xA0, // tag
        0x2A, 0x00, // data length
        0x00, 0x00, // reserved
        0x00, 0x00, // substitute name offset
        0x1E, 0x00, // substitute name length
        0x20, 0x00, // print name offset
        0x00, 0x00, // print name length
    ];
    expected.extend_from_slice(&le_bytes(&wide(r"\??\C:\real\dir")));
    expected.extend_from_slice(&[0, 0, 0, 0]);
    assert_eq!(bytes.len(), 50);
    assert_eq!(bytes, expected);
}

#[test]
fn encoded_bytes_of_the_empty_target() {
    let bytes = encode_mount_point(&[]).unwrap();
    assert_eq!(
        bytes,
        vec![
            0x03, 0x00, 0x00, 0xA0, 0x14, 0x00, 0x00, 0x00, 0x00, 0x00, 0x08, 0x00, 0x0A, 0x00,
            0x00, 0x00, 0x5C, 0x00, 0x3F, 0x00, 0x3F, 0x00, 0x5C, 0x00, 0x00, 0x00, 0x00, 0x00
        ]
    );
}

#[test]
fn code_units_are_written_low_byte_first() {
    let bytes = encode_mount_point(&[0x1234, 0xFFFE, 0x00FF, 0xFF00]).unwrap();
    assert_eq!(&bytes[24..32], &[0x34, 0x12, 0xFE, 0xFF, 0xFF, 0x00, 0x00, 0xFF]);
    assert_eq!(decode(&bytes), Ok(vec![0x1234, 0xFFFE, 0x00FF, 0xFF00]));
}

#[test]
fn decode_after_encode() {
    for text in [r"C:\real\dir", r"C:\", "", r"\??\C:\twice", r"\\?\Volume{0}\", "D:\\\u{1F600}\\x"] {
        let target = wide(text);
        let bytes = encode_mount_point(&target).unwrap();
        assert_eq!(decode(&bytes), Ok(target), "{text}");
    }
}

#[test]
fn longest_target() {
    // The largest buffer leaves 16364 bytes, 8182 code units, of which the prefix takes 4.
    let longest = vec![0x61u16; 8178];
    let bytes = encode_mount_point(&longest).unwrap();
    assert_eq!(bytes.len(), MAXIMUM_REPARSE_DATA_BUFFER_SIZE);
    assert_eq!(decode(&bytes), Ok(longest));

    let too_long = vec![0x61u16; 8179];
    assert_eq!(encode_mount_point(&too_long), Err(Error::TargetTooLong));
    assert_eq!(REPARSE_DATA_BUFFER::mount_point(&too_long), Err(Error::TargetTooLong));
}

#[test]
fn lengths_beyond_sixteen_bits_are_refused() {
    for len in [32763usize, 32764, 65531, 65532, 65536, 70000, 200_000] {
        let target = vec![0x61u16; len];
        assert_eq!(encode_mount_point(&target), Err(Error::TargetTooLong), "{len}");
    }
}

#[test]
fn decode_strips_the_prefix_once() {
    let name = wide(r"\??\C:\foo\bar");
    let bytes = raw(IO_REPARSE_TAG_MOUNT_POINT, 0, 2 * name.len() as u16, &name);
    assert_eq!(decode(&bytes), Ok(wide(r"C:\foo\bar")));

    let twice = wide(r"\??\\??\C:\foo");
    let bytes = raw(IO_REPARSE_TAG_MOUNT_POINT, 0, 2 * twice.len() as u16, &twice);
    assert_eq!(decode(&bytes), Ok(wide(r"\??\C:\foo")));
}

#[test]
fn decode_tolerates_a_name_without_prefix() {
    let name = wide(r"C:\foo\bar");
    let bytes = raw(IO_REPARSE_TAG_MOUNT_POINT, 0, 2 * name.len() as u16, &name);
    assert_eq!(decode(&bytes), Ok(name));

    let short = wide(r"\??");
    let bytes = raw(IO_REPARSE_TAG_MOUNT_POINT, 0, 2 * short.len() as u16, &short);
    assert_eq!(decode(&bytes), Ok(short));
}

#[test]
fn decode_reads_the_substitute_name_at_its_offset() {
    // The print name first, then the substitute name.
    let mut path = wide("C:\\shown");
    path.push(0);
    let offset = 2 * path.len() as u16;
    let name = wide(r"\??\C:\real");
    path.extend_from_slice(&name);
    path.push(0);
    let bytes = raw(IO_REPARSE_TAG_MOUNT_POINT, offset, 2 * name.len() as u16, &path);
    assert_eq!(decode(&bytes), Ok(wide(r"C:\real")));
}

#[test]
fn offsets_and_lengths_count_bytes() {
    let path = wide("abcdefgh");
    // 4 bytes in, 6 bytes long: the third to the fifth code unit.
    let bytes = raw(IO_REPARSE_TAG_MOUNT_POINT, 4, 6, &path);
    assert_eq!(decode(&bytes), Ok(wide("cde")));
    // An odd count is halved and rounded down.
    let bytes = raw(IO_REPARSE_TAG_MOUNT_POINT, 5, 7, &path);
    assert_eq!(decode(&bytes), Ok(wide("cde")));
}

#[test]
fn decode_refuses_other_tags() {
    let name = wide(r"\??\C:\foo\bar");
    let bytes = raw(IO_REPARSE_TAG_SYMLINK, 0, 2 * name.len() as u16, &name);
    assert_eq!(decode(&bytes), Err(Error::NotMountPoint));
    assert_eq!(decode(&[]), Err(Error::NotMountPoint));
    assert_eq!(decode(&[0x03, 0x00, 0x00]), Err(Error::NotMountPoint));
    assert_eq!(decode(&vec![0u8; MAXIMUM_REPARSE_DATA_BUFFER_SIZE]), Err(Error::NotMountPoint));
}

#[test]
fn decode_refuses_a_name_outside_of_the_buffer() {
    // 8184 code units follow the two headers in the largest buffer.
    let bytes = raw(IO_REPARSE_TAG_MOUNT_POINT, 0, 2 * 8184, &[]);
    assert_eq!(decode(&bytes), Ok(vec![0u16; 8184]));
    let bytes = raw(IO_REPARSE_TAG_MOUNT_POINT, 0, 2 * 8185, &[]);
    assert_eq!(decode(&bytes), Err(Error::InvalidData));
    let bytes = raw(IO_REPARSE_TAG_MOUNT_POINT, 2 * 8184, 2, &[]);
    assert_eq!(decode(&bytes), Err(Error::InvalidData));
    let bytes = raw(IO_REPARSE_TAG_MOUNT_POINT, 2 * 8184, 0, &[]);
    assert_eq!(decode(&bytes), Ok(vec![]));
    let bytes = raw(IO_REPARSE_TAG_MOUNT_POINT, 0xFFFF, 0xFFFF, &[]);
    assert_eq!(decode(&bytes), Err(Error::InvalidData));
}

#[test]
fn decode_ignores_what_lies_beyond_the_largest_buffer() {
    let name = wide(r"\??\C:\foo");
    let mut bytes = raw(IO_REPARSE_TAG_MOUNT_POINT, 0, 2 * name.len() as u16, &name);
    bytes.resize(MAXIMUM_REPARSE_DATA_BUFFER_SIZE + 100, 0xEE);
    assert_eq!(decode(&bytes), Ok(wide(r"C:\foo")));
}

#[test]
fn new_buffer_is_zero() {
    let buffer = BytesAsReparseDataBuffer::new();
    assert_eq!(buffer.take(16384), vec![0u8; 16384]);
    assert_eq!(buffer.take(0), Vec::<u8>::new());
    let data = buffer.assume_init();
    assert_eq!(data.ReparseTag, 0);
    assert_eq!(data.ReparseDataLength, 0);
    assert_eq!(data.ReparseBuffer.PathBuffer, vec![0u16; 8184]);
}

#[test]
fn buffer_from_bytes_is_padded_with_zeros() {
    let buffer = BytesAsReparseDataBuffer::from_bytes(&[1, 2, 3]);
    assert_eq!(buffer.take(5), vec![1, 2, 3, 0, 0]);
    let long = vec![7u8; 20000];
    let buffer = BytesAsReparseDataBuffer::from_bytes(&long);
    assert_eq!(buffer.take(16384), vec![7u8; 16384]);
}

#[test]
fn assume_init_reads_every_field() {
    let bytes: Vec<u8> = (1..=20).collect();
    let data = BytesAsReparseDataBuffer::from_bytes(&bytes).assume_init();
    assert_eq!(data.ReparseTag, 0x0403_0201);
    assert_eq!(data.ReparseDataLength, 0x0605);
    assert_eq!(data.Reserved, 0x0807);
    assert_eq!(data.ReparseBuffer.SubstituteNameOffset, 0x0A09);
    assert_eq!(data.ReparseBuffer.SubstituteNameLength, 0x0C0B);
    assert_eq!(data.ReparseBuffer.PrintNameOffset, 0x0E0D);
    assert_eq!(data.ReparseBuffer.PrintNameLength, 0x100F);
    assert_eq!(data.ReparseBuffer.PathBuffer.len(), 8184);
    assert_eq!(&data.ReparseBuffer.PathBuffer[..3], &[0x1211, 0x1413, 0]);
}

#[test]
fn write_keeps_what_lies_behind_the_data() {
    let data = REPARSE_DATA_BUFFER {
        ReparseTag: 0x1122_3344,
        ReparseDataLength: 0x5566,
        Reserved: 0x7788,
        ReparseBuffer: MountPointReparseBuffer {
            SubstituteNameOffset: 0x99AA,
            SubstituteNameLength: 0xBBCC,
            PrintNameOffset: 0xDDEE,
            PrintNameLength: 0xFF01,
            PathBuffer: vec![0x0203, 0x0405],
        },
    };
    let before = vec![0xEEu8; 24];
    let buffer = BytesAsReparseDataBuffer::from_bytes(&before).write(&data).ok().unwrap();
    assert_eq!(
        buffer.take(26),
        vec![
            0x44, 0x33, 0x22, 0x11, 0x66, 0x55, 0x88, 0x77, 0xAA, 0x99, 0xCC, 0xBB, 0xEE, 0xDD,
            0x01, 0xFF, 0x03, 0x02, 0x05, 0x04, 0xEE, 0xEE, 0xEE, 0xEE, 0x00, 0x00
        ]
    );
    let read = buffer.assume_init();
    assert_eq!(read.ReparseTag, data.ReparseTag);
    assert_eq!(read.ReparseDataLength, data.ReparseDataLength);
    assert_eq!(read.Reserved, data.Reserved);
    assert_eq!(read.ReparseBuffer.SubstituteNameOffset, 0x99AA);
    assert_eq!(read.ReparseBuffer.SubstituteNameLength, 0xBBCC);
    assert_eq!(read.ReparseBuffer.PrintNameOffset, 0xDDEE);
    assert_eq!(read.ReparseBuffer.PrintNameLength, 0xFF01);
    assert_eq!(&read.ReparseBuffer.PathBuffer[..2], &[0x0203, 0x0405]);
}

#[test]
fn write_refuses_more_code_units_than_the_buffer_holds() {
    let mut data = REPARSE_DATA_BUFFER {
        ReparseTag: IO_REPARSE_TAG_MOUNT_POINT,
        ReparseDataLength: 0,
        Reserved: 0,
        ReparseBuffer: MountPointReparseBuffer {
            SubstituteNameOffset: 0,
            SubstituteNameLength: 0,
            PrintNameOffset: 0,
            PrintNameLength: 0,
            PathBuffer: vec![0x61; 8184],
        },
    };
    let buffer = BytesAsReparseDataBuffer::new().write(&data).ok().unwrap();
    assert_eq!(&buffer.take(16384)[16382..], &[0x61, 0x00]);
    data.ReparseBuffer.PathBuffer.push(0x61);
    assert_eq!(BytesAsReparseDataBuffer::new().write(&data).err(), Some(Error::TargetTooLong));
}

#[test]
fn take_stops_at_the_end_of_the_buffer() {
    let buffer = BytesAsReparseDataBuffer::from_bytes(&[9u8; 16384]);
    assert_eq!(buffer.take(16383).len(), 16383);
    assert_eq!(buffer.take(16384).len(), 16384);
    assert_eq!(buffer.take(16385).len(), 16384);
    assert_eq!(buffer.take(u32::MAX), vec![9u8; 16384]);
}

#[test]
fn target_of_written_data() {
    let target = wide(r"D:\some\where");
    let data = REPARSE_DATA_BUFFER::mount_point(&target).unwrap();
    assert_eq!(data.target(), Ok(target.clone()));
    let read = BytesAsReparseDataBuffer::new().write(&data).ok().unwrap().assume_init();
    assert_eq!(read.target(), Ok(target));
    assert_eq!(
        read.ReparseBuffer.substitute_name(),
        Some(wide(r"\??\D:\some\where"))
    );
}

#[test]
fn strip_prefix_cases() {
    assert_eq!(strip_non_interpreted_prefix(wide(r"\??\C:\x")), wide(r"C:\x"));
    assert_eq!(strip_non_interpreted_prefix(wide(r"\??\")), wide(""));
    assert_eq!(strip_non_interpreted_prefix(wide(r"\??")), wide(r"\??"));
    assert_eq!(strip_non_interpreted_prefix(wide(r"\?\?C:\x")), wide(r"\?\?C:\x"));
    assert_eq!(strip_non_interpreted_prefix(wide(r"\\?\C:\x")), wide(r"\\?\C:\x"));
    assert_eq!(strip_non_interpreted_prefix(wide(r"C:\??\x")), wide(r"C:\??\x"));
    assert_eq!(strip_non_interpreted_prefix(vec![]), Vec::<u16>::new());
}

#[test]
fn error_messages() {
    assert_eq!(Error::TargetTooLong.message(), "`target` is too long");
    assert_eq!(Error::NotFound.message(), "`junction` does not exist");
    assert_eq!(Error::NotMountPoint.message(), "not a reparse tag mount point");
    assert_eq!(Error::Os(5).raw_os_error(), Some(5));
    assert_eq!(Error::NotFound.raw_os_error(), None);
    assert_eq!(Error::TargetTooLong.raw_os_error(), None);
    assert_eq!(Error::NotMountPoint.raw_os_error(), None);
    assert_eq!(Error::InvalidData.raw_os_error(), None);
    assert_ne!(Error::InvalidData.message(), Error::NotMountPoint.message());
    assert_eq!(Error::TargetTooLong.kind(), ErrorKind::InvalidInput);
    assert_eq!(Error::NotFound.kind(), ErrorKind::NotFound);
    assert_eq!(Error::NotMountPoint.kind(), ErrorKind::Other);
    assert_eq!(Error::InvalidData.kind(), ErrorKind::InvalidData);
    assert_eq!(Error::Os(2).kind(), ErrorKind::Os);
    assert_ne!(Error::Os(1).message(), "");
}
