//! UTF-16 code units: widening of ASCII text, and the prefix that marks a
//! path as non-interpreted.

use vstd::prelude::*;

verus! {

/// Size of one UTF-16 code unit in bytes.
pub const WCHAR_SIZE: u16 = 2;

/// Each byte of `bytes` as a UTF-16 code unit of the same value.
pub open spec fn widen(bytes: Seq<u8>) -> Seq<u16> {
    Seq::new(bytes.len(), |i: int| bytes[i] as u16)
}

/// The code units of `\??\`. NTFS treats a path that starts with them as a
/// path in the virtual file system that is not interpreted further.
pub open spec fn non_interpreted_path_prefix() -> Seq<u16> {
    seq![0x5Cu16, 0x3Fu16, 0x3Fu16, 0x5Cu16]
}

/// Convert ASCII bytes to UTF-16 sequences.
pub fn ascii_to_utf16<const N: usize>(src: [u8; N]) -> (dst: [u16; N])
    ensures
        dst@ == widen(src@),
{
    let mut dst: [u16; N] = [0u16; N];
    let mut i: usize = 0;
    while i < N
        invariant
            i <= N,
            forall|j: int| 0 <= j < i ==> dst@[j] == src@[j] as u16,
        decreases N - i,
    {
        dst[i] = src[i] as u16;
        i += 1;
    }
    assert(dst@ =~= widen(src@));
    dst
}

/// The code units of `\??\`, the prefix of non-interpreted paths.
pub fn prefix_code_units() -> (prefix: [u16; 4])
    ensures
        prefix@ == non_interpreted_path_prefix(),
{
    let prefix = ascii_to_utf16([0x5Cu8, 0x3Fu8, 0x3Fu8, 0x5Cu8]);
    assert(prefix@ =~= non_interpreted_path_prefix());
    prefix
}

} // verus!
