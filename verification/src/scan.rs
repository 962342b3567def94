use vstd::prelude::*;

verus! {

/// A pattern element: `Some(b)` matches exactly the byte `b`, `None` matches any byte.
pub open spec fn byte_matches(b: u8, p: Option<u8>) -> bool {
    match p {
        Some(x) => b == x,
        None => true,
    }
}

/// The pattern lies in `image` starting at offset `i`, every element matching.
pub open spec fn matches_at(image: Seq<u8>, pattern: Seq<Option<u8>>, i: int) -> bool {
    &&& 0 <= i
    &&& i + pattern.len() <= image.len()
    &&& forall|j: int| #![trigger pattern[j]]
        0 <= j < pattern.len() ==> byte_matches(image[i + j], pattern[j])
}

/// The offsets that a scan visits: `0 <= i < image.len() - pattern.len()`.
pub open spec fn scanned(image: Seq<u8>, pattern: Seq<Option<u8>>, i: int) -> bool {
    0 <= i < image.len() - pattern.len()
}

/// Whether `pattern` matches `image` at offset `start`.
pub fn matches_here(image: &[u8], pattern: &[Option<u8>], start: usize) -> (r: bool)
    requires
        start + pattern@.len() <= image@.len(),
    ensures
        r == matches_at(image@, pattern@, start as int),
{
    let len = pattern.len();
    let total = image.len();
    let mut j: usize = 0;
    while j < len
        invariant
            len == pattern@.len(),
            total == image@.len(),
            start + len <= image@.len(),
            j <= len,
            forall|k: int| #![trigger pattern@[k]]
                0 <= k < j ==> byte_matches(image@[start + k], pattern@[k]),
        decreases len - j,
    {
        match pattern[j] {
            None => {},
            Some(s) => {
                if image[start + j] != s {
                    assert(!byte_matches(image@[start + j], pattern@[j as int]));
                    return false;
                }
            },
        }
        j += 1;
    }
    true
}

/// Finds the first offset at which `pattern` occurs in `image`, where `None`
/// elements of the pattern match any byte. Only the offsets below
/// `image.len() - pattern.len()` are scanned, so the last window is never
/// reported.
pub fn pattern_scan(image: &[u8], pattern: &[Option<u8>]) -> (r: Option<usize>)
    requires
        pattern@.len() <= image@.len(),
    ensures
        match r {
            Some(i) => {
                &&& scanned(image@, pattern@, i as int)
                &&& matches_at(image@, pattern@, i as int)
                &&& forall|k: int| 0 <= k < i ==> !#[trigger] matches_at(image@, pattern@, k)
            },
            None => forall|k: int|
                #[trigger] scanned(image@, pattern@, k) ==> !matches_at(image@, pattern@, k),
        },
{
    let limit = image.len() - pattern.len();
    let mut i: usize = 0;
    while i < limit
        invariant
            limit == image@.len() - pattern@.len(),
            i <= limit,
            forall|k: int| 0 <= k < i ==> !#[trigger] matches_at(image@, pattern@, k),
        decreases limit - i,
    {
        if matches_here(image, pattern, i) {
            return Some(i);
        }
        i += 1;
    }
    None
}

/// Only `None` is a wildcard: a pattern element `Some(b)` at position `j`
/// against an image byte other than `b` (whatever `b` is, 0 included) keeps the
/// pattern from matching at that offset.
pub proof fn lemma_mismatch_blocks(image: Seq<u8>, pattern: Seq<Option<u8>>, i: int, j: int, b: u8)
    requires
        0 <= j < pattern.len(),
        pattern[j] == Some(b),
        0 <= i + j < image.len(),
        image[i + j] != b,
    ensures
        !matches_at(image, pattern, i),
{
    assert(!byte_matches(image[i + j], pattern[j]));
}

/// A pattern matches at an offset exactly when it fits there and every element
/// `Some(b)` meets an equal image byte.
pub proof fn lemma_matches_at_meaning(image: Seq<u8>, pattern: Seq<Option<u8>>, i: int)
    ensures
        matches_at(image, pattern, i) <==> {
            &&& 0 <= i
            &&& i + pattern.len() <= image.len()
            &&& forall|j: int|
                0 <= j < pattern.len() && (#[trigger] pattern[j]) is Some ==> image[i + j]
                    == pattern[j]->0
        },
{
    if matches_at(image, pattern, i) {
        assert forall|j: int|
            0 <= j < pattern.len() && (#[trigger] pattern[j]) is Some implies image[i + j]
                == pattern[j]->0 by {
            assert(byte_matches(image[i + j], pattern[j]));
        }
    }
}

/// The scan visits every offset at which the pattern fits, but the last one.
pub proof fn lemma_scanned_offsets(image: Seq<u8>, pattern: Seq<Option<u8>>, i: int)
    ensures
        scanned(image, pattern, i) <==> 0 <= i && i + pattern.len() < image.len(),
        !scanned(image, pattern, image.len() - pattern.len()),
{
}

/// A pattern of wildcards only matches at the first offset, so a scan of an
/// image longer than such a pattern reports offset 0.
pub proof fn lemma_wildcards_match_first(image: Seq<u8>, pattern: Seq<Option<u8>>)
    requires
        pattern.len() < image.len(),
        forall|j: int| 0 <= j < pattern.len() ==> #[trigger] pattern[j] is None,
    ensures
        scanned(image, pattern, 0),
        matches_at(image, pattern, 0),
{
}

/// The unsigned little-endian 32-bit number in `s[off..off + 4]`.
pub open spec fn le_u32(s: Seq<u8>, off: int) -> int {
    s[off] + s[off + 1] * 0x100 + s[off + 2] * 0x1_0000 + s[off + 3] * 0x100_0000
}

/// Offset of `e_lfanew` in the DOS header.
pub const LFANEW_OFFSET: usize = 0x3C;

/// Offset of `OptionalHeader.SizeOfImage` from the start of the 32-bit NT headers.
pub const SIZE_OF_IMAGE_OFFSET: usize = 0x50;

/// The signed little-endian 32-bit number in `s[off..off + 4]`.
pub open spec fn le_i32(s: Seq<u8>, off: int) -> int {
    let raw = le_u32(s, off);
    if raw >= 0x8000_0000 {
        raw - 0x1_0000_0000
    } else {
        raw
    }
}

/// `le_u32` is the little-endian reading: a number below `2^32` written as
/// four bytes, least significant first, reads back as itself.
pub proof fn lemma_le_u32_reads_back(s: Seq<u8>, off: int, v: int)
    requires
        0 <= off,
        off + 4 <= s.len(),
        0 <= v < 0x1_0000_0000,
        s[off] == v % 0x100,
        s[off + 1] == (v / 0x100) % 0x100,
        s[off + 2] == (v / 0x100 / 0x100) % 0x100,
        s[off + 3] == v / 0x100 / 0x100 / 0x100,
    ensures
        le_u32(s, off) == v,
{
    let q1 = v / 0x100;
    let q2 = q1 / 0x100;
    let q3 = q2 / 0x100;
    assert(v == 0x100 * q1 + v % 0x100);
    assert(q1 == 0x100 * q2 + q1 % 0x100);
    assert(q2 == 0x100 * q3 + q2 % 0x100);
}

/// `le_i32` is the two's-complement little-endian reading: an `i32` written as
/// the four little-endian bytes of its 32-bit pattern reads back as itself, so
/// a non-negative one reads as its unsigned value unchanged.
pub proof fn lemma_le_i32_reads_back(s: Seq<u8>, off: int, v: i32)
    requires
        0 <= off,
        off + 4 <= s.len(),
        s[off] == two_complement_u32(v) % 0x100,
        s[off + 1] == (two_complement_u32(v) / 0x100) % 0x100,
        s[off + 2] == (two_complement_u32(v) / 0x100 / 0x100) % 0x100,
        s[off + 3] == two_complement_u32(v) / 0x100 / 0x100 / 0x100,
    ensures
        le_i32(s, off) == v,
        v >= 0 ==> le_i32(s, off) == le_u32(s, off),
{
    lemma_le_u32_reads_back(s, off, two_complement_u32(v));
}

/// The 32-bit pattern of an `i32`, as an unsigned number.
pub open spec fn two_complement_u32(v: i32) -> int {
    if v >= 0 {
        v as int
    } else {
        v + 0x1_0000_0000
    }
}

fn read_le_u32(s: &[u8], off: usize) -> (r: u32)
    requires
        off + 4 <= s@.len(),
    ensures
        r == le_u32(s@, off as int),
{
    let b0 = s[off] as u32;
    let b1 = s[off + 1] as u32;
    let b2 = s[off + 2] as u32;
    let b3 = s[off + 3] as u32;
    b0 + b1 * 0x100 + b2 * 0x1_0000 + b3 * 0x100_0000
}

/// Reads `e_lfanew` from the DOS header at the start of a loaded image: the
/// signed offset from the image's start to its NT headers.
pub fn e_lfanew(dos_header: &[u8]) -> (r: i32)
    requires
        LFANEW_OFFSET + 4 <= dos_header@.len(),
    ensures
        r == le_i32(dos_header@, LFANEW_OFFSET as int),
{
    let raw = read_le_u32(dos_header, LFANEW_OFFSET);
    if raw >= 0x8000_0000 {
        let below: u32 = 0xFFFF_FFFF - raw;
        -(below as i32) - 1
    } else {
        raw as i32
    }
}

/// Reads `OptionalHeader.SizeOfImage` from the 32-bit NT headers of a loaded
/// image: the size of the whole image as mapped.
pub fn size_of_image(nt_headers: &[u8]) -> (r: u32)
    requires
        SIZE_OF_IMAGE_OFFSET + 4 <= nt_headers@.len(),
    ensures
        r == le_u32(nt_headers@, SIZE_OF_IMAGE_OFFSET as int),
{
    read_le_u32(nt_headers, SIZE_OF_IMAGE_OFFSET)
}

} // verus!
