//! Checks that an image's segments fit the memory of the machine they are for,
//! before the engine copies them.
use vstd::prelude::*;
use crate::engine::{byte_segment_fits, image_layout, layout_of, stack_segment_fits, SegmentInfo};
use monistode_binutils::Executable;
use vstd::bytes::{spec_u64_from_le_bytes, u64_from_le_bytes};
use vstd::slice::slice_subrange;

verus! {

/// Whether `start` and `size` name a range inside 65536 cells (an empty range
/// fits anywhere), computed without overflow.
fn range_fits(start: u64, size: u64) -> (r: bool)
    ensures
        r == (size == 0 || start as int + size as int <= 65536),
{
    size == 0 || (start <= 65536 && size <= 65536 - start)
}

/// Whether every segment of the image fits the stack machine.
pub open spec fn stack_image_fits_spec(image: Executable) -> bool {
    forall|i: int|
        0 <= i < image_layout(image).len() ==> stack_segment_fits(#[trigger] image_layout(image)[i])
}

/// Whether every segment of the image fits a byte-addressed machine.
pub open spec fn byte_image_fits_spec(image: Executable) -> bool {
    forall|i: int|
        0 <= i < image_layout(image).len() ==> byte_segment_fits(#[trigger] image_layout(image)[i])
}

/// Whether a segment fits the stack machine.
pub fn stack_segment_ok(s: &SegmentInfo) -> (r: bool)
    ensures
        r == stack_segment_fits(*s),
{
    if s.executable {
        range_fits(s.start, s.size) && s.size <= 65536 && 6 * s.size <= s.bits as u64
    } else if s.readable {
        range_fits(s.start, s.size) && s.size <= 65536 && (s.size == 0 || 8 * s.size - 7
            <= s.bits as u64)
    } else {
        true
    }
}

/// Whether a segment fits a byte-addressed machine.
pub fn byte_segment_ok(s: &SegmentInfo) -> (r: bool)
    ensures
        r == byte_segment_fits(*s),
{
    range_fits(s.start, s.size) && s.size <= 65536 && 8 * s.size <= s.bits as u64
}

/// Whether every segment of the image fits the stack machine.
pub fn stack_image_fits(image: &Executable) -> (r: bool)
    ensures
        r == stack_image_fits_spec(*image),
{
    let segments = layout_of(image);
    let mut i: usize = 0;
    while i < segments.len()
        invariant
            segments@ == image_layout(*image),
            i <= segments@.len(),
            forall|j: int| 0 <= j < i ==> stack_segment_fits(#[trigger] segments@[j]),
        decreases segments@.len() - i,
    {
        if !stack_segment_ok(&segments[i]) {
            return false;
        }
        i = i + 1;
    }
    true
}

/// Whether every segment of the image fits a byte-addressed machine.
pub fn byte_image_fits(image: &Executable) -> (r: bool)
    ensures
        r == byte_image_fits_spec(*image),
{
    let segments = layout_of(image);
    let mut i: usize = 0;
    while i < segments.len()
        invariant
            segments@ == image_layout(*image),
            i <= segments@.len(),
            forall|j: int| 0 <= j < i ==> byte_segment_fits(#[trigger] segments@[j]),
        decreases segments@.len() - i,
    {
        if !byte_segment_ok(&segments[i]) {
            return false;
        }
        i = i + 1;
    }
    true
}

// ---------------------------------------------------------------------------
// The frame of an image
//
// An image starts with a 17-byte header (the architecture tag, then the number
// of segments and the entry point as little-endian u64), followed by one 25-byte
// header per segment (start, size and bit count as little-endian u64, then a
// flag byte), the last of which describes the symbol table. The segments' bits
// follow, each segment padded to whole bytes, and then the symbol table:
// 12 bytes per symbol and a name table, `bit count` bytes in all.
// ---------------------------------------------------------------------------

/// The little-endian u64 at `at`.
pub open spec fn le_field(data: Seq<u8>, at: int) -> int {
    spec_u64_from_le_bytes(data.subrange(at, at + 8)) as int
}

/// The number of segment headers, symbol table included.
pub open spec fn declared_segments(data: Seq<u8>) -> int {
    le_field(data, 1)
}

/// Where the header of segment `k` starts.
pub open spec fn header_start(k: int) -> int {
    17 + 25 * k
}

/// The size field of segment `k` (for the symbol table: its number of symbols).
pub open spec fn declared_size(data: Seq<u8>, k: int) -> int {
    le_field(data, header_start(k) + 8)
}

/// The bit-count field of segment `k` (for the symbol table: its length in bytes).
pub open spec fn declared_bits(data: Seq<u8>, k: int) -> int {
    le_field(data, header_start(k) + 16)
}

/// The bytes that the first `k` segments occupy.
pub open spec fn payload_before(data: Seq<u8>, k: nat) -> int
    decreases k,
{
    if k == 0 {
        0
    } else {
        payload_before(data, (k - 1) as nat) + (declared_bits(data, k - 1) + 7) / 8
    }
}

/// Whether the sizes that an image declares stay inside it: the headers, the
/// segments' bytes and the symbol table all lie within `data`, the symbol table
/// has room for its 12-byte entries, and every count stays far from overflow.
pub open spec fn image_frame_ok(data: Seq<u8>) -> bool {
    let c = declared_segments(data);
    let symbols = header_start(c) + payload_before(data, (c - 1) as nat);
    &&& data.len() >= 17
    &&& c >= 1
    &&& header_start(c) <= data.len()
    &&& forall|j: int| 0 <= j < c - 1 ==> #[trigger] declared_bits(data, j) <= u64::MAX - 7
    &&& symbols <= data.len()
    &&& declared_bits(data, c - 1) <= data.len() - symbols
    &&& 12 * declared_size(data, c - 1) <= declared_bits(data, c - 1)
    &&& declared_bits(data, c - 1) < 0x1_0000_0000
}

fn read_field(data: &[u8], at: usize) -> (r: u64)
    requires
        at + 8 <= data@.len(),
    ensures
        r as int == le_field(data@, at as int),
{
    // The length is a usize, so `at + 8` cannot overflow.
    let _len = data.len();
    u64_from_le_bytes(slice_subrange(data, at, at + 8))
}

proof fn lemma_payload_grows(data: Seq<u8>, k: nat, m: nat)
    requires
        k <= m,
    ensures
        payload_before(data, k) <= payload_before(data, m),
    decreases m,
{
    if k < m {
        lemma_payload_grows(data, k, (m - 1) as nat);
    }
}

/// Whether the sizes that `data` declares stay inside it.
pub fn image_frame_check(data: &[u8]) -> (r: bool)
    ensures
        r == image_frame_ok(data@),
{
    let len = data.len();
    if len < 17 {
        return false;
    }
    let c = read_field(data, 1);
    if c < 1 || c > ((len - 17) / 25) as u64 {
        return false;
    }
    let base: usize = 17 + 25 * (c as usize);
    let last = (c - 1) as usize;
    let mut payload: usize = 0;
    let mut k: usize = 0;
    while k < last
        invariant
            c as int == declared_segments(data@),
            last == c - 1,
            base as int == header_start(c as int),
            base <= len,
            len == data@.len(),
            k <= last,
            payload as int == payload_before(data@, k as nat),
            payload <= len - base,
            forall|j: int| 0 <= j < k ==> #[trigger] declared_bits(data@, j) <= u64::MAX - 7,
        decreases last - k,
    {
        let bits = read_field(data, 17 + 25 * k + 16);
        assert(declared_bits(data@, k as int) == bits);
        if bits > u64::MAX - 7 {
            return false;
        }
        let bytes = (bits + 7) / 8;
        if bytes > (len - base - payload) as u64 {
            proof {
                lemma_payload_grows(data@, (k + 1) as nat, last as nat);
            }
            return false;
        }
        payload = payload + bytes as usize;
        k = k + 1;
    }
    let symbols = base + payload;
    let size = read_field(data, 17 + 25 * last + 8);
    let bits = read_field(data, 17 + 25 * last + 16);
    bits < 0x1_0000_0000 && bits as usize <= len - symbols && size <= bits / 12
}

} // verus!
