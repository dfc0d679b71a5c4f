//! Cursor-theme file decoder.
//!
//! The one binary file format this core parses directly. A cursor-theme file
//! starts with the four magic bytes `Xcur`, a file header, and a
//! table of contents of fixed 12-byte entries; each entry points at a chunk.
//! An image chunk is tagged with the type `0xfffd0002` and carries big-endian
//! width, height, xhot and yhot fields followed by raw BGRA8 pixel data.
//! Only chunks whose width and height both equal the requested nominal size
//! are accepted; all others are skipped. The input is untrusted bytes from the
//! filesystem: the decoder rejects malformed input and never panics.

use vstd::prelude::*;

use crate::error::DecodeError;

verus! {

/// Chunk tag of an image chunk.
pub const IMAGE_CHUNK_TYPE: u32 = 0xfffd0002;

/// One decoded cursor image: dimensions, hotspot and BGRA8 pixels.
#[derive(Clone, Debug, PartialEq, Eq)]
pub struct CursorImage {
    pub width: u32,
    pub height: u32,
    pub xhot: u32,
    pub yhot: u32,
    pub pixels: Vec<u8>,
}

/// The big-endian 32-bit word at byte offset `i`.
pub open spec fn be32(s: Seq<u8>, i: int) -> u32 {
    ((s[i] as int) * 0x1000000 + (s[i + 1] as int) * 0x10000 + (s[i + 2] as int) * 0x100 + (
    s[i + 3] as int)) as u32
}

/// The file starts with the magic bytes `Xcur`.
pub open spec fn magic_ok(s: Seq<u8>) -> bool {
    &&& s.len() >= 4
    &&& s[0] == 0x58u8
    &&& s[1] == 0x63u8
    &&& s[2] == 0x75u8
    &&& s[3] == 0x72u8
}

/// Number of table-of-contents entries the file header announces.
pub open spec fn toc_len(s: Seq<u8>) -> u32 {
    be32(s, 12)
}

/// The file header is well formed: magic, full header, and the whole
/// table of contents lie within the file.
pub open spec fn header_ok(s: Seq<u8>) -> bool {
    &&& s.len() >= 16
    &&& magic_ok(s)
    &&& 16 + 12 * (toc_len(s) as int) <= s.len()
}

/// Chunk position stored in table-of-contents entry `i`.
pub open spec fn entry_pos(s: Seq<u8>, i: int) -> u32 {
    be32(s, 16 + 12 * i + 8)
}

/// Bytes of pixel data an image of nominal size `size` carries.
pub open spec fn pixel_bytes(size: u32) -> int {
    4 * (size as int) * (size as int)
}

/// The chunk at byte position `pos` is an in-bounds image chunk whose width
/// and height both equal the requested size, pixel data included.
pub open spec fn chunk_matches(s: Seq<u8>, pos: int, size: u32) -> bool {
    &&& pos + 36 <= s.len()
    &&& be32(s, pos + 4) == IMAGE_CHUNK_TYPE
    &&& be32(s, pos + 16) == size
    &&& be32(s, pos + 20) == size
    &&& pos + 36 + pixel_bytes(size) <= s.len()
}

/// Table-of-contents entry `i` points at a matching image chunk.
pub open spec fn entry_matches(s: Seq<u8>, i: int, size: u32) -> bool {
    chunk_matches(s, entry_pos(s, i) as int, size)
}

/// Index of the first table-of-contents entry at or after `i` that points at
/// a matching image chunk, or -1 if there is none.
pub open spec fn first_match_from(s: Seq<u8>, size: u32, i: int) -> int
    decreases toc_len(s) as int - i,
{
    if i < 0 || i >= toc_len(s) as int {
        -1
    } else if entry_matches(s, i, size) {
        i
    } else {
        first_match_from(s, size, i + 1)
    }
}

/// If no entry below `i` matches and entry `i` matches, then `i` is the first
/// match.
proof fn lemma_first_match(s: Seq<u8>, size: u32, lo: int, i: int)
    requires
        0 <= lo <= i < toc_len(s) as int,
        forall|j: int| lo <= j < i ==> !entry_matches(s, j, size),
        entry_matches(s, i, size),
    ensures
        first_match_from(s, size, lo) == i,
    decreases i - lo,
{
    if lo < i {
        lemma_first_match(s, size, lo + 1, i);
    }
}

/// If no entry at or after `lo` matches, there is no first match.
proof fn lemma_no_match(s: Seq<u8>, size: u32, lo: int)
    requires
        0 <= lo,
        forall|j: int| lo <= j < toc_len(s) as int ==> !entry_matches(s, j, size),
    ensures
        first_match_from(s, size, lo) == -1,
    decreases toc_len(s) as int - lo,
{
    if lo < toc_len(s) as int {
        lemma_no_match(s, size, lo + 1);
    }
}

/// Reads the big-endian 32-bit word at byte offset `off`.
fn read_be32(data: &Vec<u8>, off: usize) -> (res: u32)
    requires
        off + 4 <= data.len(),
    ensures
        res == be32(data@, off as int),
{
    let b0 = data[off] as u32;
    let b1 = data[off + 1] as u32;
    let b2 = data[off + 2] as u32;
    let b3 = data[off + 3] as u32;
    b0 * 0x1000000 + b1 * 0x10000 + b2 * 0x100 + b3
}

/// Decodes the cursor image of the requested nominal size out of a
/// cursor-theme file.
///
/// Returns `InvalidData` when the magic or the file header is malformed, and
/// `NotFound` when the file is well formed but holds no matching image chunk.
/// On success the result carries the dimensions, the embedded hotspot, and
/// the chunk's raw pixel bytes, taken from the first matching entry of the
/// table of contents.
pub fn decode_cursor(data: &Vec<u8>, size: u32) -> (res: Result<CursorImage, DecodeError>)
    requires
        36 + pixel_bytes(size) <= usize::MAX as int,
    ensures
        (res matches Err(e) && e == DecodeError::InvalidData) <==> !header_ok(data@),
        (res matches Err(e) && e == DecodeError::NotFound) <==> (header_ok(data@)
            && first_match_from(data@, size, 0) == -1),
        res matches Ok(img) ==> ({
            let pos = entry_pos(data@, first_match_from(data@, size, 0)) as int;
            &&& header_ok(data@)
            &&& first_match_from(data@, size, 0) >= 0
            &&& img.width == size
            &&& img.height == size
            &&& img.xhot == be32(data@, pos + 24)
            &&& img.yhot == be32(data@, pos + 28)
            &&& img.pixels@ == data@.subrange(pos + 36, pos + 36 + pixel_bytes(size))
        }),
{
    if data.len() < 16 {
        return Err(DecodeError::InvalidData);
    }
    if !(data[0] == 0x58 && data[1] == 0x63 && data[2] == 0x75 && data[3] == 0x72) {
        return Err(DecodeError::InvalidData);
    }
    let ntoc = read_be32(data, 12);
    if 16u64 + 12u64 * (ntoc as u64) > data.len() as u64 {
        return Err(DecodeError::InvalidData);
    }
    let s_us: usize = size as usize;
    proof {
        assert(4 * (s_us as int) <= usize::MAX as int && 4 * (s_us as int) * (s_us as int)
            <= usize::MAX as int) by (nonlinear_arith)
            requires
                36 + 4 * (s_us as int) * (s_us as int) <= usize::MAX as int,
        ;
    }
    let npix: usize = 4 * s_us * s_us;
    let dlen: usize = data.len();

    let mut i: u32 = 0;
    while i < ntoc
        invariant
            header_ok(data@),
            data@.len() == dlen as int,
            ntoc == toc_len(data@),
            i <= ntoc,
            npix == pixel_bytes(size),
            36 + pixel_bytes(size) <= usize::MAX as int,
            forall|j: int| 0 <= j < i as int ==> !entry_matches(data@, j, size),
        decreases ntoc - i,
    {
        proof {
            assert(12 * (i as int) + 12 <= 12 * (toc_len(data@) as int));
        }
        let off: usize = 16 + 12 * (i as usize);
        let pos32 = read_be32(data, off + 8);
        proof {
            assert(pos32 == entry_pos(data@, i as int));
        }
        let len64 = data.len() as u64;
        if (pos32 as u64) + 36 <= len64 && (npix as u64) <= len64 - ((pos32 as u64) + 36) {
            let pos = pos32 as usize;
            let chunk_type = read_be32(data, pos + 4);
            let width = read_be32(data, pos + 16);
            let height = read_be32(data, pos + 20);
            if chunk_type == IMAGE_CHUNK_TYPE && width == size && height == size {
                let xhot = read_be32(data, pos + 24);
                let yhot = read_be32(data, pos + 28);
                let mut pixels: Vec<u8> = Vec::new();
                let mut k: usize = 0;
                while k < npix
                    invariant
                        pos + 36 + npix <= data.len(),
                        k <= npix,
                        pixels@ == data@.subrange(pos + 36, pos + 36 + k as int),
                    decreases npix - k,
                {
                    pixels.push(data[pos + 36 + k]);
                    proof {
                        assert(pixels@ =~= data@.subrange(pos + 36, pos + 36 + (k + 1) as int));
                    }
                    k = k + 1;
                }
                proof {
                    lemma_first_match(data@, size, 0, i as int);
                }
                return Ok(CursorImage { width, height, xhot, yhot, pixels });
            }
        }
        proof {
            assert(!entry_matches(data@, i as int, size));
        }
        i = i + 1;
    }
    proof {
        lemma_no_match(data@, size, 0);
    }
    Err(DecodeError::NotFound)
}

} // verus!
