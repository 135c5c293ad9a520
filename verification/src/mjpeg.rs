//! Frame extraction from an MJPEG byte stream: find the start and end
//! markers of the next complete JPEG image in a growing buffer.

use vstd::prelude::*;
use vstd::slice::slice_index_get;

verus! {

/// A JPEG start marker stands at `i`.
pub open spec fn jpeg_start_at(buf: Seq<u8>, i: int) -> bool {
    0 <= i && i + 1 < buf.len() && buf[i] == 0xFF && buf[i + 1] == 0xD8
}

/// A JPEG end marker stands at `i`.
pub open spec fn jpeg_end_at(buf: Seq<u8>, i: int) -> bool {
    0 <= i && i + 1 < buf.len() && buf[i] == 0xFF && buf[i + 1] == 0xD9
}

/// Index of the first JPEG start marker, if the buffer holds one.
pub fn find_jpeg_start(buffer: &[u8]) -> (r: Option<usize>)
    ensures
        match r {
            Some(i) => jpeg_start_at(buffer@, i as int) && forall|j: int|
                0 <= j < i ==> !jpeg_start_at(buffer@, j),
            None => forall|j: int| !jpeg_start_at(buffer@, j),
        },
{
    if buffer.len() < 2 {
        return None;
    }
    let mut i: usize = 0;
    while i < buffer.len() - 1
        invariant
            buffer@.len() >= 2,
            i <= buffer@.len(),
            forall|j: int| 0 <= j < i ==> !jpeg_start_at(buffer@, j),
        decreases buffer@.len() - i,
    {
        if *slice_index_get(buffer, i) == 0xFF && *slice_index_get(buffer, i + 1) == 0xD8 {
            return Some(i);
        }
        i += 1;
    }
    None
}

/// Index of the byte closing the first JPEG end marker at or after
/// `start`: the position of the `0xD9` byte itself.
pub fn find_jpeg_end(buffer: &[u8], start: usize) -> (r: Option<usize>)
    requires
        start <= buffer@.len(),
    ensures
        match r {
            Some(e) => e >= 1 && jpeg_end_at(buffer@, e - 1) && e - 1 >= start && forall|j: int|
                start <= j < e - 1 ==> !jpeg_end_at(buffer@, j),
            None => forall|j: int| start <= j ==> !jpeg_end_at(buffer@, j),
        },
{
    if buffer.len() < 2 {
        return None;
    }
    let mut i: usize = start;
    while i < buffer.len() - 1
        invariant
            buffer@.len() >= 2,
            start <= i <= buffer@.len(),
            forall|j: int| start <= j < i ==> !jpeg_end_at(buffer@, j),
        decreases buffer@.len() - i,
    {
        if *slice_index_get(buffer, i) == 0xFF && *slice_index_get(buffer, i + 1) == 0xD9 {
            return Some(i + 1);
        }
        i += 1;
    }
    None
}

} // verus!
