//! Reading back which object is drawn under a pixel of the hit canvas.

use vstd::prelude::*;

verus! {

/// The 32-bit little-endian value of four bytes.
pub open spec fn le_u32(b: Seq<u8>) -> int {
    b[0] + 256 * b[1] + 65536 * b[2] + 16777216 * b[3]
}

/// The object whose colour a hit-canvas pixel holds. The canvas draws object
/// `id` in the colour whose RGBA bytes, read as a little-endian number, are
/// `id + 1`; a cleared pixel reads 0 and holds no object.
pub fn object_id_from_pixel(data: [u8; 4]) -> (r: Option<u32>)
    ensures
        le_u32(data@) == 0 ==> r == None::<u32>,
        le_u32(data@) > 0 ==> r == Some((le_u32(data@) - 1) as u32),
{
    let id: u32 = data[0] as u32 + data[1] as u32 * 256 + data[2] as u32 * 65536 + data[3] as u32
        * 16777216;
    id.checked_sub(1)
}

} // verus!
