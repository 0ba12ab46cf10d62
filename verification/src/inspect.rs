//! Rendering read characteristic values for the verbose service dump:
//! each byte shown as itself where printable ASCII, as a dot elsewhere.

use vstd::prelude::*;

verus! {

/// The byte shown for `b` in a printable preview: `b` itself for
/// printable ASCII, an ASCII dot (`0x2e`) for everything else.
pub open spec fn spec_printable(b: u8) -> u8 {
    if 31 < b && b < 127 {
        b
    } else {
        0x2e
    }
}

/// The byte shown for `b` in a printable preview.
pub fn printable_byte(b: u8) -> (r: u8)
    ensures
        r == spec_printable(b),
{
    if 31 < b && b < 127 {
        b
    } else {
        0x2e
    }
}

/// Render a read value as printable ASCII, byte for byte.
pub fn ascii_preview(data: &[u8]) -> (r: Vec<u8>)
    ensures
        r@ == data@.map_values(|b: u8| spec_printable(b)),
{
    let mut r: Vec<u8> = Vec::new();
    let mut i: usize = 0;
    while i < data.len()
        invariant
            i <= data@.len(),
            r@.len() == i,
            forall|j: int| 0 <= j < i ==> r@[j] == spec_printable(data@[j]),
        decreases data@.len() - i,
    {
        r.push(printable_byte(data[i]));
        i += 1;
    }
    proof {
        assert(r@ =~= data@.map_values(|b: u8| spec_printable(b)));
    }
    r
}

} // verus!
