pub mod hash;
pub mod machine;
pub mod encoding;
pub mod tokens;
pub mod tokenizer;
pub mod end_tag;

use vstd::prelude::*;

verus! {

/// Lower-case an ASCII byte; other bytes pass through unchanged.
pub open spec fn lower_byte(b: u8) -> u8 {
    if 0x41 <= b && b <= 0x5a {
        (b + 0x20) as u8
    } else {
        b
    }
}

/// Executable ASCII lower-casing of a single byte.
pub fn to_lower_byte(b: u8) -> (r: u8)
    ensures
        r == lower_byte(b),
{
    if 0x41 <= b && b <= 0x5a {
        b + 0x20
    } else {
        b
    }
}

} // verus!
