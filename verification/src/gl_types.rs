use vstd::prelude::*;

verus! {

/// The 32-bit signed integer with the bit pattern of `value`, which is how
/// the native layers take an unsigned size.
pub open spec fn reinterpret_signed(value: u32) -> int {
    if value <= i32::MAX {
        value as int
    } else {
        value - 0x1_0000_0000
    }
}

/// The 32-bit signed integer with the bit pattern of `value`.
pub fn to_signed(value: u32) -> (signed: i32)
    ensures
        signed == reinterpret_signed(value),
{
    if value <= 0x7fff_ffff {
        value as i32
    } else {
        ((value as i64) - 0x1_0000_0000) as i32
    }
}

} // verus!
