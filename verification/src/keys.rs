use vstd::prelude::*;

verus! {

/// An account address, as its 32 raw bytes.
pub type Key = [u8; 32];

/// The address of the Token-2022 program.
pub const TOKEN_2022_PROGRAM_ID: Key = [
    6, 221, 246, 225, 238, 117, 143, 222, 24, 66, 93, 188, 228, 108, 205, 218,
    182, 26, 252, 77, 131, 185, 13, 39, 254, 189, 249, 40, 216, 161, 139, 252,
];

/// The address of the legacy SPL Token program.
pub const TOKEN_PROGRAM_ID: Key = [
    6, 221, 246, 225, 215, 101, 161, 147, 217, 203, 225, 70, 206, 235, 121, 172,
    28, 180, 133, 237, 95, 91, 55, 145, 58, 140, 245, 133, 126, 255, 0, 169,
];

/// The address of the system program: 32 zero bytes.
pub const SYSTEM_PROGRAM_ID: Key = [
    0, 0, 0, 0, 0, 0, 0, 0, 0, 0, 0, 0, 0, 0, 0, 0,
    0, 0, 0, 0, 0, 0, 0, 0, 0, 0, 0, 0, 0, 0, 0, 0,
];

/// Whether every byte of `key` is zero: the address Token-2022 reads as "no key".
pub open spec fn is_zero(key: Key) -> bool {
    forall|i: int| 0 <= i < 32 ==> key[i] == 0u8
}

/// Whether every byte of `key` is zero.
pub fn is_zero_key(key: &Key) -> (r: bool)
    ensures
        r == is_zero(*key),
{
    let mut i: usize = 0;
    while i < 32
        invariant
            i <= 32,
            forall|j: int| 0 <= j < i ==> key[j] == 0u8,
        decreases 32 - i,
    {
        if key[i] != 0 {
            return false;
        }
        i = i + 1;
    }
    true
}

} // verus!
