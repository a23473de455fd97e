use vstd::prelude::*;

verus! {

/// The 32-bit message argument that packs `a` into the low word and `b`
/// into the high word, reinterpreted as the signed type the window system
/// carries it in.
pub open spec fn spec_makelong(a: u16, b: u16) -> i32 {
    ((a as u32) | ((b as u32) << 16)) as i32
}

/// The low 16 bits of a 32-bit message argument.
pub open spec fn spec_loword(dword: u32) -> u16 {
    (dword & 0xFFFF) as u16
}

/// Packs two 16-bit values into one 32-bit message argument: `a` in the
/// low word, `b` in the high word. As an integer the packed value is
/// `a + 0x10000 * b`, wrapped to the signed range.
pub fn makelong(a: u16, b: u16) -> (r: i32)
    ensures
        r == spec_makelong(a, b),
        b < 0x8000 ==> r == a + 0x10000 * b,
        b >= 0x8000 ==> r == a + 0x10000 * (b as int) - 0x1_0000_0000,
{
    proof {
        assert(b < 0x8000 ==> ((a as u32) | ((b as u32) << 16)) as i32 == (a as u32) + 0x10000
            * (b as u32)) by (bit_vector);
        assert(b >= 0x8000 ==> ((a as u32) | ((b as u32) << 16)) as i32 + 0x1_0000_0000 == (
        a as u32) + 0x10000 * (b as u32)) by (bit_vector);
    }
    #[verifier::truncate] (((a as u32) | ((b as u32) << 16)) as i32)
}

/// The low word of a 32-bit message argument: `dword % 0x10000`.
pub fn loword(dword: u32) -> (r: u16)
    ensures
        r == spec_loword(dword),
        r == dword % 0x10000,
{
    proof {
        assert((dword << 16) >> 16 == dword & 0xFFFF) by (bit_vector);
        assert(dword & 0xFFFF == dword % 0x10000) by (bit_vector);
        assert(dword & 0xFFFF < 0x10000) by (bit_vector);
    }
    #[verifier::truncate] (((dword << 16) >> 16) as u16)
}

/// Unpacking gives back what was packed: the low word of `makelong(a, b)`
/// is `a` again.
pub proof fn lemma_loword_makelong(a: u16, b: u16)
    ensures
        spec_loword(spec_makelong(a, b) as u32) == a,
{
    assert((((a as u32) | ((b as u32) << 16)) as i32) as u32 & 0xFFFF == a) by (bit_vector);
}

} // verus!
