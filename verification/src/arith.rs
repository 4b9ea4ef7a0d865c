//! Arithmetic facts shared by the size computations of the library.

use vstd::prelude::*;

verus! {

/// The product of two 32-bit values fits in 64 bits.
pub proof fn lemma_mul_u32_fits_u64(a: u32, b: u32)
    ensures
        0 <= a as int * b as int <= 0xffff_fffe_0000_0001,
{
    assert(0 <= a as int * b as int <= 0xffff_ffff * 0xffff_ffff) by (nonlinear_arith)
        requires 0 <= a <= 0xffff_ffff, 0 <= b <= 0xffff_ffff;
}

} // verus!
