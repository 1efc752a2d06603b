//! The closed set of supported alignment values.
//!
//! An alignment is valid only when it belongs to an enumerated,
//! library-controlled set: the powers of two from one byte up to half a
//! gigabyte. Capabilities that are parameterized by an alignment validate it
//! against this set at construction time.

use vstd::prelude::*;

verus! {

/// The largest member of the supported alignment set, `pow2(29)` bytes.
pub const MAX_SUPPORTED_ALIGNMENT: usize = 0x2000_0000;

/// An alignment is supported when it is a power of two no larger than
/// [`MAX_SUPPORTED_ALIGNMENT`].
pub open spec fn is_supported_alignment(n: usize) -> bool {
    exists|k: nat| k <= 29 && n == vstd::arithmetic::power2::pow2(k)
}

/// Validates an alignment against the supported set by walking the
/// enumerated table of powers of two.
pub fn supported_alignment(n: usize) -> (r: bool)
    ensures
        r == is_supported_alignment(n),
{
    proof {
        vstd::arithmetic::power2::lemma2_to64();
    }
    let mut k: usize = 0;
    let mut a: usize = 1;
    loop
        invariant
            k <= 29,
            a == vstd::arithmetic::power2::pow2(k as nat),
            a <= MAX_SUPPORTED_ALIGNMENT,
            forall|j: nat| j < k ==> n != vstd::arithmetic::power2::pow2(j),
        decreases 29 - k,
    {
        if a == n {
            proof {
                assert(n == vstd::arithmetic::power2::pow2(k as nat));
            }
            return true;
        }
        if k == 29 {
            proof {
                assert forall|j: nat| j <= 29 implies n != vstd::arithmetic::power2::pow2(
                    j,
                ) by {
                    if j == 29 {
                        assert(a == vstd::arithmetic::power2::pow2(29));
                    }
                }
            }
            return false;
        }
        proof {
            vstd::arithmetic::power2::lemma2_to64();
            vstd::arithmetic::power2::lemma_pow2_unfold((k + 1) as nat);
            if k + 1 < 29 {
                vstd::arithmetic::power2::lemma_pow2_strictly_increases((k + 1) as nat, 29);
            }
        }
        a = a * 2;
        k = k + 1;
    }
}

/// The alignments of the payload universe itself are all supported. A
/// caller constructing a fixed-capacity erasure proves its configured
/// alignment supported with this table.
pub proof fn lemma_small_alignments_supported()
    ensures
        is_supported_alignment(1),
        is_supported_alignment(2),
        is_supported_alignment(4),
        is_supported_alignment(8),
        is_supported_alignment(16),
        is_supported_alignment(32),
        is_supported_alignment(64),
{
    vstd::arithmetic::power2::lemma2_to64();
    assert(1 == vstd::arithmetic::power2::pow2(0));
    assert(2 == vstd::arithmetic::power2::pow2(1));
    assert(4 == vstd::arithmetic::power2::pow2(2));
    assert(8 == vstd::arithmetic::power2::pow2(3));
    assert(16 == vstd::arithmetic::power2::pow2(4));
    assert(32 == vstd::arithmetic::power2::pow2(5));
    assert(64 == vstd::arithmetic::power2::pow2(6));
}

} // verus!
