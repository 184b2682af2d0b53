//! Eight-lane vector arithmetic, from the `wide` crate.
//!
//! Everything this module says of `wide` is believed rather than proved; the
//! statements are lane-by-lane descriptions of the operations used to undo the
//! output randomization of the ADC.
use vstd::prelude::*;
use wide::i16x8;

verus! {

/// Number of lanes in an `i16x8`.
pub const LANES: usize = 8;

/// `wide::i16x8`, a vector of eight `i16` lanes.
#[verifier::external_type_specification]
#[verifier::external_body]
pub struct ExI16x8(i16x8);

/// The lanes of a vector, in memory order.
pub uninterp spec fn lanes(v: i16x8) -> Seq<i16>;

/// What a lane-by-lane comparison leaves in a lane: all ones where it holds,
/// all zeros where it does not.
pub open spec fn mask_lane(holds: bool) -> i16 {
    if holds {
        -1i16
    } else {
        0
    }
}

/// Whether every lane of `mask` is all ones or all zeros.
pub open spec fn is_mask(mask: Seq<i16>) -> bool {
    forall|i: int| 0 <= i < mask.len() ==> #[trigger] mask[i] == -1 || mask[i] == 0
}

/// Calls `i16x8::splat`. Claimed: every one of the eight lanes holds `elem`.
#[verifier::external_body]
pub(crate) fn splat(elem: i16) -> (v: i16x8)
    ensures
        lanes(v) == Seq::new(8, |i: int| elem),
{
    i16x8::splat(elem)
}

/// Calls `i16x8::from_slice_unaligned`, which panics on fewer than eight
/// elements. Claimed: the lanes are the first eight elements of `input`.
#[verifier::external_body]
pub(crate) fn load(input: &[i16]) -> (v: i16x8)
    requires
        input@.len() >= 8,
    ensures
        lanes(v) == input@.subrange(0, 8),
{
    i16x8::from_slice_unaligned(input)
}

/// Calls the `BitAnd` operator of `i16x8`. Claimed: each lane of the result is
/// the bitwise and of the same lanes of the operands.
#[verifier::external_body]
pub(crate) fn bit_and(a: i16x8, b: i16x8) -> (v: i16x8)
    ensures
        lanes(v) == Seq::new(8, |i: int| lanes(a)[i] & lanes(b)[i]),
{
    a & b
}

/// Calls the `BitXor` operator of `i16x8`. Claimed: each lane of the result is
/// the bitwise exclusive or of the same lanes of the operands.
#[verifier::external_body]
pub(crate) fn bit_xor(a: i16x8, b: i16x8) -> (v: i16x8)
    ensures
        lanes(v) == Seq::new(8, |i: int| lanes(a)[i] ^ lanes(b)[i]),
{
    a ^ b
}

/// Calls `i16x8::simd_eq`. Claimed: each lane of the result is all ones where
/// the same lanes of the operands are equal, and all zeros elsewhere.
#[verifier::external_body]
pub(crate) fn simd_eq(a: i16x8, b: i16x8) -> (v: i16x8)
    ensures
        lanes(v) == Seq::new(8, |i: int| mask_lane(lanes(a)[i] == lanes(b)[i])),
{
    a.simd_eq(b)
}

/// Calls `i16x8::blend`, which is documented only for masks. Claimed: each lane
/// of the result comes from `if_true` where the mask lane is all ones and from
/// `if_false` where it is all zeros.
#[allow(deprecated)]
#[verifier::external_body]
pub(crate) fn blend(mask: i16x8, if_true: i16x8, if_false: i16x8) -> (v: i16x8)
    requires
        is_mask(lanes(mask)),
    ensures
        lanes(v) == Seq::new(
            8,
            |i: int|
                if lanes(mask)[i] == -1 {
                    lanes(if_true)[i]
                } else {
                    lanes(if_false)[i]
                },
        ),
{
    mask.blend(if_true, if_false)
}

/// Calls `i16x8::as_array`. Claimed: the array holds the lanes in order.
#[verifier::external_body]
pub(crate) fn as_array(v: &i16x8) -> (array: &[i16; 8])
    ensures
        array@ == lanes(*v),
{
    v.as_array()
}

/// A lane of a mask is all ones where the comparison holds and all zeros where
/// it does not, so the lanes of a comparison make a mask.
pub proof fn comparisons_make_masks(holds: Seq<bool>)
    ensures
        mask_lane(true) == -1,
        mask_lane(false) == 0,
        is_mask(Seq::new(holds.len(), |i: int| mask_lane(holds[i]))),
{
}

} // verus!
