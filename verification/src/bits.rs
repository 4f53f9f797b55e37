//! Bit fields of 64-bit register values.
//!
//! A field is given by its lowest bit `lo` and its width `w`. Reading and
//! writing a field go through the `bit_field` crate.
use bit_field::BitField;
use vstd::prelude::*;

verus! {

/// The mask of the `w` lowest bits (all bits when `w >= 64`).
pub open spec fn low_mask(w: u64) -> u64 {
    !(u64::MAX << w)
}

/// The value of the field of width `w` at bit `lo` of `v`.
pub open spec fn field(v: u64, lo: u64, w: u64) -> u64 {
    (v >> lo) & low_mask(w)
}

/// `v` with the field of width `w` at bit `lo` replaced by `f`.
pub open spec fn with_field(v: u64, lo: u64, w: u64, f: u64) -> u64 {
    (v & !(low_mask(w) << lo)) | (f << lo)
}

/// `f` fits into a field of width `w`.
pub open spec fn fits(f: u64, w: u64) -> bool {
    f & low_mask(w) == f
}

/// A field position that lies inside a 64-bit register.
pub open spec fn valid_field(lo: u64, w: u64) -> bool {
    0 < w && lo < 64 && lo + w <= 64
}

/// `BitField::get_bits` of the `bit_field` crate on a `u64`, over the range
/// `start..end`: the bits `start` to `end - 1` of `value`, shifted down to bit 0.
/// The crate panics unless `start <= end <= 64` and `start < 64`; the range is
/// taken non-empty here.
#[verifier::external_body]
pub(crate) fn get_bits(value: u64, start: u64, end: u64) -> (r: u64)
    requires
        start < end <= 64,
    ensures
        r == field(value, start, (end - start) as u64),
{
    value.get_bits(start as usize..end as usize)
}

/// `BitField::set_bits` of the `bit_field` crate on a `u64`, over the range
/// `start..end`: `value` with the bits `start` to `end - 1` replaced by `field`.
/// The crate panics unless the range lies in the word and `field` fits in it.
#[verifier::external_body]
pub(crate) fn set_bits(value: u64, start: u64, end: u64, field: u64) -> (r: u64)
    requires
        start < end <= 64,
        fits(field, (end - start) as u64),
    ensures
        r == with_field(value, start, (end - start) as u64, field),
{
    let mut v = value;
    v.set_bits(start as usize..end as usize, field);
    v
}

/// Reads the field of width `w` at bit `lo`.
pub fn read_field(v: u64, lo: u64, w: u64) -> (r: u64)
    requires
        valid_field(lo, w),
    ensures
        r == field(v, lo, w),
{
    get_bits(v, lo, lo + w)
}

/// Writes `f` into the field of width `w` at bit `lo`.
pub fn write_field(v: u64, lo: u64, w: u64, f: u64) -> (r: u64)
    requires
        valid_field(lo, w),
        fits(f, w),
    ensures
        r == with_field(v, lo, w, f),
{
    set_bits(v, lo, lo + w, f)
}

/// Reading back a field gives what was written into it.
pub proof fn lemma_field_of_with_field(v: u64, lo: u64, w: u64, f: u64)
    requires
        valid_field(lo, w),
        fits(f, w),
    ensures
        field(with_field(v, lo, w, f), lo, w) == f,
{
    assert(((((v & !(!(u64::MAX << w) << lo)) | (f << lo)) >> lo) & !(u64::MAX << w)) == f)
        by (bit_vector)
        requires
            0 < w,
            lo < 64,
            lo + w <= 64,
            f & !(u64::MAX << w) == f,
    ;
}

/// Writing a field leaves every field that does not overlap it unchanged.
pub proof fn lemma_field_of_with_other_field(
    v: u64,
    lo: u64,
    w: u64,
    f: u64,
    lo2: u64,
    w2: u64,
)
    requires
        valid_field(lo, w),
        valid_field(lo2, w2),
        fits(f, w),
        lo2 + w2 <= lo || lo + w <= lo2,
    ensures
        field(with_field(v, lo, w, f), lo2, w2) == field(v, lo2, w2),
{
    assert(((((v & !(!(u64::MAX << w) << lo)) | (f << lo)) >> lo2) & !(u64::MAX << w2)) == ((v
        >> lo2) & !(u64::MAX << w2))) by (bit_vector)
        requires
            0 < w,
            lo < 64,
            lo + w <= 64,
            0 < w2,
            lo2 < 64,
            lo2 + w2 <= 64,
            f & !(u64::MAX << w) == f,
            lo2 + w2 <= lo || lo + w <= lo2,
    ;
}

} // verus!
