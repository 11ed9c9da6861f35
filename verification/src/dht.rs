//! The shared decoding capability: sign-magnitude conversion and the generic
//! read operation that dispatches to a model-specific decoder.

use vstd::prelude::*;

pub mod dht11;
pub mod dht22;

verus! {

/// True iff the sign bit (bit 7) of the byte is set.
pub open spec fn spec_sign(b: u8) -> bool {
    b & 0x80 != 0
}

/// The byte with its sign bit cleared: the 7-bit magnitude.
pub open spec fn spec_magnitude(b: u8) -> u8 {
    b & 0x7F
}

/// Arithmetic characterization of the sign-magnitude split: the sign bit is
/// set exactly on bytes of 128 and above, and the magnitude is the remainder
/// modulo 128, hence at most 127.
pub proof fn lemma_sign_magnitude(b: u8)
    ensures
        spec_sign(b) <==> b >= 128,
        spec_magnitude(b) == b % 128,
        spec_magnitude(b) <= 127,
{
    assert((b & 0x80 != 0) <==> b >= 128) by (bit_vector);
    assert(b & 0x7F == b % 128) by (bit_vector);
}

/// Splits one byte of a sign-magnitude encoding into its sign bit and its
/// 7-bit magnitude. Total over all 256 byte values; magnitude 0 with the sign
/// bit set and magnitude 0 with it clear both stand for zero, a redundancy of
/// the encoding itself.
pub fn convert_signed(signed: u8) -> (r: (bool, u8))
    ensures
        r.0 == spec_sign(signed),
        r.1 == spec_magnitude(signed),
        r.1 <= 127,
{
    let sign = signed & 0x80 != 0;
    let magnitude = signed & 0x7F;
    proof {
        lemma_sign_magnitude(signed);
    }
    (sign, magnitude)
}

/// The decoding capability a sensor model supplies: a pure, total mapping
/// from the four-byte raw payload to that model's typed reading.
pub trait FromRaw: Sized {
    /// What decoding this payload yields, as a mathematical value.
    spec fn spec_from_raw(bytes: [u8; 4]) -> Self;

    /// Decodes a complete, successfully acquired payload. Total: every byte
    /// pattern decodes to some reading; validity is the acquisition
    /// collaborator's concern.
    fn raw_to_reading(bytes: [u8; 4]) -> (r: Self)
        ensures
            r == Self::spec_from_raw(bytes),
    ;
}

/// Decoding is a pure function of the payload: two readings decoded from
/// identical raw bytes are identical.
pub proof fn lemma_decoding_pure<T: FromRaw>(bytes: [u8; 4], r1: T, r2: T)
    requires
        r1 == T::spec_from_raw(bytes),
        r2 == T::spec_from_raw(bytes),
    ensures
        r1 == r2,
{
}

/// The generic read capability: one operation serves every sensor model.
///
/// The caller performs one acquisition attempt through the collaborator and
/// hands its outcome here. An acquisition error passes through unchanged —
/// no wrapping, no retry — and a payload is decoded by the reading type's
/// own rules, never another model's.
pub trait DhtReading: FromRaw {
    /// Turns the outcome of one acquisition attempt into the outcome of one
    /// read: the collaborator's error verbatim, or this model's decoding of
    /// the payload.
    fn read<E>(raw: Result<[u8; 4], E>) -> (r: Result<Self, E>)
        ensures
            raw is Ok ==> r == Ok::<Self, E>(Self::spec_from_raw(raw->Ok_0)),
            raw is Err ==> r == Err::<Self, E>(raw->Err_0),
    {
        match raw {
            Ok(bytes) => Ok(Self::raw_to_reading(bytes)),
            Err(e) => Err(e),
        }
    }
}

} // verus!
