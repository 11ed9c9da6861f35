//! Integer-precision sensor model: whole-degree temperature and
//! whole-percent humidity.

use vstd::prelude::*;

use crate::dht::convert_signed;
use crate::dht::spec_magnitude;
use crate::dht::spec_sign;
use crate::dht::DhtReading;
use crate::dht::FromRaw;

verus! {

/// A decoded reading from the integer-precision sensor model.
#[derive(Clone, Copy, Debug, PartialEq, Eq, Structural)]
pub struct Reading {
    /// Whole degrees Celsius, sign-magnitude decoded from the payload.
    pub temperature: i8,
    /// Whole percent relative humidity, taken from the payload as-is.
    pub relative_humidity: u8,
}

/// The temperature byte decoded for this model: the 7-bit magnitude in whole
/// degrees, negated when the sign bit is set.
pub open spec fn spec_temperature(temp_signed: u8) -> i8 {
    if spec_sign(temp_signed) {
        (-(spec_magnitude(temp_signed) as int)) as i8
    } else {
        spec_magnitude(temp_signed) as i8
    }
}

impl FromRaw for Reading {
    /// Payload layout for this model: `[humidity, humidity_decimal,
    /// temperature_signed, temperature_decimal]`. The two decimal sub-bytes
    /// carry no information for this model and are discarded.
    open spec fn spec_from_raw(bytes: [u8; 4]) -> Reading {
        Reading {
            temperature: spec_temperature(bytes[2]),
            relative_humidity: bytes[0],
        }
    }

    fn raw_to_reading(bytes: [u8; 4]) -> (r: Reading) {
        let rh = bytes[0];
        let temp_signed = bytes[2];
        let temp: i8 = {
            let (signed, magnitude) = convert_signed(temp_signed);
            if signed {
                -(magnitude as i8)
            } else {
                magnitude as i8
            }
        };
        Reading { temperature: temp, relative_humidity: rh }
    }
}

impl DhtReading for Reading {}

/// The decimal sub-bytes carry no information for this model: two payloads
/// that agree on the humidity byte and on the signed temperature byte decode
/// to the same reading, whatever their other two bytes hold.
pub proof fn lemma_decimal_bytes_ignored(a: [u8; 4], b: [u8; 4])
    requires
        a[0] == b[0],
        a[2] == b[2],
    ensures
        Reading::spec_from_raw(a) == Reading::spec_from_raw(b),
{
}

} // verus!
