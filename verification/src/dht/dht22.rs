//! Fractional-precision sensor model: tenths-of-a-degree temperature and
//! tenths-of-a-percent humidity, held as fixed-point integer counts.

use vstd::prelude::*;

use crate::dht::convert_signed;
use crate::dht::spec_magnitude;
use crate::dht::spec_sign;
use crate::dht::DhtReading;
use crate::dht::FromRaw;

verus! {

/// A decoded reading from the fractional-precision sensor model.
///
/// Both fields are fixed-point counts of tenths: a `temperature` of `-105`
/// stands for -10.5 degrees Celsius, a `relative_humidity` of `403` for
/// 40.3 percent.
#[derive(Clone, Copy, Debug, PartialEq, Eq, Structural)]
pub struct Reading {
    /// Tenths of a degree Celsius, sign-magnitude decoded from a 15-bit
    /// magnitude spread over two payload bytes.
    pub temperature: i16,
    /// Tenths of a percent relative humidity, a 16-bit value spread over two
    /// payload bytes.
    pub relative_humidity: u16,
}

/// The humidity bytes decoded for this model: high byte and low byte
/// combined into a 16-bit count of tenths of a percent.
pub open spec fn spec_humidity(hi: u8, lo: u8) -> u16 {
    (hi * 256 + lo) as u16
}

/// The temperature bytes decoded for this model: the high byte's 7-bit
/// magnitude and the low byte combined into a 15-bit count of tenths of a
/// degree, negated when the high byte's sign bit is set.
pub open spec fn spec_temperature(temp_signed: u8, temp_low: u8) -> i16 {
    let magnitude = spec_magnitude(temp_signed) * 256 + temp_low;
    if spec_sign(temp_signed) {
        (-magnitude) as i16
    } else {
        magnitude as i16
    }
}

/// Joins two payload bytes into one 16-bit value, high byte first.
fn combine(hi: u8, lo: u8) -> (r: u16)
    ensures
        r == hi * 256 + lo,
{
    proof {
        assert((((hi as u16) << 8) | (lo as u16)) == hi * 256 + lo) by (bit_vector);
    }
    ((hi as u16) << 8) | (lo as u16)
}

impl FromRaw for Reading {
    /// Payload layout for this model: `[humidity_high, humidity_low,
    /// temperature_signed_high, temperature_low]`.
    open spec fn spec_from_raw(bytes: [u8; 4]) -> Reading {
        Reading {
            temperature: spec_temperature(bytes[2], bytes[3]),
            relative_humidity: spec_humidity(bytes[0], bytes[1]),
        }
    }

    fn raw_to_reading(bytes: [u8; 4]) -> (r: Reading) {
        let rh_h = bytes[0];
        let rh_l = bytes[1];
        let temp_h_signed = bytes[2];
        let temp_l = bytes[3];
        let rh = combine(rh_h, rh_l);
        let temp: i16 = {
            let (signed, magnitude) = convert_signed(temp_h_signed);
            let temp_magnitude = combine(magnitude, temp_l);
            if signed {
                -(temp_magnitude as i16)
            } else {
                temp_magnitude as i16
            }
        };
        Reading { temperature: temp, relative_humidity: rh }
    }
}

impl DhtReading for Reading {}

} // verus!
