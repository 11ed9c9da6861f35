use dht_sensor::dht::convert_signed;
use dht_sensor::dht::dht11;
use dht_sensor::dht::dht22;
use dht_sensor::dht::DhtReading;
use dht_sensor::dht::FromRaw;

/// A stand-in for the acquisition collaborator's opaque error value.
#[derive(Clone, Copy, Debug, PartialEq, Eq)]
enum AcqError {
    ChecksumMismatch,
    Timeout,
}

#[test]
fn convert_signed_all_bytes() {
    for b in 0..=255u8 {
        let (is_negative, magnitude) = convert_signed(b);
        assert_eq!(is_negative, (b & 0x80) != 0);
        assert_eq!(magnitude, b & 0x7F);
        assert!(magnitude <= 127);
    }
}

#[test]
fn model_a_ignores_decimal_bytes() {
    for x in [0u8, 1, 17, 128, 255] {
        for y in [0u8, 9, 200, 255] {
            let r = dht11::Reading::raw_to_reading([60, x, 25, y]);
            assert_eq!(r.relative_humidity, 60);
            assert_eq!(r.temperature, 25);
        }
    }
}

#[test]
fn model_a_negative_temperature() {
    let r = dht11::Reading::raw_to_reading([45, 0, 0x80 | 10, 0]);
    assert_eq!(r.temperature, -10);
    assert_eq!(r.relative_humidity, 45);
}

#[test]
fn model_b_positive_reading() {
    let r = dht22::Reading::raw_to_reading([0x01, 0x90, 0x00, 0x64]);
    assert_eq!(r.relative_humidity, 400);
    assert_eq!(r.temperature, 100);
    assert_eq!(r.relative_humidity as f32 / 10.0, 40.0);
    assert_eq!(r.temperature as f32 / 10.0, 10.0);
}

#[test]
fn model_b_negative_temperature() {
    let r = dht22::Reading::raw_to_reading([0, 0, 0x80 | 0x01, 0x90]);
    assert_eq!(r.temperature, -400);
    assert_eq!(r.temperature as f32 / 10.0, -40.0);
    assert_eq!(r.relative_humidity, 0);
}

#[test]
fn decoding_is_pure() {
    let bytes = [45, 7, 0x80 | 10, 3];
    assert_eq!(
        dht11::Reading::raw_to_reading(bytes),
        dht11::Reading::raw_to_reading(bytes)
    );
    assert_eq!(
        dht22::Reading::raw_to_reading(bytes),
        dht22::Reading::raw_to_reading(bytes)
    );
}

#[test]
fn read_decodes_successful_acquisition() {
    let r = dht11::Reading::read::<AcqError>(Ok([60, 1, 25, 2]));
    assert_eq!(
        r,
        Ok(dht11::Reading {
            temperature: 25,
            relative_humidity: 60
        })
    );
    let r = dht22::Reading::read::<AcqError>(Ok([0x01, 0x90, 0x00, 0x64]));
    assert_eq!(
        r,
        Ok(dht22::Reading {
            temperature: 100,
            relative_humidity: 400
        })
    );
}

#[test]
fn read_forwards_acquisition_error_verbatim() {
    let r = dht11::Reading::read::<AcqError>(Err(AcqError::ChecksumMismatch));
    assert_eq!(r, Err(AcqError::ChecksumMismatch));
    let r = dht22::Reading::read::<AcqError>(Err(AcqError::Timeout));
    assert_eq!(r, Err(AcqError::Timeout));
}

#[test]
fn models_decode_identical_bytes_by_their_own_rules() {
    let bytes = [60, 0, 25, 0];
    let a = dht11::Reading::raw_to_reading(bytes);
    let b = dht22::Reading::raw_to_reading(bytes);
    // Model A: byte 0 is whole percent, byte 2 whole degrees.
    assert_eq!(a.relative_humidity, 60);
    assert_eq!(a.temperature, 25);
    // Model B: the same bytes are the high halves of 16-bit tenths counts.
    assert_eq!(b.relative_humidity, 60 * 256);
    assert_eq!(b.temperature, 25 * 256);
    // The two interpretations legitimately disagree.
    assert_ne!(b.relative_humidity, a.relative_humidity as u16 * 10);
    assert_ne!(b.temperature, a.temperature as i16 * 10);
}
