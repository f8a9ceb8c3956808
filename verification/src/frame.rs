//! The sensor's 32-byte frame: its layout, its validation and its decoding.
//!
//! | bytes  | meaning                                            |
//! |--------|----------------------------------------------------|
//! | 0      | address marker, always [`PM25_ADDRESS`]            |
//! | 1..4   | framing, not interpreted                           |
//! | 4..28  | twelve little-endian 16-bit fields                 |
//! | 28..30 | reserved, not interpreted                          |
//! | 30..32 | little-endian 16-bit checksum: sum of bytes 0..30  |

use crate::bytes::{
    byte_sum, high_byte, le_u16, lemma_byte_sum_bounds, lemma_le_u16_injective,
    lemma_word_of_own_bytes, low_byte, sum_prefix, u16_from_le, wrapping_byte_sum,
};
use crate::error::PM25Error;
use crate::reading::{Measurements, PM25Reading, PM25ReadingBuilder};
use crate::PM25_ADDRESS;
use core::fmt::Debug;
use vstd::prelude::*;

verus! {

/// Number of bytes of a frame.
pub const FRAME_LEN: usize = 32;

/// Number of leading bytes that the checksum covers.
pub const CHECKSUMMED_LEN: usize = 30;

/// The little-endian word at bytes `offset` and `offset + 1` of `frame`.
pub open spec fn word_at(frame: Seq<u8>, offset: int) -> u16
    recommends
        0 <= offset,
        offset + 1 < frame.len(),
{
    le_u16(frame[offset], frame[offset + 1])
}

/// The checksum that a frame ought to declare: the sum of its first 30
/// bytes in a 16-bit accumulator.
pub open spec fn computed_checksum(frame: Seq<u8>) -> u16
    recommends
        frame.len() == FRAME_LEN,
{
    wrapping_byte_sum(frame.subrange(0, CHECKSUMMED_LEN as int))
}

/// The checksum that a frame declares in its last two bytes.
pub open spec fn declared_checksum(frame: Seq<u8>) -> u16
    recommends
        frame.len() == FRAME_LEN,
{
    word_at(frame, CHECKSUMMED_LEN as int)
}

/// The twelve fields that a frame carries, read off its payload without
/// regard to address or checksum.
pub open spec fn payload(frame: Seq<u8>) -> Measurements
    recommends
        frame.len() == FRAME_LEN,
{
    Measurements {
        pm10_standard: word_at(frame, 4),
        pm25_standard: word_at(frame, 6),
        pm100_standard: word_at(frame, 8),
        pm10_env: word_at(frame, 10),
        pm25_env: word_at(frame, 12),
        pm100_env: word_at(frame, 14),
        particles_03um: word_at(frame, 16),
        particles_05um: word_at(frame, 18),
        particles_10um: word_at(frame, 20),
        particles_25um: word_at(frame, 22),
        particles_50um: word_at(frame, 24),
        particles_100um: word_at(frame, 26),
    }
}

/// What decoding a frame yields: the frame's fields if its address marker
/// and its checksum are right, else the first thing that is wrong with it.
pub open spec fn decoded<E: Debug>(frame: Seq<u8>) -> Result<Measurements, PM25Error<E>>
    recommends
        frame.len() == FRAME_LEN,
{
    if frame[0] != PM25_ADDRESS {
        Err(PM25Error::InvalidAddress { expected: PM25_ADDRESS, found: frame[0] })
    } else if declared_checksum(frame) != computed_checksum(frame) {
        Err(
            PM25Error::InvalidChecksum {
                expected: declared_checksum(frame),
                found: computed_checksum(frame),
            },
        )
    } else {
        Ok(payload(frame))
    }
}

/// What a read of the sensor yields, given how the bus transaction ended
/// and what it left in the buffer: the transport's error as it is, else
/// what decoding the frame yields.
pub open spec fn read_result<E: Debug>(transfer: Result<(), E>, frame: Seq<u8>) -> Result<
    Measurements,
    PM25Error<E>,
>
    recommends
        frame.len() == FRAME_LEN,
{
    match transfer {
        Err(e) => Err(PM25Error::I2C(e)),
        Ok(_) => decoded(frame),
    }
}

/// A result with the reading of its `Ok` replaced by the reading's fields.
pub open spec fn measurements_of<E: Debug>(result: Result<PM25Reading, PM25Error<E>>) -> Result<
    Measurements,
    PM25Error<E>,
> {
    match result {
        Ok(reading) => Ok(reading@),
        Err(e) => Err(e),
    }
}

/// The two bytes of `buffer` at `offset`.
fn pair_at(buffer: &[u8; 32], offset: usize) -> (pair: [u8; 2])
    requires
        offset + 1 < FRAME_LEN,
    ensures
        pair@ == buffer@.subrange(offset as int, offset + 2),
        le_u16(pair@[0], pair@[1]) == word_at(buffer@, offset as int),
{
    let pair: [u8; 2] = [buffer[offset], buffer[offset + 1]];
    assert(pair@ =~= buffer@.subrange(offset as int, offset + 2));
    pair
}

/// Sums the first 30 bytes of a frame in a 16-bit accumulator.
pub fn checksum(buffer: &[u8; 32]) -> (sum: u16)
    ensures
        sum == computed_checksum(buffer@),
        sum as int == byte_sum(buffer@.subrange(0, 30)),
        sum <= 7650,
{
    proof {
        lemma_byte_sum_bounds(buffer@.subrange(0, 30));
    }
    sum_prefix(buffer.as_slice(), CHECKSUMMED_LEN)
}

/// Decodes the payload of a frame, whatever its address and checksum.
fn decode_payload(buffer: &[u8; 32]) -> (reading: PM25Reading)
    ensures
        reading@ == payload(buffer@),
{
    PM25ReadingBuilder::new()
        .pm10_standard(pair_at(buffer, 4))
        .pm25_standard(pair_at(buffer, 6))
        .pm100_standard(pair_at(buffer, 8))
        .pm10_env(pair_at(buffer, 10))
        .pm25_env(pair_at(buffer, 12))
        .pm100_env(pair_at(buffer, 14))
        .particles_03um(pair_at(buffer, 16))
        .particles_05um(pair_at(buffer, 18))
        .particles_10um(pair_at(buffer, 20))
        .particles_25um(pair_at(buffer, 22))
        .particles_50um(pair_at(buffer, 24))
        .particles_100um(pair_at(buffer, 26))
        .build()
}

/// Validates and decodes one frame.
///
/// A frame whose first byte is not [`PM25_ADDRESS`] is refused as
/// `InvalidAddress`, whatever else it holds. One with the right address
/// but a checksum that does not match is refused as `InvalidChecksum`.
/// Every other frame decodes, to the twelve fields of its payload.
pub fn decode<E: Debug>(buffer: &[u8; 32]) -> (result: Result<PM25Reading, PM25Error<E>>)
    ensures
        measurements_of(result) == decoded::<E>(buffer@),
        buffer@[0] != PM25_ADDRESS ==> result == Err::<PM25Reading, PM25Error<E>>(
            PM25Error::InvalidAddress { expected: PM25_ADDRESS, found: buffer@[0] },
        ),
        buffer@[0] == PM25_ADDRESS && declared_checksum(buffer@) != computed_checksum(buffer@)
            ==> result == Err::<PM25Reading, PM25Error<E>>(
            PM25Error::InvalidChecksum {
                expected: declared_checksum(buffer@),
                found: computed_checksum(buffer@),
            },
        ),
        buffer@[0] == PM25_ADDRESS && declared_checksum(buffer@) == computed_checksum(buffer@)
            ==> result is Ok && result->Ok_0@ == payload(buffer@),
        !(result matches Err(PM25Error::I2C(_))),
{
    if buffer[0] != PM25_ADDRESS {
        return Err(PM25Error::InvalidAddress { expected: PM25_ADDRESS, found: buffer[0] });
    }
    let sum: u16 = checksum(buffer);
    let expected_checksum: u16 = u16_from_le(pair_at(buffer, CHECKSUMMED_LEN));
    if sum != expected_checksum {
        return Err(PM25Error::InvalidChecksum { expected: expected_checksum, found: sum });
    }
    Ok(decode_payload(buffer))
}

/// Completes a read of the sensor, given how the bus transaction ended and
/// the buffer that it was to fill: hands on the transport's error, else
/// decodes the buffer.
pub fn finish_read<E: Debug>(transfer: Result<(), E>, buffer: &[u8; 32]) -> (result: Result<
    PM25Reading,
    PM25Error<E>,
>)
    ensures
        measurements_of(result) == read_result(transfer, buffer@),
        transfer matches Err(e) ==> result == Err::<PM25Reading, PM25Error<E>>(PM25Error::I2C(e)),
        transfer is Ok ==> measurements_of(result) == decoded::<E>(buffer@),
{
    match transfer {
        Err(e) => Err(PM25Error::I2C(e)),
        Ok(_) => decode(buffer),
    }
}

/// The first 30 bytes of the frame that carries `fields`: the address
/// marker, the three bytes of `framing`, the twelve fields in little-endian
/// order and the two bytes of `reserved`.
pub open spec fn frame_body(fields: Measurements, framing: Seq<u8>, reserved: Seq<u8>) -> Seq<u8>
    recommends
        framing.len() == 3,
        reserved.len() == 2,
{
    seq![
        PM25_ADDRESS,
        framing[0],
        framing[1],
        framing[2],
        low_byte(fields.pm10_standard),
        high_byte(fields.pm10_standard),
        low_byte(fields.pm25_standard),
        high_byte(fields.pm25_standard),
        low_byte(fields.pm100_standard),
        high_byte(fields.pm100_standard),
        low_byte(fields.pm10_env),
        high_byte(fields.pm10_env),
        low_byte(fields.pm25_env),
        high_byte(fields.pm25_env),
        low_byte(fields.pm100_env),
        high_byte(fields.pm100_env),
        low_byte(fields.particles_03um),
        high_byte(fields.particles_03um),
        low_byte(fields.particles_05um),
        high_byte(fields.particles_05um),
        low_byte(fields.particles_10um),
        high_byte(fields.particles_10um),
        low_byte(fields.particles_25um),
        high_byte(fields.particles_25um),
        low_byte(fields.particles_50um),
        high_byte(fields.particles_50um),
        low_byte(fields.particles_100um),
        high_byte(fields.particles_100um),
        reserved[0],
        reserved[1],
    ]
}

/// The valid frame that carries `fields`: its body, then the body's
/// checksum in little-endian order.
pub open spec fn frame_of(fields: Measurements, framing: Seq<u8>, reserved: Seq<u8>) -> Seq<u8>
    recommends
        framing.len() == 3,
        reserved.len() == 2,
{
    let body = frame_body(fields, framing, reserved);
    let sum = wrapping_byte_sum(body);
    body + seq![low_byte(sum), high_byte(sum)]
}

/// Decoding is all or nothing, and it never blames the transport: a frame
/// decodes to its whole payload or is refused for its address or for its
/// checksum.
pub proof fn lemma_decoded_outcomes<E: Debug>(frame: Seq<u8>)
    requires
        frame.len() == FRAME_LEN,
    ensures
        decoded::<E>(frame) is Ok <==> frame[0] == PM25_ADDRESS && declared_checksum(frame)
            == computed_checksum(frame),
        decoded::<E>(frame) is Ok ==> decoded::<E>(frame)->Ok_0 == payload(frame),
        decoded::<E>(frame) matches Err(PM25Error::InvalidAddress { expected, found })
            <==> frame[0] != PM25_ADDRESS,
        decoded::<E>(frame) matches Err(PM25Error::InvalidChecksum { expected, found })
            <==> frame[0] == PM25_ADDRESS && declared_checksum(frame) != computed_checksum(frame),
        !(decoded::<E>(frame) matches Err(PM25Error::I2C(_))),
{
}

/// The 30 checksummed bytes of a frame sum to at most 7650, so the 16-bit
/// sum never wraps: the computed checksum is the plain sum of those bytes.
pub proof fn lemma_checksum_is_plain_sum(frame: Seq<u8>)
    requires
        frame.len() == FRAME_LEN,
    ensures
        computed_checksum(frame) as int == byte_sum(frame.subrange(0, 30)),
        computed_checksum(frame) <= 7650,
{
    lemma_byte_sum_bounds(frame.subrange(0, 30));
}

/// Round trip: the frame built from twelve field values, with any framing
/// and reserved bytes, decodes to exactly those values.
pub proof fn lemma_round_trip<E: Debug>(fields: Measurements, framing: Seq<u8>, reserved: Seq<u8>)
    requires
        framing.len() == 3,
        reserved.len() == 2,
    ensures
        frame_of(fields, framing, reserved).len() == FRAME_LEN,
        decoded::<E>(frame_of(fields, framing, reserved)) == Ok::<Measurements, PM25Error<E>>(
            fields,
        ),
{
    let body = frame_body(fields, framing, reserved);
    let sum = wrapping_byte_sum(body);
    let frame = frame_of(fields, framing, reserved);
    assert(frame.subrange(0, 30) =~= body);
    lemma_word_of_own_bytes(sum);
    assert(declared_checksum(frame) == computed_checksum(frame));
    assert(payload(frame) == fields);
}

/// A frame that decodes stops decoding once its checksum bytes are
/// changed and its other bytes are left alone, be it by 1 or by any other
/// amount, in one of the two bytes or in both: it is then refused as
/// `InvalidChecksum`, with the changed checksum as `expected` and the
/// one it had before as `found`.
pub proof fn lemma_changed_checksum_refused<E: Debug>(frame: Seq<u8>, changed: Seq<u8>)
    requires
        frame.len() == FRAME_LEN,
        changed.len() == FRAME_LEN,
        decoded::<E>(frame) is Ok,
        changed.subrange(0, 30) == frame.subrange(0, 30),
        changed[30] != frame[30] || changed[31] != frame[31],
    ensures
        decoded::<E>(changed) == Err::<Measurements, PM25Error<E>>(
            PM25Error::InvalidChecksum {
                expected: declared_checksum(changed),
                found: declared_checksum(frame),
            },
        ),
{
    assert(changed[0] == changed.subrange(0, 30)[0]);
    assert(frame[0] == frame.subrange(0, 30)[0]);
    if declared_checksum(changed) == declared_checksum(frame) {
        lemma_le_u16_injective(changed[30], changed[31], frame[30], frame[31]);
    }
}

} // verus!
