//! One decoded sensor reading, and the builder that stages its fields.

use crate::bytes::{le_u16, u16_from_le};
use vstd::prelude::*;

verus! {

/// What a finished reading shows for a field that was never supplied.
pub const NOT_SUPPLIED: u16 = 0xFFFF;

/// The twelve fields of a reading as plain values: what a [`PM25Reading`]
/// stands for in contracts.
pub struct Measurements {
    /// PM1.0 mass concentration under standard conditions.
    pub pm10_standard: u16,
    /// PM2.5 mass concentration under standard conditions.
    pub pm25_standard: u16,
    /// PM10.0 mass concentration under standard conditions.
    pub pm100_standard: u16,
    /// PM1.0 mass concentration under ambient conditions.
    pub pm10_env: u16,
    /// PM2.5 mass concentration under ambient conditions.
    pub pm25_env: u16,
    /// PM10.0 mass concentration under ambient conditions.
    pub pm100_env: u16,
    /// Count of particles of 0.3um and more.
    pub particles_03um: u16,
    /// Count of particles of 0.5um and more.
    pub particles_05um: u16,
    /// Count of particles of 1.0um and more.
    pub particles_10um: u16,
    /// Count of particles of 2.5um and more.
    pub particles_25um: u16,
    /// Count of particles of 5.0um and more.
    pub particles_50um: u16,
    /// Count of particles of 10.0um and more.
    pub particles_100um: u16,
}

/// The twelve fields of a builder as plain values, each supplied or not:
/// what a [`PM25ReadingBuilder`] stands for in contracts.
pub struct Staged {
    pub pm10_standard: Option<u16>,
    pub pm25_standard: Option<u16>,
    pub pm100_standard: Option<u16>,
    pub pm10_env: Option<u16>,
    pub pm25_env: Option<u16>,
    pub pm100_env: Option<u16>,
    pub particles_03um: Option<u16>,
    pub particles_05um: Option<u16>,
    pub particles_10um: Option<u16>,
    pub particles_25um: Option<u16>,
    pub particles_50um: Option<u16>,
    pub particles_100um: Option<u16>,
}

/// The value that a finished reading shows for a staged field.
pub open spec fn or_not_supplied(field: Option<u16>) -> u16 {
    match field {
        Some(value) => value,
        None => NOT_SUPPLIED,
    }
}

impl Measurements {
    /// The measurements whose fields all have the same value.
    pub open spec fn uniform(value: u16) -> Measurements {
        Measurements {
            pm10_standard: value,
            pm25_standard: value,
            pm100_standard: value,
            pm10_env: value,
            pm25_env: value,
            pm100_env: value,
            particles_03um: value,
            particles_05um: value,
            particles_10um: value,
            particles_25um: value,
            particles_50um: value,
            particles_100um: value,
        }
    }
}

impl Staged {
    /// Nothing supplied yet.
    pub open spec fn empty() -> Staged {
        Staged {
            pm10_standard: None,
            pm25_standard: None,
            pm100_standard: None,
            pm10_env: None,
            pm25_env: None,
            pm100_env: None,
            particles_03um: None,
            particles_05um: None,
            particles_10um: None,
            particles_25um: None,
            particles_50um: None,
            particles_100um: None,
        }
    }

    /// Every field supplied, with the values of `fields`.
    pub open spec fn full(fields: Measurements) -> Staged {
        Staged {
            pm10_standard: Some(fields.pm10_standard),
            pm25_standard: Some(fields.pm25_standard),
            pm100_standard: Some(fields.pm100_standard),
            pm10_env: Some(fields.pm10_env),
            pm25_env: Some(fields.pm25_env),
            pm100_env: Some(fields.pm100_env),
            particles_03um: Some(fields.particles_03um),
            particles_05um: Some(fields.particles_05um),
            particles_10um: Some(fields.particles_10um),
            particles_25um: Some(fields.particles_25um),
            particles_50um: Some(fields.particles_50um),
            particles_100um: Some(fields.particles_100um),
        }
    }

    /// The measurements that finishing yields: each supplied value as it
    /// is, [`NOT_SUPPLIED`] for each field without one.
    pub open spec fn finished(self) -> Measurements {
        Measurements {
            pm10_standard: or_not_supplied(self.pm10_standard),
            pm25_standard: or_not_supplied(self.pm25_standard),
            pm100_standard: or_not_supplied(self.pm100_standard),
            pm10_env: or_not_supplied(self.pm10_env),
            pm25_env: or_not_supplied(self.pm25_env),
            pm100_env: or_not_supplied(self.pm100_env),
            particles_03um: or_not_supplied(self.particles_03um),
            particles_05um: or_not_supplied(self.particles_05um),
            particles_10um: or_not_supplied(self.particles_10um),
            particles_25um: or_not_supplied(self.particles_25um),
            particles_50um: or_not_supplied(self.particles_50um),
            particles_100um: or_not_supplied(self.particles_100um),
        }
    }
}

/// Air quality reading of the sensor: a plain record of twelve values.
#[derive(Clone, Copy, Debug, PartialEq, Eq, Structural)]
pub struct PM25Reading {
    pm10_standard: u16,
    pm25_standard: u16,
    pm100_standard: u16,
    pm10_env: u16,
    pm25_env: u16,
    pm100_env: u16,
    particles_03um: u16,
    particles_05um: u16,
    particles_10um: u16,
    particles_25um: u16,
    particles_50um: u16,
    particles_100um: u16,
}

impl View for PM25Reading {
    type V = Measurements;

    closed spec fn view(&self) -> Measurements {
        Measurements {
            pm10_standard: self.pm10_standard,
            pm25_standard: self.pm25_standard,
            pm100_standard: self.pm100_standard,
            pm10_env: self.pm10_env,
            pm25_env: self.pm25_env,
            pm100_env: self.pm100_env,
            particles_03um: self.particles_03um,
            particles_05um: self.particles_05um,
            particles_10um: self.particles_10um,
            particles_25um: self.particles_25um,
            particles_50um: self.particles_50um,
            particles_100um: self.particles_100um,
        }
    }
}

impl PM25Reading {
    /// The PM1.0 mass concentration under standard conditions.
    pub fn pm10_standard(&self) -> (value: u16)
        ensures
            value == self@.pm10_standard,
    {
        self.pm10_standard
    }

    /// The PM2.5 mass concentration under standard conditions.
    pub fn pm25_standard(&self) -> (value: u16)
        ensures
            value == self@.pm25_standard,
    {
        self.pm25_standard
    }

    /// The PM10.0 mass concentration under standard conditions.
    pub fn pm100_standard(&self) -> (value: u16)
        ensures
            value == self@.pm100_standard,
    {
        self.pm100_standard
    }

    /// The PM1.0 mass concentration under ambient conditions.
    pub fn pm10_env(&self) -> (value: u16)
        ensures
            value == self@.pm10_env,
    {
        self.pm10_env
    }

    /// The PM2.5 mass concentration under ambient conditions.
    pub fn pm25_env(&self) -> (value: u16)
        ensures
            value == self@.pm25_env,
    {
        self.pm25_env
    }

    /// The PM10.0 mass concentration under ambient conditions.
    pub fn pm100_env(&self) -> (value: u16)
        ensures
            value == self@.pm100_env,
    {
        self.pm100_env
    }

    /// The count of particles of 0.3um and more.
    pub fn particles_03um(&self) -> (value: u16)
        ensures
            value == self@.particles_03um,
    {
        self.particles_03um
    }

    /// The count of particles of 0.5um and more.
    pub fn particles_05um(&self) -> (value: u16)
        ensures
            value == self@.particles_05um,
    {
        self.particles_05um
    }

    /// The count of particles of 1.0um and more.
    pub fn particles_10um(&self) -> (value: u16)
        ensures
            value == self@.particles_10um,
    {
        self.particles_10um
    }

    /// The count of particles of 2.5um and more.
    pub fn particles_25um(&self) -> (value: u16)
        ensures
            value == self@.particles_25um,
    {
        self.particles_25um
    }

    /// The count of particles of 5.0um and more.
    pub fn particles_50um(&self) -> (value: u16)
        ensures
            value == self@.particles_50um,
    {
        self.particles_50um
    }

    /// The count of particles of 10.0um and more.
    pub fn particles_100um(&self) -> (value: u16)
        ensures
            value == self@.particles_100um,
    {
        self.particles_100um
    }

    /// Readings are values: two readings with the same twelve fields are
    /// the same reading.
    pub proof fn lemma_same_fields_same_reading(self, other: PM25Reading)
        requires
            self@ == other@,
        ensures
            self == other,
    {
    }
}

/// Stages the fields of a reading one by one. A field that is supplied
/// twice keeps the later value.
pub struct PM25ReadingBuilder {
    pm10_standard: Option<u16>,
    pm25_standard: Option<u16>,
    pm100_standard: Option<u16>,
    pm10_env: Option<u16>,
    pm25_env: Option<u16>,
    pm100_env: Option<u16>,
    particles_03um: Option<u16>,
    particles_05um: Option<u16>,
    particles_10um: Option<u16>,
    particles_25um: Option<u16>,
    particles_50um: Option<u16>,
    particles_100um: Option<u16>,
}

impl View for PM25ReadingBuilder {
    type V = Staged;

    closed spec fn view(&self) -> Staged {
        Staged {
            pm10_standard: self.pm10_standard,
            pm25_standard: self.pm25_standard,
            pm100_standard: self.pm100_standard,
            pm10_env: self.pm10_env,
            pm25_env: self.pm25_env,
            pm100_env: self.pm100_env,
            particles_03um: self.particles_03um,
            particles_05um: self.particles_05um,
            particles_10um: self.particles_10um,
            particles_25um: self.particles_25um,
            particles_50um: self.particles_50um,
            particles_100um: self.particles_100um,
        }
    }
}

/// The stored value of a staged field, or [`NOT_SUPPLIED`].
fn resolve(field: Option<u16>) -> (value: u16)
    ensures
        value == or_not_supplied(field),
{
    match field {
        Some(value) => value,
        None => NOT_SUPPLIED,
    }
}

impl PM25ReadingBuilder {
    /// A builder with no field supplied.
    pub fn new() -> (builder: Self)
        ensures
            builder@ == Staged::empty(),
    {
        Self {
            pm10_standard: None,
            pm25_standard: None,
            pm100_standard: None,
            pm10_env: None,
            pm25_env: None,
            pm100_env: None,
            particles_03um: None,
            particles_05um: None,
            particles_10um: None,
            particles_25um: None,
            particles_50um: None,
            particles_100um: None,
        }
    }

    /// Supplies the PM1.0 mass concentration under standard conditions, as its two little-endian bytes.
    pub fn pm10_standard(self, value: [u8; 2]) -> (builder: Self)
        ensures
            builder@ == (Staged { pm10_standard: Some(le_u16(value@[0], value@[1])), ..self@ }),
    {
        let mut builder = self;
        builder.pm10_standard = Some(u16_from_le(value));
        builder
    }

    /// Supplies the PM2.5 mass concentration under standard conditions, as its two little-endian bytes.
    pub fn pm25_standard(self, value: [u8; 2]) -> (builder: Self)
        ensures
            builder@ == (Staged { pm25_standard: Some(le_u16(value@[0], value@[1])), ..self@ }),
    {
        let mut builder = self;
        builder.pm25_standard = Some(u16_from_le(value));
        builder
    }

    /// Supplies the PM10.0 mass concentration under standard conditions, as its two little-endian bytes.
    pub fn pm100_standard(self, value: [u8; 2]) -> (builder: Self)
        ensures
            builder@ == (Staged { pm100_standard: Some(le_u16(value@[0], value@[1])), ..self@ }),
    {
        let mut builder = self;
        builder.pm100_standard = Some(u16_from_le(value));
        builder
    }

    /// Supplies the PM1.0 mass concentration under ambient conditions, as its two little-endian bytes.
    pub fn pm10_env(self, value: [u8; 2]) -> (builder: Self)
        ensures
            builder@ == (Staged { pm10_env: Some(le_u16(value@[0], value@[1])), ..self@ }),
    {
        let mut builder = self;
        builder.pm10_env = Some(u16_from_le(value));
        builder
    }

    /// Supplies the PM2.5 mass concentration under ambient conditions, as its two little-endian bytes.
    pub fn pm25_env(self, value: [u8; 2]) -> (builder: Self)
        ensures
            builder@ == (Staged { pm25_env: Some(le_u16(value@[0], value@[1])), ..self@ }),
    {
        let mut builder = self;
        builder.pm25_env = Some(u16_from_le(value));
        builder
    }

    /// Supplies the PM10.0 mass concentration under ambient conditions, as its two little-endian bytes.
    pub fn pm100_env(self, value: [u8; 2]) -> (builder: Self)
        ensures
            builder@ == (Staged { pm100_env: Some(le_u16(value@[0], value@[1])), ..self@ }),
    {
        let mut builder = self;
        builder.pm100_env = Some(u16_from_le(value));
        builder
    }

    /// Supplies the count of particles of 0.3um and more, as its two little-endian bytes.
    pub fn particles_03um(self, value: [u8; 2]) -> (builder: Self)
        ensures
            builder@ == (Staged { particles_03um: Some(le_u16(value@[0], value@[1])), ..self@ }),
    {
        let mut builder = self;
        builder.particles_03um = Some(u16_from_le(value));
        builder
    }

    /// Supplies the count of particles of 0.5um and more, as its two little-endian bytes.
    pub fn particles_05um(self, value: [u8; 2]) -> (builder: Self)
        ensures
            builder@ == (Staged { particles_05um: Some(le_u16(value@[0], value@[1])), ..self@ }),
    {
        let mut builder = self;
        builder.particles_05um = Some(u16_from_le(value));
        builder
    }

    /// Supplies the count of particles of 1.0um and more, as its two little-endian bytes.
    pub fn particles_10um(self, value: [u8; 2]) -> (builder: Self)
        ensures
            builder@ == (Staged { particles_10um: Some(le_u16(value@[0], value@[1])), ..self@ }),
    {
        let mut builder = self;
        builder.particles_10um = Some(u16_from_le(value));
        builder
    }

    /// Supplies the count of particles of 2.5um and more, as its two little-endian bytes.
    pub fn particles_25um(self, value: [u8; 2]) -> (builder: Self)
        ensures
            builder@ == (Staged { particles_25um: Some(le_u16(value@[0], value@[1])), ..self@ }),
    {
        let mut builder = self;
        builder.particles_25um = Some(u16_from_le(value));
        builder
    }

    /// Supplies the count of particles of 5.0um and more, as its two little-endian bytes.
    pub fn particles_50um(self, value: [u8; 2]) -> (builder: Self)
        ensures
            builder@ == (Staged { particles_50um: Some(le_u16(value@[0], value@[1])), ..self@ }),
    {
        let mut builder = self;
        builder.particles_50um = Some(u16_from_le(value));
        builder
    }

    /// Supplies the count of particles of 10.0um and more, as its two little-endian bytes.
    pub fn particles_100um(self, value: [u8; 2]) -> (builder: Self)
        ensures
            builder@ == (Staged { particles_100um: Some(le_u16(value@[0], value@[1])), ..self@ }),
    {
        let mut builder = self;
        builder.particles_100um = Some(u16_from_le(value));
        builder
    }

    /// Finishes the reading: every supplied field with its value, every
    /// other field with [`NOT_SUPPLIED`].
    pub fn build(self) -> (reading: PM25Reading)
        ensures
            reading@ == self@.finished(),
    {
        PM25Reading {
            pm10_standard: resolve(self.pm10_standard),
            pm25_standard: resolve(self.pm25_standard),
            pm100_standard: resolve(self.pm100_standard),
            pm10_env: resolve(self.pm10_env),
            pm25_env: resolve(self.pm25_env),
            pm100_env: resolve(self.pm100_env),
            particles_03um: resolve(self.particles_03um),
            particles_05um: resolve(self.particles_05um),
            particles_10um: resolve(self.particles_10um),
            particles_25um: resolve(self.particles_25um),
            particles_50um: resolve(self.particles_50um),
            particles_100um: resolve(self.particles_100um),
        }
    }
}

/// A builder that was handed nothing finishes as the reading whose twelve
/// fields are all [`NOT_SUPPLIED`], that is `0xFFFF`.
pub proof fn lemma_empty_finishes_not_supplied()
    ensures
        Staged::empty().finished() == Measurements::uniform(NOT_SUPPLIED),
        NOT_SUPPLIED == 0xFFFF,
{
}

/// A builder that was handed all twelve fields finishes as exactly those
/// fields: no value is lost or replaced.
pub proof fn lemma_full_finishes_unchanged(fields: Measurements)
    ensures
        Staged::full(fields).finished() == fields,
{
}

/// A field supplied as the bytes `[lo, hi]` finishes as `lo + 256 * hi`,
/// whichever of the twelve fields it is and whatever else was staged.
pub proof fn lemma_supplied_bytes_finish_as_word(staged: Staged, lo: u8, hi: u8)
    ensures
        le_u16(lo, hi) as int == lo as int + 256 * (hi as int),
        (Staged { pm10_standard: Some(le_u16(lo, hi)), ..staged }).finished().pm10_standard == le_u16(lo, hi),
        (Staged { pm25_standard: Some(le_u16(lo, hi)), ..staged }).finished().pm25_standard == le_u16(lo, hi),
        (Staged { pm100_standard: Some(le_u16(lo, hi)), ..staged }).finished().pm100_standard == le_u16(lo, hi),
        (Staged { pm10_env: Some(le_u16(lo, hi)), ..staged }).finished().pm10_env == le_u16(lo, hi),
        (Staged { pm25_env: Some(le_u16(lo, hi)), ..staged }).finished().pm25_env == le_u16(lo, hi),
        (Staged { pm100_env: Some(le_u16(lo, hi)), ..staged }).finished().pm100_env == le_u16(lo, hi),
        (Staged { particles_03um: Some(le_u16(lo, hi)), ..staged }).finished().particles_03um == le_u16(lo, hi),
        (Staged { particles_05um: Some(le_u16(lo, hi)), ..staged }).finished().particles_05um == le_u16(lo, hi),
        (Staged { particles_10um: Some(le_u16(lo, hi)), ..staged }).finished().particles_10um == le_u16(lo, hi),
        (Staged { particles_25um: Some(le_u16(lo, hi)), ..staged }).finished().particles_25um == le_u16(lo, hi),
        (Staged { particles_50um: Some(le_u16(lo, hi)), ..staged }).finished().particles_50um == le_u16(lo, hi),
        (Staged { particles_100um: Some(le_u16(lo, hi)), ..staged }).finished().particles_100um == le_u16(lo, hi),
{
}

} // verus!
