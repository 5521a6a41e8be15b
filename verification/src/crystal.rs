//! The bit layout of a crystal and the conversions on it.

use crate::BerylError;
use vstd::prelude::*;
use vstd::std_specs::convert::FromSpec;

verus! {

/// Largest generator id: 14 bits.
pub const GENERATOR_MAX: u16 = 0x3FFF;

/// Largest counter: 8 bits.
pub const COUNTER_MAX: u16 = 0xFF;

/// Largest timestamp: 42 bits.
pub const TIMESTAMP_MAX: u64 = 0x3FF_FFFF_FFFF;

/// The fields of a crystal.
#[derive(Clone, Copy, PartialEq, Eq, Debug, Structural)]
pub enum CrystalPart {
    GeneratorId,
    Counter,
    Timestamp,
}

/// Whether each field fits its width.
pub open spec fn in_bounds(generator: u16, counter: u16, timestamp: u64) -> bool {
    &&& generator <= GENERATOR_MAX
    &&& counter <= COUNTER_MAX
    &&& timestamp <= TIMESTAMP_MAX
}

/// The number whose binary digits are the three fields side by side:
/// the generator id above bit 50, the counter above bit 42, the timestamp below.
pub open spec fn pack(generator: nat, counter: nat, timestamp: nat) -> nat {
    generator * 0x4_0000_0000_0000 + counter * 0x400_0000_0000 + timestamp
}

/// What the shifts and ors of the unchecked constructor give on any input.
/// On fields that are out of bounds the fields overlap or lose bits.
pub open spec fn pack_bits(generator: u16, counter: u16, timestamp: u64) -> u64 {
    ((generator as u64) << 50) | ((counter as u64) << 42) | timestamp
}

/// The generator id held in a 64-bit pattern: bits 63 to 50.
pub open spec fn generator_of(bits: u64) -> nat {
    bits as nat / 0x4_0000_0000_0000
}

/// The counter held in a 64-bit pattern: bits 49 to 42.
pub open spec fn counter_of(bits: u64) -> nat {
    (bits as nat / 0x400_0000_0000) % 0x100
}

/// The timestamp held in a 64-bit pattern: bits 41 to 0.
pub open spec fn timestamp_of(bits: u64) -> nat {
    bits as nat % 0x400_0000_0000
}

/// On fields within bounds the shifts and ors compute `pack`.
pub proof fn lemma_pack_bits_in_bounds(generator: u16, counter: u16, timestamp: u64)
    requires
        in_bounds(generator, counter, timestamp),
    ensures
        pack_bits(generator, counter, timestamp) == pack(
            generator as nat,
            counter as nat,
            timestamp as nat,
        ),
{
    assert(((generator as u64) << 50) | ((counter as u64) << 42) | timestamp == generator
        * 0x4_0000_0000_0000 + counter * 0x400_0000_0000 + timestamp) by (bit_vector)
        requires
            generator <= 0x3FFF,
            counter <= 0xFF,
            timestamp <= 0x3FF_FFFF_FFFF,
    ;
}

/// The error that the checked constructor reports: that of the first field,
/// in the order generator id, counter, timestamp, that does not fit its width.
pub open spec fn bounds_error(generator: u16, counter: u16, timestamp: u64) -> Option<BerylError> {
    if generator > GENERATOR_MAX {
        Some(BerylError::PartOutOfBounds(CrystalPart::GeneratorId))
    } else if counter > COUNTER_MAX {
        Some(BerylError::PartOutOfBounds(CrystalPart::Counter))
    } else if timestamp > TIMESTAMP_MAX {
        Some(BerylError::PartOutOfBounds(CrystalPart::Timestamp))
    } else {
        None
    }
}

/// The signed number with the same 64 binary digits, in two's complement.
pub open spec fn signed_of(bits: u64) -> int {
    if bits < 0x8000_0000_0000_0000 {
        bits as int
    } else {
        bits - 0x1_0000_0000_0000_0000
    }
}

/// The unsigned number with the same 64 binary digits as a signed one.
pub open spec fn unsigned_of(raw: i64) -> int {
    if raw >= 0 {
        raw as int
    } else {
        raw + 0x1_0000_0000_0000_0000
    }
}

/// A 64-bit identifier.
#[derive(Clone, Copy, PartialEq, Eq, Debug, Structural)]
pub struct Crystal(u64);

impl View for Crystal {
    type V = u64;

    /// The identifier's bit pattern.
    closed spec fn view(&self) -> u64 {
        self.0
    }
}

impl Crystal {
    /// Packs three fields into a crystal, or names the first field that does
    /// not fit its width.
    pub fn from_parts(generator: u16, counter: u16, timestamp: u64) -> (result: Result<
        Self,
        BerylError,
    >)
        ensures
            match bounds_error(generator, counter, timestamp) {
                Some(e) => result == Err::<Self, BerylError>(e),
                None => {
                    &&& result matches Ok(crystal)
                    &&& crystal@ == pack(generator as nat, counter as nat, timestamp as nat)
                    &&& generator_of(crystal@) == generator
                    &&& counter_of(crystal@) == counter
                    &&& timestamp_of(crystal@) == timestamp
                },
            },
    {
        if generator > GENERATOR_MAX {
            return Err(BerylError::PartOutOfBounds(CrystalPart::GeneratorId));
        }
        if counter > COUNTER_MAX {
            return Err(BerylError::PartOutOfBounds(CrystalPart::Counter));
        }
        if timestamp > TIMESTAMP_MAX {
            return Err(BerylError::PartOutOfBounds(CrystalPart::Timestamp));
        }
        Ok(Self::from_parts_unchecked(generator, counter, timestamp))
    }

    /// Packs three fields without testing them against their widths. The
    /// caller answers for fields that fit; on others the result is still
    /// defined, but its fields are not those given.
    pub fn from_parts_unchecked(generator: u16, counter: u16, timestamp: u64) -> (crystal: Self)
        ensures
            crystal@ == pack_bits(generator, counter, timestamp),
            in_bounds(generator, counter, timestamp) ==> {
                &&& crystal@ == pack(generator as nat, counter as nat, timestamp as nat)
                &&& generator_of(crystal@) == generator
                &&& counter_of(crystal@) == counter
                &&& timestamp_of(crystal@) == timestamp
            },
    {
        proof {
            if in_bounds(generator, counter, timestamp) {
                lemma_pack_bits_in_bounds(generator, counter, timestamp);
                lemma_unpack_pack(generator, counter, timestamp);
            }
        }
        Crystal(((generator as u64) << 50) | ((counter as u64) << 42) | timestamp)
    }

    /// The id of the generator that made the crystal.
    pub fn generator(&self) -> (id: u16)
        ensures
            id == generator_of(self@),
            id <= GENERATOR_MAX,
    {
        let bits: u64 = self.0;
        assert(bits >> 50 == bits / 0x4_0000_0000_0000 && bits >> 50 <= 0x3FFF) by (bit_vector);
        (bits >> 50) as u16
    }

    /// The crystal's counter within its millisecond.
    pub fn counter(&self) -> (count: u16)
        ensures
            count == counter_of(self@),
            count <= COUNTER_MAX,
    {
        let bits: u64 = self.0;
        assert((bits & 0x3_FC00_0000_0000) >> 42 == (bits / 0x400_0000_0000) % 0x100 && (bits
            & 0x3_FC00_0000_0000) >> 42 <= 0xFF) by (bit_vector);
        ((bits & 0x3_FC00_0000_0000) >> 42) as u16
    }

    /// The millisecond, counted from the generator's epoch, in which the
    /// crystal was made.
    pub fn timestamp(&self) -> (millis: u64)
        ensures
            millis == timestamp_of(self@),
            millis <= TIMESTAMP_MAX,
    {
        let bits: u64 = self.0;
        assert(bits & 0x3FF_FFFF_FFFF == bits % 0x400_0000_0000 && bits & 0x3FF_FFFF_FFFF
            <= 0x3FF_FFFF_FFFF) by (bit_vector);
        bits & 0x3FF_FFFF_FFFF
    }
}

impl From<u64> for Crystal {
    /// The crystal with the given bit pattern. Every pattern is a crystal.
    fn from(bits: u64) -> (crystal: Self)
        ensures
            crystal@ == bits,
    {
        Crystal(bits)
    }
}

impl vstd::std_specs::convert::FromSpecImpl<u64> for Crystal {
    open spec fn obeys_from_spec() -> bool {
        true
    }

    closed spec fn from_spec(bits: u64) -> Self {
        Crystal(bits)
    }
}

impl From<Crystal> for u64 {
    /// The crystal's bit pattern.
    fn from(crystal: Crystal) -> (bits: u64)
        ensures
            bits == crystal@,
    {
        crystal.0
    }
}

impl vstd::std_specs::convert::FromSpecImpl<Crystal> for u64 {
    open spec fn obeys_from_spec() -> bool {
        true
    }

    open spec fn from_spec(crystal: Crystal) -> u64 {
        crystal@
    }
}

impl From<i64> for Crystal {
    /// The crystal whose bit pattern is that of a signed number: for stores
    /// that hold no unsigned 64-bit integers.
    fn from(raw: i64) -> (crystal: Self)
        ensures
            crystal@ == unsigned_of(raw),
    {
        assert(raw as u64 == (if raw >= 0 {
            raw as int
        } else {
            raw + 0x1_0000_0000_0000_0000
        })) by (bit_vector);
        Crystal(#[verifier::truncate] (raw as u64))
    }
}

impl vstd::std_specs::convert::FromSpecImpl<i64> for Crystal {
    open spec fn obeys_from_spec() -> bool {
        true
    }

    closed spec fn from_spec(raw: i64) -> Self {
        Crystal(unsigned_of(raw) as u64)
    }
}

impl From<Crystal> for i64 {
    /// The signed number with the crystal's bit pattern.
    fn from(crystal: Crystal) -> (raw: i64)
        ensures
            raw == signed_of(crystal@),
    {
        let bits: u64 = crystal.0;
        assert(bits as i64 == (if bits < 0x8000_0000_0000_0000 {
            bits as int
        } else {
            bits - 0x1_0000_0000_0000_0000
        })) by (bit_vector);
        #[verifier::truncate] (bits as i64)
    }
}

impl vstd::std_specs::convert::FromSpecImpl<Crystal> for i64 {
    open spec fn obeys_from_spec() -> bool {
        true
    }

    open spec fn from_spec(crystal: Crystal) -> i64 {
        signed_of(crystal@) as i64
    }
}

/// Unpacking what was packed gives the fields back: for fields within
/// bounds, the packed number fits in 64 bits and each field read from it is
/// the field that went in.
pub proof fn lemma_unpack_pack(generator: u16, counter: u16, timestamp: u64)
    requires
        in_bounds(generator, counter, timestamp),
    ensures
        pack(generator as nat, counter as nat, timestamp as nat) <= u64::MAX,
        generator_of(pack(generator as nat, counter as nat, timestamp as nat) as u64) == generator,
        counter_of(pack(generator as nat, counter as nat, timestamp as nat) as u64) == counter,
        timestamp_of(pack(generator as nat, counter as nat, timestamp as nat) as u64) == timestamp,
{
}

/// Packing what was unpacked gives the pattern back: the three fields tile
/// the 64 bits, so every pattern is the packing of its own fields, and each
/// of them is within bounds.
pub proof fn lemma_pack_unpack(bits: u64)
    ensures
        generator_of(bits) <= GENERATOR_MAX,
        counter_of(bits) <= COUNTER_MAX,
        timestamp_of(bits) <= TIMESTAMP_MAX,
        pack(generator_of(bits), counter_of(bits), timestamp_of(bits)) == bits,
{
}

/// The signed and the unsigned reading of 64 binary digits undo each other:
/// each stays within its type, and going there and back gives the number
/// that one started from.
pub proof fn lemma_signed_round_trip(bits: u64, raw: i64)
    ensures
        i64::MIN <= signed_of(bits) <= i64::MAX,
        unsigned_of(signed_of(bits) as i64) == bits,
        0 <= unsigned_of(raw) <= u64::MAX,
        signed_of(unsigned_of(raw) as u64) == raw,
{
}

/// A crystal turned into its signed form and back is the same crystal, and
/// so is a signed number turned into a crystal and back.
pub proof fn lemma_signed_form_round_trip(crystal: Crystal, raw: i64)
    ensures
        <Crystal as FromSpec<i64>>::from_spec(<i64 as FromSpec<Crystal>>::from_spec(crystal))
            == crystal,
        <i64 as FromSpec<Crystal>>::from_spec(<Crystal as FromSpec<i64>>::from_spec(raw)) == raw,
        <Crystal as FromSpec<u64>>::from_spec(<u64 as FromSpec<Crystal>>::from_spec(crystal))
            == crystal,
{
    lemma_signed_round_trip(crystal@, raw);
}

/// The crystal that `from` makes of a number has that number's binary
/// digits as its bit pattern.
pub proof fn lemma_from_spec_view(bits: u64, raw: i64)
    ensures
        <Crystal as FromSpec<u64>>::from_spec(bits)@ == bits,
        <Crystal as FromSpec<i64>>::from_spec(raw)@ == unsigned_of(raw),
{
}

/// A crystal is its bit pattern and nothing more: two crystals with the
/// same pattern are equal.
pub proof fn lemma_same_bits_same_crystal(a: Crystal, b: Crystal)
    requires
        a@ == b@,
    ensures
        a == b,
{
}

} // verus!
