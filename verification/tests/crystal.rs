use beryl::crystal::{Crystal, CrystalPart};
use beryl::BerylError;

#[test]
fn converts_i64() {
    assert_eq!(i64::from(Crystal::from_parts(0, 0, 0).unwrap()), 0i64);
    assert_eq!(
        i64::from(Crystal::from_parts(0x3FFF, 0xFF, 0x3FFFFFFFFFF).unwrap()),
        -1i64
    );

    // Conversion should be transitive by bit representation
    assert_eq!(Crystal::from(-1i64), Crystal::from(u64::MAX));
    assert_eq!(Crystal::from(0i64), Crystal::from(0u64));
}

#[test]
fn to_parts_inverts_from_parts() {
    let c = Crystal::from_parts(42, 42, 42).unwrap();
    assert_eq!(c.generator(), 42);
    assert_eq!(c.counter(), 42);
    assert_eq!(c.timestamp(), 42);
}

#[test]
fn from_parts_checks_bounds() {
    // Should be out of bounds
    Crystal::from_parts(u16::MAX, u16::MAX, u64::MAX).unwrap_err();
    assert_eq!(
        Crystal::from_parts(0x4000, 0, 0),
        Err(BerylError::PartOutOfBounds(CrystalPart::GeneratorId))
    );
    assert_eq!(
        Crystal::from_parts(0, 0x100, 0),
        Err(BerylError::PartOutOfBounds(CrystalPart::Counter))
    );
    assert_eq!(
        Crystal::from_parts(0, 0, 0x40000000000),
        Err(BerylError::PartOutOfBounds(CrystalPart::Timestamp))
    );

    // Should not be out of bounds
    assert_eq!(Crystal::from_parts(0, 0, 0), Ok(Crystal::from(u64::MIN)));
    assert_eq!(
        Crystal::from_parts(0x3FFF, 0xFF, 0x3FFFFFFFFFF),
        Ok(Crystal::from(u64::MAX))
    );
}

#[test]
fn first_field_out_of_bounds_is_reported() {
    assert_eq!(
        Crystal::from_parts(u16::MAX, u16::MAX, u64::MAX),
        Err(BerylError::PartOutOfBounds(CrystalPart::GeneratorId))
    );
    assert_eq!(
        Crystal::from_parts(0x3FFF, u16::MAX, u64::MAX),
        Err(BerylError::PartOutOfBounds(CrystalPart::Counter))
    );
    assert_eq!(
        Crystal::from_parts(0x3FFF, 0xFF, u64::MAX),
        Err(BerylError::PartOutOfBounds(CrystalPart::Timestamp))
    );
}

#[test]
fn fields_sit_at_their_bits() {
    assert_eq!(u64::from(Crystal::from_parts(1, 0, 0).unwrap()), 1u64 << 50);
    assert_eq!(u64::from(Crystal::from_parts(0, 1, 0).unwrap()), 1u64 << 42);
    assert_eq!(u64::from(Crystal::from_parts(0, 0, 1).unwrap()), 1u64);
    assert_eq!(
        u64::from(Crystal::from_parts(0x3FFF, 0, 0).unwrap()),
        0xFFFC_0000_0000_0000
    );
    assert_eq!(
        u64::from(Crystal::from_parts(0, 0xFF, 0).unwrap()),
        0x0003_FC00_0000_0000
    );
    assert_eq!(
        u64::from(Crystal::from_parts(0, 0, 0x3FF_FFFF_FFFF).unwrap()),
        0x0000_03FF_FFFF_FFFF
    );
    assert_eq!(
        u64::from(Crystal::from_parts(0x1234, 0x56, 0x2_89AB_CDEF).unwrap()),
        (0x1234u64 << 50) | (0x56u64 << 42) | 0x2_89AB_CDEF
    );
}

#[test]
fn fields_survive_packing() {
    let generators = [0u16, 1, 2, 42, 0x1FFF, 0x2000, 0x3FFE, 0x3FFF];
    let counters = [0u16, 1, 2, 42, 0x7F, 0x80, 0xFE, 0xFF];
    let timestamps = [
        0u64,
        1,
        42,
        1_700_000_000_000,
        0x1FF_FFFF_FFFF,
        0x200_0000_0000,
        0x3FF_FFFF_FFFE,
        0x3FF_FFFF_FFFF,
    ];
    for g in generators {
        for c in counters {
            for t in timestamps {
                let crystal = Crystal::from_parts(g, c, t).unwrap();
                assert_eq!(crystal.generator(), g);
                assert_eq!(crystal.counter(), c);
                assert_eq!(crystal.timestamp(), t);
                assert_eq!(Crystal::from_parts_unchecked(g, c, t), crystal);
            }
        }
    }
}

#[test]
fn every_pattern_is_the_packing_of_its_fields() {
    let patterns = [
        0u64,
        1,
        u64::MAX,
        0x8000_0000_0000_0000,
        0x7FFF_FFFF_FFFF_FFFF,
        0x0123_4567_89AB_CDEF,
        0xFEDC_BA98_7654_3210,
        0x0004_0000_0000_0000,
        0x0000_0400_0000_0000,
    ];
    for bits in patterns {
        let crystal = Crystal::from(bits);
        assert!(crystal.generator() <= 0x3FFF);
        assert!(crystal.counter() <= 0xFF);
        assert!(crystal.timestamp() <= 0x3FF_FFFF_FFFF);
        assert_eq!(
            Crystal::from_parts(crystal.generator(), crystal.counter(), crystal.timestamp()),
            Ok(crystal)
        );
        assert_eq!(u64::from(crystal), bits);
    }
}

#[test]
fn unchecked_packing_shifts_and_ors() {
    // The two highest bits of a 16-bit generator id are shifted out.
    let c = Crystal::from_parts_unchecked(0xFFFF, 0, 0);
    assert_eq!(u64::from(c), 0xFFFC_0000_0000_0000);
    assert_eq!(c.generator(), 0x3FFF);
    // A counter of nine bits reaches into the generator id.
    let c = Crystal::from_parts_unchecked(0, 0x100, 0);
    assert_eq!(u64::from(c), 1u64 << 50);
    assert_eq!(c.generator(), 1);
    assert_eq!(c.counter(), 0);
    // A timestamp of 43 bits reaches into the counter.
    let c = Crystal::from_parts_unchecked(0, 0, 0x400_0000_0000);
    assert_eq!(c.counter(), 1);
    assert_eq!(c.timestamp(), 0);
    // Overlapping fields are or-ed, not added.
    let c = Crystal::from_parts_unchecked(0, 1, 0x400_0000_0001);
    assert_eq!(u64::from(c), 0x400_0000_0001);
}

#[test]
fn signed_form_keeps_the_bits() {
    assert_eq!(i64::from(Crystal::from(0u64)), 0);
    assert_eq!(i64::from(Crystal::from(1u64)), 1);
    assert_eq!(i64::from(Crystal::from(0x7FFF_FFFF_FFFF_FFFFu64)), i64::MAX);
    assert_eq!(i64::from(Crystal::from(0x8000_0000_0000_0000u64)), i64::MIN);
    assert_eq!(i64::from(Crystal::from(u64::MAX)), -1);
    assert_eq!(i64::from(Crystal::from(u64::MAX - 1)), -2);
    assert_eq!(u64::from(Crystal::from(i64::MIN)), 0x8000_0000_0000_0000);
    assert_eq!(u64::from(Crystal::from(-2i64)), u64::MAX - 1);
    assert_eq!(u64::from(Crystal::from(i64::MAX)), 0x7FFF_FFFF_FFFF_FFFF);
}

#[test]
fn signed_form_and_back_is_the_same_crystal() {
    let patterns = [
        0u64,
        1,
        u64::MAX,
        0x8000_0000_0000_0000,
        0x7FFF_FFFF_FFFF_FFFF,
        0x0123_4567_89AB_CDEF,
        0xFEDC_BA98_7654_3210,
    ];
    for bits in patterns {
        let crystal = Crystal::from(bits);
        let signed = i64::from(crystal);
        assert_eq!(Crystal::from(signed), crystal);
        assert_eq!(u64::from(Crystal::from(signed)), bits);
        assert_eq!(signed, bits as i64);
    }
    for raw in [0i64, 1, -1, i64::MIN, i64::MAX, -1234567890123] {
        assert_eq!(i64::from(Crystal::from(raw)), raw);
    }
}

#[test]
fn unsigned_form_is_the_identity() {
    for bits in [0u64, 1, 42, u64::MAX, 0x0123_4567_89AB_CDEF] {
        assert_eq!(u64::from(Crystal::from(bits)), bits);
    }
    assert_ne!(Crystal::from(1u64), Crystal::from(2u64));
}

#[test]
fn errors_describe_themselves() {
    assert_eq!(
        BerylError::PartOutOfBounds(CrystalPart::GeneratorId).message(),
        "Crystal part was out of bounds: GeneratorId\n"
    );
    assert_eq!(
        BerylError::PartOutOfBounds(CrystalPart::Counter).message(),
        "Crystal part was out of bounds: Counter\n"
    );
    assert_eq!(
        BerylError::PartOutOfBounds(CrystalPart::Timestamp).message(),
        "Crystal part was out of bounds: Timestamp\n"
    );
    assert_eq!(
        BerylError::GeneratorExhausted.message(),
        "Generator ran out of Crystals for this millisecond\n"
    );
}
