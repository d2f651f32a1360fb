use lsm303agr::Config;

#[test]
fn with_high_sets_exactly_the_mask_bits() {
    let c = Config { bits: 0b0000_0101 };
    let r = c.with_high(0b1000_0010);
    assert_eq!(r.bits, 0b0000_0101 | 0b1000_0010);
    assert_eq!(c.bits, 0b0000_0101);
}

#[test]
fn with_low_clears_exactly_the_mask_bits() {
    let c = Config { bits: 0b1111_0101 };
    let r = c.with_low(0b1000_0100);
    assert_eq!(r.bits, 0b1111_0101 & !0b1000_0100);
    assert_eq!(c.bits, 0b1111_0101);
}

#[test]
fn is_high_after_with_high_is_true() {
    let flags: [u8; 5] = [0x01, 0x08, 0x10, 0x80, 0xC0];
    for f in flags {
        let c = Config { bits: 0b0011_0011 };
        assert!(c.with_high(f).is_high(f));
    }
}

#[test]
fn is_high_after_with_low_is_false() {
    let flags: [u8; 5] = [0x01, 0x08, 0x10, 0x80, 0xC0];
    for f in flags {
        let c = Config { bits: 0xFF };
        assert!(!c.with_low(f).is_high(f));
    }
}

#[test]
fn disjoint_flags_do_not_interfere() {
    let c = Config { bits: 0x00 }.with_high(0x01);
    assert!(c.is_high(0x01));
    let c2 = c.with_high(0x02);
    assert!(c2.is_high(0x01));
    assert!(c2.is_high(0x02));
    let c3 = c2.with_low(0x02);
    assert!(c3.is_high(0x01));
    assert!(!c3.is_high(0x02));
}

#[test]
fn sequences_of_transformations_compose_bitwise() {
    let c = Config { bits: 0x07 };
    let r = c.with_high(0x80).with_low(0x05).with_high(0x10);
    assert_eq!(r.bits, ((0x07u8 | 0x80) & !0x05) | 0x10);
}
