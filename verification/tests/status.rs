use nes_core::status::CpuStatus;

#[test]
fn new_status_has_only_bit_five() {
    let status = CpuStatus::new();
    assert_eq!(status.bits(), 0b0010_0000);
    assert!(!status.get_carry());
    assert!(!status.get_zero());
    assert!(!status.get_int_disable());
    assert!(!status.get_decimal());
    assert!(!status.get_break());
    assert!(!status.get_overflow());
    assert!(!status.get_negative());
}

#[test]
fn each_setter_sets_its_own_bit() {
    let mut status = CpuStatus::new();
    status.set_carry(true);
    assert_eq!(status.bits(), 0b0010_0001);
    status.set_zero(true);
    assert_eq!(status.bits(), 0b0010_0011);
    status.set_int_disable(true);
    assert_eq!(status.bits(), 0b0010_0111);
    status.set_decimal(true);
    assert_eq!(status.bits(), 0b0010_1111);
    status.set_break(true);
    assert_eq!(status.bits(), 0b0011_1111);
    status.set_overflow(true);
    assert_eq!(status.bits(), 0b0111_1111);
    status.set_negative(true);
    assert_eq!(status.bits(), 0b1111_1111);
    assert!(status.get_carry() && status.get_zero() && status.get_int_disable());
    assert!(status.get_decimal() && status.get_break());
    assert!(status.get_overflow() && status.get_negative());
}

#[test]
fn each_setter_clears_its_own_bit() {
    let mut status = CpuStatus::restore(0xff);
    assert_eq!(status.bits(), 0b1110_1111);
    status.set_negative(false);
    assert_eq!(status.bits(), 0b0110_1111);
    status.set_overflow(false);
    assert_eq!(status.bits(), 0b0010_1111);
    status.set_decimal(false);
    assert_eq!(status.bits(), 0b0010_0111);
    status.set_int_disable(false);
    assert_eq!(status.bits(), 0b0010_0011);
    status.set_zero(false);
    assert_eq!(status.bits(), 0b0010_0001);
    status.set_carry(false);
    assert_eq!(status.bits(), 0b0010_0000);
    status.set_break(true);
    status.set_break(false);
    assert_eq!(status.bits(), 0b0010_0000);
}

#[test]
fn overflow_is_bit_six_not_bit_five() {
    let mut status = CpuStatus::new();
    status.set_overflow(false);
    assert_eq!(status.bits(), 0x20);
    status.set_overflow(true);
    assert_eq!(status.bits(), 0x60);
    assert!(status.get_overflow());
}

#[test]
fn bit_five_survives_every_setter() {
    for on in [false, true] {
        let mut status = CpuStatus::new();
        status.set_carry(on);
        status.set_zero(on);
        status.set_int_disable(on);
        status.set_decimal(on);
        status.set_break(on);
        status.set_overflow(on);
        status.set_negative(on);
        assert_eq!(status.bits() & 0x20, 0x20);
    }
}

#[test]
fn restore_forces_bit_five_and_clears_break() {
    assert_eq!(CpuStatus::restore(0x00).bits(), 0x20);
    assert_eq!(CpuStatus::restore(0x10).bits(), 0x20);
    assert_eq!(CpuStatus::restore(0xdf).bits(), 0xef);
    assert_eq!(CpuStatus::restore(0x83).bits(), 0xa3);
}

#[test]
fn zero_and_negative_follow_the_result() {
    let mut status = CpuStatus::new();
    status.set_zero_negative(0x00);
    assert_eq!(status.bits(), 0x22);
    status.set_zero_negative(0x80);
    assert_eq!(status.bits(), 0xa0);
    status.set_zero_negative(0x7f);
    assert_eq!(status.bits(), 0x20);
}
