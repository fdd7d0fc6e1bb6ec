//! Tests of the delay provider's spin-count formula.

use msp430fr2355_hal::delay::Delay;

#[test]
fn spin_count_for_one_mib_clock() {
    // 2^20 Hz: one unit of the shifted frequency, 210 spins per ms.
    let d = Delay::new(1_048_576);
    assert_eq!(d.nops_per_ms(), 210);
}

#[test]
fn spin_count_for_eight_mhz_clock() {
    // 8_000_000 >> 20 == 7, so 1470 spins per ms.
    let d = Delay::new(8_000_000);
    assert_eq!(d.nops_per_ms(), 1470);
}

#[test]
fn spin_count_below_one_mib_is_zero() {
    let d = Delay::new(1_000_000);
    assert_eq!(d.nops_per_ms(), 0);
}

#[test]
fn spin_count_truncates_to_register_width() {
    // u32::MAX >> 20 == 4095; 210 * 4095 == 859_950, which truncates to
    // 859_950 - 13 * 65_536 == 7_982 in the sixteen-bit count.
    let d = Delay::new(u32::MAX);
    assert_eq!(d.nops_per_ms(), 7_982);
}
