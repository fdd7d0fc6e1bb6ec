//! Tests of the SPI configuration and the polled transfer operations over
//! the eUSCI register model.

use msp430fr2355_hal::clock::{Aclk, Smclk};
use msp430fr2355_hal::gpio::{Parts, P1, P4};
use msp430fr2355_hal::pmm::Pmm;
use msp430fr2355_hal::spi::{
    EUsciA0, EUsciB1, Mode, Phase, Polarity, SPIBusConfig, Ucmode, Ucssel, UsciB1MISOPin,
    WouldBlock,
};

#[test]
fn new_config_maps_mode_exactly() {
    let usci = EUsciA0::steal();
    let mode = Mode { polarity: Polarity::IdleHigh, phase: Phase::CaptureOnFirstTransition };
    let conf = SPIBusConfig::new(usci, mode, true);

    let ctw0 = conf.read_ctw0();
    assert_eq!(ctw0.ucckph, true);
    assert_eq!(ctw0.ucckpl, true);
    assert_eq!(ctw0.ucmsb, true);
    assert_eq!(ctw0.uc7bit, false);
    assert_eq!(ctw0.ucmst, true);
    assert_eq!(ctw0.ucsync, true);
    assert_eq!(ctw0.ucstem, true);
    assert_eq!(ctw0.ucswrst, true);
    assert_eq!(ctw0.ucmode, Ucmode::FourPinSPI0);
    assert_eq!(ctw0.ucssel, Ucssel::Uclk);
    assert_eq!(conf.read_prescaler(), 0);
}

#[test]
fn new_config_maps_the_other_mode_corner() {
    let usci = EUsciA0::steal();
    let mode = Mode { polarity: Polarity::IdleLow, phase: Phase::CaptureOnSecondTransition };
    let conf = SPIBusConfig::new(usci, mode, false);

    let ctw0 = conf.read_ctw0();
    assert_eq!(ctw0.ucckph, false);
    assert_eq!(ctw0.ucckpl, false);
    assert_eq!(ctw0.ucmsb, false);
}

#[test]
fn clock_selection_sets_source_and_divisor() {
    let usci = EUsciA0::steal();
    let mode = Mode { polarity: Polarity::IdleLow, phase: Phase::CaptureOnFirstTransition };
    let mut conf = SPIBusConfig::new(usci, mode, true);

    let smclk = Smclk::new();
    conf.use_smclk(&smclk, 16);
    assert_eq!(conf.read_ctw0().ucssel, Ucssel::Smclk);
    assert_eq!(conf.read_prescaler(), 16);

    let aclk = Aclk::new();
    conf.use_aclk(&aclk, 3);
    assert_eq!(conf.read_ctw0().ucssel, Ucssel::Aclk);
    assert_eq!(conf.read_prescaler(), 3);
}

#[test]
fn spi_pins_configures_the_peripheral() {
    let pmm = Pmm::new();
    let parts = Parts::new(P1::steal());

    // eUSCI A0's four signals are wired to port 1 pins 7..=4 under
    // alternate function 1; no other pin converts into these markers.
    let miso = parts.pin7.unlock(&pmm).to_alternate1();
    let mosi = parts.pin6.unlock(&pmm).to_alternate1();
    let sclk = parts.pin5.unlock(&pmm).to_alternate1();
    let cs = parts.pin4.unlock(&pmm).to_alternate1();

    let usci = EUsciA0::steal();
    let mode = Mode { polarity: Polarity::IdleHigh, phase: Phase::CaptureOnSecondTransition };
    let mut conf = SPIBusConfig::new(usci, mode, true);
    let smclk = Smclk::new();
    conf.use_smclk(&smclk, 8);

    let pins = conf.spi_pins(miso, mosi, sclk, cs);
    let regs = pins.read_regs();
    assert_eq!(regs.ctw0.ucswrst, false);
    assert_eq!(regs.ctw0.ucckph, false);
    assert_eq!(regs.ctw0.ucckpl, true);
    assert_eq!(regs.ctw0.ucssel, Ucssel::Smclk);
    assert_eq!(regs.brw, 8);
    assert_eq!(regs.listen, false);
    assert_eq!(regs.tx_int_en, false);
    assert_eq!(regs.rx_int_en, false);
    // The buffers and ready flags keep their reset state.
    assert_eq!(regs.tx_flag, true);
    assert_eq!(regs.rx_flag, false);
}

#[test]
fn send_and_read_follow_the_ready_flags() {
    let pmm = Pmm::new();
    let parts = Parts::new(P1::steal());
    let miso = parts.pin7.unlock(&pmm).to_alternate1();
    let mosi = parts.pin6.unlock(&pmm).to_alternate1();
    let sclk = parts.pin5.unlock(&pmm).to_alternate1();
    let cs = parts.pin4.unlock(&pmm).to_alternate1();

    let usci = EUsciA0::steal();
    let mode = Mode { polarity: Polarity::IdleLow, phase: Phase::CaptureOnFirstTransition };
    let mut conf = SPIBusConfig::new(usci, mode, true);
    let smclk = Smclk::new();
    conf.use_smclk(&smclk, 4);
    let mut pins = conf.spi_pins(miso, mosi, sclk, cs);

    // Fresh out of reset the transmit buffer is free and nothing has been
    // received.
    assert_eq!(pins.read(), Err(WouldBlock));
    assert_eq!(pins.send(0x5A), Ok(()));
    assert_eq!(pins.read_regs().txbuf, 0x5A);

    // The buffer is busy until the hardware has clocked the byte out.
    assert_eq!(pins.send(0x77), Err(WouldBlock));
    assert_eq!(pins.read_regs().txbuf, 0x5A);

    pins.hw_transfer_complete(0xA5);
    assert_eq!(pins.read(), Ok(0xA5));
    // Reading consumed the byte.
    assert_eq!(pins.read(), Err(WouldBlock));
    // And the transmit buffer is free again.
    assert_eq!(pins.send(0x77), Ok(()));
}

#[test]
fn interrupt_enables_and_raw_writes() {
    let pmm = Pmm::new();
    let parts = Parts::new(P1::steal());
    let miso = parts.pin7.unlock(&pmm).to_alternate1();
    let mosi = parts.pin6.unlock(&pmm).to_alternate1();
    let sclk = parts.pin5.unlock(&pmm).to_alternate1();
    let cs = parts.pin4.unlock(&pmm).to_alternate1();

    let usci = EUsciA0::steal();
    let mode = Mode { polarity: Polarity::IdleLow, phase: Phase::CaptureOnFirstTransition };
    let mut conf = SPIBusConfig::new(usci, mode, false);
    let smclk = Smclk::new();
    conf.use_smclk(&smclk, 2);
    let mut pins = conf.spi_pins(miso, mosi, sclk, cs);

    pins.rx_interrupt_set(true);
    pins.tx_interrupt_set(true);
    let regs = pins.read_regs();
    assert_eq!(regs.rx_int_en, true);
    assert_eq!(regs.tx_int_en, true);

    pins.write_no_check(0xEE);
    let regs = pins.read_regs();
    assert_eq!(regs.txbuf, 0xEE);
    assert_eq!(regs.tx_flag, false);
}

#[test]
fn each_signal_accepts_its_wired_pin() {
    let pmm = Pmm::new();
    let parts = Parts::new(P4::steal());

    // eUSCI B1's MISO signal is wired to port 4 pin 7 under alternate
    // function 1; the conversion exists for exactly that handle type.
    let pin = parts.pin7.unlock(&pmm).to_alternate1();
    let _miso: UsciB1MISOPin = UsciB1MISOPin::from(pin);

    let usci = EUsciB1::steal();
    let mode = Mode { polarity: Polarity::IdleLow, phase: Phase::CaptureOnFirstTransition };
    let conf = SPIBusConfig::new(usci, mode, true);
    assert_eq!(conf.read_ctw0().ucswrst, true);
}
