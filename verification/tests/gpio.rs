//! Scenario tests for the pin typestate machine over the register model.

use msp430fr2355_hal::gpio::{Parts, Pin, Pxin, Unlocked};
use msp430fr2355_hal::gpio::{Floating, Input, Pin5 as PinNum5, Port2, Port5};
use msp430fr2355_hal::gpio::{P1, P2, P3, P4, P5, P6};
use msp430fr2355_hal::pmm::Pmm;

#[test]
fn direction_bit_tracks_typestate() {
    let pmm = Pmm::new();
    let parts = Parts::new(P1::steal());
    let mut pxdir = parts.pxdir;
    assert_eq!(pxdir.read_dir(), 0);

    let pin3 = parts.pin3.unlock(&pmm);
    let pin3 = pin3.to_output(&mut pxdir);
    // The handle's type is now Output and the direction register holds
    // exactly that pin's bit.
    assert_eq!(pxdir.read_dir(), 0b0000_1000);

    let pin3 = pin3.to_input(&mut pxdir);
    assert_eq!(pxdir.read_dir(), 0);
    let _ = pin3;
}

#[test]
fn direction_updates_leave_other_pins_alone() {
    let pmm = Pmm::new();
    let parts = Parts::new(P2::steal());
    let mut pxdir = parts.pxdir;

    let _pin0 = parts.pin0.unlock(&pmm).to_output(&mut pxdir);
    let _pin7 = parts.pin7.unlock(&pmm).to_output(&mut pxdir);
    assert_eq!(pxdir.read_dir(), 0b1000_0001);

    // Reconfiguring pin 7 does not disturb pin 0's direction bit.
    let _pin7 = _pin7.to_input(&mut pxdir);
    assert_eq!(pxdir.read_dir(), 0b0000_0001);
}

#[test]
fn round_trip_restores_registers() {
    let pmm = Pmm::new();
    let parts = Parts::new(P5::steal());
    let mut pxdir = parts.pxdir;
    let mut pxout = parts.pxout;
    let dir_before = pxdir.read_dir();
    let out_before = pxout.read_out();
    let ren_before = pxout.read_ren();

    let pin5 = parts.pin5.unlock(&pmm);
    let pin5 = pin5.to_output(&mut pxdir);
    let pin5 = pin5.to_input(&mut pxdir);
    // The result is type-equal to a fresh pin taken straight from Unknown
    // to Input<Floating>.
    let pin5: Pin<Port5, PinNum5, Input<Floating>, Unlocked> =
        pin5.float(&mut pxout);
    let _ = pin5;

    assert_eq!(pxdir.read_dir(), dir_before);
    assert_eq!(pxout.read_out(), out_before);
    assert_eq!(pxout.read_ren(), ren_before);
}

#[test]
fn pull_configuration_writes_out_and_ren() {
    let pmm = Pmm::new();
    let parts = Parts::new(P3::steal());
    let mut pxdir = parts.pxdir;
    let mut pxout = parts.pxout;

    let pin1 = parts.pin1.unlock(&pmm).to_input(&mut pxdir);
    let pin1 = pin1.pullup(&mut pxout);
    assert_eq!(pxout.read_out(), 0b0000_0010);
    assert_eq!(pxout.read_ren(), 0b0000_0010);

    let pin1 = pin1.pulldown(&mut pxout);
    assert_eq!(pxout.read_out(), 0);
    assert_eq!(pxout.read_ren(), 0b0000_0010);

    let pin1 = pin1.float(&mut pxout);
    assert_eq!(pxout.read_out(), 0);
    assert_eq!(pxout.read_ren(), 0);
    let _ = pin1;
}

#[test]
fn interrupt_enable_clears_stale_pending_flag() {
    let pmm = Pmm::new();
    let parts = Parts::new(P3::steal());
    let mut pxdir = parts.pxdir;
    let mut pxout = parts.pxout;
    let mut pxint = parts.pxint;

    let pin2 = parts.pin2.unlock(&pmm).to_input(&mut pxdir);
    let mut pin2 = pin2.pullup(&mut pxout);

    // Configure a falling edge, then let the hardware latch a pending
    // request for the pin.
    pin2.enable_interrupt_falling_edge(&mut pxint);
    pxint.latch_interrupt(2);
    assert_eq!(pxint.read_ifg() & 0b0000_0100, 0b0000_0100);
    assert_eq!(pxint.read_ies() & 0b0000_0100, 0b0000_0100);

    // Re-enabling for the rising edge must leave the pending flag clear,
    // the edge select on rising and the enable bit set, whatever the
    // flag's prior value.
    pin2.enable_interrupt_rising_edge(&mut pxint);
    assert_eq!(pxint.read_ifg() & 0b0000_0100, 0);
    assert_eq!(pxint.read_ies() & 0b0000_0100, 0);
    assert_eq!(pxint.read_ie() & 0b0000_0100, 0b0000_0100);

    pin2.disable_interrupt(&mut pxint);
    assert_eq!(pxint.read_ie() & 0b0000_0100, 0);
    // Edge select and flag are left as they were.
    assert_eq!(pxint.read_ies() & 0b0000_0100, 0);
}

#[test]
fn unlock_performs_no_register_write() {
    let pmm = Pmm::new();
    let parts = Parts::new(P4::steal());
    let mut pxdir = parts.pxdir;

    // A locked handle offers no reconfiguration method; `unlock` is the
    // only way forward, and it writes nothing.
    let locked = parts.pin0;
    let pin0 = locked.unlock(&pmm);
    assert_eq!(pxdir.read_dir(), 0);
    assert_eq!(parts.pxout.read_out(), 0);
    assert_eq!(parts.pxout.read_ren(), 0);

    // After the unlock the direction methods for its state are available.
    let _pin0 = pin0.to_output(&mut pxdir);
    assert_eq!(pxdir.read_dir(), 0b0000_0001);
}

#[test]
fn proxy_set_high_toggle_reads_low() {
    let pmm = Pmm::new();
    let parts = Parts::new(P1::steal());
    let mut pxdir = parts.pxdir;

    // Give another pin of the port a known high level first, so the test
    // can see that it stays untouched.
    let pin1 = parts.pin1.unlock(&pmm).to_output(&mut pxdir);
    let mut proxy1 = pin1.proxy(parts.pxout);
    proxy1.set_high().unwrap();
    let (_pin1, pxout) = proxy1.free();
    let out_before = pxout.read_out();
    assert_eq!(out_before, 0b0000_0010);

    let pin6 = parts.pin6.unlock(&pmm).to_output(&mut pxdir);
    let mut proxy = pin6.proxy(pxout);
    proxy.set_high().unwrap();
    proxy.toggle().unwrap();
    // The toggle flipped the freshly set bit back to low.
    assert_eq!(proxy.is_set_low().unwrap(), true);
    assert_eq!(proxy.is_set_high().unwrap(), false);

    let (_pin6, pxout) = proxy.free();
    assert_eq!(pxout.read_out() & 0b0100_0000, 0);
    // Every other bit of the output register is as it was before.
    assert_eq!(pxout.read_out() & !0b0100_0000, out_before);
}

#[test]
fn output_token_threads_through_proxies() {
    // The port has exactly one PxOUT token; building a second proxy is
    // only possible after the first gives the token back.  (Holding two
    // proxies of the port at once does not compile: the token is not
    // copyable, `Parts::new` is the only place it is created, and the
    // proxy holds both it and the pin until `free`.)
    let pmm = Pmm::new();
    let parts = Parts::new(P6::steal());
    let mut pxdir = parts.pxdir;

    let pin0 = parts.pin0.unlock(&pmm).to_output(&mut pxdir);
    let pin1 = parts.pin1.unlock(&pmm).to_output(&mut pxdir);

    let mut proxy0 = pin0.proxy(parts.pxout);
    proxy0.set_high().unwrap();
    let (_pin0, pxout) = proxy0.free();

    let mut proxy1 = pin1.proxy(pxout);
    proxy1.set_high().unwrap();
    let (_pin1, pxout) = proxy1.free();

    assert_eq!(pxout.read_out(), 0b0000_0011);
}

#[test]
fn input_reads_follow_the_input_register() {
    let pmm = Pmm::new();
    let parts = Parts::new(P2::steal());
    let mut pxdir = parts.pxdir;
    let mut pxout = parts.pxout;

    let pin4 = parts.pin4.unlock(&pmm).to_input(&mut pxdir);
    let pin4 = pin4.float(&mut pxout);

    let high: Pxin<Port2> = Pxin::new(0b0001_0000);
    assert_eq!(pin4.is_high(&high).unwrap(), true);
    assert_eq!(pin4.is_low(&high).unwrap(), false);

    let low: Pxin<Port2> = Pxin::new(0b1110_1111);
    assert_eq!(pin4.is_high(&low).unwrap(), false);
    assert_eq!(pin4.is_low(&low).unwrap(), true);
}

#[test]
fn alternate_transitions_write_expected_select_patterns() {
    let pmm = Pmm::new();
    let parts = Parts::new(P1::steal());

    let pin0 = parts.pin0.unlock(&pmm);
    assert_eq!(pin0.sel_bits(), (false, false));

    let alt1 = pin0.to_alternate1();
    assert_eq!(alt1.sel_bits(), (true, false));

    let alt2 = alt1.to_alternate2();
    assert_eq!(alt2.sel_bits(), (false, true));

    let alt3 = alt2.to_alternate3();
    assert_eq!(alt3.sel_bits(), (true, true));

    let gpio = alt3.to_gpio();
    assert_eq!(gpio.sel_bits(), (false, false));
}

#[test]
fn complement_write_reaches_alternate3_in_one_step() {
    // From the GPIO pattern (0, 0), the single select-complement write of
    // `to_alternate3` ends in the same (1, 1) state that the two
    // independent select writes of `to_alternate1` then `to_alternate3`
    // reach.
    let pmm = Pmm::new();

    let direct = Parts::new(P1::steal());
    let alt3 = direct.pin2.unlock(&pmm).to_alternate3();
    assert_eq!(alt3.sel_bits(), (true, true));

    let stepped = Parts::new(P1::steal());
    let alt3 = stepped.pin2.unlock(&pmm).to_alternate1().to_alternate3();
    assert_eq!(alt3.sel_bits(), (true, true));
}

#[test]
fn input_only_alternate_is_reachable_from_input() {
    let pmm = Pmm::new();
    let parts = Parts::new(P2::steal());
    let mut pxdir = parts.pxdir;

    // On port 2, alternate function 1 of pin 2 exists only for inputs.
    let pin2 = parts.pin2.unlock(&pmm).to_input(&mut pxdir);
    let alt1 = pin2.to_alternate1();
    assert_eq!(alt1.sel_bits(), (true, false));
}

#[test]
fn output_only_alternate_is_reachable_from_output() {
    // On port 2, alternate function 2 of pin 0 exists only for outputs.
    let pmm = Pmm::new();
    let parts = Parts::new(P2::steal());
    let mut pxdir = parts.pxdir;

    let pin0 = parts.pin0.unlock(&pmm).to_output(&mut pxdir);
    let alt2 = pin0.to_alternate2();
    assert_eq!(alt2.sel_bits(), (false, true));
}

#[test]
fn alternate_to_alternate_paths_write_expected_patterns() {
    // Port 5 pin 1 offers all three alternate functions, so every
    // alternate-to-alternate edge can be walked on it.
    let pmm = Pmm::new();
    let parts = Parts::new(P5::steal());

    let alt1 = parts.pin1.unlock(&pmm).to_alternate1();
    let alt3 = alt1.to_alternate3();
    assert_eq!(alt3.sel_bits(), (true, true));
    let alt1 = alt3.to_alternate1();
    assert_eq!(alt1.sel_bits(), (true, false));
    let alt2 = alt1.to_alternate2();
    assert_eq!(alt2.sel_bits(), (false, true));
    let alt3 = alt2.to_alternate3();
    assert_eq!(alt3.sel_bits(), (true, true));
    let alt2 = alt3.to_alternate2();
    assert_eq!(alt2.sel_bits(), (false, true));
    let gpio = alt2.to_gpio();
    assert_eq!(gpio.sel_bits(), (false, false));
}

#[test]
fn port3_alternate3_and_back() {
    let pmm = Pmm::new();
    let parts = Parts::new(P3::steal());

    let alt3 = parts.pin7.unlock(&pmm).to_alternate3();
    assert_eq!(alt3.sel_bits(), (true, true));
    let gpio = alt3.to_gpio();
    assert_eq!(gpio.sel_bits(), (false, false));
}

#[test]
fn batch_split_writes_whole_port_and_unlocks() {
    let pmm = Pmm::new();
    let parts = Parts::new(P6::steal());
    let mut pxdir = parts.pxdir;
    let mut pxout = parts.pxout;

    let pin0 = parts.pin0.unlock(&pmm).to_output(&mut pxdir);
    let pin1 = parts.pin1.unlock(&pmm).to_input(&mut pxdir).pullup(&mut pxout);
    let pin2 = parts.pin2.unlock(&pmm).to_input(&mut pxdir).pulldown(&mut pxout);
    let pin3 = parts.pin3.unlock(&pmm);
    let pin4 = parts.pin4.unlock(&pmm);
    let pin5 = parts.pin5.unlock(&pmm);
    let pin6 = parts.pin6.unlock(&pmm);
    let pin7 = parts.pin7.unlock(&pmm);

    let whole = Parts {
        pin0,
        pin1,
        pin2,
        pin3,
        pin4,
        pin5,
        pin6,
        pin7,
        pxint: parts.pxint,
        pxout,
        pxdir,
    };
    let parts = whole.batch().split(&pmm);

    // The batch wrote each register from the pins' typestates in one go.
    assert_eq!(parts.pxdir.read_dir(), 0b0000_0001);
    assert_eq!(parts.pxout.read_out(), 0b0000_0010);
    assert_eq!(parts.pxout.read_ren(), 0b0000_0110);
    assert_eq!(parts.pxint.read_ies(), 0);
    assert_eq!(parts.pxint.read_ifg(), 0);
    assert_eq!(parts.pxint.read_ie(), 0);
    assert_eq!(parts.pin0.sel_bits(), (false, false));

    // The pins come out unlocked: reconfiguring needs no further unlock.
    let mut pxdir = parts.pxdir;
    let _pin3 = parts.pin3.to_output(&mut pxdir);
    assert_eq!(pxdir.read_dir(), 0b0000_1001);
}
