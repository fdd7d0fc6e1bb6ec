//! The pin typestate machine and the register-contention token scheme.
//!
//! A pin handle's type records the pin's identity, its direction/pull/
//! alternate-function state and its power-lock state; every transition
//! method consumes the handle, performs the matching register update and
//! returns a handle of the new type, so an illegal configuration is not a
//! run-time error but a method that does not exist.
//!
//! The per-port registers are modelled as plain bytes.  The three shared
//! registers (direction, output and the interrupt group) are carried by the
//! port's three contention tokens, of which exactly one each exists per
//! port: any operation that mutates such a register must hold the token, so
//! two pin handles of the same port can never race on a read-modify-write.
//! The two function-select bits are pin-local on this hardware and are
//! carried by the pin handle itself.

use vstd::prelude::*;

use core::marker::PhantomData;

use crate::bits::{
    bit_is_set, clear_bit, flip_bit, lemma_bit_updates, lemma_set_then_clear_roundtrip, set_bit,
    test_bit, with_bit_clear, with_bit_flipped, with_bit_set,
};
use crate::pmm::Pmm;

verus! {

/// Relies on `void::Void` being uninhabited: the digital read/write
/// operations cannot fail on this hardware, but the shared digital-I/O
/// convention asks for a result, so they return it as their error type.
/// Nothing is assumed about it beyond its existence; no value of it is ever
/// made.
#[verifier::external_type_specification]
#[verifier::external_body]
pub struct ExVoid(void::Void);

/// Trait that encompasses all `Pinx` types for specifying a pin number.
pub trait PinNum {
    /// Pin number, as specifications see it.
    spec fn pin_spec() -> u8;

    /// The pin number is a bit position inside one eight-bit register.
    proof fn pin_spec_range()
        ensures
            Self::pin_spec() < 8,
    ;

    /// Pin number.
    fn pin() -> (r: u8)
        ensures
            r == Self::pin_spec(),
            r < 8,
    ;
}

/// Trait that encompasses all `Portx` types for specifying a GPIO port.
pub trait PortNum {

}

/// Marks the ports whose register-access capability exposes the
/// interrupt-edge/enable/flag registers.  On this chip those are ports P1
/// to P4; P5 and P6 have no interrupt registers, so the interrupt methods
/// do not exist for their pins.
pub trait IntrPort: PortNum {

}

/// Pin number 0
pub struct Pin0;

impl PinNum for Pin0 {
    open spec fn pin_spec() -> u8 {
        0
    }

    proof fn pin_spec_range() {
    }

    fn pin() -> u8 {
        0
    }
}

/// Pin number 1
pub struct Pin1;

impl PinNum for Pin1 {
    open spec fn pin_spec() -> u8 {
        1
    }

    proof fn pin_spec_range() {
    }

    fn pin() -> u8 {
        1
    }
}

/// Pin number 2
pub struct Pin2;

impl PinNum for Pin2 {
    open spec fn pin_spec() -> u8 {
        2
    }

    proof fn pin_spec_range() {
    }

    fn pin() -> u8 {
        2
    }
}

/// Pin number 3
pub struct Pin3;

impl PinNum for Pin3 {
    open spec fn pin_spec() -> u8 {
        3
    }

    proof fn pin_spec_range() {
    }

    fn pin() -> u8 {
        3
    }
}

/// Pin number 4
pub struct Pin4;

impl PinNum for Pin4 {
    open spec fn pin_spec() -> u8 {
        4
    }

    proof fn pin_spec_range() {
    }

    fn pin() -> u8 {
        4
    }
}

/// Pin number 5
pub struct Pin5;

impl PinNum for Pin5 {
    open spec fn pin_spec() -> u8 {
        5
    }

    proof fn pin_spec_range() {
    }

    fn pin() -> u8 {
        5
    }
}

/// Pin number 6
pub struct Pin6;

impl PinNum for Pin6 {
    open spec fn pin_spec() -> u8 {
        6
    }

    proof fn pin_spec_range() {
    }

    fn pin() -> u8 {
        6
    }
}

/// Pin number 7
pub struct Pin7;

impl PinNum for Pin7 {
    open spec fn pin_spec() -> u8 {
        7
    }

    proof fn pin_spec_range() {
    }

    fn pin() -> u8 {
        7
    }
}

/// Port P1
pub struct Port1;

impl PortNum for Port1 {

}

impl IntrPort for Port1 {

}

/// Port P2
pub struct Port2;

impl PortNum for Port2 {

}

impl IntrPort for Port2 {

}

/// Port P3
pub struct Port3;

impl PortNum for Port3 {

}

impl IntrPort for Port3 {

}

/// Port P4
pub struct Port4;

impl PortNum for Port4 {

}

impl IntrPort for Port4 {

}

/// Port P5
pub struct Port5;

impl PortNum for Port5 {

}

/// Port P6
pub struct Port6;

impl PortNum for Port6 {

}

/// Raw register-access capability for port P1.  Obtaining it is an
/// unchecked claim of access to the port's registers; all safety comes from
/// the typestate layer built on top of it.
pub struct P1;

impl P1 {
    /// Unchecked: claims access to port P1's registers.
    pub fn steal() -> (p: P1) {
        P1
    }
}

/// Raw register-access capability for port P2; see [`P1`].
pub struct P2;

impl P2 {
    /// Unchecked: claims access to port P2's registers.
    pub fn steal() -> (p: P2) {
        P2
    }
}

/// Raw register-access capability for port P3; see [`P1`].
pub struct P3;

impl P3 {
    /// Unchecked: claims access to port P3's registers.
    pub fn steal() -> (p: P3) {
        P3
    }
}

/// Raw register-access capability for port P4; see [`P1`].
pub struct P4;

impl P4 {
    /// Unchecked: claims access to port P4's registers.
    pub fn steal() -> (p: P4) {
        P4
    }
}

/// Raw register-access capability for port P5; see [`P1`].
pub struct P5;

impl P5 {
    /// Unchecked: claims access to port P5's registers.
    pub fn steal() -> (p: P5) {
        P5
    }
}

/// Raw register-access capability for port P6; see [`P1`].
pub struct P6;

impl P6 {
    /// Unchecked: claims access to port P6's registers.
    pub fn steal() -> (p: P6) {
        P6
    }
}

/// Trait implemented on the raw port capabilities to map each to its
/// respective port number type.
pub trait GpioPort {
    /// Port number
    type PortNum: PortNum;
}

impl GpioPort for P1 {
    type PortNum = Port1;
}

impl GpioPort for P2 {
    type PortNum = Port2;
}

impl GpioPort for P3 {
    type PortNum = Port3;
}

impl GpioPort for P4 {
    type PortNum = Port4;
}

impl GpioPort for P5 {
    type PortNum = Port5;
}

impl GpioPort for P6 {
    type PortNum = Port6;
}

/// The register encoding of a pin function state: the direction, output,
/// pull-enable and two function-select bits that a port-wide configuration
/// writes for a pin in that state, and whether the state pins down the
/// direction bit at all.
pub trait PinState {
    /// The direction bit the state is configured with.
    spec fn dir_bit() -> bool;

    /// Whether the state implies the value of the pin's direction bit
    /// (output and input states do; the unconfigured and alternate-function
    /// states leave the bit as it was).
    spec fn dir_known() -> bool;

    /// The output bit the state is configured with.
    spec fn out_bit() -> bool;

    /// The pull-enable bit the state is configured with.
    spec fn ren_bit() -> bool;

    /// The select-0 bit of the state's function-select pattern.
    spec fn sel0_bit() -> bool;

    /// The select-1 bit of the state's function-select pattern.
    spec fn sel1_bit() -> bool;

    /// The five encoded bits, in the order direction, output, pull-enable,
    /// select-0, select-1.
    fn reg_bits() -> (r: (bool, bool, bool, bool, bool))
        ensures
            r == (
                Self::dir_bit(),
                Self::out_bit(),
                Self::ren_bit(),
                Self::sel0_bit(),
                Self::sel1_bit(),
            ),
    ;
}

/// The (output, pull-enable) register encoding of an input pin's pull
/// state.
pub trait PullState {
    /// The output bit selecting the pull direction.
    spec fn out_bit() -> bool;

    /// The pull-enable bit.
    spec fn ren_bit() -> bool;

    /// The two encoded bits, output bit first.
    fn pull_bits() -> (r: (bool, bool))
        ensures
            r == (Self::out_bit(), Self::ren_bit()),
    ;
}

/// Marks the states a pin can reach an alternate function from: the plain
/// GPIO states, whose select bits are both clear.
pub trait GpioFunction: PinState {
    /// A plain GPIO state has both select bits clear.
    proof fn gpio_sel()
        ensures
            !Self::sel0_bit(),
            !Self::sel1_bit(),
    ;
}

/// Marks the states a pin can be configured as an output from.
pub trait ConvertToOutput: PinState {
    /// Every such state is a plain GPIO state: both select bits are clear.
    proof fn gpio_sel()
        ensures
            !Self::sel0_bit(),
            !Self::sel1_bit(),
    ;
}

/// Marks the states a pin can be configured as an input from.
pub trait ConvertToInput: PinState {
    /// Every such state is a plain GPIO state: both select bits are clear.
    proof fn gpio_sel()
        ensures
            !Self::sel0_bit(),
            !Self::sel1_bit(),
    ;
}

/// Marks the pull states that have been disambiguated (pullup, pulldown or
/// floating, as opposed to not yet known).
pub trait Known {

}

/// Typestate for an unknown state.
/// When used as a directional typestate, this signifies a non-alternate
/// (GPIO) pin whose direction bit has not been configured.
pub struct Unknown;

impl PinState for Unknown {
    open spec fn dir_bit() -> bool {
        false
    }

    open spec fn dir_known() -> bool {
        false
    }

    open spec fn out_bit() -> bool {
        false
    }

    open spec fn ren_bit() -> bool {
        false
    }

    open spec fn sel0_bit() -> bool {
        false
    }

    open spec fn sel1_bit() -> bool {
        false
    }

    fn reg_bits() -> (bool, bool, bool, bool, bool) {
        (false, false, false, false, false)
    }
}

impl PullState for Unknown {
    open spec fn out_bit() -> bool {
        false
    }

    open spec fn ren_bit() -> bool {
        false
    }

    fn pull_bits() -> (bool, bool) {
        (false, false)
    }
}

impl GpioFunction for Unknown {
    proof fn gpio_sel() {
    }
}

impl ConvertToOutput for Unknown {
    proof fn gpio_sel() {
    }
}

impl ConvertToInput for Unknown {
    proof fn gpio_sel() {
    }
}

/// Direction typestate for GPIO output.
pub struct Output;

impl PinState for Output {
    open spec fn dir_bit() -> bool {
        true
    }

    open spec fn dir_known() -> bool {
        true
    }

    open spec fn out_bit() -> bool {
        false
    }

    open spec fn ren_bit() -> bool {
        false
    }

    open spec fn sel0_bit() -> bool {
        false
    }

    open spec fn sel1_bit() -> bool {
        false
    }

    fn reg_bits() -> (bool, bool, bool, bool, bool) {
        (true, false, false, false, false)
    }
}

impl GpioFunction for Output {
    proof fn gpio_sel() {
    }
}

impl ConvertToInput for Output {
    proof fn gpio_sel() {
    }
}

/// Direction typestate for GPIO input.
/// The type parameter specifies the pull direction of the input.
pub struct Input<PULL> {
    _pull: PhantomData<PULL>,
}

impl<PULL: PullState> PinState for Input<PULL> {
    open spec fn dir_bit() -> bool {
        false
    }

    open spec fn dir_known() -> bool {
        true
    }

    open spec fn out_bit() -> bool {
        PULL::out_bit()
    }

    open spec fn ren_bit() -> bool {
        PULL::ren_bit()
    }

    open spec fn sel0_bit() -> bool {
        false
    }

    open spec fn sel1_bit() -> bool {
        false
    }

    fn reg_bits() -> (bool, bool, bool, bool, bool) {
        let p = PULL::pull_bits();
        (false, p.0, p.1, false, false)
    }
}

impl<PULL: PullState> GpioFunction for Input<PULL> {
    proof fn gpio_sel() {
    }
}

impl<PULL: PullState> ConvertToOutput for Input<PULL> {
    proof fn gpio_sel() {
    }
}

/// Pull typestate for pullup inputs.
pub struct Pullup;

impl PullState for Pullup {
    open spec fn out_bit() -> bool {
        true
    }

    open spec fn ren_bit() -> bool {
        true
    }

    fn pull_bits() -> (bool, bool) {
        (true, true)
    }
}

impl Known for Pullup {

}

/// Pull typestate for pulldown inputs.
pub struct Pulldown;

impl PullState for Pulldown {
    open spec fn out_bit() -> bool {
        false
    }

    open spec fn ren_bit() -> bool {
        true
    }

    fn pull_bits() -> (bool, bool) {
        (false, true)
    }
}

impl Known for Pulldown {

}

/// Pull typestate for floating inputs.
pub struct Floating;

impl PullState for Floating {
    open spec fn out_bit() -> bool {
        false
    }

    open spec fn ren_bit() -> bool {
        false
    }

    fn pull_bits() -> (bool, bool) {
        (false, false)
    }
}

impl Known for Floating {

}

/// Power-lock typestate for a pin that is still electrically locked after a
/// low-power-mode transition and cannot be reconfigured.
pub struct Locked;

/// Power-lock typestate for a pin whose configuration lockout has been
/// released.
pub struct Unlocked;

/// A single GPIO pin on the chip.
///
/// The handle carries the pin's two function-select bits, which on this
/// hardware live in pin-local register positions and are not subject to the
/// cross-pin read-modify-write races of the shared registers; every shared
/// register access goes through a contention token instead.
pub struct Pin<PORT: PortNum, PIN: PinNum, DIR, LOCK> {
    sel0: bool,
    sel1: bool,
    _port: PhantomData<PORT>,
    _pin: PhantomData<PIN>,
    _dir: PhantomData<DIR>,
    _lock: PhantomData<LOCK>,
}

impl<PORT: PortNum, PIN: PinNum, DIR, LOCK> Pin<PORT, PIN, DIR, LOCK> {
    /// The pin's select-0 bit in the register model.
    pub closed spec fn sel0(self) -> bool {
        self.sel0
    }

    /// The pin's select-1 bit in the register model.
    pub closed spec fn sel1(self) -> bool {
        self.sel1
    }

    /// Reads the pin's function-select bits, select-0 first.
    pub fn sel_bits(&self) -> (r: (bool, bool))
        ensures
            r == (self.sel0(), self.sel1()),
    {
        (self.sel0, self.sel1)
    }

    /// Repackages the select bits under a new typestate.  Every transition
    /// method performs its register update and then retypes the handle.
    fn retype<DIR2, LOCK2>(self) -> (pin: Pin<PORT, PIN, DIR2, LOCK2>)
        ensures
            pin.sel0() == self.sel0(),
            pin.sel1() == self.sel1(),
    {
        Pin {
            sel0: self.sel0,
            sel1: self.sel1,
            _port: PhantomData,
            _pin: PhantomData,
            _dir: PhantomData,
            _lock: PhantomData,
        }
    }
}

impl<PORT: PortNum, PIN: PinNum, DIR: PinState, LOCK> Pin<PORT, PIN, DIR, LOCK> {
    /// Well-formed: the handle's select bits are exactly the pattern its
    /// typestate stands for.
    pub open spec fn wf(self) -> bool {
        self.sel0() == DIR::sel0_bit() && self.sel1() == DIR::sel1_bit()
    }
}

/// Makes a pin handle whose select bits are the ones its typestate is
/// configured with.
fn fresh_pin<PORT: PortNum, PIN: PinNum, DIR: PinState, LOCK>() -> (pin: Pin<PORT, PIN, DIR, LOCK>)
    ensures
        pin.wf(),
        pin.sel0() == DIR::sel0_bit(),
        pin.sel1() == DIR::sel1_bit(),
{
    let b = DIR::reg_bits();
    Pin {
        sel0: b.3,
        sel1: b.4,
        _port: PhantomData,
        _pin: PhantomData,
        _dir: PhantomData,
        _lock: PhantomData,
    }
}

/// Contention token for the PxOUT register, which carries the modelled
/// PxOUT byte together with the pull-enable byte PxREN (only ever written
/// under this token, because a pull configuration writes both).
/// Exactly one such token exists per port; holding it is the proof of
/// exclusive access that every PxOUT read-modify-write requires.
pub struct Pxout<PORT: PortNum> {
    out: u8,
    ren: u8,
    _port: PhantomData<PORT>,
}

impl<PORT: PortNum> Pxout<PORT> {
    /// The PxOUT register byte.
    pub closed spec fn out(self) -> u8 {
        self.out
    }

    /// The PxREN (pull-enable) register byte.
    pub closed spec fn ren(self) -> u8 {
        self.ren
    }

    /// Reads the PxOUT register byte.
    pub fn read_out(&self) -> (r: u8)
        ensures
            r == self.out(),
    {
        self.out
    }

    /// Reads the PxREN register byte.
    pub fn read_ren(&self) -> (r: u8)
        ensures
            r == self.ren(),
    {
        self.ren
    }
}

/// Contention token for the PxDIR register, carrying the modelled direction
/// byte.  Exactly one such token exists per port.
pub struct Pxdir<PORT: PortNum> {
    dir: u8,
    _port: PhantomData<PORT>,
}

impl<PORT: PortNum> Pxdir<PORT> {
    /// The PxDIR register byte.
    pub closed spec fn dir(self) -> u8 {
        self.dir
    }

    /// Reads the PxDIR register byte.
    pub fn read_dir(&self) -> (r: u8)
        ensures
            r == self.dir(),
    {
        self.dir
    }
}

/// Contention token for the interrupt registers, carrying the modelled
/// edge-select (PxIES), pending-flag (PxIFG) and enable (PxIE) bytes.
/// Exactly one such token exists per port.
pub struct Pxint<PORT: PortNum> {
    ies: u8,
    ifg: u8,
    ie: u8,
    _port: PhantomData<PORT>,
}

impl<PORT: PortNum> Pxint<PORT> {
    /// The PxIES (edge select) register byte; a set bit selects the falling
    /// edge.
    pub closed spec fn ies(self) -> u8 {
        self.ies
    }

    /// The PxIFG (pending interrupt flag) register byte.
    pub closed spec fn ifg(self) -> u8 {
        self.ifg
    }

    /// The PxIE (interrupt enable) register byte.
    pub closed spec fn ie(self) -> u8 {
        self.ie
    }

    /// Reads the PxIES register byte.
    pub fn read_ies(&self) -> (r: u8)
        ensures
            r == self.ies(),
    {
        self.ies
    }

    /// Reads the PxIFG register byte.
    pub fn read_ifg(&self) -> (r: u8)
        ensures
            r == self.ifg(),
    {
        self.ifg
    }

    /// Reads the PxIE register byte.
    pub fn read_ie(&self) -> (r: u8)
        ensures
            r == self.ie(),
    {
        self.ie
    }

    /// Models the hardware latching an interrupt request: an edge event on
    /// pin `idx` sets that pin's pending flag and changes nothing else.
    pub fn latch_interrupt(&mut self, idx: u8)
        requires
            idx < 8,
        ensures
            final(self).ifg() == with_bit_set(old(self).ifg(), idx),
            final(self).ies() == old(self).ies(),
            final(self).ie() == old(self).ie(),
    {
        self.ifg = set_bit(self.ifg, idx);
    }
}

/// A snapshot of the PxIN input register: what the port's input pins read
/// at one instant.  Unlike the shared output registers it is never written
/// by the driver, so it is not guarded by a token; a fresh snapshot stands
/// for a fresh hardware read.
pub struct Pxin<PORT: PortNum> {
    bits: u8,
    _port: PhantomData<PORT>,
}

impl<PORT: PortNum> Pxin<PORT> {
    /// The PxIN register byte.
    pub closed spec fn bits(self) -> u8 {
        self.bits
    }

    /// Makes a snapshot holding the given input byte.
    pub fn new(bits: u8) -> (r: Pxin<PORT>)
        ensures
            r.bits() == bits,
    {
        Pxin { bits, _port: PhantomData }
    }

    /// Reads the PxIN register byte.
    pub fn read(&self) -> (r: u8)
        ensures
            r == self.bits(),
    {
        self.bits
    }
}

/// Whether the direction-register byte agrees with the direction that
/// typestate `DIR` implies for pin `PIN`: wherever the typestate pins the
/// direction bit down, the register holds exactly that bit.
pub open spec fn dir_matches<PIN: PinNum, DIR: PinState>(dir_reg: u8) -> bool {
    DIR::dir_known() ==> bit_is_set(dir_reg, PIN::pin_spec()) == DIR::dir_bit()
}

// Methods for managing the pin-local select bits.
impl<PORT: PortNum, PIN: PinNum, DIR, LOCK> Pin<PORT, PIN, DIR, LOCK> {
    /// Writes the pin's select-0 bit.
    fn set_sel0(&mut self)
        ensures
            final(self).sel0() == true,
            final(self).sel1() == old(self).sel1(),
    {
        self.sel0 = true;
    }

    /// Writes the pin's select-1 bit.
    fn set_sel1(&mut self)
        ensures
            final(self).sel0() == old(self).sel0(),
            final(self).sel1() == true,
    {
        self.sel1 = true;
    }

    /// Clears the pin's select-0 bit.
    fn clear_sel0(&mut self)
        ensures
            final(self).sel0() == false,
            final(self).sel1() == old(self).sel1(),
    {
        self.sel0 = false;
    }

    /// Clears the pin's select-1 bit.
    fn clear_sel1(&mut self)
        ensures
            final(self).sel0() == old(self).sel0(),
            final(self).sel1() == false,
    {
        self.sel1 = false;
    }

    /// Writes the select-complement register: flips both select bits in one
    /// register write.
    fn flip_selc(&mut self)
        ensures
            final(self).sel0() == !old(self).sel0(),
            final(self).sel1() == !old(self).sel1(),
    {
        self.sel0 = !self.sel0;
        self.sel1 = !self.sel1;
    }
}

impl<PORT: PortNum, PIN: PinNum, PULL: PullState> Pin<PORT, PIN, Input<PULL>, Unlocked> {
    /// Configures pin as pulldown input.
    /// This method requires a `Pxout` token because configuring the pull
    /// direction writes the PxOUT register, which can race with setting an
    /// output pin on the same port.
    pub fn pulldown(self, pxout: &mut Pxout<PORT>) -> (pin: Pin<
        PORT,
        PIN,
        Input<Pulldown>,
        Unlocked,
    >)
        requires
            self.wf(),
        ensures
            pin.wf(),
            final(pxout).out() == with_bit_clear(old(pxout).out(), PIN::pin_spec()),
            final(pxout).ren() == with_bit_set(old(pxout).ren(), PIN::pin_spec()),
    {
        let i = PIN::pin();
        pxout.out = clear_bit(pxout.out, i);
        pxout.ren = set_bit(pxout.ren, i);
        self.retype()
    }

    /// Configures pin as pullup input.
    /// This method requires a `Pxout` token because configuring the pull
    /// direction writes the PxOUT register, which can race with setting an
    /// output pin on the same port.
    pub fn pullup(self, pxout: &mut Pxout<PORT>) -> (pin: Pin<PORT, PIN, Input<Pullup>, Unlocked>)
        requires
            self.wf(),
        ensures
            pin.wf(),
            final(pxout).out() == with_bit_set(old(pxout).out(), PIN::pin_spec()),
            final(pxout).ren() == with_bit_set(old(pxout).ren(), PIN::pin_spec()),
    {
        let i = PIN::pin();
        pxout.out = set_bit(pxout.out, i);
        pxout.ren = set_bit(pxout.ren, i);
        self.retype()
    }

    /// Configures pin as floating input: clears the pull-enable bit and
    /// leaves the PxOUT byte as it was.
    pub fn float(self, pxout: &mut Pxout<PORT>) -> (pin: Pin<PORT, PIN, Input<Floating>, Unlocked>)
        requires
            self.wf(),
        ensures
            pin.wf(),
            final(pxout).out() == old(pxout).out(),
            final(pxout).ren() == with_bit_clear(old(pxout).ren(), PIN::pin_spec()),
    {
        let i = PIN::pin();
        pxout.ren = clear_bit(pxout.ren, i);
        self.retype()
    }
}

impl<PORT: IntrPort, PIN: PinNum, PULL: Known> Pin<PORT, PIN, Input<PULL>, Unlocked> {
    /// Enable rising edge interrupts on the input pin.
    ///
    /// The pending flag is cleared before the edge select and the enable
    /// bit are written, so that a stale edge latched before the
    /// reconfiguration cannot fire as a spurious interrupt: whatever the
    /// flag's prior value, it ends clear and the enable bit ends set.
    ///
    /// Note that changing other GPIO configurations while interrupts are
    /// enabled can cause spurious interrupts.
    pub fn enable_interrupt_rising_edge(&mut self, pxint: &mut Pxint<PORT>)
        ensures
            *final(self) == *old(self),
            final(pxint).ifg() == with_bit_clear(old(pxint).ifg(), PIN::pin_spec()),
            final(pxint).ies() == with_bit_clear(old(pxint).ies(), PIN::pin_spec()),
            final(pxint).ie() == with_bit_set(old(pxint).ie(), PIN::pin_spec()),
    {
        let i = PIN::pin();
        pxint.ifg = clear_bit(pxint.ifg, i);
        pxint.ies = clear_bit(pxint.ies, i);
        pxint.ie = set_bit(pxint.ie, i);
    }

    /// Enable falling edge interrupts on the input pin.
    ///
    /// Ordered as [`Self::enable_interrupt_rising_edge`] is: the pending
    /// flag is cleared first, then the edge select and the enable bit are
    /// written.
    ///
    /// Note that changing other GPIO configurations while interrupts are
    /// enabled can cause spurious interrupts.
    pub fn enable_interrupt_falling_edge(&mut self, pxint: &mut Pxint<PORT>)
        ensures
            *final(self) == *old(self),
            final(pxint).ifg() == with_bit_clear(old(pxint).ifg(), PIN::pin_spec()),
            final(pxint).ies() == with_bit_set(old(pxint).ies(), PIN::pin_spec()),
            final(pxint).ie() == with_bit_set(old(pxint).ie(), PIN::pin_spec()),
    {
        let i = PIN::pin();
        pxint.ifg = clear_bit(pxint.ifg, i);
        pxint.ies = set_bit(pxint.ies, i);
        pxint.ie = set_bit(pxint.ie, i);
    }

    /// Disable interrupts on the input pin.  Only the enable bit changes;
    /// the edge select and any pending flag are left as they were.
    pub fn disable_interrupt(&mut self, pxint: &mut Pxint<PORT>)
        ensures
            *final(self) == *old(self),
            final(pxint).ifg() == old(pxint).ifg(),
            final(pxint).ies() == old(pxint).ies(),
            final(pxint).ie() == with_bit_clear(old(pxint).ie(), PIN::pin_spec()),
    {
        let i = PIN::pin();
        pxint.ie = clear_bit(pxint.ie, i);
    }
}

impl<PORT: PortNum, PIN: PinNum, DIR: ConvertToOutput> Pin<PORT, PIN, DIR, Unlocked> {
    /// Configures pin as output: sets the pin's direction bit and changes
    /// no other bit of the direction register.
    pub fn to_output(self, pxdir: &mut Pxdir<PORT>) -> (pin: Pin<PORT, PIN, Output, Unlocked>)
        requires
            self.wf(),
        ensures
            pin.wf(),
            final(pxdir).dir() == with_bit_set(old(pxdir).dir(), PIN::pin_spec()),
            dir_matches::<PIN, Output>(final(pxdir).dir()),
    {
        proof {
            DIR::gpio_sel();
            PIN::pin_spec_range();
            lemma_bit_updates();
        }
        let i = PIN::pin();
        pxdir.dir = set_bit(pxdir.dir, i);
        self.retype()
    }
}

impl<PORT: PortNum, PIN: PinNum, DIR: ConvertToInput> Pin<PORT, PIN, DIR, Unlocked> {
    /// Configures pin as input: clears the pin's direction bit and changes
    /// no other bit of the direction register.  The pull state is not yet
    /// known and must be disambiguated next.
    pub fn to_input(self, pxdir: &mut Pxdir<PORT>) -> (pin: Pin<
        PORT,
        PIN,
        Input<Unknown>,
        Unlocked,
    >)
        requires
            self.wf(),
        ensures
            pin.wf(),
            final(pxdir).dir() == with_bit_clear(old(pxdir).dir(), PIN::pin_spec()),
            dir_matches::<PIN, Input<Unknown>>(final(pxdir).dir()),
    {
        proof {
            DIR::gpio_sel();
            PIN::pin_spec_range();
            lemma_bit_updates();
        }
        let i = PIN::pin();
        pxdir.dir = clear_bit(pxdir.dir, i);
        self.retype()
    }
}

impl<PORT: PortNum, PIN: PinNum, DIR: PinState> Pin<PORT, PIN, DIR, Locked> {
    /// Releases the pin for reconfiguration, given the borrowed proof that
    /// the power-management component has released the low-power lockout
    /// system-wide.  No register is written — the method has access to
    /// none — and the handle's configuration comes through unchanged: only
    /// the lock state of the type changes, which is what makes the
    /// reconfiguration methods of the direction/pull states available.  A
    /// locked handle offers no other method that changes configuration.
    pub fn unlock(self, _pmm: &Pmm) -> (pin: Pin<PORT, PIN, DIR, Unlocked>)
        ensures
            pin.sel0() == self.sel0(),
            pin.sel1() == self.sel1(),
            self.wf() ==> pin.wf(),
    {
        self.retype()
    }
}

impl<PORT: PortNum, PIN: PinNum, PULL: Known, LOCK> Pin<PORT, PIN, Input<PULL>, LOCK> {
    /// Reads the pin's instantaneous bit from an input-register snapshot.
    /// The read cannot fail; the result shape is the shared digital-I/O
    /// convention, and its error is uninhabited.
    pub fn is_high(&self, pxin: &Pxin<PORT>) -> (r: Result<bool, void::Void>)
        ensures
            r == Ok::<bool, void::Void>(bit_is_set(pxin.bits(), PIN::pin_spec())),
    {
        Ok(test_bit(pxin.read(), PIN::pin()))
    }

    /// The negation of [`Self::is_high`], under the same convention.
    pub fn is_low(&self, pxin: &Pxin<PORT>) -> (r: Result<bool, void::Void>)
        ensures
            r == Ok::<bool, void::Void>(!bit_is_set(pxin.bits(), PIN::pin_spec())),
    {
        match self.is_high(pxin) {
            Ok(b) => Ok(!b),
            Err(e) => Err(e),
        }
    }
}

/// Proxy type for an output pin, through which the actual bit toggling
/// happens.
///
/// Toggling an output bit needs the pin's identity and exclusive access to
/// the shared PxOUT register, but the digital-output convention expects one
/// self-contained handle; the proxy is that handle.  It captures both the
/// pin handle and the port's `Pxout` token, and holds them until
/// [`OutputPinProxy::free`] gives both back: while it exists, the pin
/// cannot be reconfigured and no other PxOUT mutation of the port — a
/// second proxy, a pull configuration — can be expressed.
pub struct OutputPinProxy<PORT: PortNum, PIN: PinNum> {
    pin: Pin<PORT, PIN, Output, Unlocked>,
    pxout: Pxout<PORT>,
}

impl<PORT: PortNum, PIN: PinNum> Pin<PORT, PIN, Output, Unlocked> {
    /// Use the `Pxout` token to create an output pin "proxy" on which
    /// output operations can be done.  The token ensures that different
    /// output pin writes on the same port don't race with each other: on
    /// this hardware an output write is a non-atomic read-modify-write.
    /// Creating the proxy writes no register: the token's bytes and the
    /// pin's select bits come through unchanged.
    pub fn proxy(self, pxout: Pxout<PORT>) -> (p: OutputPinProxy<PORT, PIN>)
        ensures
            p.out() == pxout.out(),
            p.ren() == pxout.ren(),
            p.sel0() == self.sel0(),
            p.sel1() == self.sel1(),
    {
        OutputPinProxy { pin: self, pxout }
    }
}

impl<PORT: PortNum, PIN: PinNum> OutputPinProxy<PORT, PIN> {
    /// The PxOUT register byte as the proxy holds it.
    pub closed spec fn out(self) -> u8 {
        self.pxout.out()
    }

    /// The PxREN register byte as the proxy holds it.
    pub closed spec fn ren(self) -> u8 {
        self.pxout.ren()
    }

    /// The select-0 bit of the pin handle the proxy holds.
    pub closed spec fn sel0(self) -> bool {
        self.pin.sel0()
    }

    /// The select-1 bit of the pin handle the proxy holds.
    pub closed spec fn sel1(self) -> bool {
        self.pin.sel1()
    }

    /// Drives the pin low: clears the pin's output bit and changes no other
    /// bit.  Cannot fail; the error of the result is uninhabited.
    pub fn set_low(&mut self) -> (r: Result<(), void::Void>)
        ensures
            r == Ok::<(), void::Void>(()),
            final(self).out() == with_bit_clear(old(self).out(), PIN::pin_spec()),
            final(self).ren() == old(self).ren(),
            final(self).sel0() == old(self).sel0(),
            final(self).sel1() == old(self).sel1(),
    {
        self.pxout.out = clear_bit(self.pxout.out, PIN::pin());
        Ok(())
    }

    /// Drives the pin high: sets the pin's output bit and changes no other
    /// bit.  Cannot fail; the error of the result is uninhabited.
    pub fn set_high(&mut self) -> (r: Result<(), void::Void>)
        ensures
            r == Ok::<(), void::Void>(()),
            final(self).out() == with_bit_set(old(self).out(), PIN::pin_spec()),
            final(self).ren() == old(self).ren(),
            final(self).sel0() == old(self).sel0(),
            final(self).sel1() == old(self).sel1(),
    {
        self.pxout.out = set_bit(self.pxout.out, PIN::pin());
        Ok(())
    }

    /// Reads back whether the pin's output bit is set.  Cannot fail; the
    /// error of the result is uninhabited.
    pub fn is_set_high(&self) -> (r: Result<bool, void::Void>)
        ensures
            r == Ok::<bool, void::Void>(bit_is_set(self.out(), PIN::pin_spec())),
    {
        Ok(test_bit(self.pxout.read_out(), PIN::pin()))
    }

    /// The negation of [`Self::is_set_high`], under the same convention.
    pub fn is_set_low(&self) -> (r: Result<bool, void::Void>)
        ensures
            r == Ok::<bool, void::Void>(!bit_is_set(self.out(), PIN::pin_spec())),
    {
        match self.is_set_high() {
            Ok(b) => Ok(!b),
            Err(e) => Err(e),
        }
    }

    /// Flips the pin's output bit and changes no other bit.  Cannot fail;
    /// the error of the result is uninhabited.
    pub fn toggle(&mut self) -> (r: Result<(), void::Void>)
        ensures
            r == Ok::<(), void::Void>(()),
            final(self).out() == with_bit_flipped(old(self).out(), PIN::pin_spec()),
            final(self).ren() == old(self).ren(),
            final(self).sel0() == old(self).sel0(),
            final(self).sel1() == old(self).sel1(),
    {
        self.pxout.out = flip_bit(self.pxout.out, PIN::pin());
        Ok(())
    }

    /// Ends the proxy: gives the pin handle and the `Pxout` token back,
    /// both exactly as the proxy last held them.
    pub fn free(self) -> (r: (Pin<PORT, PIN, Output, Unlocked>, Pxout<PORT>))
        ensures
            r.0.sel0() == self.sel0(),
            r.0.sel1() == self.sel1(),
            r.1.out() == self.out(),
            r.1.ren() == self.ren(),
    {
        (self.pin, self.pxout)
    }
}

/// GPIO parts for a specific port: all 8 pins and the register contention
/// tokens.
pub struct Parts<PORT: PortNum, DIR0, DIR1, DIR2, DIR3, DIR4, DIR5, DIR6, DIR7, LOCK> {
    /// Pin0
    pub pin0: Pin<PORT, Pin0, DIR0, LOCK>,
    /// Pin1
    pub pin1: Pin<PORT, Pin1, DIR1, LOCK>,
    /// Pin2
    pub pin2: Pin<PORT, Pin2, DIR2, LOCK>,
    /// Pin3
    pub pin3: Pin<PORT, Pin3, DIR3, LOCK>,
    /// Pin4
    pub pin4: Pin<PORT, Pin4, DIR4, LOCK>,
    /// Pin5
    pub pin5: Pin<PORT, Pin5, DIR5, LOCK>,
    /// Pin6
    pub pin6: Pin<PORT, Pin6, DIR6, LOCK>,
    /// Pin7
    pub pin7: Pin<PORT, Pin7, DIR7, LOCK>,
    /// Interrupt register contention token
    pub pxint: Pxint<PORT>,
    /// PxOUT contention token
    pub pxout: Pxout<PORT>,
    /// PxDIR contention token
    pub pxdir: Pxdir<PORT>,
}

impl<PORT: PortNum> Parts<
    PORT,
    Unknown,
    Unknown,
    Unknown,
    Unknown,
    Unknown,
    Unknown,
    Unknown,
    Unknown,
    Locked,
> {
    /// Splits the raw port capability into its eight pin handles and the
    /// three contention tokens, created here and nowhere else.  The
    /// registers start at their reset values, every pin is unconfigured,
    /// and every pin starts locked: it must be unlocked, individually or by
    /// a batch configuration, before it can be reconfigured.
    pub fn new<RAW: GpioPort<PortNum = PORT>>(_raw: RAW) -> (parts: Self)
        ensures
            parts.pin0.wf(),
            parts.pin1.wf(),
            parts.pin2.wf(),
            parts.pin3.wf(),
            parts.pin4.wf(),
            parts.pin5.wf(),
            parts.pin6.wf(),
            parts.pin7.wf(),
            parts.pxdir.dir() == 0,
            parts.pxout.out() == 0,
            parts.pxout.ren() == 0,
            parts.pxint.ies() == 0,
            parts.pxint.ifg() == 0,
            parts.pxint.ie() == 0,
    {
        Parts {
            pin0: fresh_pin(),
            pin1: fresh_pin(),
            pin2: fresh_pin(),
            pin3: fresh_pin(),
            pin4: fresh_pin(),
            pin5: fresh_pin(),
            pin6: fresh_pin(),
            pin7: fresh_pin(),
            pxint: Pxint { ies: 0, ifg: 0, ie: 0, _port: PhantomData },
            pxout: Pxout { out: 0, ren: 0, _port: PhantomData },
            pxdir: Pxdir { dir: 0, _port: PhantomData },
        }
    }
}

impl<PORT: PortNum, DIR0, DIR1, DIR2, DIR3, DIR4, DIR5, DIR6, DIR7, LOCK> Parts<
    PORT,
    DIR0,
    DIR1,
    DIR2,
    DIR3,
    DIR4,
    DIR5,
    DIR6,
    DIR7,
    LOCK,
> {
    /// Converts all parts into a GPIO batch so the entire port can be
    /// configured at once: [`Batch::split`] rewrites every register of the
    /// port from the pins' typestates.
    pub fn batch(self) -> (b: Batch<PORT, DIR0, DIR1, DIR2, DIR3, DIR4, DIR5, DIR6, DIR7>) {
        Batch { _marker: PhantomData }
    }
}

/// A port-wide configuration: the intended typestate of each of the eight
/// pins, with no register touched until [`Batch::split`] writes the whole
/// port in one go.
pub struct Batch<PORT: PortNum, DIR0, DIR1, DIR2, DIR3, DIR4, DIR5, DIR6, DIR7> {
    _marker: PhantomData<(PORT, DIR0, DIR1, DIR2, DIR3, DIR4, DIR5, DIR6, DIR7)>,
}

/// Packs eight bits, bit 0 first, into one register byte.
fn pack_byte(b0: bool, b1: bool, b2: bool, b3: bool, b4: bool, b5: bool, b6: bool, b7: bool) -> (r:
    u8)
    ensures
        bit_is_set(r, 0) == b0,
        bit_is_set(r, 1) == b1,
        bit_is_set(r, 2) == b2,
        bit_is_set(r, 3) == b3,
        bit_is_set(r, 4) == b4,
        bit_is_set(r, 5) == b5,
        bit_is_set(r, 6) == b6,
        bit_is_set(r, 7) == b7,
{
    let r: u8 = (if b0 {
        1u8
    } else {
        0u8
    }) | (if b1 {
        2u8
    } else {
        0u8
    }) | (if b2 {
        4u8
    } else {
        0u8
    }) | (if b3 {
        8u8
    } else {
        0u8
    }) | (if b4 {
        16u8
    } else {
        0u8
    }) | (if b5 {
        32u8
    } else {
        0u8
    }) | (if b6 {
        64u8
    } else {
        0u8
    }) | (if b7 {
        128u8
    } else {
        0u8
    });
    proof {
        assert(bit_is_set(r, 0) == b0 && bit_is_set(r, 1) == b1 && bit_is_set(r, 2) == b2
            && bit_is_set(r, 3) == b3 && bit_is_set(r, 4) == b4 && bit_is_set(r, 5) == b5
            && bit_is_set(r, 6) == b6 && bit_is_set(r, 7) == b7) by (bit_vector)
            requires
                r == (if b0 {
                    1u8
                } else {
                    0u8
                }) | (if b1 {
                    2u8
                } else {
                    0u8
                }) | (if b2 {
                    4u8
                } else {
                    0u8
                }) | (if b3 {
                    8u8
                } else {
                    0u8
                }) | (if b4 {
                    16u8
                } else {
                    0u8
                }) | (if b5 {
                    32u8
                } else {
                    0u8
                }) | (if b6 {
                    64u8
                } else {
                    0u8
                }) | (if b7 {
                    128u8
                } else {
                    0u8
                }),
        ;
    }
    r
}

impl<
    PORT: PortNum,
    DIR0: PinState,
    DIR1: PinState,
    DIR2: PinState,
    DIR3: PinState,
    DIR4: PinState,
    DIR5: PinState,
    DIR6: PinState,
    DIR7: PinState,
> Batch<PORT, DIR0, DIR1, DIR2, DIR3, DIR4, DIR5, DIR6, DIR7> {
    /// Writes the whole port's registers from the batch's configuration —
    /// each pin's direction, output, pull-enable and select bits are set to
    /// the encoding of its intended typestate, and the interrupt registers
    /// are cleared — and hands the pins out unlocked, given the borrowed
    /// proof that the low-power lockout has been released.
    pub fn split(self, _pmm: &Pmm) -> (parts: Parts<
        PORT,
        DIR0,
        DIR1,
        DIR2,
        DIR3,
        DIR4,
        DIR5,
        DIR6,
        DIR7,
        Unlocked,
    >)
        ensures
            parts.pin0.wf(),
            parts.pin1.wf(),
            parts.pin2.wf(),
            parts.pin3.wf(),
            parts.pin4.wf(),
            parts.pin5.wf(),
            parts.pin6.wf(),
            parts.pin7.wf(),
            bit_is_set(parts.pxdir.dir(), 0) == DIR0::dir_bit(),
            bit_is_set(parts.pxdir.dir(), 1) == DIR1::dir_bit(),
            bit_is_set(parts.pxdir.dir(), 2) == DIR2::dir_bit(),
            bit_is_set(parts.pxdir.dir(), 3) == DIR3::dir_bit(),
            bit_is_set(parts.pxdir.dir(), 4) == DIR4::dir_bit(),
            bit_is_set(parts.pxdir.dir(), 5) == DIR5::dir_bit(),
            bit_is_set(parts.pxdir.dir(), 6) == DIR6::dir_bit(),
            bit_is_set(parts.pxdir.dir(), 7) == DIR7::dir_bit(),
            bit_is_set(parts.pxout.out(), 0) == DIR0::out_bit(),
            bit_is_set(parts.pxout.out(), 1) == DIR1::out_bit(),
            bit_is_set(parts.pxout.out(), 2) == DIR2::out_bit(),
            bit_is_set(parts.pxout.out(), 3) == DIR3::out_bit(),
            bit_is_set(parts.pxout.out(), 4) == DIR4::out_bit(),
            bit_is_set(parts.pxout.out(), 5) == DIR5::out_bit(),
            bit_is_set(parts.pxout.out(), 6) == DIR6::out_bit(),
            bit_is_set(parts.pxout.out(), 7) == DIR7::out_bit(),
            bit_is_set(parts.pxout.ren(), 0) == DIR0::ren_bit(),
            bit_is_set(parts.pxout.ren(), 1) == DIR1::ren_bit(),
            bit_is_set(parts.pxout.ren(), 2) == DIR2::ren_bit(),
            bit_is_set(parts.pxout.ren(), 3) == DIR3::ren_bit(),
            bit_is_set(parts.pxout.ren(), 4) == DIR4::ren_bit(),
            bit_is_set(parts.pxout.ren(), 5) == DIR5::ren_bit(),
            bit_is_set(parts.pxout.ren(), 6) == DIR6::ren_bit(),
            bit_is_set(parts.pxout.ren(), 7) == DIR7::ren_bit(),
            parts.pxint.ies() == 0,
            parts.pxint.ifg() == 0,
            parts.pxint.ie() == 0,
            dir_matches::<Pin0, DIR0>(parts.pxdir.dir()),
            dir_matches::<Pin1, DIR1>(parts.pxdir.dir()),
            dir_matches::<Pin2, DIR2>(parts.pxdir.dir()),
            dir_matches::<Pin3, DIR3>(parts.pxdir.dir()),
            dir_matches::<Pin4, DIR4>(parts.pxdir.dir()),
            dir_matches::<Pin5, DIR5>(parts.pxdir.dir()),
            dir_matches::<Pin6, DIR6>(parts.pxdir.dir()),
            dir_matches::<Pin7, DIR7>(parts.pxdir.dir()),
    {
        let b0 = DIR0::reg_bits();
        let b1 = DIR1::reg_bits();
        let b2 = DIR2::reg_bits();
        let b3 = DIR3::reg_bits();
        let b4 = DIR4::reg_bits();
        let b5 = DIR5::reg_bits();
        let b6 = DIR6::reg_bits();
        let b7 = DIR7::reg_bits();
        let dir = pack_byte(b0.0, b1.0, b2.0, b3.0, b4.0, b5.0, b6.0, b7.0);
        let out = pack_byte(b0.1, b1.1, b2.1, b3.1, b4.1, b5.1, b6.1, b7.1);
        let ren = pack_byte(b0.2, b1.2, b2.2, b3.2, b4.2, b5.2, b6.2, b7.2);
        Parts {
            pin0: fresh_pin(),
            pin1: fresh_pin(),
            pin2: fresh_pin(),
            pin3: fresh_pin(),
            pin4: fresh_pin(),
            pin5: fresh_pin(),
            pin6: fresh_pin(),
            pin7: fresh_pin(),
            pxint: Pxint { ies: 0, ifg: 0, ie: 0, _port: PhantomData },
            pxout: Pxout { out, ren, _port: PhantomData },
            pxdir: Pxdir { dir, _port: PhantomData },
        }
    }
}

/// Typestate for GPIO alternate function 1: select bits (1, 0).
pub struct Alternate1;

impl PinState for Alternate1 {
    open spec fn dir_bit() -> bool {
        false
    }

    open spec fn dir_known() -> bool {
        false
    }

    open spec fn out_bit() -> bool {
        false
    }

    open spec fn ren_bit() -> bool {
        false
    }

    open spec fn sel0_bit() -> bool {
        true
    }

    open spec fn sel1_bit() -> bool {
        false
    }

    fn reg_bits() -> (bool, bool, bool, bool, bool) {
        (false, false, false, true, false)
    }
}

/// Typestate for GPIO alternate function 2: select bits (0, 1).
pub struct Alternate2;

impl PinState for Alternate2 {
    open spec fn dir_bit() -> bool {
        false
    }

    open spec fn dir_known() -> bool {
        false
    }

    open spec fn out_bit() -> bool {
        false
    }

    open spec fn ren_bit() -> bool {
        false
    }

    open spec fn sel0_bit() -> bool {
        false
    }

    open spec fn sel1_bit() -> bool {
        true
    }

    fn reg_bits() -> (bool, bool, bool, bool, bool) {
        (false, false, false, false, true)
    }
}

/// Typestate for GPIO alternate function 3: select bits (1, 1).
pub struct Alternate3;

impl PinState for Alternate3 {
    open spec fn dir_bit() -> bool {
        false
    }

    open spec fn dir_known() -> bool {
        false
    }

    open spec fn out_bit() -> bool {
        false
    }

    open spec fn ren_bit() -> bool {
        false
    }

    open spec fn sel0_bit() -> bool {
        true
    }

    open spec fn sel1_bit() -> bool {
        true
    }

    fn reg_bits() -> (bool, bool, bool, bool, bool) {
        (false, false, false, true, true)
    }
}

/// Hardware legality fact: alternate function 1 exists for this (port, pin,
/// state) combination.  The impls below are the chip's wiring table; a
/// combination without an impl has no transition method at all.
pub trait ToAlternate1 {

}

/// Hardware legality fact: alternate function 2 exists for this (port, pin,
/// state) combination; see [`ToAlternate1`].
pub trait ToAlternate2 {

}

/// Hardware legality fact: alternate function 3 exists for this (port, pin,
/// state) combination; see [`ToAlternate1`].
pub trait ToAlternate3 {

}

impl<PORT: PortNum, PIN: PinNum, DIR: GpioFunction> Pin<PORT, PIN, DIR, Unlocked> where
    Self: ToAlternate1,
 {
    /// Convert pin to GPIO alternate function 1: from the GPIO pattern
    /// (0, 0), one write of the select-0 bit reaches (1, 0).
    pub fn to_alternate1(self) -> (pin: Pin<PORT, PIN, Alternate1, Unlocked>)
        requires
            self.wf(),
        ensures
            pin.wf(),
            pin.sel0() == true,
            pin.sel1() == false,
    {
        proof {
            DIR::gpio_sel();
        }
        let mut pin = self;
        pin.set_sel0();
        pin.retype()
    }
}

impl<PORT: PortNum, PIN: PinNum, DIR: GpioFunction> Pin<PORT, PIN, DIR, Unlocked> where
    Self: ToAlternate2,
 {
    /// Convert pin to GPIO alternate function 2: from the GPIO pattern
    /// (0, 0), one write of the select-1 bit reaches (0, 1).
    pub fn to_alternate2(self) -> (pin: Pin<PORT, PIN, Alternate2, Unlocked>)
        requires
            self.wf(),
        ensures
            pin.wf(),
            pin.sel0() == false,
            pin.sel1() == true,
    {
        proof {
            DIR::gpio_sel();
        }
        let mut pin = self;
        pin.set_sel1();
        pin.retype()
    }
}

impl<PORT: PortNum, PIN: PinNum, DIR: GpioFunction> Pin<PORT, PIN, DIR, Unlocked> where
    Self: ToAlternate3,
 {
    /// Convert pin to GPIO alternate function 3: from the GPIO pattern
    /// (0, 0), the single select-complement write flips both bits at once
    /// and reaches (1, 1) — the same final state as two independent writes
    /// of the select bits would produce.
    pub fn to_alternate3(self) -> (pin: Pin<PORT, PIN, Alternate3, Unlocked>)
        requires
            self.wf(),
        ensures
            pin.wf(),
            pin.sel0() == true,
            pin.sel1() == true,
    {
        proof {
            DIR::gpio_sel();
        }
        let mut pin = self;
        pin.flip_selc();
        pin.retype()
    }
}

// From alternate 1: select bits (1, 0).
impl<PORT: PortNum, PIN: PinNum> Pin<PORT, PIN, Alternate1, Unlocked> {
    /// Convert pin to GPIO function: clearing the select-0 bit returns the
    /// pattern to (0, 0).
    pub fn to_gpio(self) -> (pin: Pin<PORT, PIN, Unknown, Unlocked>)
        requires
            self.wf(),
        ensures
            pin.wf(),
            pin.sel0() == false,
            pin.sel1() == false,
    {
        let mut pin = self;
        pin.clear_sel0();
        pin.retype()
    }
}

impl<PORT: PortNum, PIN: PinNum> Pin<PORT, PIN, Alternate1, Unlocked> where Self: ToAlternate2 {
    /// Convert pin to alternate function 2: the single select-complement
    /// write turns (1, 0) into (0, 1).
    pub fn to_alternate2(self) -> (pin: Pin<PORT, PIN, Alternate2, Unlocked>)
        requires
            self.wf(),
        ensures
            pin.wf(),
            pin.sel0() == false,
            pin.sel1() == true,
    {
        let mut pin = self;
        pin.flip_selc();
        pin.retype()
    }
}

impl<PORT: PortNum, PIN: PinNum> Pin<PORT, PIN, Alternate1, Unlocked> where Self: ToAlternate3 {
    /// Convert pin to alternate function 3: setting the select-1 bit turns
    /// (1, 0) into (1, 1).
    pub fn to_alternate3(self) -> (pin: Pin<PORT, PIN, Alternate3, Unlocked>)
        requires
            self.wf(),
        ensures
            pin.wf(),
            pin.sel0() == true,
            pin.sel1() == true,
    {
        let mut pin = self;
        pin.set_sel1();
        pin.retype()
    }
}

// From alternate 2: select bits (0, 1).
impl<PORT: PortNum, PIN: PinNum> Pin<PORT, PIN, Alternate2, Unlocked> {
    /// Convert pin to GPIO function: clearing the select-1 bit returns the
    /// pattern to (0, 0).
    pub fn to_gpio(self) -> (pin: Pin<PORT, PIN, Unknown, Unlocked>)
        requires
            self.wf(),
        ensures
            pin.wf(),
            pin.sel0() == false,
            pin.sel1() == false,
    {
        let mut pin = self;
        pin.clear_sel1();
        pin.retype()
    }
}

impl<PORT: PortNum, PIN: PinNum> Pin<PORT, PIN, Alternate2, Unlocked> where Self: ToAlternate1 {
    /// Convert pin to alternate function 1: the single select-complement
    /// write turns (0, 1) into (1, 0).
    pub fn to_alternate1(self) -> (pin: Pin<PORT, PIN, Alternate1, Unlocked>)
        requires
            self.wf(),
        ensures
            pin.wf(),
            pin.sel0() == true,
            pin.sel1() == false,
    {
        let mut pin = self;
        pin.flip_selc();
        pin.retype()
    }
}

impl<PORT: PortNum, PIN: PinNum> Pin<PORT, PIN, Alternate2, Unlocked> where Self: ToAlternate3 {
    /// Convert pin to alternate function 3: setting the select-0 bit turns
    /// (0, 1) into (1, 1).
    pub fn to_alternate3(self) -> (pin: Pin<PORT, PIN, Alternate3, Unlocked>)
        requires
            self.wf(),
        ensures
            pin.wf(),
            pin.sel0() == true,
            pin.sel1() == true,
    {
        let mut pin = self;
        pin.set_sel0();
        pin.retype()
    }
}

// From alternate 3: select bits (1, 1).
impl<PORT: PortNum, PIN: PinNum> Pin<PORT, PIN, Alternate3, Unlocked> {
    /// Convert pin to GPIO function: the single select-complement write
    /// turns (1, 1) into (0, 0).
    pub fn to_gpio(self) -> (pin: Pin<PORT, PIN, Unknown, Unlocked>)
        requires
            self.wf(),
        ensures
            pin.wf(),
            pin.sel0() == false,
            pin.sel1() == false,
    {
        let mut pin = self;
        pin.flip_selc();
        pin.retype()
    }
}

impl<PORT: PortNum, PIN: PinNum> Pin<PORT, PIN, Alternate3, Unlocked> where Self: ToAlternate1 {
    /// Convert pin to alternate function 1: clearing the select-1 bit turns
    /// (1, 1) into (1, 0).
    pub fn to_alternate1(self) -> (pin: Pin<PORT, PIN, Alternate1, Unlocked>)
        requires
            self.wf(),
        ensures
            pin.wf(),
            pin.sel0() == true,
            pin.sel1() == false,
    {
        let mut pin = self;
        pin.clear_sel1();
        pin.retype()
    }
}

impl<PORT: PortNum, PIN: PinNum> Pin<PORT, PIN, Alternate3, Unlocked> where Self: ToAlternate2 {
    /// Convert pin to alternate function 2: clearing the select-0 bit turns
    /// (1, 1) into (0, 1).
    pub fn to_alternate2(self) -> (pin: Pin<PORT, PIN, Alternate2, Unlocked>)
        requires
            self.wf(),
        ensures
            pin.wf(),
            pin.sel0() == false,
            pin.sel1() == true,
    {
        let mut pin = self;
        pin.clear_sel0();
        pin.retype()
    }
}

// The chip's alternate-function wiring table.  A (port, pin, state)
// combination is listed here exactly where the hardware routes a
// peripheral signal to it; everything else has no transition method.
// P1 alternate 1
impl<PIN: PinNum, DIR, L> ToAlternate1 for Pin<Port1, PIN, DIR, L> {

}

// P1 alternate 2
impl<DIR, L> ToAlternate2 for Pin<Port1, Pin0, DIR, L> {

}

impl<DIR, L> ToAlternate2 for Pin<Port1, Pin1, DIR, L> {

}

impl<PULL, L> ToAlternate2 for Pin<Port1, Pin2, Input<PULL>, L> {

}

impl<DIR, L> ToAlternate2 for Pin<Port1, Pin6, DIR, L> {

}

impl<DIR, L> ToAlternate2 for Pin<Port1, Pin7, DIR, L> {

}

// P1 alternate 3
impl<PIN: PinNum, DIR, L> ToAlternate3 for Pin<Port1, PIN, DIR, L> {

}

// P2 alternate 1
impl<DIR, L> ToAlternate1 for Pin<Port2, Pin0, DIR, L> {

}

impl<DIR, L> ToAlternate1 for Pin<Port2, Pin1, DIR, L> {

}

impl<PULL, L> ToAlternate1 for Pin<Port2, Pin2, Input<PULL>, L> {

}

impl<DIR, L> ToAlternate1 for Pin<Port2, Pin3, DIR, L> {

}

impl<DIR, L> ToAlternate1 for Pin<Port2, Pin6, DIR, L> {

}

impl<DIR, L> ToAlternate1 for Pin<Port2, Pin7, DIR, L> {

}

// P2 alternate 2
impl<L> ToAlternate2 for Pin<Port2, Pin0, Output, L> {

}

impl<L> ToAlternate2 for Pin<Port2, Pin1, Output, L> {

}

impl<DIR, L> ToAlternate2 for Pin<Port2, Pin6, DIR, L> {

}

impl<DIR, L> ToAlternate2 for Pin<Port2, Pin7, DIR, L> {

}

// P2 alternate 3
impl<DIR, L> ToAlternate3 for Pin<Port2, Pin4, DIR, L> {

}

impl<DIR, L> ToAlternate3 for Pin<Port2, Pin5, DIR, L> {

}

// P3 alternate 1
impl<DIR, L> ToAlternate1 for Pin<Port3, Pin0, DIR, L> {

}

impl<DIR, L> ToAlternate1 for Pin<Port3, Pin4, DIR, L> {

}

// P3 alternate 3
impl<DIR, L> ToAlternate3 for Pin<Port3, Pin1, DIR, L> {

}

impl<DIR, L> ToAlternate3 for Pin<Port3, Pin2, DIR, L> {

}

impl<DIR, L> ToAlternate3 for Pin<Port3, Pin3, DIR, L> {

}

impl<DIR, L> ToAlternate3 for Pin<Port3, Pin5, DIR, L> {

}

impl<DIR, L> ToAlternate3 for Pin<Port3, Pin6, DIR, L> {

}

impl<DIR, L> ToAlternate3 for Pin<Port3, Pin7, DIR, L> {

}

// P4 alternate 1
impl<PIN: PinNum, DIR, L> ToAlternate1 for Pin<Port4, PIN, DIR, L> {

}

// P4 alternate 2
impl<DIR, L> ToAlternate2 for Pin<Port4, Pin0, DIR, L> {

}

impl<DIR, L> ToAlternate2 for Pin<Port4, Pin2, DIR, L> {

}

impl<DIR, L> ToAlternate2 for Pin<Port4, Pin3, DIR, L> {

}

// P5 alternate 1
impl<DIR, L> ToAlternate1 for Pin<Port5, Pin0, DIR, L> {

}

impl<DIR, L> ToAlternate1 for Pin<Port5, Pin1, DIR, L> {

}

impl<DIR, L> ToAlternate1 for Pin<Port5, Pin2, DIR, L> {

}

impl<DIR, L> ToAlternate1 for Pin<Port5, Pin3, DIR, L> {

}

// P5 alternate 2
impl<DIR, L> ToAlternate2 for Pin<Port5, Pin0, DIR, L> {

}

impl<DIR, L> ToAlternate2 for Pin<Port5, Pin1, DIR, L> {

}

// P5 alternate 3
impl<DIR, L> ToAlternate3 for Pin<Port5, Pin0, DIR, L> {

}

impl<DIR, L> ToAlternate3 for Pin<Port5, Pin1, DIR, L> {

}

impl<DIR, L> ToAlternate3 for Pin<Port5, Pin2, DIR, L> {

}

impl<DIR, L> ToAlternate3 for Pin<Port5, Pin3, DIR, L> {

}

// P6 alternate 1
impl<PIN: PinNum, DIR, L> ToAlternate1 for Pin<Port6, PIN, DIR, L> {

}

/// Law (direction tracking).  Every direction transition establishes
/// `dir_matches` for its own pin — that is the postcondition of
/// `to_output` and `to_input` — and, as this lemma states, a single-bit
/// direction-register update for one pin cannot disturb the agreement
/// between any other pin's handle type and that pin's register bit.  By
/// induction over a program run, the direction bit held in the register
/// model therefore always equals the direction implied by each live
/// handle's current type.
pub proof fn lemma_dir_matches_preserved<QPIN: PinNum, QDIR: PinState>(
    before: u8,
    after: u8,
    changed: u8,
)
    requires
        changed < 8,
        QPIN::pin_spec() != changed,
        after == with_bit_set(before, changed) || after == with_bit_clear(before, changed),
        dir_matches::<QPIN, QDIR>(before),
    ensures
        dir_matches::<QPIN, QDIR>(after),
{
    QPIN::pin_spec_range();
    lemma_bit_updates();
}

/// Law (round trip).  A pin taken to output, back to input and then
/// configured floating leaves the direction and pull-enable register bytes
/// exactly as they started — as if the pin had never been touched except
/// for the floating-input configuration — provided the pin's own bits
/// started clear, as they do at reset.  (`to_output` sets the pin's
/// direction bit, `to_input` clears it, and `float` clears the pull-enable
/// bit while leaving PxOUT alone.)
pub proof fn lemma_round_trip_registers(dir: u8, ren: u8, i: u8)
    requires
        i < 8,
        !bit_is_set(dir, i),
        !bit_is_set(ren, i),
    ensures
        with_bit_clear(with_bit_set(dir, i), i) == dir,
        with_bit_clear(ren, i) == ren,
{
    lemma_set_then_clear_roundtrip();
}

} // verus!
