//! Byte-oriented synchronous-serial (SPI) peripheral driver: a thin,
//! mechanical wrapper over the eUSCI peripherals, with the peripheral's
//! registers modelled as plain values.
//!
//! The design content lives in the pin conversions: each eUSCI signal
//! (MISO/MOSI/clock/chip-select) accepts exactly one (port, pin,
//! alternate-function) combination, enforced by the `From` impls at the end
//! of this file, so wiring the wrong pin to a peripheral signal does not
//! compile.

use vstd::prelude::*;

use crate::clock::{Aclk, Smclk};
use crate::gpio::{Alternate1, Pin, Pin0, Pin1, Pin2, Pin3, Pin4, Pin5, Pin6, Pin7, Port1, Port4};

verus! {

/// Clock polarity of an SPI mode.
#[derive(Clone, Copy, PartialEq, Eq, Debug)]
pub enum Polarity {
    /// The clock idles low.
    IdleLow,
    /// The clock idles high.
    IdleHigh,
}

/// Clock phase of an SPI mode.
#[derive(Clone, Copy, PartialEq, Eq, Debug)]
pub enum Phase {
    /// Data is captured on the first clock transition.
    CaptureOnFirstTransition,
    /// Data is captured on the second clock transition.
    CaptureOnSecondTransition,
}

/// An SPI mode: a clock polarity and phase pair.
#[derive(Clone, Copy, PartialEq, Eq, Debug)]
pub struct Mode {
    /// Clock polarity.
    pub polarity: Polarity,
    /// Clock phase.
    pub phase: Phase,
}

/// Clock source selection of an eUSCI.
#[derive(Clone, Copy, PartialEq, Eq, Debug)]
pub enum Ucssel {
    /// The external UCLK signal.
    Uclk,
    /// The auxiliary clock.
    Aclk,
    /// The sub-main clock.
    Smclk,
}

/// Synchronous mode selection of an eUSCI.
#[derive(Clone, Copy, PartialEq, Eq, Debug)]
pub enum Ucmode {
    /// Three-pin SPI.
    ThreePinSPI,
    /// Four-pin SPI, slave enabled when the STE signal is high.
    FourPinSPI1,
    /// Four-pin SPI, slave enabled when the STE signal is low.
    FourPinSPI0,
    /// I2C mode.
    I2CMode,
}

/// The fields of an eUSCI's SPI control word 0.
#[derive(Clone, Copy, PartialEq, Eq, Debug)]
pub struct UcxSpiCtw0 {
    /// Clock phase select: capture on the first transition.
    pub ucckph: bool,
    /// Clock polarity select: idle high.
    pub ucckpl: bool,
    /// Send the most significant bit first.
    pub ucmsb: bool,
    /// Seven-bit character length.
    pub uc7bit: bool,
    /// Master mode.
    pub ucmst: bool,
    /// Synchronous mode.
    pub ucsync: bool,
    /// STE pin used for slave enable.
    pub ucstem: bool,
    /// Software reset: the peripheral is held inactive.
    pub ucswrst: bool,
    /// Synchronous mode select.
    pub ucmode: Ucmode,
    /// Clock source select.
    pub ucssel: Ucssel,
}

/// The modelled register block of one eUSCI peripheral in SPI mode.
#[derive(Clone, Copy, PartialEq, Eq, Debug)]
pub struct SpiRegs {
    /// Control word 0.
    pub ctw0: UcxSpiCtw0,
    /// Bit-rate (clock divisor) word.
    pub brw: u16,
    /// Internal loopback listen enable.
    pub listen: bool,
    /// Transmit interrupt enable.
    pub tx_int_en: bool,
    /// Receive interrupt enable.
    pub rx_int_en: bool,
    /// Transmit buffer.
    pub txbuf: u8,
    /// Receive buffer.
    pub rxbuf: u8,
    /// Transmit-ready flag: the transmit buffer is free.
    pub tx_flag: bool,
    /// Receive-ready flag: a received byte waits in the receive buffer.
    pub rx_flag: bool,
}

/// An eUSCI's control word at reset: held in software reset, asynchronous
/// defaults everywhere else.
pub open spec fn ctw0_reset() -> UcxSpiCtw0 {
    UcxSpiCtw0 {
        ucckph: false,
        ucckpl: false,
        ucmsb: false,
        uc7bit: false,
        ucmst: false,
        ucsync: false,
        ucstem: false,
        ucswrst: true,
        ucmode: Ucmode::ThreePinSPI,
        ucssel: Ucssel::Uclk,
    }
}

/// An eUSCI's register block at reset: the transmit buffer is free (its
/// flag starts set) and nothing has been received.
pub open spec fn spi_regs_reset() -> SpiRegs {
    SpiRegs {
        ctw0: ctw0_reset(),
        brw: 0,
        listen: false,
        tx_int_en: false,
        rx_int_en: false,
        txbuf: 0,
        rxbuf: 0,
        tx_flag: true,
        rx_flag: false,
    }
}

impl SpiRegs {
    /// The register block at reset.
    pub fn reset() -> (r: SpiRegs)
        ensures
            r == spi_regs_reset(),
    {
        SpiRegs {
            ctw0: UcxSpiCtw0 {
                ucckph: false,
                ucckpl: false,
                ucmsb: false,
                uc7bit: false,
                ucmst: false,
                ucsync: false,
                ucstem: false,
                ucswrst: true,
                ucmode: Ucmode::ThreePinSPI,
                ucssel: Ucssel::Uclk,
            },
            brw: 0,
            listen: false,
            tx_int_en: false,
            rx_int_en: false,
            txbuf: 0,
            rxbuf: 0,
            tx_flag: true,
            rx_flag: false,
        }
    }

    /// Writes only the software-reset bit of the control word.
    pub fn ctw0_wr_rst(&mut self, bit: bool)
        ensures
            *final(self) == (SpiRegs { ctw0: (UcxSpiCtw0 { ucswrst: bit, ..old(self).ctw0 }), ..*old(self) }),
    {
        self.ctw0.ucswrst = bit;
    }

    /// Writes the whole control word.
    pub fn ctw0_wr(&mut self, ctw0: &UcxSpiCtw0)
        ensures
            *final(self) == (SpiRegs { ctw0: *ctw0, ..*old(self) }),
    {
        self.ctw0 = *ctw0;
    }

    /// Writes the bit-rate word.
    pub fn brw_wr(&mut self, brw: u16)
        ensures
            *final(self) == (SpiRegs { brw, ..*old(self) }),
    {
        self.brw = brw;
    }

    /// Enables or disables the internal loopback listen.
    pub fn uclisten_set(&mut self, listen: bool)
        ensures
            *final(self) == (SpiRegs { listen, ..*old(self) }),
    {
        self.listen = listen;
    }

    /// Enables or disables the transmit interrupt.
    pub fn transmit_interrupt_set(&mut self, flag: bool)
        ensures
            *final(self) == (SpiRegs { tx_int_en: flag, ..*old(self) }),
    {
        self.tx_int_en = flag;
    }

    /// Enables or disables the receive interrupt.
    pub fn receive_interrupt_set(&mut self, flag: bool)
        ensures
            *final(self) == (SpiRegs { rx_int_en: flag, ..*old(self) }),
    {
        self.rx_int_en = flag;
    }

    /// Writes the transmit buffer; the transmit-ready flag drops until the
    /// hardware has moved the byte into the shift register.
    pub fn txbuf_wr(&mut self, val: u8)
        ensures
            *final(self) == (SpiRegs { txbuf: val, tx_flag: false, ..*old(self) }),
    {
        self.txbuf = val;
        self.tx_flag = false;
    }

    /// Reads the receive buffer, which clears the receive-ready flag.
    pub fn rxbuf_rd(&mut self) -> (r: u8)
        ensures
            r == old(self).rxbuf,
            *final(self) == (SpiRegs { rx_flag: false, ..*old(self) }),
    {
        self.rx_flag = false;
        self.rxbuf
    }

    /// Reads the transmit-ready flag.
    pub fn transmit_flag(&self) -> (r: bool)
        ensures
            r == self.tx_flag,
    {
        self.tx_flag
    }

    /// Reads the receive-ready flag.
    pub fn receive_flag(&self) -> (r: bool)
        ensures
            r == self.rx_flag,
    {
        self.rx_flag
    }

    /// Models the hardware completing one byte transfer: the byte clocked
    /// in lands in the receive buffer and both ready flags are raised.
    pub fn hw_transfer_complete(&mut self, received: u8)
        ensures
            *final(self) == (SpiRegs {
                rxbuf: received,
                rx_flag: true,
                tx_flag: true,
                ..*old(self)
            }),
    {
        self.rxbuf = received;
        self.rx_flag = true;
        self.tx_flag = true;
    }
}

/// Marks an eUSCI capable of SPI communication (in this case, all eUSCIs
/// are), names the one pin type accepted for each of its SPI signals, and
/// gives access to the peripheral's modelled register block.
pub trait EUsciSPIBus {
    /// Master In Slave Out (referred to as SOMI in the datasheet).
    type MISO;

    /// Master Out Slave In (referred to as SIMO in the datasheet).
    type MOSI;

    /// Serial Clock.
    type SCLK;

    /// Slave Transmit Enable (acts like chip select).
    type STE;

    /// The modelled register block.
    spec fn regs(self) -> SpiRegs;

    /// Borrows the modelled register block.
    fn regs_ref(&self) -> (r: &SpiRegs)
        ensures
            *r == self.regs(),
    ;

    /// Mutably borrows the modelled register block.
    fn regs_mut(&mut self) -> (r: &mut SpiRegs)
        ensures
            *r == old(self).regs(),
            final(self).regs() == *final(r),
    ;
}

/// eUSCI A0 peripheral capability with its modelled register block.
/// Obtaining it is an unchecked claim of exclusive access to the
/// peripheral.
pub struct EUsciA0 {
    regs: SpiRegs,
}

impl EUsciA0 {
    /// Unchecked: claims the eUSCI A0 peripheral, at reset.
    pub fn steal() -> (u: EUsciA0)
        ensures
            u.regs() == spi_regs_reset(),
    {
        EUsciA0 { regs: SpiRegs::reset() }
    }
}

impl EUsciSPIBus for EUsciA0 {
    type MISO = UsciA0MISOPin;

    type MOSI = UsciA0MOSIPin;

    type SCLK = UsciA0SCLKPin;

    type STE = UsciA0STEPin;

    closed spec fn regs(self) -> SpiRegs {
        self.regs
    }

    fn regs_ref(&self) -> &SpiRegs {
        &self.regs
    }

    fn regs_mut(&mut self) -> &mut SpiRegs {
        &mut self.regs
    }
}

/// eUSCI A1 peripheral capability; see [`EUsciA0`].
pub struct EUsciA1 {
    regs: SpiRegs,
}

impl EUsciA1 {
    /// Unchecked: claims the eUSCI A1 peripheral, at reset.
    pub fn steal() -> (u: EUsciA1)
        ensures
            u.regs() == spi_regs_reset(),
    {
        EUsciA1 { regs: SpiRegs::reset() }
    }
}

impl EUsciSPIBus for EUsciA1 {
    type MISO = UsciA1MISOPin;

    type MOSI = UsciA1MOSIPin;

    type SCLK = UsciA1SCLKPin;

    type STE = UsciA1STEPin;

    closed spec fn regs(self) -> SpiRegs {
        self.regs
    }

    fn regs_ref(&self) -> &SpiRegs {
        &self.regs
    }

    fn regs_mut(&mut self) -> &mut SpiRegs {
        &mut self.regs
    }
}

/// eUSCI B0 peripheral capability; see [`EUsciA0`].
pub struct EUsciB0 {
    regs: SpiRegs,
}

impl EUsciB0 {
    /// Unchecked: claims the eUSCI B0 peripheral, at reset.
    pub fn steal() -> (u: EUsciB0)
        ensures
            u.regs() == spi_regs_reset(),
    {
        EUsciB0 { regs: SpiRegs::reset() }
    }
}

impl EUsciSPIBus for EUsciB0 {
    type MISO = UsciB0MISOPin;

    type MOSI = UsciB0MOSIPin;

    type SCLK = UsciB0SCLKPin;

    type STE = UsciB0STEPin;

    closed spec fn regs(self) -> SpiRegs {
        self.regs
    }

    fn regs_ref(&self) -> &SpiRegs {
        &self.regs
    }

    fn regs_mut(&mut self) -> &mut SpiRegs {
        &mut self.regs
    }
}

/// eUSCI B1 peripheral capability; see [`EUsciA0`].
pub struct EUsciB1 {
    regs: SpiRegs,
}

impl EUsciB1 {
    /// Unchecked: claims the eUSCI B1 peripheral, at reset.
    pub fn steal() -> (u: EUsciB1)
        ensures
            u.regs() == spi_regs_reset(),
    {
        EUsciB1 { regs: SpiRegs::reset() }
    }
}

impl EUsciSPIBus for EUsciB1 {
    type MISO = UsciB1MISOPin;

    type MOSI = UsciB1MOSIPin;

    type SCLK = UsciB1SCLKPin;

    type STE = UsciB1STEPin;

    closed spec fn regs(self) -> SpiRegs {
        self.regs
    }

    fn regs_ref(&self) -> &SpiRegs {
        &self.regs
    }

    fn regs_mut(&mut self) -> &mut SpiRegs {
        &mut self.regs
    }
}

/// Struct used to configure an SPI bus.
pub struct SPIBusConfig<USCI: EUsciSPIBus> {
    usci: USCI,
    prescaler: u16,
    ctlw0: UcxSpiCtw0,
}

impl<USCI: EUsciSPIBus> SPIBusConfig<USCI> {
    /// The peripheral the configuration holds.
    pub closed spec fn usci(self) -> USCI {
        self.usci
    }

    /// The clock divisor the configuration will write.
    pub closed spec fn prescaler(self) -> u16 {
        self.prescaler
    }

    /// The control word the configuration will write.
    pub closed spec fn ctw0(self) -> UcxSpiCtw0 {
        self.ctlw0
    }

    /// Reads the control word the configuration will write.
    pub fn read_ctw0(&self) -> (r: UcxSpiCtw0)
        ensures
            r == self.ctw0(),
    {
        self.ctlw0
    }

    /// Reads the clock divisor the configuration will write.
    pub fn read_prescaler(&self) -> (r: u16)
        ensures
            r == self.prescaler(),
    {
        self.prescaler
    }

    /// Creates a new configuration for setting up an eUSCI peripheral in
    /// SPI mode: four-pin master mode with the given clock mode and bit
    /// order, clock source not yet chosen, and the peripheral held in
    /// software reset until the configuration is applied.
    pub fn new(usci: USCI, mode: Mode, msb_first: bool) -> (conf: SPIBusConfig<USCI>)
        ensures
            conf.usci() == usci,
            conf.prescaler() == 0,
            conf.ctw0() == (UcxSpiCtw0 {
                ucckph: mode.phase is CaptureOnFirstTransition,
                ucckpl: mode.polarity is IdleHigh,
                ucmsb: msb_first,
                uc7bit: false,
                ucmst: true,
                ucsync: true,
                ucstem: true,
                ucswrst: true,
                ucmode: Ucmode::FourPinSPI0,
                ucssel: Ucssel::Uclk,
            }),
    {
        let ctlw0 = UcxSpiCtw0 {
            ucckph: match mode.phase {
                Phase::CaptureOnFirstTransition => true,
                Phase::CaptureOnSecondTransition => false,
            },
            ucckpl: match mode.polarity {
                Polarity::IdleLow => false,
                Polarity::IdleHigh => true,
            },
            ucmsb: msb_first,
            uc7bit: false,
            ucmst: true,
            ucsync: true,
            ucstem: true,
            ucswrst: true,
            ucmode: Ucmode::FourPinSPI0,
            ucssel: Ucssel::Uclk,
        };
        SPIBusConfig { usci, prescaler: 0, ctlw0 }
    }

    /// Configures this peripheral to use the sub-main clock with the given
    /// divisor.
    pub fn use_smclk(&mut self, _smclk: &Smclk, clk_divisor: u16)
        ensures
            final(self).usci() == old(self).usci(),
            final(self).prescaler() == clk_divisor,
            final(self).ctw0() == (UcxSpiCtw0 { ucssel: Ucssel::Smclk, ..old(self).ctw0() }),
    {
        self.ctlw0.ucssel = Ucssel::Smclk;
        self.prescaler = clk_divisor;
    }

    /// Configures this peripheral to use the auxiliary clock with the given
    /// divisor.
    pub fn use_aclk(&mut self, _aclk: &Aclk, clk_divisor: u16)
        ensures
            final(self).usci() == old(self).usci(),
            final(self).prescaler() == clk_divisor,
            final(self).ctw0() == (UcxSpiCtw0 { ucssel: Ucssel::Aclk, ..old(self).ctw0() }),
    {
        self.ctlw0.ucssel = Ucssel::Aclk;
        self.prescaler = clk_divisor;
    }

    /// Performs the hardware configuration: under software reset, writes
    /// the control word and the bit-rate word, disables loopback, releases
    /// the reset and leaves both interrupts disabled.  The buffers and
    /// ready flags are not touched.
    fn configure_hw(&mut self)
        ensures
            final(self).usci().regs() == (SpiRegs {
                ctw0: (UcxSpiCtw0 { ucswrst: false, ..old(self).ctw0() }),
                brw: old(self).prescaler(),
                listen: false,
                tx_int_en: false,
                rx_int_en: false,
                txbuf: old(self).usci().regs().txbuf,
                rxbuf: old(self).usci().regs().rxbuf,
                tx_flag: old(self).usci().regs().tx_flag,
                rx_flag: old(self).usci().regs().rx_flag,
            }),
            final(self).prescaler() == old(self).prescaler(),
            final(self).ctw0() == old(self).ctw0(),
    {
        let ctlw0 = self.ctlw0;
        let prescaler = self.prescaler;
        let r = self.usci.regs_mut();
        r.ctw0_wr_rst(true);
        r.ctw0_wr(&ctlw0);
        r.brw_wr(prescaler);
        r.uclisten_set(false);
        r.ctw0_wr_rst(false);
        r.transmit_interrupt_set(false);
        r.receive_interrupt_set(false);
    }

    /// Performs the hardware configuration and creates an SPI bus from the
    /// four pins wired to this peripheral's signals.  Each signal accepts
    /// exactly the one pin type the hardware routes to it.
    pub fn spi_pins<
        SO: Into<USCI::MISO>,
        SI: Into<USCI::MOSI>,
        CLK: Into<USCI::SCLK>,
        STE: Into<USCI::STE>,
    >(self, _miso: SO, _mosi: SI, _sclk: CLK, _cs: STE) -> (pins: SPIPins<USCI>)
        ensures
            pins.regs() == (SpiRegs {
                ctw0: (UcxSpiCtw0 { ucswrst: false, ..self.ctw0() }),
                brw: self.prescaler(),
                listen: false,
                tx_int_en: false,
                rx_int_en: false,
                txbuf: self.usci().regs().txbuf,
                rxbuf: self.usci().regs().rxbuf,
                tx_flag: self.usci().regs().tx_flag,
                rx_flag: self.usci().regs().rx_flag,
            }),
    {
        let mut conf = self;
        conf.configure_hw();
        SPIPins { usci: conf.usci }
    }
}

/// Returned by the polled transfer operations when the peripheral is not
/// ready: nothing happened, and the caller should try again.
#[derive(Clone, Copy, PartialEq, Eq, Debug)]
pub struct WouldBlock;

/// SPI transmit/receive errors.
#[derive(Clone, Copy, PartialEq, Eq, Debug)]
pub enum SPIErr {
    /// Function not implemented
    Unimplemented,
}

/// Represents a group of pins configured for SPI communication.
pub struct SPIPins<USCI: EUsciSPIBus> {
    usci: USCI,
}

impl<USCI: EUsciSPIBus> SPIPins<USCI> {
    /// The peripheral's modelled register block.
    pub closed spec fn regs(self) -> SpiRegs {
        self.usci.regs()
    }

    /// Reads a snapshot of the modelled register block.
    pub fn read_regs(&self) -> (r: SpiRegs)
        ensures
            r == self.regs(),
    {
        *self.usci.regs_ref()
    }

    /// Enable or disable Rx interrupts, which fire when a byte is ready to
    /// be read.
    pub fn rx_interrupt_set(&mut self, flag: bool)
        ensures
            final(self).regs() == (SpiRegs { rx_int_en: flag, ..old(self).regs() }),
    {
        self.usci.regs_mut().receive_interrupt_set(flag);
    }

    /// Enable or disable Tx interrupts, which fire when the transmit
    /// buffer is empty.
    pub fn tx_interrupt_set(&mut self, flag: bool)
        ensures
            final(self).regs() == (SpiRegs { tx_int_en: flag, ..old(self).regs() }),
    {
        self.usci.regs_mut().transmit_interrupt_set(flag);
    }

    /// Writes a raw value to the Tx buffer with no checks for validity:
    /// whatever the buffer held is overwritten and the transmit-ready flag
    /// drops.
    pub fn write_no_check(&mut self, val: u8)
        ensures
            final(self).regs() == (SpiRegs { txbuf: val, tx_flag: false, ..old(self).regs() }),
    {
        self.usci.regs_mut().txbuf_wr(val);
    }

    /// Models the hardware completing one byte transfer: the byte clocked
    /// in lands in the receive buffer and both ready flags are raised.
    pub fn hw_transfer_complete(&mut self, received: u8)
        ensures
            final(self).regs() == (SpiRegs {
                rxbuf: received,
                rx_flag: true,
                tx_flag: true,
                ..old(self).regs()
            }),
    {
        self.usci.regs_mut().hw_transfer_complete(received);
    }

    /// Reads a received byte.  Succeeds exactly when the receive-ready
    /// flag was set, returning the received byte and clearing the flag;
    /// otherwise nothing changes and the caller should retry.
    pub fn read(&mut self) -> (r: Result<u8, WouldBlock>)
        ensures
            old(self).regs().rx_flag ==> r == Ok::<u8, WouldBlock>(old(self).regs().rxbuf)
                && final(self).regs() == (SpiRegs { rx_flag: false, ..old(self).regs() }),
            !old(self).regs().rx_flag ==> r == Err::<u8, WouldBlock>(WouldBlock) && final(self).regs() == old(self).regs(),
    {
        let r = self.usci.regs_mut();
        if r.receive_flag() {
            Ok(r.rxbuf_rd())
        } else {
            Err(WouldBlock)
        }
    }

    /// Queues a byte for transmission.  Succeeds exactly when the
    /// transmit-ready flag was set, writing the transmit buffer and
    /// dropping the flag; otherwise nothing changes and the caller should
    /// retry.
    pub fn send(&mut self, word: u8) -> (r: Result<(), WouldBlock>)
        ensures
            old(self).regs().tx_flag ==> r == Ok::<(), WouldBlock>(()) && final(self).regs() == (
            SpiRegs { txbuf: word, tx_flag: false, ..old(self).regs() }),
            !old(self).regs().tx_flag ==> r == Err::<(), WouldBlock>(WouldBlock) && final(self).regs() == old(self).regs(),
    {
        let r = self.usci.regs_mut();
        if r.transmit_flag() {
            r.txbuf_wr(word);
            Ok(())
        } else {
            Err(WouldBlock)
        }
    }
}

/// SPI MISO pin for eUSCI A0.
pub struct UsciA0MISOPin;

impl<L> From<Pin<Port1, Pin7, Alternate1, L>> for UsciA0MISOPin {
    fn from(_val: Pin<Port1, Pin7, Alternate1, L>) -> (r: Self) {
        UsciA0MISOPin
    }
}

impl<L> vstd::std_specs::convert::FromSpecImpl<Pin<Port1, Pin7, Alternate1, L>> for UsciA0MISOPin {
    open spec fn obeys_from_spec() -> bool {
        true
    }

    open spec fn from_spec(v: Pin<Port1, Pin7, Alternate1, L>) -> Self {
        UsciA0MISOPin
    }
}

/// SPI MOSI pin for eUSCI A0.
pub struct UsciA0MOSIPin;

impl<L> From<Pin<Port1, Pin6, Alternate1, L>> for UsciA0MOSIPin {
    fn from(_val: Pin<Port1, Pin6, Alternate1, L>) -> (r: Self) {
        UsciA0MOSIPin
    }
}

impl<L> vstd::std_specs::convert::FromSpecImpl<Pin<Port1, Pin6, Alternate1, L>> for UsciA0MOSIPin {
    open spec fn obeys_from_spec() -> bool {
        true
    }

    open spec fn from_spec(v: Pin<Port1, Pin6, Alternate1, L>) -> Self {
        UsciA0MOSIPin
    }
}

/// SPI SCLK pin for eUSCI A0.
pub struct UsciA0SCLKPin;

impl<L> From<Pin<Port1, Pin5, Alternate1, L>> for UsciA0SCLKPin {
    fn from(_val: Pin<Port1, Pin5, Alternate1, L>) -> (r: Self) {
        UsciA0SCLKPin
    }
}

impl<L> vstd::std_specs::convert::FromSpecImpl<Pin<Port1, Pin5, Alternate1, L>> for UsciA0SCLKPin {
    open spec fn obeys_from_spec() -> bool {
        true
    }

    open spec fn from_spec(v: Pin<Port1, Pin5, Alternate1, L>) -> Self {
        UsciA0SCLKPin
    }
}

/// SPI STE pin for eUSCI A0.
pub struct UsciA0STEPin;

impl<L> From<Pin<Port1, Pin4, Alternate1, L>> for UsciA0STEPin {
    fn from(_val: Pin<Port1, Pin4, Alternate1, L>) -> (r: Self) {
        UsciA0STEPin
    }
}

impl<L> vstd::std_specs::convert::FromSpecImpl<Pin<Port1, Pin4, Alternate1, L>> for UsciA0STEPin {
    open spec fn obeys_from_spec() -> bool {
        true
    }

    open spec fn from_spec(v: Pin<Port1, Pin4, Alternate1, L>) -> Self {
        UsciA0STEPin
    }
}

/// SPI MISO pin for eUSCI A1.
pub struct UsciA1MISOPin;

impl<L> From<Pin<Port4, Pin3, Alternate1, L>> for UsciA1MISOPin {
    fn from(_val: Pin<Port4, Pin3, Alternate1, L>) -> (r: Self) {
        UsciA1MISOPin
    }
}

impl<L> vstd::std_specs::convert::FromSpecImpl<Pin<Port4, Pin3, Alternate1, L>> for UsciA1MISOPin {
    open spec fn obeys_from_spec() -> bool {
        true
    }

    open spec fn from_spec(v: Pin<Port4, Pin3, Alternate1, L>) -> Self {
        UsciA1MISOPin
    }
}

/// SPI MOSI pin for eUSCI A1.
pub struct UsciA1MOSIPin;

impl<L> From<Pin<Port4, Pin2, Alternate1, L>> for UsciA1MOSIPin {
    fn from(_val: Pin<Port4, Pin2, Alternate1, L>) -> (r: Self) {
        UsciA1MOSIPin
    }
}

impl<L> vstd::std_specs::convert::FromSpecImpl<Pin<Port4, Pin2, Alternate1, L>> for UsciA1MOSIPin {
    open spec fn obeys_from_spec() -> bool {
        true
    }

    open spec fn from_spec(v: Pin<Port4, Pin2, Alternate1, L>) -> Self {
        UsciA1MOSIPin
    }
}

/// SPI SCLK pin for eUSCI A1.
pub struct UsciA1SCLKPin;

impl<L> From<Pin<Port4, Pin1, Alternate1, L>> for UsciA1SCLKPin {
    fn from(_val: Pin<Port4, Pin1, Alternate1, L>) -> (r: Self) {
        UsciA1SCLKPin
    }
}

impl<L> vstd::std_specs::convert::FromSpecImpl<Pin<Port4, Pin1, Alternate1, L>> for UsciA1SCLKPin {
    open spec fn obeys_from_spec() -> bool {
        true
    }

    open spec fn from_spec(v: Pin<Port4, Pin1, Alternate1, L>) -> Self {
        UsciA1SCLKPin
    }
}

/// SPI STE pin for eUSCI A1.
pub struct UsciA1STEPin;

impl<L> From<Pin<Port4, Pin0, Alternate1, L>> for UsciA1STEPin {
    fn from(_val: Pin<Port4, Pin0, Alternate1, L>) -> (r: Self) {
        UsciA1STEPin
    }
}

impl<L> vstd::std_specs::convert::FromSpecImpl<Pin<Port4, Pin0, Alternate1, L>> for UsciA1STEPin {
    open spec fn obeys_from_spec() -> bool {
        true
    }

    open spec fn from_spec(v: Pin<Port4, Pin0, Alternate1, L>) -> Self {
        UsciA1STEPin
    }
}

/// SPI MISO pin for eUSCI B0.
pub struct UsciB0MISOPin;

impl<L> From<Pin<Port1, Pin3, Alternate1, L>> for UsciB0MISOPin {
    fn from(_val: Pin<Port1, Pin3, Alternate1, L>) -> (r: Self) {
        UsciB0MISOPin
    }
}

impl<L> vstd::std_specs::convert::FromSpecImpl<Pin<Port1, Pin3, Alternate1, L>> for UsciB0MISOPin {
    open spec fn obeys_from_spec() -> bool {
        true
    }

    open spec fn from_spec(v: Pin<Port1, Pin3, Alternate1, L>) -> Self {
        UsciB0MISOPin
    }
}

/// SPI MOSI pin for eUSCI B0.
pub struct UsciB0MOSIPin;

impl<L> From<Pin<Port1, Pin2, Alternate1, L>> for UsciB0MOSIPin {
    fn from(_val: Pin<Port1, Pin2, Alternate1, L>) -> (r: Self) {
        UsciB0MOSIPin
    }
}

impl<L> vstd::std_specs::convert::FromSpecImpl<Pin<Port1, Pin2, Alternate1, L>> for UsciB0MOSIPin {
    open spec fn obeys_from_spec() -> bool {
        true
    }

    open spec fn from_spec(v: Pin<Port1, Pin2, Alternate1, L>) -> Self {
        UsciB0MOSIPin
    }
}

/// SPI SCLK pin for eUSCI B0.
pub struct UsciB0SCLKPin;

impl<L> From<Pin<Port1, Pin1, Alternate1, L>> for UsciB0SCLKPin {
    fn from(_val: Pin<Port1, Pin1, Alternate1, L>) -> (r: Self) {
        UsciB0SCLKPin
    }
}

impl<L> vstd::std_specs::convert::FromSpecImpl<Pin<Port1, Pin1, Alternate1, L>> for UsciB0SCLKPin {
    open spec fn obeys_from_spec() -> bool {
        true
    }

    open spec fn from_spec(v: Pin<Port1, Pin1, Alternate1, L>) -> Self {
        UsciB0SCLKPin
    }
}

/// SPI STE pin for eUSCI B0.
pub struct UsciB0STEPin;

impl<L> From<Pin<Port1, Pin0, Alternate1, L>> for UsciB0STEPin {
    fn from(_val: Pin<Port1, Pin0, Alternate1, L>) -> (r: Self) {
        UsciB0STEPin
    }
}

impl<L> vstd::std_specs::convert::FromSpecImpl<Pin<Port1, Pin0, Alternate1, L>> for UsciB0STEPin {
    open spec fn obeys_from_spec() -> bool {
        true
    }

    open spec fn from_spec(v: Pin<Port1, Pin0, Alternate1, L>) -> Self {
        UsciB0STEPin
    }
}

/// SPI MISO pin for eUSCI B1.
pub struct UsciB1MISOPin;

impl<L> From<Pin<Port4, Pin7, Alternate1, L>> for UsciB1MISOPin {
    fn from(_val: Pin<Port4, Pin7, Alternate1, L>) -> (r: Self) {
        UsciB1MISOPin
    }
}

impl<L> vstd::std_specs::convert::FromSpecImpl<Pin<Port4, Pin7, Alternate1, L>> for UsciB1MISOPin {
    open spec fn obeys_from_spec() -> bool {
        true
    }

    open spec fn from_spec(v: Pin<Port4, Pin7, Alternate1, L>) -> Self {
        UsciB1MISOPin
    }
}

/// SPI MOSI pin for eUSCI B1.
pub struct UsciB1MOSIPin;

impl<L> From<Pin<Port4, Pin6, Alternate1, L>> for UsciB1MOSIPin {
    fn from(_val: Pin<Port4, Pin6, Alternate1, L>) -> (r: Self) {
        UsciB1MOSIPin
    }
}

impl<L> vstd::std_specs::convert::FromSpecImpl<Pin<Port4, Pin6, Alternate1, L>> for UsciB1MOSIPin {
    open spec fn obeys_from_spec() -> bool {
        true
    }

    open spec fn from_spec(v: Pin<Port4, Pin6, Alternate1, L>) -> Self {
        UsciB1MOSIPin
    }
}

/// SPI SCLK pin for eUSCI B1.
pub struct UsciB1SCLKPin;

impl<L> From<Pin<Port4, Pin5, Alternate1, L>> for UsciB1SCLKPin {
    fn from(_val: Pin<Port4, Pin5, Alternate1, L>) -> (r: Self) {
        UsciB1SCLKPin
    }
}

impl<L> vstd::std_specs::convert::FromSpecImpl<Pin<Port4, Pin5, Alternate1, L>> for UsciB1SCLKPin {
    open spec fn obeys_from_spec() -> bool {
        true
    }

    open spec fn from_spec(v: Pin<Port4, Pin5, Alternate1, L>) -> Self {
        UsciB1SCLKPin
    }
}

/// SPI STE pin for eUSCI B1.
pub struct UsciB1STEPin;

impl<L> From<Pin<Port4, Pin4, Alternate1, L>> for UsciB1STEPin {
    fn from(_val: Pin<Port4, Pin4, Alternate1, L>) -> (r: Self) {
        UsciB1STEPin
    }
}

impl<L> vstd::std_specs::convert::FromSpecImpl<Pin<Port4, Pin4, Alternate1, L>> for UsciB1STEPin {
    open spec fn obeys_from_spec() -> bool {
        true
    }

    open spec fn from_spec(v: Pin<Port4, Pin4, Alternate1, L>) -> Self {
        UsciB1STEPin
    }
}

} // verus!
