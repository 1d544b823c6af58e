//! The full-speed USB OTG block (OTG_FS), on AHB2, with its data lines on
//! PA11 (D-) and PA12 (D+) in alternate function 10.
use crate::gpio::{Alternate, RegisterBlock, PA11, PA12};
use crate::rcc::{Bus, ClockGate, Rcc};
use vstd::prelude::*;

verus! {

/// Base address of the block's global control registers.
pub const REGISTERS: usize = 0x5000_0000;

/// Base address of the block's device control registers.
pub const DEVICE_REGISTERS: usize = 0x5000_0800;

/// Base address of the block's power and clock gating registers.
pub const PWRCLK_REGISTERS: usize = 0x5000_0E00;

/// Whether the block is a high-speed one.
pub const HIGH_SPEED: bool = false;

/// Packet-buffer RAM for endpoint FIFOs, in 32-bit words.
pub const FIFO_DEPTH_WORDS: usize = 320;

/// The block's bit in the AHB2 clock-enable and reset registers.
pub const CLOCK_BIT: u32 = 7;

/// The alternate function that routes PA11 and PA12 to the block.
pub const PIN_AF: u8 = 10;

pub type OtgFsGlobal = RegisterBlock<REGISTERS>;

pub type OtgFsDevice = RegisterBlock<DEVICE_REGISTERS>;

pub type OtgFsPwrclk = RegisterBlock<PWRCLK_REGISTERS>;

/// The full-speed block bound to its pins: it owns the block's three
/// register regions and the two data-line pins, which its type requires to
/// be in alternate function 10.
///
/// Its capability values are constants, so shared references to it may be
/// read from any context; `enable` changes the shared clock controller and
/// takes it by `&mut`, so it cannot run concurrently with another change.
pub struct Peripheral {
    pub usb_global: OtgFsGlobal,
    pub usb_device: OtgFsDevice,
    pub usb_pwrclk: OtgFsPwrclk,
    pub pin_dm: PA11<Alternate<PIN_AF>>,
    pub pin_dp: PA12<Alternate<PIN_AF>>,
}

pub open spec fn spec_clock_gate() -> ClockGate {
    ClockGate { bus: Bus::Ahb2, bit: CLOCK_BIT }
}

impl Peripheral {
    /// Base address of the register block the driver works on.
    pub fn registers() -> (r: usize)
        ensures
            r == REGISTERS,
            r == 0x5000_0000,
    {
        REGISTERS
    }

    /// Whether the block runs at high speed: it does not.
    pub fn high_speed() -> (r: bool)
        ensures
            r == HIGH_SPEED,
            !r,
    {
        HIGH_SPEED
    }

    /// Packet-buffer RAM available for endpoint FIFOs, in 32-bit words.
    pub fn fifo_depth_words() -> (r: usize)
        ensures
            r == FIFO_DEPTH_WORDS,
            r == 320,
    {
        FIFO_DEPTH_WORDS
    }

    /// The block's clock gate: bit 7 of AHB2.
    pub fn clock_gate() -> (r: ClockGate)
        ensures
            r == spec_clock_gate(),
            r.wf(),
    {
        ClockGate { bus: Bus::Ahb2, bit: CLOCK_BIT }
    }

    /// Brings the block up: enables its AHB2 clock and pulses its AHB2
    /// reset line, as one critical section. No other register or bit
    /// changes, and interrupts end as they were.
    pub fn enable(rcc: &mut Rcc)
        ensures
            final(rcc).registers == old(rcc).registers.enabled(spec_clock_gate()),
            final(rcc).interrupts_enabled == old(rcc).interrupts_enabled,
            final(rcc).writes@ == old(rcc).writes@ + crate::rcc::spec_enable_writes(
                old(rcc).registers,
                spec_clock_gate(),
            ),
    {
        rcc.enable_peripheral(Self::clock_gate());
    }
}

} // verus!
