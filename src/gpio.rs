//! Pin and register-block handles whose types carry what the USB binding
//! needs to know of them: a pin's port, number and mode, and a register
//! block's address. A binding that asks for a pin in one alternate-function
//! mode cannot be given that pin in any other mode.
use core::marker::PhantomData;
use vstd::prelude::*;

verus! {

/// Port index of GPIOA.
pub const PORT_A: u8 = 0;

/// Port index of GPIOB.
pub const PORT_B: u8 = 1;

/// Input mode: the mode of every pin after reset.
pub struct Input {}

/// Alternate-function mode `AF` (0 to 15): the pin is routed to a
/// peripheral's signal.
pub struct Alternate<const AF: u8> {}

/// An exclusively owned handle to pin `N` of port `PORT`, configured in
/// mode `MODE`.
pub struct Pin<const PORT: u8, const N: u8, MODE> {
    mode: PhantomData<MODE>,
}

pub type PA11<MODE> = Pin<PORT_A, 11, MODE>;

pub type PA12<MODE> = Pin<PORT_A, 12, MODE>;

pub type PB14<MODE> = Pin<PORT_B, 14, MODE>;

pub type PB15<MODE> = Pin<PORT_B, 15, MODE>;

impl<const PORT: u8, const N: u8> Pin<PORT, N, Input> {
    /// The handle of a pin in its reset mode. Whoever calls this must own
    /// the pin: no second handle to it may exist.
    pub fn new() -> Self {
        Pin { mode: PhantomData }
    }
}

impl<const PORT: u8, const N: u8, MODE> Pin<PORT, N, MODE> {
    /// The port the pin belongs to.
    pub fn port(&self) -> (r: u8)
        ensures
            r == PORT,
    {
        PORT
    }

    /// The pin's number within its port.
    pub fn number(&self) -> (r: u8)
        ensures
            r == N,
    {
        N
    }

    /// The same pin, switched to alternate-function mode `AF`.
    pub fn into_alternate<const AF: u8>(self) -> Pin<PORT, N, Alternate<AF>> {
        Pin { mode: PhantomData }
    }
}

/// An exclusively owned handle to the register block at address `ADDR`.
pub struct RegisterBlock<const ADDR: usize> {
    owned: (),
}

impl<const ADDR: usize> RegisterBlock<ADDR> {
    /// The handle of the block. Whoever calls this must own the block: no
    /// second handle to it may exist.
    pub fn new() -> Self {
        RegisterBlock { owned: () }
    }

    /// The block's base address.
    pub fn address(&self) -> (r: usize)
        ensures
            r == ADDR,
    {
        ADDR
    }
}

} // verus!
