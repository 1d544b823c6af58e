//! The reset and clock control (RCC) block: which register and bit gate a
//! peripheral's clock and reset line, the read-modify-write plan that brings
//! a peripheral up, and a register model that runs that plan inside a
//! critical section.
use vstd::prelude::*;

verus! {

/// Base address of the RCC register block.
pub const RCC_BASE: usize = 0x4002_3800;

/// The internal buses whose clocks and resets the RCC gates.
#[derive(Clone, Copy, Debug, PartialEq, Eq, Structural)]
pub enum Bus {
    Ahb1,
    Ahb2,
}

/// The RCC registers that enabling a USB block touches.
#[derive(Clone, Copy, Debug, PartialEq, Eq, Structural)]
pub enum RccRegister {
    Ahb1Rstr,
    Ahb2Rstr,
    Ahb1Enr,
    Ahb2Enr,
}

pub open spec fn spec_register_offset(r: RccRegister) -> usize {
    match r {
        RccRegister::Ahb1Rstr => 0x10,
        RccRegister::Ahb2Rstr => 0x14,
        RccRegister::Ahb1Enr => 0x30,
        RccRegister::Ahb2Enr => 0x34,
    }
}

/// Memory address of an RCC register.
pub fn register_address(r: RccRegister) -> (a: usize)
    ensures
        a == RCC_BASE + spec_register_offset(r),
{
    match r {
        RccRegister::Ahb1Rstr => RCC_BASE + 0x10,
        RccRegister::Ahb2Rstr => RCC_BASE + 0x14,
        RccRegister::Ahb1Enr => RCC_BASE + 0x30,
        RccRegister::Ahb2Enr => RCC_BASE + 0x34,
    }
}

/// Whether bit `i` of `v` is set.
pub open spec fn bit_of(v: u32, i: u32) -> bool {
    (v >> i) & 1u32 == 1u32
}

/// `v` with bit `bit` set (`set`) or cleared (`!set`).
pub open spec fn with_bit(v: u32, bit: u32, set: bool) -> u32 {
    if set {
        v | (1u32 << bit)
    } else {
        v & !(1u32 << bit)
    }
}

/// Setting or clearing one bit changes that bit and no other.
pub proof fn lemma_with_bit(v: u32, bit: u32, set: bool, i: u32)
    requires
        bit < 32,
        i < 32,
    ensures
        bit_of(with_bit(v, bit, set), i) == if i == bit {
            set
        } else {
            bit_of(v, i)
        },
{
    if set {
        assert(bit_of(v | (1u32 << bit), i) == if i == bit {
            true
        } else {
            bit_of(v, i)
        }) by (bit_vector)
            requires
                bit < 32,
                i < 32,
        ;
    } else {
        assert(bit_of(v & !(1u32 << bit), i) == if i == bit {
            false
        } else {
            bit_of(v, i)
        }) by (bit_vector)
            requires
                bit < 32,
                i < 32,
        ;
    }
}

/// Writing one bit twice: the second write alone decides the result.
pub proof fn lemma_with_bit_twice(v: u32, bit: u32, first: bool, second: bool)
    requires
        bit < 32,
    ensures
        with_bit(with_bit(v, bit, first), bit, second) == with_bit(v, bit, second),
{
    assert(with_bit(with_bit(v, bit, first), bit, second) == with_bit(v, bit, second))
        by (bit_vector)
        requires
            bit < 32,
    ;
}

/// The modify step of a read-modify-write: the value read with one bit
/// set or cleared.
pub fn modify_bit(value: u32, bit: u32, set: bool) -> (r: u32)
    requires
        bit < 32,
    ensures
        r == with_bit(value, bit, set),
        forall|i: u32| i < 32 ==> bit_of(r, i) == if i == bit {
            set
        } else {
            bit_of(value, i)
        },
{
    proof {
        assert forall|i: u32| i < 32 implies bit_of(with_bit(value, bit, set), i) == if i == bit {
            set
        } else {
            bit_of(value, i)
        } by {
            lemma_with_bit(value, bit, set, i);
        }
    }
    if set {
        value | (1u32 << bit)
    } else {
        value & !(1u32 << bit)
    }
}

/// The clock gate of one peripheral: the bus it sits on, and its bit in
/// that bus's clock-enable and reset registers.
#[derive(Clone, Copy, Debug, PartialEq, Eq, Structural)]
pub struct ClockGate {
    pub bus: Bus,
    pub bit: u32,
}

impl ClockGate {
    pub open spec fn wf(self) -> bool {
        self.bit < 32
    }

    pub open spec fn spec_enable_register(self) -> RccRegister {
        match self.bus {
            Bus::Ahb1 => RccRegister::Ahb1Enr,
            Bus::Ahb2 => RccRegister::Ahb2Enr,
        }
    }

    pub open spec fn spec_reset_register(self) -> RccRegister {
        match self.bus {
            Bus::Ahb1 => RccRegister::Ahb1Rstr,
            Bus::Ahb2 => RccRegister::Ahb2Rstr,
        }
    }

    /// The clock-enable register of the bus the peripheral sits on.
    pub fn enable_register(&self) -> (r: RccRegister)
        ensures
            r == self.spec_enable_register(),
    {
        match self.bus {
            Bus::Ahb1 => RccRegister::Ahb1Enr,
            Bus::Ahb2 => RccRegister::Ahb2Enr,
        }
    }

    /// The reset register of the bus the peripheral sits on.
    pub fn reset_register(&self) -> (r: RccRegister)
        ensures
            r == self.spec_reset_register(),
    {
        match self.bus {
            Bus::Ahb1 => RccRegister::Ahb1Rstr,
            Bus::Ahb2 => RccRegister::Ahb2Rstr,
        }
    }
}

/// One read-modify-write of an RCC register: bit `bit` of `register` is set
/// (`set`) or cleared (`!set`), the other bits are written back as read.
#[derive(Clone, Copy, Debug, PartialEq, Eq, Structural)]
pub struct BitWrite {
    pub register: RccRegister,
    pub bit: u32,
    pub set: bool,
}

/// The bring-up plan of a peripheral: enable its clock, then pulse its
/// reset line (set, then clear).
pub open spec fn spec_enable_sequence(gate: ClockGate) -> Seq<BitWrite> {
    seq![
        BitWrite { register: gate.spec_enable_register(), bit: gate.bit, set: true },
        BitWrite { register: gate.spec_reset_register(), bit: gate.bit, set: true },
        BitWrite { register: gate.spec_reset_register(), bit: gate.bit, set: false },
    ]
}

/// The read-modify-writes that bring the peripheral behind `gate` up, in
/// the order they must be made.
pub fn enable_sequence(gate: ClockGate) -> (r: [BitWrite; 3])
    requires
        gate.wf(),
    ensures
        r@ == spec_enable_sequence(gate),
{
    let enr = gate.enable_register();
    let rstr = gate.reset_register();
    let r = [
        BitWrite { register: enr, bit: gate.bit, set: true },
        BitWrite { register: rstr, bit: gate.bit, set: true },
        BitWrite { register: rstr, bit: gate.bit, set: false },
    ];
    assert(r@ =~= spec_enable_sequence(gate));
    r
}

/// The values of the RCC registers that enabling a USB block touches.
#[derive(Clone, Copy, Debug, PartialEq, Eq, Structural)]
pub struct RccRegisters {
    pub ahb1rstr: u32,
    pub ahb2rstr: u32,
    pub ahb1enr: u32,
    pub ahb2enr: u32,
}

impl RccRegisters {
    pub open spec fn get(self, r: RccRegister) -> u32 {
        match r {
            RccRegister::Ahb1Rstr => self.ahb1rstr,
            RccRegister::Ahb2Rstr => self.ahb2rstr,
            RccRegister::Ahb1Enr => self.ahb1enr,
            RccRegister::Ahb2Enr => self.ahb2enr,
        }
    }

    pub open spec fn set(self, r: RccRegister, v: u32) -> RccRegisters {
        match r {
            RccRegister::Ahb1Rstr => RccRegisters { ahb1rstr: v, ..self },
            RccRegister::Ahb2Rstr => RccRegisters { ahb2rstr: v, ..self },
            RccRegister::Ahb1Enr => RccRegisters { ahb1enr: v, ..self },
            RccRegister::Ahb2Enr => RccRegisters { ahb2enr: v, ..self },
        }
    }

    /// The registers after one read-modify-write.
    pub open spec fn apply(self, w: BitWrite) -> RccRegisters {
        self.set(w.register, with_bit(self.get(w.register), w.bit, w.set))
    }

    /// The registers after a peripheral was brought up: its clock-enable
    /// bit is set, its reset bit is clear, every other bit is as before.
    pub open spec fn enabled(self, gate: ClockGate) -> RccRegisters {
        self.set(
            gate.spec_enable_register(),
            with_bit(self.get(gate.spec_enable_register()), gate.bit, true),
        ).set(
            gate.spec_reset_register(),
            with_bit(self.get(gate.spec_reset_register()), gate.bit, false),
        )
    }

    /// The value of one register.
    pub fn read(&self, r: RccRegister) -> (v: u32)
        ensures
            v == self.get(r),
    {
        match r {
            RccRegister::Ahb1Rstr => self.ahb1rstr,
            RccRegister::Ahb2Rstr => self.ahb2rstr,
            RccRegister::Ahb1Enr => self.ahb1enr,
            RccRegister::Ahb2Enr => self.ahb2enr,
        }
    }

    /// Overwrites one register.
    pub fn write(&mut self, r: RccRegister, v: u32)
        ensures
            *final(self) == old(self).set(r, v),
    {
        match r {
            RccRegister::Ahb1Rstr => self.ahb1rstr = v,
            RccRegister::Ahb2Rstr => self.ahb2rstr = v,
            RccRegister::Ahb1Enr => self.ahb1enr = v,
            RccRegister::Ahb2Enr => self.ahb2enr = v,
        }
    }
}

/// Running the bring-up plan on some register values gives the values
/// that `enabled` describes.
pub proof fn lemma_enable_sequence_effect(regs: RccRegisters, gate: ClockGate)
    requires
        gate.wf(),
    ensures
        regs.apply(spec_enable_sequence(gate)[0]).apply(spec_enable_sequence(gate)[1]).apply(
            spec_enable_sequence(gate)[2],
        ) == regs.enabled(gate),
{
    let rstr = gate.spec_reset_register();
    lemma_with_bit_twice(regs.get(rstr), gate.bit, true, false);
}

/// Bringing a peripheral up twice leaves the registers as bringing it up
/// once does.
pub proof fn lemma_enable_idempotent(regs: RccRegisters, gate: ClockGate)
    requires
        gate.wf(),
    ensures
        regs.enabled(gate).enabled(gate) == regs.enabled(gate),
{
    let enr = gate.spec_enable_register();
    let rstr = gate.spec_reset_register();
    lemma_with_bit_twice(regs.get(enr), gate.bit, true, true);
    lemma_with_bit_twice(regs.get(rstr), gate.bit, false, false);
}

/// One write that reached an RCC register, and whether interrupts were
/// enabled when it did.
#[derive(Clone, Copy, Debug, PartialEq, Eq, Structural)]
pub struct RegisterWrite {
    pub register: RccRegister,
    pub value: u32,
    pub interrupts_enabled: bool,
}

/// The writes that bringing the peripheral behind `gate` up makes, starting
/// from `regs`: all of them with interrupts masked.
pub open spec fn spec_enable_writes(regs: RccRegisters, gate: ClockGate) -> Seq<RegisterWrite> {
    let enr = gate.spec_enable_register();
    let rstr = gate.spec_reset_register();
    seq![
        RegisterWrite {
            register: enr,
            value: with_bit(regs.get(enr), gate.bit, true),
            interrupts_enabled: false,
        },
        RegisterWrite {
            register: rstr,
            value: with_bit(regs.get(rstr), gate.bit, true),
            interrupts_enabled: false,
        },
        RegisterWrite {
            register: rstr,
            value: with_bit(regs.get(rstr), gate.bit, false),
            interrupts_enabled: false,
        },
    ]
}

/// Bringing a peripheral up sets its clock-enable bit, clears its reset bit,
/// and changes no other bit of those two registers and no other register.
pub proof fn lemma_enable_touches_only_gate(regs: RccRegisters, gate: ClockGate)
    requires
        gate.wf(),
    ensures
        forall|i: u32|
            i < 32 ==> bit_of(#[trigger] regs.enabled(gate).get(gate.spec_enable_register()), i)
                == if i == gate.bit {
                true
            } else {
                bit_of(regs.get(gate.spec_enable_register()), i)
            },
        forall|i: u32|
            i < 32 ==> bit_of(#[trigger] regs.enabled(gate).get(gate.spec_reset_register()), i)
                == if i == gate.bit {
                false
            } else {
                bit_of(regs.get(gate.spec_reset_register()), i)
            },
        forall|r: RccRegister|
            r != gate.spec_enable_register() && r != gate.spec_reset_register() ==> (
            #[trigger] regs.enabled(gate).get(r)) == regs.get(r),
{
    let enr = gate.spec_enable_register();
    let rstr = gate.spec_reset_register();
    assert forall|i: u32| i < 32 implies bit_of(regs.enabled(gate).get(enr), i) == if i
        == gate.bit {
        true
    } else {
        bit_of(regs.get(enr), i)
    } by {
        lemma_with_bit(regs.get(enr), gate.bit, true, i);
    }
    assert forall|i: u32| i < 32 implies bit_of(regs.enabled(gate).get(rstr), i) == if i
        == gate.bit {
        false
    } else {
        bit_of(regs.get(rstr), i)
    } by {
        lemma_with_bit(regs.get(rstr), gate.bit, false, i);
    }
}

/// A model of the RCC block that every peripheral shares: its register
/// values, the core's interrupt mask, and the writes made so far, in order.
///
/// Bringing a peripheral up goes through `enable_peripheral`, which runs as
/// one critical section and takes the model by `&mut`, so no two bring-up
/// sequences interleave.
pub struct Rcc {
    pub registers: RccRegisters,
    pub interrupts_enabled: bool,
    pub writes: Vec<RegisterWrite>,
}

impl Rcc {
    /// A model with the given register values and interrupt state, and no
    /// writes made yet.
    pub fn new(registers: RccRegisters, interrupts_enabled: bool) -> (r: Rcc)
        ensures
            r.registers == registers,
            r.interrupts_enabled == interrupts_enabled,
            r.writes@ == Seq::<RegisterWrite>::empty(),
    {
        Rcc { registers, interrupts_enabled, writes: Vec::new() }
    }

    /// One read-modify-write, recorded as a write.
    fn modify(&mut self, w: BitWrite)
        requires
            w.bit < 32,
        ensures
            final(self).registers == old(self).registers.apply(w),
            final(self).interrupts_enabled == old(self).interrupts_enabled,
            final(self).writes@ == old(self).writes@.push(
                RegisterWrite {
                    register: w.register,
                    value: with_bit(old(self).registers.get(w.register), w.bit, w.set),
                    interrupts_enabled: old(self).interrupts_enabled,
                },
            ),
    {
        let v = modify_bit(self.registers.read(w.register), w.bit, w.set);
        self.registers.write(w.register, v);
        self.writes.push(
            RegisterWrite {
                register: w.register,
                value: v,
                interrupts_enabled: self.interrupts_enabled,
            },
        );
    }

    /// Brings up the peripheral behind `gate`: enables its clock and pulses
    /// its reset line, all inside one critical section. Interrupts are
    /// masked for every write and afterwards are as they were before.
    pub fn enable_peripheral(&mut self, gate: ClockGate)
        requires
            gate.wf(),
        ensures
            final(self).registers == old(self).registers.enabled(gate),
            final(self).interrupts_enabled == old(self).interrupts_enabled,
            final(self).writes@ == old(self).writes@ + spec_enable_writes(
                old(self).registers,
                gate,
            ),
    {
        let ghost regs0 = self.registers;
        let ghost writes0 = self.writes@;
        let plan = enable_sequence(gate);
        let interrupts_were_enabled = self.interrupts_enabled;
        self.interrupts_enabled = false;
        self.modify(plan[0]);
        self.modify(plan[1]);
        self.modify(plan[2]);
        self.interrupts_enabled = interrupts_were_enabled;
        proof {
            lemma_enable_sequence_effect(regs0, gate);
            let rstr = gate.spec_reset_register();
            lemma_with_bit_twice(regs0.get(rstr), gate.bit, true, false);
            assert(self.writes@ =~= writes0 + spec_enable_writes(regs0, gate));
        }
    }
}

} // verus!
