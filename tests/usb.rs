use stm32f4_usb::gpio::{Input, RegisterBlock, PA11, PA12, PB14, PB15, PORT_A, PORT_B};
use stm32f4_usb::otg_fs;
use stm32f4_usb::otg_hs;
use stm32f4_usb::rcc::{
    enable_sequence, modify_bit, register_address, BitWrite, Bus, ClockGate, Rcc, RccRegister,
    RccRegisters, RegisterWrite,
};

fn zeroed() -> RccRegisters {
    RccRegisters { ahb1rstr: 0, ahb2rstr: 0, ahb1enr: 0, ahb2enr: 0 }
}

fn fs_peripheral() -> otg_fs::Peripheral {
    otg_fs::Peripheral {
        usb_global: RegisterBlock::new(),
        usb_device: RegisterBlock::new(),
        usb_pwrclk: RegisterBlock::new(),
        pin_dm: PA11::<Input>::new().into_alternate(),
        pin_dp: PA12::<Input>::new().into_alternate(),
    }
}

fn hs_peripheral() -> otg_hs::Peripheral {
    otg_hs::Peripheral {
        usb_global: RegisterBlock::new(),
        usb_device: RegisterBlock::new(),
        usb_pwrclk: RegisterBlock::new(),
        pin_dm: PB14::<Input>::new().into_alternate(),
        pin_dp: PB15::<Input>::new().into_alternate(),
    }
}

fn masked(register: RccRegister, value: u32) -> RegisterWrite {
    RegisterWrite { register, value, interrupts_enabled: false }
}

#[test]
fn register_base_addresses() {
    assert_eq!(otg_fs::Peripheral::registers(), 0x5000_0000);
    assert_eq!(otg_hs::Peripheral::registers(), 0x4004_0000);
    let p = fs_peripheral();
    assert_eq!(p.usb_global.address(), 0x5000_0000);
    assert_eq!(p.usb_device.address(), 0x5000_0800);
    assert_eq!(p.usb_pwrclk.address(), 0x5000_0E00);
    let p = hs_peripheral();
    assert_eq!(p.usb_global.address(), 0x4004_0000);
    assert_eq!(p.usb_device.address(), 0x4004_0800);
    assert_eq!(p.usb_pwrclk.address(), 0x4004_0E00);
}

#[test]
fn fifo_depths() {
    assert_eq!(otg_fs::Peripheral::fifo_depth_words(), 320);
    assert_eq!(otg_hs::Peripheral::fifo_depth_words(), 1024);
}

#[test]
fn speed_flags() {
    assert!(!otg_fs::Peripheral::high_speed());
    assert!(otg_hs::Peripheral::high_speed());
}

#[test]
fn data_line_pins() {
    let p = fs_peripheral();
    assert_eq!((p.pin_dm.port(), p.pin_dm.number()), (PORT_A, 11));
    assert_eq!((p.pin_dp.port(), p.pin_dp.number()), (PORT_A, 12));
    let p = hs_peripheral();
    assert_eq!((p.pin_dm.port(), p.pin_dm.number()), (PORT_B, 14));
    assert_eq!((p.pin_dp.port(), p.pin_dp.number()), (PORT_B, 15));
}

#[test]
fn clock_gates() {
    assert_eq!(otg_fs::Peripheral::clock_gate(), ClockGate { bus: Bus::Ahb2, bit: 7 });
    assert_eq!(otg_hs::Peripheral::clock_gate(), ClockGate { bus: Bus::Ahb1, bit: 29 });
}

#[test]
fn full_speed_enable_sequence() {
    let _p = fs_peripheral();
    let mut rcc = Rcc::new(zeroed(), true);
    otg_fs::Peripheral::enable(&mut rcc);
    assert_eq!(
        rcc.writes,
        vec![
            masked(RccRegister::Ahb2Enr, 0x80),
            masked(RccRegister::Ahb2Rstr, 0x80),
            masked(RccRegister::Ahb2Rstr, 0),
        ]
    );
    assert_eq!(rcc.registers, RccRegisters { ahb1rstr: 0, ahb2rstr: 0, ahb1enr: 0, ahb2enr: 0x80 });
    assert!(rcc.interrupts_enabled);
}

#[test]
fn high_speed_enable_sequence() {
    let _p = hs_peripheral();
    let start = RccRegisters { ahb1rstr: 0, ahb2rstr: 0x0000_0040, ahb1enr: 0, ahb2enr: 0x0000_0001 };
    let mut rcc = Rcc::new(start, true);
    otg_hs::Peripheral::enable(&mut rcc);
    assert_eq!(
        rcc.writes,
        vec![
            masked(RccRegister::Ahb1Enr, 0x2000_0000),
            masked(RccRegister::Ahb1Rstr, 0x2000_0000),
            masked(RccRegister::Ahb1Rstr, 0),
        ]
    );
    assert_eq!(rcc.registers.ahb1enr, 0x2000_0000);
    assert_eq!(rcc.registers.ahb1rstr, 0);
    assert_eq!(rcc.registers.ahb2enr, 0x0000_0001);
    assert_eq!(rcc.registers.ahb2rstr, 0x0000_0040);
    assert!(rcc.interrupts_enabled);
}

#[test]
fn enable_keeps_other_bits() {
    let start = RccRegisters {
        ahb1rstr: 0x1234_5678,
        ahb2rstr: 0xFFFF_FFFF,
        ahb1enr: 0x0010_0000,
        ahb2enr: 0x0000_0011,
    };
    let mut rcc = Rcc::new(start, true);
    otg_fs::Peripheral::enable(&mut rcc);
    assert_eq!(
        rcc.registers,
        RccRegisters { ahb1rstr: 0x1234_5678, ahb2rstr: 0xFFFF_FF7F, ahb1enr: 0x0010_0000, ahb2enr: 0x0000_0091 }
    );
    assert_eq!(
        rcc.writes,
        vec![
            masked(RccRegister::Ahb2Enr, 0x0000_0091),
            masked(RccRegister::Ahb2Rstr, 0xFFFF_FFFF),
            masked(RccRegister::Ahb2Rstr, 0xFFFF_FF7F),
        ]
    );
}

#[test]
fn enable_twice_same_as_once() {
    let start = RccRegisters { ahb1rstr: 0x5, ahb2rstr: 0x80, ahb1enr: 0x0010_0000, ahb2enr: 0x3 };
    let mut once = Rcc::new(start, true);
    otg_hs::Peripheral::enable(&mut once);
    let mut twice = Rcc::new(start, true);
    otg_hs::Peripheral::enable(&mut twice);
    otg_hs::Peripheral::enable(&mut twice);
    assert_eq!(once.registers, twice.registers);
    assert_eq!(twice.writes.len(), 6);

    let mut once = Rcc::new(start, true);
    otg_fs::Peripheral::enable(&mut once);
    let mut twice = Rcc::new(start, true);
    otg_fs::Peripheral::enable(&mut twice);
    otg_fs::Peripheral::enable(&mut twice);
    assert_eq!(once.registers, twice.registers);
    assert_eq!(once.registers.ahb2rstr, 0);
}

#[test]
fn enable_restores_interrupt_state() {
    let mut rcc = Rcc::new(zeroed(), false);
    otg_fs::Peripheral::enable(&mut rcc);
    assert!(!rcc.interrupts_enabled);
    assert!(rcc.writes.iter().all(|w| !w.interrupts_enabled));

    let mut rcc = Rcc::new(zeroed(), true);
    otg_hs::Peripheral::enable(&mut rcc);
    assert!(rcc.interrupts_enabled);
    assert!(rcc.writes.iter().all(|w| !w.interrupts_enabled));
}

#[test]
fn both_blocks_on_one_controller() {
    let mut rcc = Rcc::new(zeroed(), true);
    otg_fs::Peripheral::enable(&mut rcc);
    otg_hs::Peripheral::enable(&mut rcc);
    assert_eq!(rcc.registers, RccRegisters { ahb1rstr: 0, ahb2rstr: 0, ahb1enr: 0x2000_0000, ahb2enr: 0x80 });
    assert_eq!(rcc.writes.len(), 6);
}

#[test]
fn plan_order() {
    let plan = enable_sequence(ClockGate { bus: Bus::Ahb2, bit: 7 });
    assert_eq!(
        plan,
        [
            BitWrite { register: RccRegister::Ahb2Enr, bit: 7, set: true },
            BitWrite { register: RccRegister::Ahb2Rstr, bit: 7, set: true },
            BitWrite { register: RccRegister::Ahb2Rstr, bit: 7, set: false },
        ]
    );
}

#[test]
fn bit_modification() {
    assert_eq!(modify_bit(0, 7, true), 0x80);
    assert_eq!(modify_bit(0x80, 7, true), 0x80);
    assert_eq!(modify_bit(0xFF, 7, false), 0x7F);
    assert_eq!(modify_bit(0x7F, 7, false), 0x7F);
    assert_eq!(modify_bit(0, 31, true), 0x8000_0000);
    assert_eq!(modify_bit(0xFFFF_FFFF, 0, false), 0xFFFF_FFFE);
}

#[test]
fn rcc_register_addresses() {
    assert_eq!(register_address(RccRegister::Ahb1Rstr), 0x4002_3810);
    assert_eq!(register_address(RccRegister::Ahb2Rstr), 0x4002_3814);
    assert_eq!(register_address(RccRegister::Ahb1Enr), 0x4002_3830);
    assert_eq!(register_address(RccRegister::Ahb2Enr), 0x4002_3834);
}

#[test]
fn register_file_access() {
    let mut regs = zeroed();
    regs.write(RccRegister::Ahb1Enr, 0xAB);
    assert_eq!(regs.read(RccRegister::Ahb1Enr), 0xAB);
    assert_eq!(regs.read(RccRegister::Ahb2Enr), 0);
}
