use hk32f0301mxxc_hal::bus::{Instr, Latch, Latches, Pending, Register, Sequencer, Step};

const ALL_REGISTERS: [Register; 22] = [
    Register::RccCr,
    Register::RccCfgr,
    Register::RccCir,
    Register::RccApbenr1,
    Register::RccCsr,
    Register::RccCfgr3,
    Register::RccCfgr4,
    Register::FlashAcr,
    Register::FlashIntVecOffset,
    Register::PmuKey,
    Register::PmuLdoRun,
    Register::PmuLdoLpr,
    Register::PmuLpldoLpr,
    Register::PmuBgp,
    Register::AdcIsr,
    Register::AdcCr,
    Register::AdcCfgr1,
    Register::AdcCfgr2,
    Register::AdcSmpr,
    Register::AdcChselr,
    Register::AdcDr,
    Register::AdcCcr,
];

#[test]
fn addresses_are_distinct_and_aligned() {
    for (i, a) in ALL_REGISTERS.iter().enumerate() {
        assert_eq!(a.address() % 4, 0);
        for b in ALL_REGISTERS.iter().skip(i + 1) {
            assert_ne!(a.address(), b.address());
        }
    }
}

#[test]
fn addresses_agree_with_the_register_blocks() {
    let rcc = hk32f0301mxxc_pac::RCC;
    assert_eq!(Register::RccCr.address() as usize, rcc.cr().as_ptr() as usize);
    assert_eq!(Register::RccCfgr.address() as usize, rcc.cfgr().as_ptr() as usize);
    assert_eq!(Register::RccCir.address() as usize, rcc.cir().as_ptr() as usize);
    assert_eq!(Register::RccApbenr1.address() as usize, rcc.apbenr1().as_ptr() as usize);
    assert_eq!(Register::RccCsr.address() as usize, rcc.csr().as_ptr() as usize);
    assert_eq!(Register::RccCfgr3.address() as usize, rcc.cfgr3().as_ptr() as usize);
    assert_eq!(Register::RccCfgr4.address() as usize, rcc.cfgr4().as_ptr() as usize);
    let flash = hk32f0301mxxc_pac::FLASH;
    assert_eq!(Register::FlashAcr.address() as usize, flash.acr().as_ptr() as usize);
    assert_eq!(
        Register::FlashIntVecOffset.address() as usize,
        flash.int_vec_offset().as_ptr() as usize
    );
    let adc = hk32f0301mxxc_pac::ADC;
    assert_eq!(Register::AdcIsr.address() as usize, adc.isr().as_ptr() as usize);
    assert_eq!(Register::AdcCr.address() as usize, adc.cr().as_ptr() as usize);
    assert_eq!(Register::AdcCfgr1.address() as usize, adc.cfgr1().as_ptr() as usize);
    assert_eq!(Register::AdcCfgr2.address() as usize, adc.cfgr2().as_ptr() as usize);
    assert_eq!(Register::AdcSmpr.address() as usize, adc.smpr().as_ptr() as usize);
    assert_eq!(Register::AdcChselr.address() as usize, adc.chselr().as_ptr() as usize);
    assert_eq!(Register::AdcDr.address() as usize, adc.dr().as_ptr() as usize);
    assert_eq!(Register::AdcCcr.address() as usize, adc.ccr().as_ptr() as usize);
}

#[test]
fn trim_registers_lie_at_their_fixed_addresses() {
    assert_eq!(Register::PmuKey.address(), 0x4000_704c);
    assert_eq!(Register::PmuLdoRun.address(), 0x4000_7060);
    assert_eq!(Register::PmuLdoLpr.address(), 0x4000_7064);
    assert_eq!(Register::PmuLpldoLpr.address(), 0x4000_706c);
    assert_eq!(Register::PmuBgp.address(), 0x4000_7070);
}

#[test]
fn latches_keep_one_word_each() {
    let mut l = Latches::new();
    assert_eq!(l, Latches { status: 0, control: 0, reference: 0, sample: 0 });
    l.put(Latch::Status, 1);
    l.put(Latch::Control, 2);
    l.put(Latch::Reference, 3);
    l.put(Latch::Sample, 4);
    assert_eq!(l.get(Latch::Status), 1);
    assert_eq!(l.get(Latch::Control), 2);
    assert_eq!(l.get(Latch::Reference), 3);
    assert_eq!(l.get(Latch::Sample), 4);
    l.put(Latch::Control, 9);
    assert_eq!(l, Latches { status: 1, control: 9, reference: 3, sample: 4 });
}

#[test]
fn empty_program_is_done_at_once() {
    let mut s = Sequencer::new(Vec::new());
    assert!(s.is_done());
    assert_eq!(s.step(0), Step::Done);
    assert_eq!(s.step(77), Step::Done);
}

#[test]
fn write_is_one_store() {
    let mut s = Sequencer::new(vec![Instr::Write { reg: Register::RccCir, value: 0x55 }]);
    assert!(!s.is_done());
    assert_eq!(s.step(0xdead_beef), Step::Write(Register::RccCir, 0x55));
    assert!(s.is_done());
    assert_eq!(s.step(0), Step::Done);
}

#[test]
fn update_loads_then_stores_the_changed_word() {
    let mut s = Sequencer::new(vec![Instr::Update {
        reg: Register::RccCfgr,
        clear: 0x0000_00f0,
        set: 0x0000_0003,
    }]);
    assert_eq!(s.step(0xffff_ffff), Step::Read(Register::RccCfgr));
    assert!(!s.is_done());
    assert_eq!(s.step(0x1234_56f8), Step::Write(Register::RccCfgr, 0x1234_560b));
    assert!(s.is_done());
}

#[test]
fn await_loads_until_the_word_fits() {
    let mut s = Sequencer::new(vec![
        Instr::Await { reg: Register::RccCr, mask: 0x2, expect: 0x2 },
        Instr::Write { reg: Register::FlashAcr, value: 1 },
    ]);
    // The word passed with the first call is not an answer to anything.
    assert_eq!(s.step(0x2), Step::Read(Register::RccCr));
    for _ in 0..1000 {
        assert_eq!(s.step(0xffff_fffd), Step::Read(Register::RccCr));
    }
    assert_eq!(s.step(0x2), Step::Write(Register::FlashAcr, 1));
    assert_eq!(s.step(0), Step::Done);
}

#[test]
fn await_for_a_clear_bit() {
    let mut s = Sequencer::new(vec![Instr::Await { reg: Register::AdcCr, mask: 0x10, expect: 0 }]);
    assert_eq!(s.step(0), Step::Read(Register::AdcCr));
    assert_eq!(s.step(0x11), Step::Read(Register::AdcCr));
    assert_eq!(s.step(0x10), Step::Read(Register::AdcCr));
    assert_eq!(s.step(0xffff_ffef), Step::Done);
    assert!(s.is_done());
}

#[test]
fn fetch_keeps_the_word() {
    let mut s = Sequencer::new(vec![
        Instr::Fetch { reg: Register::AdcDr, latch: Latch::Sample },
        Instr::Fetch { reg: Register::AdcCcr, latch: Latch::Control },
    ]);
    assert_eq!(s.step(5), Step::Read(Register::AdcDr));
    assert_eq!(s.latches().sample, 0);
    assert_eq!(s.step(0x0abc), Step::Read(Register::AdcCcr));
    assert_eq!(s.latches().sample, 0x0abc);
    assert_eq!(s.step(0x0040_0000), Step::Done);
    assert_eq!(
        s.latches(),
        Latches { status: 0, control: 0x0040_0000, reference: 0, sample: 0x0abc }
    );
}

#[test]
fn guarded_update_is_made_where_the_guard_holds() {
    let mut s = Sequencer::new(vec![
        Instr::Fetch { reg: Register::AdcIsr, latch: Latch::Status },
        Instr::UpdateIf {
            latch: Latch::Status,
            mask: 0x1,
            expect: 0x1,
            reg: Register::AdcIsr,
            clear: 0x1,
            set: 0,
        },
        Instr::Write { reg: Register::AdcCfgr2, value: 2 },
    ]);
    assert_eq!(s.step(0), Step::Read(Register::AdcIsr));
    assert_eq!(s.step(0x5), Step::Read(Register::AdcIsr));
    assert_eq!(s.step(0xd), Step::Write(Register::AdcIsr, 0xc));
    assert_eq!(s.step(0), Step::Write(Register::AdcCfgr2, 2));
    assert_eq!(s.step(0), Step::Done);
}

#[test]
fn guarded_update_is_skipped_where_the_guard_fails() {
    let mut s = Sequencer::new(vec![
        Instr::Fetch { reg: Register::AdcIsr, latch: Latch::Status },
        Instr::UpdateIf {
            latch: Latch::Status,
            mask: 0x1,
            expect: 0x1,
            reg: Register::AdcIsr,
            clear: 0x1,
            set: 0,
        },
        Instr::Write { reg: Register::AdcCfgr2, value: 2 },
    ]);
    assert_eq!(s.step(0), Step::Read(Register::AdcIsr));
    assert_eq!(s.step(0x4), Step::Write(Register::AdcCfgr2, 2));
    assert_eq!(s.step(0), Step::Done);
}

#[test]
fn pending_value_is_held_back_until_the_program_has_run() {
    let p = Pending::new(vec![Instr::Write { reg: Register::AdcCfgr2, value: 2 }], 42u8);
    assert!(!p.is_done());
    let mut p = match p.finish() {
        Ok(_) => panic!("handed over before the store"),
        Err(p) => p,
    };
    assert_eq!(p.step(0), Step::Write(Register::AdcCfgr2, 2));
    assert!(p.is_done());
    assert_eq!(p.finish().ok(), Some(42u8));
}
