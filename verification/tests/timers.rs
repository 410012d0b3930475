use hk32f0301mxxc_hal::bus::{Pending, Register, Sequencer, Step, TimerId, TimerReg};
use hk32f0301mxxc_hal::rcc::{Clocks, RccExt, TrimWords};
use hk32f0301mxxc_hal::time::Hertz;
use hk32f0301mxxc_hal::timers::{
    divisors, Event, Periodic, Timer, APB1_TIM2, APB1_TIM6, APB2_TIM1, CR1_CEN, DIER_UIE, SR_UIF,
};
use hk32f0301mxxc_pac::rcc::regs as pac_rcc;

/// A stand-in for a register block: a unit that cannot be copied.
#[derive(Debug, PartialEq)]
struct Block;

/// The clocks of a tree that runs on an external clock of `freq` hertz.
fn clocks_at(freq: u32) -> Clocks {
    let blank =
        TrimWords { hsi: 0xffff_ffff, bgp: 0xffff_ffff, ldo: 0xffff_ffff, lpldo: 0xffff_ffff };
    let mut p = Block.configure().hse(Hertz(freq)).freeze(blank);
    let mut input = 0;
    loop {
        match p.step(input) {
            // The external clock is ready at once and is the one selected.
            Step::Read(Register::RccCfgr) => input = 0x0000_0005,
            Step::Read(_) => input = 0xffff_ffff,
            Step::Write(_, _) => {}
            Step::Done => return p.finish().ok().expect("done").clocks,
        }
    }
}

/// Carries a program out on registers that read as `word` and gives the
/// accesses that were made.
fn trace_of(mut s: Sequencer, word: u32) -> Vec<Step> {
    let mut out = Vec::new();
    loop {
        let op = s.step(word);
        out.push(op);
        if op == Step::Done {
            return out;
        }
        assert!(out.len() < 100);
    }
}

fn run<T>(mut p: Pending<T>, word: u32) -> (Vec<Step>, T) {
    let mut out = Vec::new();
    loop {
        let op = p.step(word);
        out.push(op);
        if op == Step::Done {
            return (out, p.finish().ok().expect("done"));
        }
        assert!(out.len() < 100);
    }
}

fn is_periodic<T: Periodic>(_: &T) {}

#[test]
fn divisors_of_short_periods() {
    // 48 MHz / 1 kHz = 48000 ticks: no prescaler.
    assert_eq!(divisors(48_000_000, 1000), Some((0, 48_000)));
    assert_eq!(divisors(48_000_000, 48_000_000), Some((0, 1)));
    assert_eq!(divisors(65_535, 1), Some((0, 65_535)));
    assert_eq!(divisors(8_000_000, 123), Some((0, 65_040)));
}

#[test]
fn divisors_of_long_periods() {
    // 48 MHz / 1 Hz = 48,000,000 ticks: prescaler 732, 48000000 / 733 = 65484.
    assert_eq!(divisors(48_000_000, 1), Some((732, 65_484)));
    // 65537 ticks: prescaler 1, reload 32768.
    assert_eq!(divisors(65_537, 1), Some((1, 32_768)));
    assert_eq!(divisors(131_071, 1), Some((1, 65_535)));
    // 65573 ticks: prescaler 1, reload 32786.
    assert_eq!(divisors(48_000_000, 732), Some((1, 32_786)));
    // 4294836225 = 65535 * 65535 ticks: prescaler 65534, reload 65535.
    assert_eq!(divisors(0xfffe_0001, 1), Some((65_534, 65_535)));
}

#[test]
fn divisors_that_do_not_exist() {
    // No rate.
    assert_eq!(divisors(48_000_000, 0), None);
    // A rate above the clock: no tick in a period.
    assert_eq!(divisors(1000, 1001), None);
    assert_eq!(divisors(0, 1), None);
    // A reload value of 65536 does not fit.
    assert_eq!(divisors(65_536, 1), None);
    assert_eq!(divisors(131_072, 1), None);
    assert_eq!(divisors(0xffff_0000, 1), None);
    // A prescaler of 65535 leaves no room for the one that is added to it.
    assert_eq!(divisors(0xffff_0001, 1), None);
    assert_eq!(divisors(u32::MAX, 1), None);
}

#[test]
fn timer_bits_agree_with_the_register_fields() {
    let mut en = pac_rcc::Apbenr2(0);
    en.set_tim1en(true);
    assert_eq!(en.0, APB2_TIM1);
    let mut rst = pac_rcc::Apbrstr2(0);
    rst.set_tim1rst(true);
    assert_eq!(rst.0, APB2_TIM1);
    let mut en = pac_rcc::Apbenr1(0);
    en.set_tim2en(true);
    assert_eq!(en.0, APB1_TIM2);
    let mut rst = pac_rcc::Apbrstr1(0);
    rst.set_tim2rst(true);
    assert_eq!(rst.0, APB1_TIM2);
    let mut en = pac_rcc::Apbenr1(0);
    en.set_tim6en(true);
    assert_eq!(en.0, APB1_TIM6);
    let mut rst = pac_rcc::Apbrstr1(0);
    rst.set_tim6rst(true);
    assert_eq!(rst.0, APB1_TIM6);

    let mut cr1 = hk32f0301mxxc_pac::tim1::regs::Cr1(0);
    cr1.set_cen(true);
    assert_eq!(cr1.0, CR1_CEN);
    let mut cr1 = hk32f0301mxxc_pac::tim2::regs::Cr1(0);
    cr1.set_cen(true);
    assert_eq!(cr1.0, CR1_CEN);
    let mut cr1 = hk32f0301mxxc_pac::tim6::regs::Cr1(0);
    cr1.set_cen(true);
    assert_eq!(cr1.0, CR1_CEN);
    let mut dier = hk32f0301mxxc_pac::tim1::regs::Dier(0);
    dier.set_uie(true);
    assert_eq!(dier.0, DIER_UIE);
    let mut dier = hk32f0301mxxc_pac::tim2::regs::Dier(0);
    dier.set_uie(true);
    assert_eq!(dier.0, DIER_UIE);
    let mut dier = hk32f0301mxxc_pac::tim6::regs::Dier(0);
    dier.set_uie(true);
    assert_eq!(dier.0, DIER_UIE);
    let mut sr = hk32f0301mxxc_pac::tim1::regs::Sr(0);
    sr.set_uif(true);
    assert_eq!(sr.0, SR_UIF);
    let mut sr = hk32f0301mxxc_pac::tim2::regs::Sr(0);
    sr.set_uif(true);
    assert_eq!(sr.0, SR_UIF);
    let mut sr = hk32f0301mxxc_pac::tim6::regs::Sr(0);
    sr.set_uif(true);
    assert_eq!(sr.0, SR_UIF);
}

#[test]
fn timer_addresses_agree_with_the_register_blocks() {
    let at = |id, reg| Register::Tim(id, reg).address() as usize;
    let tim1 = hk32f0301mxxc_pac::TIM1;
    assert_eq!(at(TimerId::TIM1, TimerReg::Cr1), tim1.cr1().as_ptr() as usize);
    assert_eq!(at(TimerId::TIM1, TimerReg::Dier), tim1.dier().as_ptr() as usize);
    assert_eq!(at(TimerId::TIM1, TimerReg::Sr), tim1.sr().as_ptr() as usize);
    assert_eq!(at(TimerId::TIM1, TimerReg::Cnt), tim1.cnt().as_ptr() as usize);
    assert_eq!(at(TimerId::TIM1, TimerReg::Psc), tim1.psc().as_ptr() as usize);
    assert_eq!(at(TimerId::TIM1, TimerReg::Arr), tim1.arr().as_ptr() as usize);
    let tim2 = hk32f0301mxxc_pac::TIM2;
    assert_eq!(at(TimerId::TIM2, TimerReg::Cr1), tim2.cr1().as_ptr() as usize);
    assert_eq!(at(TimerId::TIM2, TimerReg::Dier), tim2.dier().as_ptr() as usize);
    assert_eq!(at(TimerId::TIM2, TimerReg::Sr), tim2.sr().as_ptr() as usize);
    assert_eq!(at(TimerId::TIM2, TimerReg::Cnt), tim2.cnt().as_ptr() as usize);
    assert_eq!(at(TimerId::TIM2, TimerReg::Psc), tim2.psc().as_ptr() as usize);
    assert_eq!(at(TimerId::TIM2, TimerReg::Arr), tim2.arr().as_ptr() as usize);
    let tim6 = hk32f0301mxxc_pac::TIM6;
    assert_eq!(at(TimerId::TIM6, TimerReg::Cr1), tim6.cr1().as_ptr() as usize);
    assert_eq!(at(TimerId::TIM6, TimerReg::Dier), tim6.dier().as_ptr() as usize);
    assert_eq!(at(TimerId::TIM6, TimerReg::Sr), tim6.sr().as_ptr() as usize);
    assert_eq!(at(TimerId::TIM6, TimerReg::Cnt), tim6.cnt().as_ptr() as usize);
    assert_eq!(at(TimerId::TIM6, TimerReg::Psc), tim6.psc().as_ptr() as usize);
    assert_eq!(at(TimerId::TIM6, TimerReg::Arr), tim6.arr().as_ptr() as usize);
    let rcc = hk32f0301mxxc_pac::RCC;
    assert_eq!(Register::RccApbenr2.address() as usize, rcc.apbenr2().as_ptr() as usize);
    assert_eq!(Register::RccApbrstr1.address() as usize, rcc.apbrstr1().as_ptr() as usize);
    assert_eq!(Register::RccApbrstr2.address() as usize, rcc.apbrstr2().as_ptr() as usize);
}

#[test]
fn tim2_is_switched_on_reset_and_started() {
    let p = Timer::tim2(Block, Hertz(1000), clocks_at(48_000_000)).expect("a rate that can be had");
    let (trace, timer) = run(p, 0x0000_0100);
    is_periodic(&timer);
    let cr1 = Register::Tim(TimerId::TIM2, TimerReg::Cr1);
    assert_eq!(
        trace,
        vec![
            Step::Read(Register::RccApbenr1),
            Step::Write(Register::RccApbenr1, 0x0000_0101),
            Step::Read(Register::RccApbrstr1),
            Step::Write(Register::RccApbrstr1, 0x0000_0101),
            Step::Read(Register::RccApbrstr1),
            Step::Write(Register::RccApbrstr1, 0x0000_0100),
            Step::Read(cr1),
            Step::Write(cr1, 0x0000_0100),
            Step::Write(Register::Tim(TimerId::TIM2, TimerReg::Cnt), 0),
            Step::Write(Register::Tim(TimerId::TIM2, TimerReg::Psc), 0),
            Step::Write(Register::Tim(TimerId::TIM2, TimerReg::Arr), 48_000),
            Step::Read(cr1),
            Step::Write(cr1, 0x0000_0101),
            Step::Done,
        ]
    );
}

#[test]
fn tim1_and_tim6_use_their_own_registers() {
    let p = Timer::tim1(Block, Hertz(1), clocks_at(48_000_000)).expect("a rate that can be had");
    let (trace, _) = run(p, 0);
    assert_eq!(trace[1], Step::Write(Register::RccApbenr2, APB2_TIM1));
    assert_eq!(trace[3], Step::Write(Register::RccApbrstr2, APB2_TIM1));
    assert_eq!(trace[5], Step::Write(Register::RccApbrstr2, 0));
    assert_eq!(trace[9], Step::Write(Register::Tim(TimerId::TIM1, TimerReg::Psc), 732));
    assert_eq!(trace[10], Step::Write(Register::Tim(TimerId::TIM1, TimerReg::Arr), 65_484));

    let p = Timer::tim6(Block, Hertz(100), clocks_at(8_000_000)).expect("a rate that can be had");
    let (trace, _) = run(p, 0);
    assert_eq!(trace[1], Step::Write(Register::RccApbenr1, APB1_TIM6));
    assert_eq!(trace[3], Step::Write(Register::RccApbrstr1, APB1_TIM6));
    assert_eq!(trace[5], Step::Write(Register::RccApbrstr1, 0));
    // 80000 ticks: prescaler 1, reload 40000
    assert_eq!(trace[9], Step::Write(Register::Tim(TimerId::TIM6, TimerReg::Psc), 1));
    assert_eq!(trace[10], Step::Write(Register::Tim(TimerId::TIM6, TimerReg::Arr), 40_000));
}

#[test]
fn no_timer_for_a_rate_that_cannot_be_had() {
    assert!(Timer::tim1(Block, Hertz(0), clocks_at(48_000_000)).is_none());
    assert!(Timer::tim2(Block, Hertz(48_000_001), clocks_at(48_000_000)).is_none());
    assert!(Timer::tim6(Block, Hertz(1), clocks_at(65_536)).is_none());
}

#[test]
fn start_sets_a_new_rate() {
    let p = Timer::tim2(Block, Hertz(1000), clocks_at(48_000_000)).expect("a rate that can be had");
    let (_, mut timer) = run(p, 0);
    let s = timer.start(Hertz(2000)).expect("a rate that can be had");
    let cr1 = Register::Tim(TimerId::TIM2, TimerReg::Cr1);
    assert_eq!(
        trace_of(s, 0xffff_ffff),
        vec![
            Step::Read(cr1),
            Step::Write(cr1, 0xffff_fffe),
            Step::Write(Register::Tim(TimerId::TIM2, TimerReg::Cnt), 0),
            Step::Write(Register::Tim(TimerId::TIM2, TimerReg::Psc), 0),
            Step::Write(Register::Tim(TimerId::TIM2, TimerReg::Arr), 24_000),
            Step::Read(cr1),
            Step::Write(cr1, 0xffff_ffff),
            Step::Done,
        ]
    );
    assert!(timer.start(Hertz(0)).is_none());
}

#[test]
fn wait_would_block_until_the_flag_is_set() {
    let p = Timer::tim6(Block, Hertz(10), clocks_at(48_000_000)).expect("a rate that can be had");
    let (_, mut timer) = run(p, 0);
    assert!(timer.wait(0).is_none());
    assert!(timer.wait(0xffff_fffe).is_none());
    let s = timer.wait(0x0000_0003).expect("the count down has ended");
    let sr = Register::Tim(TimerId::TIM6, TimerReg::Sr);
    assert_eq!(trace_of(s, 0x0000_0003), vec![Step::Read(sr), Step::Write(sr, 2), Step::Done]);
}

#[test]
fn listen_and_unlisten_switch_the_update_interrupt() {
    let p = Timer::tim1(Block, Hertz(10), clocks_at(48_000_000)).expect("a rate that can be had");
    let (_, mut timer) = run(p, 0);
    let dier = Register::Tim(TimerId::TIM1, TimerReg::Dier);
    assert_eq!(trace_of(timer.listen(Event::TimeOut), 0), vec![Step::Write(dier, 1), Step::Done]);
    assert_eq!(trace_of(timer.unlisten(Event::TimeOut), 0), vec![Step::Write(dier, 0), Step::Done]);
}

#[test]
fn free_pauses_the_counter_and_gives_the_block_back() {
    let p = Timer::tim2(Block, Hertz(10), clocks_at(48_000_000)).expect("a rate that can be had");
    let (_, timer) = run(p, 0);
    let (trace, block) = run(timer.free(), 0x0000_0081);
    let cr1 = Register::Tim(TimerId::TIM2, TimerReg::Cr1);
    assert_eq!(trace, vec![Step::Read(cr1), Step::Write(cr1, 0x0000_0080), Step::Done]);
    assert_eq!(block, Block);
}
