//! Timers that count down at a given rate.

use crate::bus::{Instr, Pending, Progress, Register, Sequencer, TimerId, TimerReg};
use crate::rcc::Clocks;
use crate::time::Hertz;
use vstd::prelude::*;

verus! {

/// `TIMx_CR1`: counter enabled.
pub const CR1_CEN: u32 = 0x0000_0001;

/// `TIMx_DIER`: update interrupt enabled.
pub const DIER_UIE: u32 = 0x0000_0001;

/// `TIMx_SR`: update interrupt flag.
pub const SR_UIF: u32 = 0x0000_0001;

/// `RCC_APBENR2` and `RCC_APBRSTR2`: timer 1.
pub const APB2_TIM1: u32 = 0x0000_0800;

/// `RCC_APBENR1` and `RCC_APBRSTR1`: timer 2.
pub const APB1_TIM2: u32 = 0x0000_0001;

/// `RCC_APBENR1` and `RCC_APBRSTR1`: timer 6.
pub const APB1_TIM6: u32 = 0x0000_0010;

/// `cast::u16` on a `u32`: a number up to 65535 comes back as it is; for a
/// larger one the crate gives an error, which is handed on as `None`.
#[verifier::external_body]
fn checked_u16(x: u32) -> (r: Option<u16>)
    ensures
        r is Some <==> x <= 0xffff,
        r matches Some(v) ==> v == x,
{
    cast::u16(x).ok()
}

/// `cast::u32` on a `u16`: the same number.
#[verifier::external_body]
fn widened(x: u16) -> (r: u32)
    ensures
        r == x,
{
    cast::u32(x)
}

impl TimerId {
    /// The register that switches the clock of the timer on.
    pub open spec fn enable_register(self) -> Register {
        match self {
            TimerId::TIM1 => Register::RccApbenr2,
            TimerId::TIM2 => Register::RccApbenr1,
            TimerId::TIM6 => Register::RccApbenr1,
        }
    }

    /// The register that resets the timer.
    pub open spec fn reset_register(self) -> Register {
        match self {
            TimerId::TIM1 => Register::RccApbrstr2,
            TimerId::TIM2 => Register::RccApbrstr1,
            TimerId::TIM6 => Register::RccApbrstr1,
        }
    }

    /// The bit of the timer in both registers.
    pub open spec fn apb_bit(self) -> u32 {
        match self {
            TimerId::TIM1 => APB2_TIM1,
            TimerId::TIM2 => APB1_TIM2,
            TimerId::TIM6 => APB1_TIM6,
        }
    }
}

/// Switching the clock of the timer on and pulsing its reset.
pub open spec fn setup_script(id: TimerId) -> Seq<Instr> {
    seq![
        Instr::Update { reg: id.enable_register(), clear: 0, set: id.apb_bit() },
        Instr::Update { reg: id.reset_register(), clear: 0, set: id.apb_bit() },
        Instr::Update { reg: id.reset_register(), clear: id.apb_bit(), set: 0 },
    ]
}

/// Starting a count down: the counter is paused and set to zero, prescaler
/// and reload value are stored, and the counter is started.
pub open spec fn start_script(id: TimerId, psc: u16, arr: u16) -> Seq<Instr> {
    seq![
        Instr::Update { reg: Register::Tim(id, TimerReg::Cr1), clear: CR1_CEN, set: 0 },
        Instr::Write { reg: Register::Tim(id, TimerReg::Cnt), value: 0 },
        Instr::Write { reg: Register::Tim(id, TimerReg::Psc), value: psc as u32 },
        Instr::Write { reg: Register::Tim(id, TimerReg::Arr), value: arr as u32 },
        Instr::Update { reg: Register::Tim(id, TimerReg::Cr1), clear: 0, set: CR1_CEN },
    ]
}

/// Prescaler and reload value with which a timer clocked at `pclk` hertz
/// runs out `frequency` times a second.
///
/// With `ticks` the bus cycles of one period, `pclk / frequency`, the
/// prescaler is `(ticks - 1) / 65536` and the reload value is
/// `ticks / (prescaler + 1)`.  There are none where `frequency` is zero or
/// above `pclk`, or where one of the two does not fit its register.
pub open spec fn divisors_of(pclk: u32, frequency: u32) -> Option<(u16, u16)> {
    if frequency == 0 {
        None
    } else {
        let ticks = pclk as int / frequency as int;
        let psc = (ticks - 1) / 0x1_0000;
        let arr = ticks / (psc + 1);
        if ticks == 0 || psc >= 0xffff || arr > 0xffff {
            None
        } else {
            Some((psc as u16, arr as u16))
        }
    }
}

/// Prescaler and reload value with which a timer clocked at `pclk` hertz
/// runs out `frequency` times a second, where there are such.
pub fn divisors(pclk: u32, frequency: u32) -> (d: Option<(u16, u16)>)
    ensures
        d == divisors_of(pclk, frequency),
{
    if frequency == 0 {
        return None;
    }
    let ticks: u32 = pclk / frequency;
    if ticks == 0 {
        return None;
    }
    let psc: u16 = match checked_u16((ticks - 1) / 0x1_0000) {
        Some(psc) => psc,
        None => {
            return None;
        },
    };
    if psc == u16::MAX {
        return None;
    }
    match checked_u16(ticks / widened(psc + 1)) {
        Some(arr) => Some((psc, arr)),
        None => None,
    }
}

/// Up to 65535 bus cycles a period need no prescaler, and the reload value
/// is the number of cycles.  A period of 65536 cycles cannot be had.
pub proof fn short_periods_need_no_prescaler(pclk: u32, frequency: u32)
    requires
        frequency != 0,
    ensures
        1 <= pclk as int / frequency as int <= 0xffff ==> divisors_of(pclk, frequency) == Some(
            (0u16, (pclk as int / frequency as int) as u16),
        ),
        pclk as int / frequency as int == 0x1_0000 ==> divisors_of(pclk, frequency) is None,
{
    let ticks = pclk as int / frequency as int;
    if 1 <= ticks <= 0x1_0000 {
        let psc = (ticks - 1) / 0x1_0000;
        assert(psc == 0);
        assert(ticks / (psc + 1) == ticks);
    }
}

/// Interrupt events
#[derive(Clone, Copy, Debug, PartialEq, Eq, Structural)]
pub enum Event {
    /// Timer timed out / count down ended
    TimeOut,
}

/// Marks a timer that starts over when it has run out.
pub trait Periodic {

}

/// Hardware timers
pub struct Timer<TIM> {
    clocks: Clocks,
    tim: TIM,
    timeout: Hertz,
    id: TimerId,
}

impl<TIM> Periodic for Timer<TIM> {

}

impl<TIM> Timer<TIM> {
    /// The clocks that the timer counts with.
    pub closed spec fn clocks(&self) -> Clocks {
        self.clocks
    }

    /// The register block that the timer owns.
    pub closed spec fn regs(&self) -> TIM {
        self.tim
    }

    /// The rate at which the timer runs out.
    pub closed spec fn timeout(&self) -> Hertz {
        self.timeout
    }

    /// Which of the timers it is.
    pub closed spec fn id(&self) -> TimerId {
        self.id
    }

    /// This timer with another rate.
    pub closed spec fn with_timeout(self, timeout: Hertz) -> Self {
        Timer { timeout, ..self }
    }

    /// Configures a timer as a periodic count down timer.
    fn setup(id: TimerId, tim: TIM, timeout: Hertz, clocks: Clocks) -> (r: Option<Pending<Self>>)
        ensures
            (match divisors_of(clocks.pclk().0, timeout.0) {
                None => r is None,
                Some((psc, arr)) => {
                    &&& r matches Some(p)
                    &&& p.progress() == Progress::start(
                        setup_script(id) + start_script(id, psc, arr),
                    )
                    &&& p.value().id() == id
                    &&& p.value().regs() == tim
                    &&& p.value().clocks() == clocks
                    &&& p.value().timeout() == timeout
                },
            }),
    {
        let mut script: Vec<Instr> = Vec::new();
        let (enable, reset, bit) = match id {
            TimerId::TIM1 => (Register::RccApbenr2, Register::RccApbrstr2, APB2_TIM1),
            TimerId::TIM2 => (Register::RccApbenr1, Register::RccApbrstr1, APB1_TIM2),
            TimerId::TIM6 => (Register::RccApbenr1, Register::RccApbrstr1, APB1_TIM6),
        };
        script.push(Instr::Update { reg: enable, clear: 0, set: bit });
        script.push(Instr::Update { reg: reset, clear: 0, set: bit });
        script.push(Instr::Update { reg: reset, clear: bit, set: 0 });
        assert(script@ =~= setup_script(id));

        let mut timer = Timer { clocks, tim, timeout: Hertz(0), id };
        if timer.push_start(&mut script, timeout) {
            Some(Pending::new(script, timer))
        } else {
            None
        }
    }

    /// Configures TIM1 as a periodic count down timer.
    ///
    /// The timer is handed over once its clock is on, it has been reset, and
    /// the count down has been started.  There is none where no prescaler and
    /// reload value give the rate `timeout` (see [`divisors_of`]).
    pub fn tim1(tim: TIM, timeout: Hertz, clocks: Clocks) -> (r: Option<Pending<Self>>)
        ensures
            (match divisors_of(clocks.pclk().0, timeout.0) {
                None => r is None,
                Some((psc, arr)) => {
                    &&& r matches Some(p)
                    &&& p.progress() == Progress::start(
                        setup_script(TimerId::TIM1) + start_script(TimerId::TIM1, psc, arr),
                    )
                    &&& p.value().id() == TimerId::TIM1
                    &&& p.value().regs() == tim
                    &&& p.value().clocks() == clocks
                    &&& p.value().timeout() == timeout
                },
            }),
    {
        Self::setup(TimerId::TIM1, tim, timeout, clocks)
    }

    /// Configures TIM2 as a periodic count down timer, as [`Timer::tim1`]
    /// does for TIM1.
    pub fn tim2(tim: TIM, timeout: Hertz, clocks: Clocks) -> (r: Option<Pending<Self>>)
        ensures
            (match divisors_of(clocks.pclk().0, timeout.0) {
                None => r is None,
                Some((psc, arr)) => {
                    &&& r matches Some(p)
                    &&& p.progress() == Progress::start(
                        setup_script(TimerId::TIM2) + start_script(TimerId::TIM2, psc, arr),
                    )
                    &&& p.value().id() == TimerId::TIM2
                    &&& p.value().regs() == tim
                    &&& p.value().clocks() == clocks
                    &&& p.value().timeout() == timeout
                },
            }),
    {
        Self::setup(TimerId::TIM2, tim, timeout, clocks)
    }

    /// Configures TIM6 as a periodic count down timer, as [`Timer::tim1`]
    /// does for TIM1.
    pub fn tim6(tim: TIM, timeout: Hertz, clocks: Clocks) -> (r: Option<Pending<Self>>)
        ensures
            (match divisors_of(clocks.pclk().0, timeout.0) {
                None => r is None,
                Some((psc, arr)) => {
                    &&& r matches Some(p)
                    &&& p.progress() == Progress::start(
                        setup_script(TimerId::TIM6) + start_script(TimerId::TIM6, psc, arr),
                    )
                    &&& p.value().id() == TimerId::TIM6
                    &&& p.value().regs() == tim
                    &&& p.value().clocks() == clocks
                    &&& p.value().timeout() == timeout
                },
            }),
    {
        Self::setup(TimerId::TIM6, tim, timeout, clocks)
    }

    /// Appends to `script` the start of a count down at the rate `timeout`
    /// and takes the rate over, if there are divisors for it; says whether.
    fn push_start(&mut self, script: &mut Vec<Instr>, timeout: Hertz) -> (started: bool)
        ensures
            (match divisors_of(old(self).clocks().pclk().0, timeout.0) {
                None => !started && *final(self) == *old(self) && final(script)@ == old(script)@,
                Some((psc, arr)) => {
                    &&& started
                    &&& *final(self) == old(self).with_timeout(timeout)
                    &&& final(script)@ == old(script)@ + start_script(old(self).id(), psc, arr)
                },
            }),
    {
        let frequency = timeout.0;
        match divisors(self.clocks.pclk().0, frequency) {
            None => false,
            Some((psc, arr)) => {
                // pause
                script.push(
                    Instr::Update {
                        reg: Register::Tim(self.id, TimerReg::Cr1),
                        clear: CR1_CEN,
                        set: 0,
                    },
                );
                // restart counter
                script.push(Instr::Write { reg: Register::Tim(self.id, TimerReg::Cnt), value: 0 });

                self.timeout = timeout;

                let psc_reg = Register::Tim(self.id, TimerReg::Psc);
                script.push(Instr::Write { reg: psc_reg, value: widened(psc) });
                let arr_reg = Register::Tim(self.id, TimerReg::Arr);
                script.push(Instr::Write { reg: arr_reg, value: widened(arr) });

                // start counter
                script.push(
                    Instr::Update {
                        reg: Register::Tim(self.id, TimerReg::Cr1),
                        clear: 0,
                        set: CR1_CEN,
                    },
                );
                assert(final(script)@ =~= old(script)@ + start_script(old(self).id(), psc, arr));
                true
            },
        }
    }

    /// Starts a new count down at the rate `timeout`.
    ///
    /// There is no program, and the timer stays as it is, where no prescaler
    /// and reload value give that rate (see [`divisors_of`]).
    pub fn start(&mut self, timeout: Hertz) -> (r: Option<Sequencer>)
        ensures
            (match divisors_of(old(self).clocks().pclk().0, timeout.0) {
                None => r is None && *final(self) == *old(self),
                Some((psc, arr)) => {
                    &&& r matches Some(s)
                    &&& s@ == Progress::start(start_script(old(self).id(), psc, arr))
                    &&& *final(self) == old(self).with_timeout(timeout)
                },
            }),
    {
        let mut script: Vec<Instr> = Vec::new();
        if self.push_start(&mut script, timeout) {
            Some(Sequencer::new(script))
        } else {
            None
        }
    }

    /// Looks whether the count down has ended, given the word that the
    /// status register holds.
    ///
    /// Where the update flag is clear there is nothing to do but to look
    /// again later.  Where it is set, the count down has ended, and the
    /// program clears the flag.
    pub fn wait(&mut self, sr: u32) -> (r: Option<Sequencer>)
        ensures
            *final(self) == *old(self),
            sr & SR_UIF == 0 ==> r is None,
            sr & SR_UIF != 0 ==> (r matches Some(s) && s@ == Progress::start(
                seq![
                    Instr::Update {
                        reg: Register::Tim(old(self).id(), TimerReg::Sr),
                        clear: SR_UIF,
                        set: 0,
                    },
                ],
            )),
    {
        if sr & SR_UIF == 0 {
            None
        } else {
            let mut script: Vec<Instr> = Vec::new();
            script.push(
                Instr::Update { reg: Register::Tim(self.id, TimerReg::Sr), clear: SR_UIF, set: 0 },
            );
            Some(Sequencer::new(script))
        }
    }

    /// Starts listening for an `event`
    pub fn listen(&mut self, event: Event) -> (s: Sequencer)
        ensures
            *final(self) == *old(self),
            s@ == Progress::start(
                seq![
                    Instr::Write {
                        reg: Register::Tim(old(self).id(), TimerReg::Dier),
                        value: DIER_UIE,
                    },
                ],
            ),
    {
        let mut script: Vec<Instr> = Vec::new();
        match event {
            Event::TimeOut => {
                // Enable update event interrupt
                script.push(
                    Instr::Write { reg: Register::Tim(self.id, TimerReg::Dier), value: DIER_UIE },
                );
            },
        }
        Sequencer::new(script)
    }

    /// Stops listening for an `event`
    pub fn unlisten(&mut self, event: Event) -> (s: Sequencer)
        ensures
            *final(self) == *old(self),
            s@ == Progress::start(
                seq![Instr::Write { reg: Register::Tim(old(self).id(), TimerReg::Dier), value: 0 }],
            ),
    {
        let mut script: Vec<Instr> = Vec::new();
        match event {
            Event::TimeOut => {
                // Disable update event interrupt
                script.push(Instr::Write { reg: Register::Tim(self.id, TimerReg::Dier), value: 0 });
            },
        }
        Sequencer::new(script)
    }

    /// Releases the TIM peripheral, once the counter has been paused.
    pub fn free(self) -> (p: Pending<TIM>)
        ensures
            p.progress() == Progress::start(
                seq![
                    Instr::Update {
                        reg: Register::Tim(self.id(), TimerReg::Cr1),
                        clear: CR1_CEN,
                        set: 0,
                    },
                ],
            ),
            p.value() == self.regs(),
    {
        let mut script: Vec<Instr> = Vec::new();
        // pause counter
        script.push(
            Instr::Update { reg: Register::Tim(self.id, TimerReg::Cr1), clear: CR1_CEN, set: 0 },
        );
        Pending::new(script, self.tim)
    }
}

} // verus!
