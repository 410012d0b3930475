//! Delays on the system timer.

use crate::rcc::Clocks;
use vstd::prelude::*;

verus! {

/// The longest wait that is made in one piece, in nanoseconds.
pub const MAX_LIMIT_NANO: u32 = 500_000;

/// The counter values between which a wait is over.
///
/// The system timer counts down and starts over at its reload value.  A wait
/// of `delay` ticks that begins at the count `start` goes on while the count
/// lies in the stretch of `delay` ticks below `start`.
#[derive(Clone, Copy, Debug, PartialEq, Eq, Structural)]
pub enum Wait {
    /// The stretch ends above zero: the wait is over once the count has gone
    /// `delay` below `start`.
    Direct { start: u32, delay: u32 },
    /// The stretch goes through zero: the wait is over once the count has
    /// started over and gone below `end`.
    Wrapped { start: u32, end: u32 },
}

/// The difference `a - b` modulo 2^32.
pub open spec fn difference(a: u32, b: u32) -> u32 {
    if a >= b {
        (a - b) as u32
    } else {
        (a - b + 0x1_0000_0000) as u32
    }
}

impl Wait {
    /// The wait of `delay` ticks that begins at the count `start`, on a
    /// timer that starts over at `reload`.
    pub open spec fn of(start: u32, delay: u32, reload: u32) -> Wait {
        if start > delay {
            Wait::Direct { start, delay }
        } else {
            Wait::Wrapped { start, end: difference(reload, (delay - start) as u32) }
        }
    }

    /// Whether the wait is over at the count `current`.
    pub open spec fn over_at(self, current: u32) -> bool {
        match self {
            Wait::Direct { start, delay } => difference(start, current) >= delay,
            Wait::Wrapped { start, end } => current > start && current < end,
        }
    }

    /// The wait of `delay` ticks that begins at the count `start`, on a
    /// timer that starts over at `reload`.
    pub fn new(start: u32, delay: u32, reload: u32) -> (w: Wait)
        ensures
            w == Wait::of(start, delay, reload),
    {
        if start > delay {
            Wait::Direct { start, delay }
        } else {
            Wait::Wrapped { start, end: reload.wrapping_sub(delay - start) }
        }
    }

    /// Whether the wait is over at the count `current`.
    pub fn is_over(&self, current: u32) -> (over: bool)
        ensures
            over == self.over_at(current),
    {
        match *self {
            Wait::Direct { start, delay } => !(start.wrapping_sub(current) < delay),
            Wait::Wrapped { start, end } => current > start && current < end,
        }
    }
}

/// While the count has not started over, a direct wait is over exactly when
/// `delay` ticks have gone by.
pub proof fn direct_wait_counts_ticks(start: u32, delay: u32, reload: u32, current: u32)
    requires
        delay < start,
        current <= start,
    ensures
        Wait::of(start, delay, reload).over_at(current) <==> start - current >= delay,
{
}

/// How a delay of `ns` nanoseconds is made of pieces of at most
/// [`MAX_LIMIT_NANO`]: the number of full pieces that go first, and the
/// length of the last piece.  The last piece is empty only for no delay at
/// all.
pub open spec fn pieces_of(ns: u32) -> (u32, u32) {
    if ns == 0 {
        (0, 0)
    } else {
        let full = (ns - 1) / MAX_LIMIT_NANO as int;
        (full as u32, (ns - full * MAX_LIMIT_NANO) as u32)
    }
}

/// The reload value with which the system timer starts over once a
/// millisecond: the ticks of a millisecond less one.  There is none for a
/// core clock below one kilohertz.
pub fn reload(clocks: &Clocks) -> (r: Option<u32>)
    ensures
        clocks.sysclk().0 < 1000 ==> r is None,
        clocks.sysclk().0 >= 1000 ==> r == Some((clocks.sysclk().0 / 1000 - 1) as u32),
{
    let per_ms: u32 = clocks.sysclk().0 / 1000;
    if per_ms == 0 {
        None
    } else {
        Some(per_ms - 1)
    }
}

/// Cuts a delay of `ns` nanoseconds into pieces of at most
/// [`MAX_LIMIT_NANO`]: the number of full pieces, and the last piece.
pub fn pieces(ns: u32) -> (p: (u32, u32))
    ensures
        p == pieces_of(ns),
        p.0 * MAX_LIMIT_NANO + p.1 == ns,
        p.1 <= MAX_LIMIT_NANO,
{
    let mut ns = ns;
    let mut full: u32 = 0;
    let ghost total = ns;
    while ns > MAX_LIMIT_NANO
        invariant
            full * MAX_LIMIT_NANO + ns == total,
            ns > 0 || total == 0,
        decreases ns,
    {
        ns -= MAX_LIMIT_NANO;
        full += 1;
    }
    proof {
        if total > 0 {
            assert(full == (total - 1) / MAX_LIMIT_NANO as int) by (nonlinear_arith)
                requires
                    full * MAX_LIMIT_NANO + ns == total,
                    0 < ns <= MAX_LIMIT_NANO,
                    MAX_LIMIT_NANO == 500_000,
            ;
        }
    }
    (full, ns)
}

/// System timer (SysTick) as a delay provider
pub struct Delay<SYST> {
    clocks: Clocks,
    syst: SYST,
}

impl<SYST> Delay<SYST> {
    /// The clocks that the delay goes by.
    pub closed spec fn clocks(&self) -> Clocks {
        self.clocks
    }

    /// The system timer that the delay owns.
    pub closed spec fn timer(&self) -> SYST {
        self.syst
    }

    /// A delay provider on the system timer (SysTick).  The timer has to
    /// count the core clock down and to start over at what [`reload`] gives.
    pub fn new(syst: SYST, clocks: Clocks) -> (d: Self)
        ensures
            d.timer() == syst,
            d.clocks() == clocks,
    {
        Delay { syst, clocks }
    }

    /// Gives the system timer back.
    pub fn free(self) -> (syst: SYST)
        ensures
            syst == self.timer(),
    {
        self.syst
    }

    /// The ticks that `ns` nanoseconds take: the whole megahertz of the core
    /// clock times `ns`, divided by 1000.
    pub fn ticks(&self, ns: u32) -> (t: u32)
        requires
            ns <= MAX_LIMIT_NANO,
        ensures
            t == ns * (self.clocks().sysclk().0 / 1_000_000) / 1000,
    {
        let mhz: u32 = self.clocks.sysclk().0 / 1_000_000;
        assert(ns * mhz <= 500_000 * 4294) by (nonlinear_arith)
            requires
                ns <= 500_000,
                mhz <= 4294,
        ;
        (ns * mhz) / 1000
    }

}

} // verus!
