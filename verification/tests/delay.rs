use hk32f0301mxxc_hal::bus::{Register, Step};
use hk32f0301mxxc_hal::delay::{pieces, reload, Delay, Wait, MAX_LIMIT_NANO};
use hk32f0301mxxc_hal::rcc::{Clocks, RccExt, TrimWords};
use hk32f0301mxxc_hal::time::Hertz;

/// A stand-in for the system timer: a unit that cannot be copied.
#[derive(Debug, PartialEq)]
struct Block;

/// The clocks of a tree that runs on an external clock of `freq` hertz.
fn clocks_at(freq: u32) -> Clocks {
    let blank =
        TrimWords { hsi: 0xffff_ffff, bgp: 0xffff_ffff, ldo: 0xffff_ffff, lpldo: 0xffff_ffff };
    let mut p = Block.configure().hse(Hertz(freq)).freeze(blank);
    let mut input = 0;
    loop {
        match p.step(input) {
            Step::Read(Register::RccCfgr) => input = 0x0000_0005,
            Step::Read(_) => input = 0xffff_ffff,
            Step::Write(_, _) => {}
            Step::Done => return p.finish().ok().expect("done").clocks,
        }
    }
}

#[test]
fn reload_is_a_millisecond_of_ticks_less_one() {
    assert_eq!(reload(&clocks_at(48_000_000)), Some(47_999));
    assert_eq!(reload(&clocks_at(8_000_000)), Some(7_999));
    assert_eq!(reload(&clocks_at(60_000)), Some(59));
    assert_eq!(reload(&clocks_at(1000)), Some(0));
    assert_eq!(reload(&clocks_at(1999)), Some(0));
}

#[test]
fn no_reload_below_a_kilohertz() {
    assert_eq!(reload(&clocks_at(999)), None);
    assert_eq!(reload(&clocks_at(0)), None);
}

#[test]
fn free_gives_the_timer_back() {
    assert_eq!(Delay::new(Block, clocks_at(48_000_000)).free(), Block);
}

#[test]
fn ticks_of_a_delay() {
    let d = Delay::new(Block, clocks_at(48_000_000));
    assert_eq!(d.ticks(0), 0);
    assert_eq!(d.ticks(1000), 48);
    assert_eq!(d.ticks(500_000), 24_000);
    assert_eq!(d.ticks(20), 0);
    assert_eq!(d.ticks(21), 1);
    // Only the whole megahertz count.
    let d = Delay::new(Block, clocks_at(8_999_999));
    assert_eq!(d.ticks(1000), 8);
    let d = Delay::new(Block, clocks_at(999_999));
    assert_eq!(d.ticks(500_000), 0);
    let d = Delay::new(Block, clocks_at(u32::MAX));
    assert_eq!(d.ticks(500_000), 2_147_000);
}

#[test]
fn pieces_of_a_delay() {
    assert_eq!(MAX_LIMIT_NANO, 500_000);
    assert_eq!(pieces(0), (0, 0));
    assert_eq!(pieces(1), (0, 1));
    assert_eq!(pieces(499_999), (0, 499_999));
    assert_eq!(pieces(500_000), (0, 500_000));
    assert_eq!(pieces(500_001), (1, 1));
    assert_eq!(pieces(1_000_000), (1, 500_000));
    assert_eq!(pieces(1_234_567), (2, 234_567));
    assert_eq!(pieces(u32::MAX), (8589, 434_967_295 - 434_500_000));
}

#[test]
fn pieces_add_up() {
    let mut ns: u32 = 0;
    loop {
        let (full, last) = pieces(ns);
        assert_eq!(full as u64 * 500_000 + last as u64, ns as u64);
        assert!(last <= 500_000);
        assert!(last > 0 || ns == 0);
        match ns.checked_add(77_777_777) {
            Some(next) => ns = next,
            None => break,
        }
    }
}

#[test]
fn direct_wait_is_over_after_the_ticks() {
    let w = Wait::new(40_000, 24_000, 47_999);
    assert_eq!(w, Wait::Direct { start: 40_000, delay: 24_000 });
    assert!(!w.is_over(40_000));
    assert!(!w.is_over(39_999));
    assert!(!w.is_over(16_001));
    assert!(w.is_over(16_000));
    assert!(w.is_over(0));
}

#[test]
fn direct_wait_is_over_when_the_count_has_started_over() {
    let w = Wait::new(40_000, 24_000, 47_999);
    // The count lies above the start: the difference is taken modulo 2^32.
    assert!(w.is_over(40_001));
    assert!(w.is_over(47_999));
}

#[test]
fn wrapped_wait_is_over_between_start_and_end() {
    let w = Wait::new(10_000, 24_000, 47_999);
    assert_eq!(w, Wait::Wrapped { start: 10_000, end: 33_999 });
    assert!(!w.is_over(10_000));
    assert!(!w.is_over(5_000));
    assert!(!w.is_over(0));
    assert!(!w.is_over(47_999));
    assert!(!w.is_over(33_999));
    assert!(w.is_over(33_998));
    assert!(w.is_over(10_001));
}

#[test]
fn wait_of_as_many_ticks_as_the_start_is_wrapped() {
    assert_eq!(Wait::new(24_000, 24_000, 47_999), Wait::Wrapped { start: 24_000, end: 47_999 });
    assert_eq!(Wait::new(0, 0, 47_999), Wait::Wrapped { start: 0, end: 47_999 });
}

#[test]
fn wrapped_wait_longer_than_a_round() {
    // The end is taken modulo 2^32.
    assert_eq!(Wait::new(10, 100, 50), Wait::Wrapped { start: 10, end: 0xffff_ffd8 });
}
