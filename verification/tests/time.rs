use hk32f0301mxxc_hal::prelude::{_hk32_hal_rcc_RccExt, _hk32_hal_time_U32Ext};
use hk32f0301mxxc_hal::time::{Bps, Hertz};

#[test]
fn unit_suffixes() {
    assert_eq!(16_000_000.hz(), Hertz(16_000_000));
    assert_eq!(0.hz(), Hertz(0));
    assert_eq!(u32::MAX.hz().0, u32::MAX);
    assert_eq!(115_200.bps(), Bps(115_200));
}

#[test]
fn hertz_from_a_number() {
    assert_eq!(Hertz::from(48_000_000), Hertz(48_000_000));
    let h: Hertz = 60_000u32.into();
    assert_eq!(h.0, 60_000);
}

#[test]
fn frequencies_are_ordered_by_their_number() {
    assert!(Hertz(16_000_000) <= 16_000_000.hz());
    assert!(Hertz(16_000_001) > 16_000_000.hz());
    assert!(Hertz(0) < Hertz(1));
    assert!(Bps(9600) < Bps(115_200));
    assert_eq!(Hertz(5).max(Hertz(7)), Hertz(7));
}

#[test]
fn prelude_brings_configure() {
    struct Block;
    let _cfgr = Block.configure();
}
