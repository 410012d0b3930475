use hk32f0301mxxc_hal::bus::{Pending, Register, Sequencer, Step, UartId, UartReg};
use hk32f0301mxxc_hal::rcc::{Clocks, RccExt, TrimWords};
use hk32f0301mxxc_hal::serial::{
    Error, Event, Reception, Serial, APB1_UART2, APB2_UART1, CR1_ENABLE_RX_TX, ISR_FE, ISR_NF,
    ISR_ORE, ISR_PE, ISR_RXNE, ISR_TC, ISR_TXE,
};
use hk32f0301mxxc_hal::time::{Bps, Hertz};
use hk32f0301mxxc_pac::uart1::regs as pac_uart;

/// A stand-in for a register block: a unit that cannot be copied.
#[derive(Debug, PartialEq)]
struct Block;

/// The clocks of a tree that runs on an external clock of `freq` hertz.
fn clocks_at(freq: u32) -> Clocks {
    let blank =
        TrimWords { hsi: 0xffff_ffff, bgp: 0xffff_ffff, ldo: 0xffff_ffff, lpldo: 0xffff_ffff };
    let mut p = Block.configure().hse(Hertz(freq)).freeze(blank);
    let mut input = 0;
    loop {
        match p.step(input) {
            Step::Read(Register::RccCfgr) => input = 0x0000_0005,
            Step::Read(_) => input = 0xffff_ffff,
            Step::Write(_, _) => {}
            Step::Done => return p.finish().ok().expect("done").clocks,
        }
    }
}

fn trace_of(mut s: Sequencer, word: u32) -> Vec<Step> {
    let mut out = Vec::new();
    loop {
        let op = s.step(word);
        out.push(op);
        if op == Step::Done {
            return out;
        }
        assert!(out.len() < 100);
    }
}

fn run<T>(mut p: Pending<T>, word: u32) -> (Vec<Step>, T) {
    let mut out = Vec::new();
    loop {
        let op = p.step(word);
        out.push(op);
        if op == Step::Done {
            return (out, p.finish().ok().expect("done"));
        }
        assert!(out.len() < 100);
    }
}

fn uart() -> Serial<Block> {
    run(Serial::uart1(Block, Bps(9600), clocks_at(48_000_000)).expect("a speed"), 0).1
}

#[test]
fn serial_bits_agree_with_the_register_fields() {
    let mut isr = pac_uart::Isr(0);
    isr.set_pe(true);
    assert_eq!(isr.0, ISR_PE);
    let mut isr = pac_uart::Isr(0);
    isr.set_fe(true);
    assert_eq!(isr.0, ISR_FE);
    let mut isr = pac_uart::Isr(0);
    isr.set_nf(true);
    assert_eq!(isr.0, ISR_NF);
    let mut isr = pac_uart::Isr(0);
    isr.set_ore(true);
    assert_eq!(isr.0, ISR_ORE);
    let mut isr = pac_uart::Isr(0);
    isr.set_rxne(true);
    assert_eq!(isr.0, ISR_RXNE);
    let mut isr = pac_uart::Isr(0);
    isr.set_tc(true);
    assert_eq!(isr.0, ISR_TC);
    let mut isr = pac_uart::Isr(0);
    isr.set_txe(true);
    assert_eq!(isr.0, ISR_TXE);
    let mut cr1 = pac_uart::Cr1(0);
    cr1.set_ue(true);
    cr1.set_re(true);
    cr1.set_te(true);
    assert_eq!(cr1.0, CR1_ENABLE_RX_TX);
    let mut en = hk32f0301mxxc_pac::rcc::regs::Apbenr2(0);
    en.set_uart1en(true);
    assert_eq!(en.0, APB2_UART1);
    let mut en = hk32f0301mxxc_pac::rcc::regs::Apbenr1(0);
    en.set_uart2en(true);
    assert_eq!(en.0, APB1_UART2);
}

#[test]
fn serial_addresses_agree_with_the_register_blocks() {
    let at = |id, reg| Register::Uart(id, reg).address() as usize;
    for (id, block) in
        [(UartId::UART1, hk32f0301mxxc_pac::UART1), (UartId::UART2, hk32f0301mxxc_pac::UART2)]
    {
        assert_eq!(at(id, UartReg::Cr1), block.cr1().as_ptr() as usize);
        assert_eq!(at(id, UartReg::Cr2), block.cr2().as_ptr() as usize);
        assert_eq!(at(id, UartReg::Cr3), block.cr3().as_ptr() as usize);
        assert_eq!(at(id, UartReg::Brr), block.brr().as_ptr() as usize);
        assert_eq!(at(id, UartReg::Isr), block.isr().as_ptr() as usize);
        assert_eq!(at(id, UartReg::Rdr), block.rdr().as_ptr() as usize);
        assert_eq!(at(id, UartReg::Tdr), block.tdr().as_ptr() as usize);
    }
}

#[test]
fn uart1_is_brought_up() {
    let p = Serial::uart1(Block, Bps(115_200), clocks_at(48_000_000)).expect("a speed");
    let (trace, serial) = run(p, 0x0000_0300);
    let reg = |r| Register::Uart(UartId::UART1, r);
    assert_eq!(
        trace,
        vec![
            Step::Read(Register::RccApbenr2),
            Step::Write(Register::RccApbenr2, 0x0000_4300),
            // 48000000 / 115200 = 416
            Step::Write(reg(UartReg::Brr), 416),
            Step::Write(reg(UartReg::Cr2), 0),
            Step::Write(reg(UartReg::Cr3), 0),
            Step::Read(reg(UartReg::Cr1)),
            Step::Write(reg(UartReg::Cr1), 0xd),
            Step::Done,
        ]
    );
    assert_eq!(serial.release(), Block);
}

#[test]
fn uart2_is_brought_up() {
    let p = Serial::uart2(Block, Bps(9600), clocks_at(8_000_000)).expect("a speed");
    let (trace, _) = run(p, 0xffff_ffff);
    let reg = |r| Register::Uart(UartId::UART2, r);
    assert_eq!(
        trace,
        vec![
            Step::Read(Register::RccApbenr1),
            Step::Write(Register::RccApbenr1, 0xffff_ffff),
            // 8000000 / 9600 = 833
            Step::Write(reg(UartReg::Brr), 833),
            Step::Write(reg(UartReg::Cr2), 0),
            Step::Write(reg(UartReg::Cr3), 0),
            Step::Read(reg(UartReg::Cr1)),
            Step::Write(reg(UartReg::Cr1), 0xd),
            Step::Done,
        ]
    );
}

#[test]
fn no_port_at_speed_zero() {
    assert!(Serial::uart1(Block, Bps(0), clocks_at(48_000_000)).is_none());
    assert!(Serial::uart2(Block, Bps(0), clocks_at(48_000_000)).is_none());
}

#[test]
fn read_tells_a_byte_from_nothing() {
    let mut s = uart();
    assert_eq!(s.read(0), Reception::WouldBlock);
    assert_eq!(s.read(ISR_TC | ISR_TXE), Reception::WouldBlock);
    assert_eq!(s.read(ISR_RXNE), Reception::Ready);
    assert_eq!(s.read(ISR_RXNE | ISR_TXE), Reception::Ready);
}

#[test]
fn read_tells_each_error() {
    let mut s = uart();
    assert_eq!(s.read(ISR_PE), Reception::Failed(Error::Parity));
    assert_eq!(s.read(ISR_FE), Reception::Failed(Error::Framing));
    assert_eq!(s.read(ISR_NF), Reception::Failed(Error::Noise));
    assert_eq!(s.read(ISR_ORE), Reception::Failed(Error::Overrun));
}

#[test]
fn read_puts_errors_before_the_byte_and_in_order() {
    let mut s = uart();
    assert_eq!(s.read(0xffff_ffff), Reception::Failed(Error::Parity));
    assert_eq!(s.read(ISR_FE | ISR_NF | ISR_ORE | ISR_RXNE), Reception::Failed(Error::Framing));
    assert_eq!(s.read(ISR_NF | ISR_ORE | ISR_RXNE), Reception::Failed(Error::Noise));
    assert_eq!(s.read(ISR_ORE | ISR_RXNE), Reception::Failed(Error::Overrun));
}

#[test]
fn flush_goes_by_transmission_complete() {
    let mut s = uart();
    assert!(s.flush(ISR_TC));
    assert!(s.flush(0xffff_ffff));
    assert!(!s.flush(0));
    assert!(!s.flush(ISR_TXE | ISR_RXNE));
}

#[test]
fn write_stores_the_byte_when_the_register_is_empty() {
    let mut s = uart();
    assert!(s.write(0x41, 0).is_none());
    assert!(s.write(0x41, ISR_TC | ISR_RXNE).is_none());
    let program = s.write(0xa5, ISR_TXE).expect("room for a byte");
    assert_eq!(
        trace_of(program, 0),
        vec![Step::Write(Register::Uart(UartId::UART1, UartReg::Tdr), 0xa5), Step::Done]
    );
}

#[test]
fn events_and_errors_are_told_apart() {
    assert_ne!(Event::Rxne, Event::Txe);
    assert_ne!(Error::Framing, Error::Noise);
    assert_ne!(Error::Overrun, Error::Parity);
}
