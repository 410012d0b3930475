//! Serial interfaces.

use crate::bus::{Instr, Pending, Progress, Register, Sequencer, UartId, UartReg};
use crate::rcc::Clocks;
use crate::time::Bps;
use vstd::prelude::*;

verus! {

/// `UART_ISR`: parity error.
pub const ISR_PE: u32 = 0x0000_0001;

/// `UART_ISR`: framing error.
pub const ISR_FE: u32 = 0x0000_0002;

/// `UART_ISR`: noise detected.
pub const ISR_NF: u32 = 0x0000_0004;

/// `UART_ISR`: overrun error.
pub const ISR_ORE: u32 = 0x0000_0008;

/// `UART_ISR`: receive register not empty.
pub const ISR_RXNE: u32 = 0x0000_0020;

/// `UART_ISR`: transmission complete.
pub const ISR_TC: u32 = 0x0000_0040;

/// `UART_ISR`: transmit register empty.
pub const ISR_TXE: u32 = 0x0000_0080;

/// `UART_CR1`: interface, receiver and transmitter enabled.
pub const CR1_ENABLE_RX_TX: u32 = 0x0000_000d;

/// `RCC_APBENR2`: UART 1.
pub const APB2_UART1: u32 = 0x0000_4000;

/// `RCC_APBENR1`: UART 2.
pub const APB1_UART2: u32 = 0x0002_0000;

/// Interrupt event
#[derive(Clone, Copy, Debug, PartialEq, Eq, Structural)]
pub enum Event {
    /// New data has been received
    Rxne,
    /// New data can be sent
    Txe,
}

/// Serial error
#[derive(Clone, Copy, Debug, PartialEq, Eq, Structural)]
pub enum Error {
    /// Framing error
    Framing,
    /// Noise error
    Noise,
    /// RX buffer overrun
    Overrun,
    /// Parity check error
    Parity,
    /// Stands for the errors that may be added.
    _Extensible,
}

/// Marks the pins that a UART can use.
pub trait Pins<UART> {

}

/// What a look at the status word says about reception.
#[derive(Clone, Copy, Debug, PartialEq, Eq, Structural)]
pub enum Reception {
    /// A byte waits in the receive data register.
    Ready,
    /// Nothing has come in yet.
    WouldBlock,
    /// The line has failed.
    Failed(Error),
}

impl UartId {
    /// The register that switches the clock of the UART on.
    pub open spec fn enable_register(self) -> Register {
        match self {
            UartId::UART1 => Register::RccApbenr2,
            UartId::UART2 => Register::RccApbenr1,
        }
    }

    /// The bit of the UART in that register.
    pub open spec fn enable_bit(self) -> u32 {
        match self {
            UartId::UART1 => APB2_UART1,
            UartId::UART2 => APB1_UART2,
        }
    }
}

/// Bringing a UART up: its clock is switched on, the divisor is stored, the
/// second and third control register are put back to their reset state, and
/// the UART, its transmitter and its receiver are enabled.
pub open spec fn init_script(id: UartId, brr: u32) -> Seq<Instr> {
    seq![
        Instr::Update { reg: id.enable_register(), clear: 0, set: id.enable_bit() },
        Instr::Write { reg: Register::Uart(id, UartReg::Brr), value: brr },
        Instr::Write { reg: Register::Uart(id, UartReg::Cr2), value: 0 },
        Instr::Write { reg: Register::Uart(id, UartReg::Cr3), value: 0 },
        Instr::Update {
            reg: Register::Uart(id, UartReg::Cr1),
            clear: 0xffff_ffff,
            set: CR1_ENABLE_RX_TX,
        },
    ]
}

/// What the status word `isr` says about reception.  An error goes before a
/// byte, and among the errors parity goes before framing, framing before
/// noise, noise before overrun.
pub open spec fn reception_of(isr: u32) -> Reception {
    if isr & ISR_PE != 0 {
        Reception::Failed(Error::Parity)
    } else if isr & ISR_FE != 0 {
        Reception::Failed(Error::Framing)
    } else if isr & ISR_NF != 0 {
        Reception::Failed(Error::Noise)
    } else if isr & ISR_ORE != 0 {
        Reception::Failed(Error::Overrun)
    } else if isr & ISR_RXNE != 0 {
        Reception::Ready
    } else {
        Reception::WouldBlock
    }
}

/// Serial abstraction
pub struct Serial<UART> {
    uart: UART,
    id: UartId,
}

impl<UART> Serial<UART> {
    /// The register block that the driver owns.
    pub closed spec fn regs(&self) -> UART {
        self.uart
    }

    /// Which of the UARTs it is.
    pub closed spec fn id(&self) -> UartId {
        self.id
    }

    /// Brings a UART up at the given speed.
    fn init(id: UartId, uart: UART, baud_rate: Bps, clocks: Clocks) -> (r: Option<Pending<Self>>)
        ensures
            baud_rate.0 == 0 ==> r is None,
            baud_rate.0 != 0 ==> (r matches Some(p) && p.progress() == Progress::start(
                init_script(id, clocks.pclk().0 / baud_rate.0),
            ) && p.value().regs() == uart && p.value().id() == id),
    {
        if baud_rate.0 == 0 {
            return None;
        }
        let mut script: Vec<Instr> = Vec::new();
        let (enable, bit) = match id {
            UartId::UART1 => (Register::RccApbenr2, APB2_UART1),
            UartId::UART2 => (Register::RccApbenr1, APB1_UART2),
        };

        /* Enable clock for UART */
        script.push(Instr::Update { reg: enable, clear: 0, set: bit });

        // Calculate correct baudrate divisor on the fly
        let brr = clocks.pclk().0 / baud_rate.0;
        script.push(Instr::Write { reg: Register::Uart(id, UartReg::Brr), value: brr });

        /* Reset other registers to disable advanced UART features */
        script.push(Instr::Write { reg: Register::Uart(id, UartReg::Cr2), value: 0 });
        script.push(Instr::Write { reg: Register::Uart(id, UartReg::Cr3), value: 0 });

        /* Enable transmission and receiving */
        script.push(
            Instr::Update {
                reg: Register::Uart(id, UartReg::Cr1),
                clear: 0xffff_ffff,
                set: CR1_ENABLE_RX_TX,
            },
        );
        assert(script@ =~= init_script(id, brr));
        Some(Pending::new(script, Serial { uart, id }))
    }

    /// Brings UART1 up at `baud_rate`: the divisor is the peripheral clock
    /// divided by the speed.  The driver is handed over once the program has
    /// run.  There is none for a speed of zero.
    pub fn uart1(uart: UART, baud_rate: Bps, clocks: Clocks) -> (r: Option<Pending<Self>>)
        ensures
            baud_rate.0 == 0 ==> r is None,
            baud_rate.0 != 0 ==> (r matches Some(p) && p.progress() == Progress::start(
                init_script(UartId::UART1, clocks.pclk().0 / baud_rate.0),
            ) && p.value().regs() == uart && p.value().id() == UartId::UART1),
    {
        Self::init(UartId::UART1, uart, baud_rate, clocks)
    }

    /// Brings UART2 up at `baud_rate`, as [`Serial::uart1`] does for UART1.
    pub fn uart2(uart: UART, baud_rate: Bps, clocks: Clocks) -> (r: Option<Pending<Self>>)
        ensures
            baud_rate.0 == 0 ==> r is None,
            baud_rate.0 != 0 ==> (r matches Some(p) && p.progress() == Progress::start(
                init_script(UartId::UART2, clocks.pclk().0 / baud_rate.0),
            ) && p.value().regs() == uart && p.value().id() == UartId::UART2),
    {
        Self::init(UartId::UART2, uart, baud_rate, clocks)
    }

    /// Gives the register block back.
    pub fn release(self) -> (uart: UART)
        ensures
            uart == self.regs(),
    {
        self.uart
    }

    /// Says from the status word whether a byte can be taken from the
    /// receive data register, whether none has come yet, or which error the
    /// line has had.
    pub fn read(&mut self, isr: u32) -> (r: Reception)
        ensures
            r == reception_of(isr),
            *final(self) == *old(self),
    {
        if isr & ISR_PE != 0 {
            Reception::Failed(Error::Parity)
        } else if isr & ISR_FE != 0 {
            Reception::Failed(Error::Framing)
        } else if isr & ISR_NF != 0 {
            Reception::Failed(Error::Noise)
        } else if isr & ISR_ORE != 0 {
            Reception::Failed(Error::Overrun)
        } else if isr & ISR_RXNE != 0 {
            Reception::Ready
        } else {
            Reception::WouldBlock
        }
    }

    /// Says from the status word whether everything written has left the
    /// transmitter.
    pub fn flush(&mut self, isr: u32) -> (complete: bool)
        ensures
            complete == (isr & ISR_TC != 0),
            *final(self) == *old(self),
    {
        isr & ISR_TC != 0
    }

    /// Sends `byte` if the status word says that the transmit register is
    /// empty: the program stores the byte there.  Otherwise there is nothing
    /// to do but to look again later.
    pub fn write(&mut self, byte: u8, isr: u32) -> (r: Option<Sequencer>)
        ensures
            *final(self) == *old(self),
            isr & ISR_TXE == 0 ==> r is None,
            isr & ISR_TXE != 0 ==> (r matches Some(s) && s@ == Progress::start(
                seq![
                    Instr::Write {
                        reg: Register::Uart(old(self).id(), UartReg::Tdr),
                        value: byte as u32,
                    },
                ],
            )),
    {
        if isr & ISR_TXE != 0 {
            let mut script: Vec<Instr> = Vec::new();
            script.push(
                Instr::Write { reg: Register::Uart(self.id, UartReg::Tdr), value: byte as u32 },
            );
            Some(Sequencer::new(script))
        } else {
            None
        }
    }
}

} // verus!
