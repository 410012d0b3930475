//! Register programs and the sequencer that walks through them.
//!
//! A driver operation is a list of [`Instr`]: store a word, change some bits
//! of a word, wait for some bits of a word, keep a word.  The [`Sequencer`]
//! turns such a list into single bus accesses.  The caller performs each
//! access and passes back the word it has loaded; the sequencer decides from
//! that word whether a wait is over.  It waits as long as it takes: it has no
//! notion of time and never gives up.

use vstd::prelude::*;

verus! {

/// The timers.
#[allow(clippy::upper_case_acronyms)]
#[derive(Clone, Copy, Debug, PartialEq, Eq, Structural)]
pub enum TimerId {
    /// Advanced-control timer.
    TIM1,
    /// General-purpose timer.
    TIM2,
    /// Basic timer.
    TIM6,
}

/// The registers of a timer that the drivers touch.
#[derive(Clone, Copy, Debug, PartialEq, Eq, Structural)]
pub enum TimerReg {
    /// Control 1.
    Cr1,
    /// Interrupt enable.
    Dier,
    /// Status.
    Sr,
    /// Counter.
    Cnt,
    /// Prescaler.
    Psc,
    /// Auto-reload.
    Arr,
}

/// The UARTs.
#[allow(clippy::upper_case_acronyms)]
#[derive(Clone, Copy, Debug, PartialEq, Eq, Structural)]
pub enum UartId {
    /// First UART.
    UART1,
    /// Second UART.
    UART2,
}

/// The registers of a UART that the drivers touch.
#[derive(Clone, Copy, Debug, PartialEq, Eq, Structural)]
pub enum UartReg {
    /// Control 1.
    Cr1,
    /// Control 2.
    Cr2,
    /// Control 3.
    Cr3,
    /// Baud rate.
    Brr,
    /// Interrupt and status.
    Isr,
    /// Receive data.
    Rdr,
    /// Transmit data.
    Tdr,
}

/// The memory-mapped words that the drivers touch.
#[derive(Clone, Copy, Debug, PartialEq, Eq, Structural)]
pub enum Register {
    /// Clock control.
    RccCr,
    /// Clock configuration.
    RccCfgr,
    /// Clock interrupts.
    RccCir,
    /// Peripheral reset, bank 2.
    RccApbrstr2,
    /// Peripheral reset, bank 1.
    RccApbrstr1,
    /// Peripheral clock enable, bank 2.
    RccApbenr2,
    /// Peripheral clock enable, bank 1.
    RccApbenr1,
    /// Clock control and status.
    RccCsr,
    /// Clock configuration 3.
    RccCfgr3,
    /// Clock configuration 4.
    RccCfgr4,
    /// Flash access control.
    FlashAcr,
    /// Offset of the interrupt vector table.
    FlashIntVecOffset,
    /// Key register that guards the regulator trims.
    PmuKey,
    /// Regulator trim in run mode.
    PmuLdoRun,
    /// Regulator trim in low-power run mode.
    PmuLdoLpr,
    /// Low-power regulator trim.
    PmuLpldoLpr,
    /// Band-gap trim.
    PmuBgp,
    /// Converter interrupt and status.
    AdcIsr,
    /// Converter control.
    AdcCr,
    /// Converter configuration 1.
    AdcCfgr1,
    /// Converter configuration 2.
    AdcCfgr2,
    /// Converter sampling time.
    AdcSmpr,
    /// Converter channel selection.
    AdcChselr,
    /// Converter data.
    AdcDr,
    /// Converter common configuration.
    AdcCcr,
    /// A register of a timer.
    Tim(TimerId, TimerReg),
    /// A register of a UART.
    Uart(UartId, UartReg),
}

impl TimerId {
    /// Where the registers of the timer begin.
    pub open spec fn base_spec(self) -> u32 {
        match self {
            TimerId::TIM1 => 0x4001_2c00,
            TimerId::TIM2 => 0x4000_0000,
            TimerId::TIM6 => 0x4000_1000,
        }
    }

    /// Where the registers of the timer begin.
    pub fn base(self) -> (a: u32)
        ensures
            a == self.base_spec(),
    {
        match self {
            TimerId::TIM1 => 0x4001_2c00,
            TimerId::TIM2 => 0x4000_0000,
            TimerId::TIM6 => 0x4000_1000,
        }
    }
}

impl TimerReg {
    /// How far the register lies from the base of its timer.
    pub open spec fn offset_spec(self) -> u32 {
        match self {
            TimerReg::Cr1 => 0x00,
            TimerReg::Dier => 0x0c,
            TimerReg::Sr => 0x10,
            TimerReg::Cnt => 0x24,
            TimerReg::Psc => 0x28,
            TimerReg::Arr => 0x2c,
        }
    }

    /// How far the register lies from the base of its timer.
    pub fn offset(self) -> (o: u32)
        ensures
            o == self.offset_spec(),
    {
        match self {
            TimerReg::Cr1 => 0x00,
            TimerReg::Dier => 0x0c,
            TimerReg::Sr => 0x10,
            TimerReg::Cnt => 0x24,
            TimerReg::Psc => 0x28,
            TimerReg::Arr => 0x2c,
        }
    }
}

impl UartId {
    /// Where the registers of the UART begin.
    pub open spec fn base_spec(self) -> u32 {
        match self {
            UartId::UART1 => 0x4001_3800,
            UartId::UART2 => 0x4001_3c00,
        }
    }

    /// Where the registers of the UART begin.
    pub fn base(self) -> (a: u32)
        ensures
            a == self.base_spec(),
    {
        match self {
            UartId::UART1 => 0x4001_3800,
            UartId::UART2 => 0x4001_3c00,
        }
    }
}

impl UartReg {
    /// How far the register lies from the base of its UART.
    pub open spec fn offset_spec(self) -> u32 {
        match self {
            UartReg::Cr1 => 0x00,
            UartReg::Cr2 => 0x04,
            UartReg::Cr3 => 0x08,
            UartReg::Brr => 0x0c,
            UartReg::Isr => 0x1c,
            UartReg::Rdr => 0x24,
            UartReg::Tdr => 0x28,
        }
    }

    /// How far the register lies from the base of its UART.
    pub fn offset(self) -> (o: u32)
        ensures
            o == self.offset_spec(),
    {
        match self {
            UartReg::Cr1 => 0x00,
            UartReg::Cr2 => 0x04,
            UartReg::Cr3 => 0x08,
            UartReg::Brr => 0x0c,
            UartReg::Isr => 0x1c,
            UartReg::Rdr => 0x24,
            UartReg::Tdr => 0x28,
        }
    }
}

impl Register {
    /// Where the register lies in the address space.
    pub open spec fn address_spec(self) -> u32 {
        match self {
            Register::RccCr => 0x4002_1000,
            Register::RccCfgr => 0x4002_1004,
            Register::RccCir => 0x4002_1008,
            Register::RccApbrstr2 => 0x4002_100c,
            Register::RccApbrstr1 => 0x4002_1010,
            Register::RccApbenr2 => 0x4002_1018,
            Register::RccApbenr1 => 0x4002_101c,
            Register::RccCsr => 0x4002_1024,
            Register::RccCfgr3 => 0x4002_1030,
            Register::RccCfgr4 => 0x4002_10e8,
            Register::FlashAcr => 0x4002_2000,
            Register::FlashIntVecOffset => 0x4002_2074,
            Register::PmuKey => 0x4000_704c,
            Register::PmuLdoRun => 0x4000_7060,
            Register::PmuLdoLpr => 0x4000_7064,
            Register::PmuLpldoLpr => 0x4000_706c,
            Register::PmuBgp => 0x4000_7070,
            Register::AdcIsr => 0x4001_2400,
            Register::AdcCr => 0x4001_2408,
            Register::AdcCfgr1 => 0x4001_240c,
            Register::AdcCfgr2 => 0x4001_2410,
            Register::AdcSmpr => 0x4001_2414,
            Register::AdcChselr => 0x4001_2428,
            Register::AdcDr => 0x4001_2440,
            Register::AdcCcr => 0x4001_2708,
            Register::Tim(id, reg) => (id.base_spec() + reg.offset_spec()) as u32,
            Register::Uart(id, reg) => (id.base_spec() + reg.offset_spec()) as u32,
        }
    }

    /// Where the register lies in the address space.
    pub fn address(self) -> (a: u32)
        ensures
            a == self.address_spec(),
    {
        match self {
            Register::RccCr => 0x4002_1000,
            Register::RccCfgr => 0x4002_1004,
            Register::RccCir => 0x4002_1008,
            Register::RccApbrstr2 => 0x4002_100c,
            Register::RccApbrstr1 => 0x4002_1010,
            Register::RccApbenr2 => 0x4002_1018,
            Register::RccApbenr1 => 0x4002_101c,
            Register::RccCsr => 0x4002_1024,
            Register::RccCfgr3 => 0x4002_1030,
            Register::RccCfgr4 => 0x4002_10e8,
            Register::FlashAcr => 0x4002_2000,
            Register::FlashIntVecOffset => 0x4002_2074,
            Register::PmuKey => 0x4000_704c,
            Register::PmuLdoRun => 0x4000_7060,
            Register::PmuLdoLpr => 0x4000_7064,
            Register::PmuLpldoLpr => 0x4000_706c,
            Register::PmuBgp => 0x4000_7070,
            Register::AdcIsr => 0x4001_2400,
            Register::AdcCr => 0x4001_2408,
            Register::AdcCfgr1 => 0x4001_240c,
            Register::AdcCfgr2 => 0x4001_2410,
            Register::AdcSmpr => 0x4001_2414,
            Register::AdcChselr => 0x4001_2428,
            Register::AdcDr => 0x4001_2440,
            Register::AdcCcr => 0x4001_2708,
            Register::Tim(id, reg) => id.base() + reg.offset(),
            Register::Uart(id, reg) => id.base() + reg.offset(),
        }
    }
}

/// No two registers share an address, and every address is word-aligned.
pub proof fn addresses_are_distinct(a: Register, b: Register)
    ensures
        a.address_spec() == b.address_spec() ==> a == b,
        a.address_spec() % 4 == 0,
{
}

/// The places where a sequencer keeps a word that it has loaded.
#[derive(Clone, Copy, Debug, PartialEq, Eq, Structural)]
pub enum Latch {
    /// A status word looked at before the converter is switched on.
    Status,
    /// A control word looked at before it is changed for a while.
    Control,
    /// The sample taken of the internal reference.
    Reference,
    /// The sample taken of the selected input.
    Sample,
}

/// The words that a sequencer has kept, one per [`Latch`].
#[derive(Clone, Copy, Debug, PartialEq, Eq, Structural)]
pub struct Latches {
    pub status: u32,
    pub control: u32,
    pub reference: u32,
    pub sample: u32,
}

impl Latches {
    /// All latches hold zero.
    pub open spec fn empty() -> Latches {
        Latches { status: 0, control: 0, reference: 0, sample: 0 }
    }

    /// The word kept in `latch`.
    pub open spec fn get_spec(self, latch: Latch) -> u32 {
        match latch {
            Latch::Status => self.status,
            Latch::Control => self.control,
            Latch::Reference => self.reference,
            Latch::Sample => self.sample,
        }
    }

    /// These latches with `word` kept in `latch`.
    pub open spec fn put_spec(self, latch: Latch, word: u32) -> Latches {
        match latch {
            Latch::Status => Latches { status: word, ..self },
            Latch::Control => Latches { control: word, ..self },
            Latch::Reference => Latches { reference: word, ..self },
            Latch::Sample => Latches { sample: word, ..self },
        }
    }

    /// All latches hold zero.
    pub fn new() -> (l: Latches)
        ensures
            l == Latches::empty(),
    {
        Latches { status: 0, control: 0, reference: 0, sample: 0 }
    }

    /// The word kept in `latch`.
    pub fn get(&self, latch: Latch) -> (word: u32)
        ensures
            word == self.get_spec(latch),
    {
        match latch {
            Latch::Status => self.status,
            Latch::Control => self.control,
            Latch::Reference => self.reference,
            Latch::Sample => self.sample,
        }
    }

    /// Keeps `word` in `latch`.
    pub fn put(&mut self, latch: Latch, word: u32)
        ensures
            *final(self) == old(self).put_spec(latch, word),
    {
        match latch {
            Latch::Status => self.status = word,
            Latch::Control => self.control = word,
            Latch::Reference => self.reference = word,
            Latch::Sample => self.sample = word,
        }
    }
}

/// One instruction of a register program.
#[derive(Clone, Copy, Debug, PartialEq, Eq, Structural)]
pub enum Instr {
    /// Store `value` in `reg`.
    Write { reg: Register, value: u32 },
    /// Load `reg` and store the word back with the bits of `clear` cleared
    /// and then the bits of `set` set.
    Update { reg: Register, clear: u32, set: u32 },
    /// As `Update`, but only where the word kept in `latch`, masked with
    /// `mask`, equals `expect`; otherwise nothing is loaded or stored.
    UpdateIf { latch: Latch, mask: u32, expect: u32, reg: Register, clear: u32, set: u32 },
    /// Load `reg` over and over until the word, masked with `mask`, equals
    /// `expect`.
    Await { reg: Register, mask: u32, expect: u32 },
    /// Load `reg` once and keep the word in `latch`.
    Fetch { reg: Register, latch: Latch },
}

/// What the caller of a sequencer has to do next.
#[derive(Clone, Copy, Debug, PartialEq, Eq, Structural)]
pub enum Step {
    /// Load the register and pass the word to the next call.
    Read(Register),
    /// Store the word in the register.
    Write(Register, u32),
    /// Nothing: the program has run to its end.
    Done,
}

/// The word that an `Update` stores after it has loaded `word`.
pub open spec fn updated(word: u32, clear: u32, set: u32) -> u32 {
    (word & !clear) | set
}

/// How far a sequencer has come.
pub struct Progress {
    /// The program.
    pub script: Seq<Instr>,
    /// The index of the instruction that is being carried out.
    pub pc: int,
    /// Whether that instruction has asked for a load whose word comes with
    /// the next call.
    pub reading: bool,
    /// The words kept so far.
    pub latches: Latches,
}

impl Progress {
    /// The state before the first step of `script`.
    pub open spec fn start(script: Seq<Instr>) -> Progress {
        Progress { script, pc: 0, reading: false, latches: Latches::empty() }
    }

    /// Whether every instruction has been carried out.
    pub open spec fn done(self) -> bool {
        self.pc >= self.script.len()
    }

    /// The state after the instruction at `pc` has been carried out.
    pub open spec fn past(self) -> Progress {
        Progress { pc: self.pc + 1, reading: false, ..self }
    }

    /// The state in which the instruction at `pc` waits for a word.
    pub open spec fn asking(self) -> Progress {
        Progress { reading: true, ..self }
    }

    /// One step: the state after it and what the caller has to do.
    ///
    /// `input` is the word that the caller loaded for the step before; it is
    /// looked at only where that step was a `Read`.
    pub open spec fn step(self, input: u32) -> (Progress, Step)
        decreases self.script.len() - self.pc,
    {
        if self.pc < 0 || self.done() {
            (self, Step::Done)
        } else {
            match self.script[self.pc] {
                Instr::Write { reg, value } => (self.past(), Step::Write(reg, value)),
                Instr::Update { reg, clear, set } => {
                    if self.reading {
                        (self.past(), Step::Write(reg, updated(input, clear, set)))
                    } else {
                        (self.asking(), Step::Read(reg))
                    }
                },
                Instr::UpdateIf { latch, mask, expect, reg, clear, set } => {
                    if self.reading {
                        (self.past(), Step::Write(reg, updated(input, clear, set)))
                    } else if self.latches.get_spec(latch) & mask == expect {
                        (self.asking(), Step::Read(reg))
                    } else {
                        self.past().step(input)
                    }
                },
                Instr::Await { reg, mask, expect } => {
                    if self.reading && input & mask == expect {
                        self.past().step(input)
                    } else {
                        (self.asking(), Step::Read(reg))
                    }
                },
                Instr::Fetch { reg, latch } => {
                    if self.reading {
                        let kept = self.latches.put_spec(latch, input);
                        Progress { latches: kept, ..self.past() }.step(input)
                    } else {
                        (self.asking(), Step::Read(reg))
                    }
                },
            }
        }
    }
}

impl Progress {
    /// What must hold for a step that leads from `self` to `after` with the
    /// action `op` to have gone past the instruction at index `i`.
    ///
    /// A store is the action of the step and ends it.  A load-and-store ends
    /// the step with its store, made from the word that came in.  A guarded
    /// one does likewise or was skipped because its guard does not hold of the
    /// words kept.  A wait was answered by a word that meets it.  A fetch was
    /// answered and has kept the word.
    pub open spec fn went_past(self, i: int, input: u32, after: Progress, op: Step) -> bool {
        let answered = i == self.pc && self.reading;
        match self.script[i] {
            Instr::Write { reg, value } => after.pc == i + 1 && op == Step::Write(reg, value),
            Instr::Update { reg, clear, set } => {
                &&& answered
                &&& after.pc == i + 1
                &&& op == Step::Write(reg, updated(input, clear, set))
            },
            Instr::UpdateIf { latch, mask, expect, reg, clear, set } => {
                if answered {
                    after.pc == i + 1 && op == Step::Write(reg, updated(input, clear, set))
                } else {
                    after.latches.get_spec(latch) & mask != expect
                }
            },
            Instr::Await { reg, mask, expect } => answered && input & mask == expect,
            Instr::Fetch { reg, latch } => {
                answered && after.latches == self.latches.put_spec(latch, input)
            },
        }
    }
}

impl Instr {
    /// Whether the instruction can store to its register.
    pub open spec fn stores(self) -> bool {
        self is Write || self is Update || self is UpdateIf
    }

    /// The register that the instruction loads or stores.
    pub open spec fn register(self) -> Register {
        match self {
            Instr::Write { reg, .. } => reg,
            Instr::Update { reg, .. } => reg,
            Instr::UpdateIf { reg, .. } => reg,
            Instr::Await { reg, .. } => reg,
            Instr::Fetch { reg, .. } => reg,
        }
    }
}

/// Whether the program holds an instruction that can store to `reg`.
pub open spec fn stores_to(script: Seq<Instr>, reg: Register) -> bool {
    exists|i: int|
        0 <= i < script.len() && #[trigger] script[i].stores() && script[i].register() == reg
}

/// A program of one instruction stores to a register exactly if the
/// instruction does.
pub proof fn stores_to_one(instr: Instr, reg: Register)
    ensures
        stores_to(seq![instr], reg) <==> instr.stores() && instr.register() == reg,
{
    let s = seq![instr];
    if instr.stores() && instr.register() == reg {
        assert(s[0].stores() && s[0].register() == reg);
    }
    if stores_to(s, reg) {
        let i = choose|i: int|
            0 <= i < s.len() && #[trigger] s[i].stores() && s[i].register() == reg;
        assert(s[i] == instr);
    }
}

/// A program made of two stores to a register exactly if one of the two does.
pub proof fn stores_to_either(first: Seq<Instr>, second: Seq<Instr>, reg: Register)
    ensures
        stores_to(first + second, reg) <==> stores_to(first, reg) || stores_to(second, reg),
{
    let both = first + second;
    if stores_to(first, reg) {
        let i = choose|i: int|
            0 <= i < first.len() && #[trigger] first[i].stores() && first[i].register() == reg;
        assert(both[i] == first[i]);
    }
    if stores_to(second, reg) {
        let i = choose|i: int|
            0 <= i < second.len() && #[trigger] second[i].stores() && second[i].register() == reg;
        assert(both[first.len() + i] == second[i]);
    }
    if stores_to(both, reg) {
        let i = choose|i: int|
            0 <= i < both.len() && #[trigger] both[i].stores() && both[i].register() == reg;
        if i < first.len() {
            assert(first[i] == both[i]);
        } else {
            assert(second[i - first.len()] == both[i]);
        }
    }
}

impl Progress {
    /// What holds of every state that steps lead to from a start: the index
    /// lies within the program or at its end, and a word is waited for only
    /// by an instruction.
    pub open spec fn wf(self) -> bool {
        &&& 0 <= self.pc <= self.script.len()
        &&& self.reading ==> self.pc < self.script.len()
    }

    /// The state after one step for each word of `inputs`, in their order.
    pub open spec fn after(self, inputs: Seq<u32>) -> Progress
        decreases inputs.len(),
    {
        if inputs.len() == 0 {
            self
        } else {
            self.after(inputs.drop_last()).step(inputs.last()).0
        }
    }
}

/// A step keeps the program, never goes back, and stays within the program.
/// It says `Done` only at the end of the program.  It says `Read` exactly
/// when it leaves an instruction waiting for a word, and the register is
/// that of the instruction.  It goes past an instruction only as
/// [`Progress::went_past`] allows: no store is left out, and no wait is left
/// before a word has met it.  The words kept change only by a fetch that was
/// answered.
pub proof fn step_follows_program(p: Progress, input: u32)
    requires
        p.wf(),
    ensures
        ({
            let (q, op) = p.step(input);
            &&& q.wf()
            &&& q.script == p.script
            &&& p.pc <= q.pc
            &&& (op == Step::Done ==> q.done())
            &&& (q.reading <==> op is Read)
            &&& (op matches Step::Read(r) ==> r == q.script[q.pc].register())
            &&& (!(p.reading && p.script[p.pc] is Fetch) ==> q.latches == p.latches)
            &&& forall|i: int| p.pc <= i < q.pc ==> p.went_past(i, input, q, op)
        }),
    decreases p.script.len() - p.pc,
{
    if p.pc < p.script.len() {
        let next = match p.script[p.pc] {
            Instr::Write { .. } => None,
            Instr::Update { .. } => None,
            Instr::UpdateIf { latch, mask, expect, .. } => {
                if !p.reading && p.latches.get_spec(latch) & mask != expect {
                    Some(p.past())
                } else {
                    None
                }
            },
            Instr::Await { mask, expect, .. } => {
                if p.reading && input & mask == expect {
                    Some(p.past())
                } else {
                    None
                }
            },
            Instr::Fetch { latch, .. } => {
                if p.reading {
                    Some(Progress { latches: p.latches.put_spec(latch, input), ..p.past() })
                } else {
                    None
                }
            },
        };
        if let Some(r) = next {
            step_follows_program(r, input);
            let (q, op) = r.step(input);
            assert(p.step(input) == (q, op));
            assert forall|i: int| p.pc <= i < q.pc implies p.went_past(i, input, q, op) by {
                if i > p.pc {
                    assert(r.went_past(i, input, q, op));
                }
            }
        }
    }
}

/// However many steps are made from a start, the state stays well-formed
/// and the program is kept.
pub proof fn run_keeps_program(p: Progress, inputs: Seq<u32>)
    requires
        p.wf(),
    ensures
        p.after(inputs).wf(),
        p.after(inputs).script == p.script,
        p.pc <= p.after(inputs).pc,
    decreases inputs.len(),
{
    if inputs.len() > 0 {
        run_keeps_program(p, inputs.drop_last());
        step_follows_program(p.after(inputs.drop_last()), inputs.last());
    }
}

/// A run that has come beyond the instruction at index `i` holds a step
/// that went past it, as [`Progress::went_past`] says: in a program that has
/// run to its end every store was made and every wait was met.
pub proof fn run_goes_past_each_instruction(p: Progress, inputs: Seq<u32>, i: int) -> (k: int)
    requires
        p.wf(),
        p.pc <= i < p.after(inputs).pc,
    ensures
        0 <= k < inputs.len(),
        ({
            let before = p.after(inputs.take(k));
            let (next, op) = before.step(inputs[k]);
            &&& next == p.after(inputs.take(k + 1))
            &&& before.wf()
            &&& before.script == p.script
            &&& before.pc <= i < next.pc
            &&& before.went_past(i, inputs[k], next, op)
        }),
    decreases inputs.len(),
{
    let shorter = inputs.drop_last();
    let before = p.after(shorter);
    run_keeps_program(p, shorter);
    if i < before.pc {
        let k = run_goes_past_each_instruction(p, shorter, i);
        assert(shorter.take(k) =~= inputs.take(k));
        assert(shorter.take(k + 1) =~= inputs.take(k + 1));
        assert(shorter[k] == inputs[k]);
        k
    } else {
        let k = inputs.len() - 1;
        step_follows_program(before, inputs.last());
        assert(inputs.take(k) =~= shorter);
        assert(inputs.take(k + 1) =~= inputs);
        k
    }
}

/// A run never goes back: after more steps the program has come at least as
/// far as after fewer.
pub proof fn run_keeps_order(p: Progress, shorter: Seq<u32>, longer: Seq<u32>)
    requires
        p.wf(),
        shorter.len() <= longer.len(),
        shorter == longer.take(shorter.len() as int),
    ensures
        p.after(shorter).pc <= p.after(longer).pc,
    decreases longer.len() - shorter.len(),
{
    if shorter.len() < longer.len() {
        let mid = longer.drop_last();
        assert(mid.take(shorter.len() as int) =~= shorter);
        run_keeps_order(p, shorter, mid);
        run_keeps_program(p, mid);
        step_follows_program(p.after(mid), longer.last());
    } else {
        assert(shorter =~= longer);
    }
}

/// Walks through a register program, one bus access at a time.
pub struct Sequencer {
    script: Vec<Instr>,
    pc: usize,
    reading: bool,
    latches: Latches,
}

impl View for Sequencer {
    type V = Progress;

    closed spec fn view(&self) -> Progress {
        Progress {
            script: self.script@,
            pc: self.pc as int,
            reading: self.reading,
            latches: self.latches,
        }
    }
}

impl Sequencer {
    /// A sequencer at the start of `script`.
    pub fn new(script: Vec<Instr>) -> (s: Sequencer)
        ensures
            s@ == Progress::start(script@),
    {
        Sequencer { script, pc: 0, reading: false, latches: Latches::new() }
    }

    /// Whether the program has run to its end.
    pub fn is_done(&self) -> (d: bool)
        ensures
            d == self@.done(),
    {
        self.pc >= self.script.len()
    }

    /// The words kept so far.
    pub fn latches(&self) -> (l: Latches)
        ensures
            l == self@.latches,
    {
        self.latches
    }

    /// Takes the word loaded for the step before, if that step was a `Read`,
    /// and says what to do next.
    pub fn step(&mut self, input: u32) -> (op: Step)
        ensures
            (final(self)@, op) == old(self)@.step(input),
    {
        while self.pc < self.script.len()
            invariant
                self@.step(input) == old(self)@.step(input),
            decreases self.script.len() - self.pc,
        {
            let instr = self.script[self.pc];
            match instr {
                Instr::Write { reg, value } => {
                    self.pc = self.pc + 1;
                    self.reading = false;
                    return Step::Write(reg, value);
                },
                Instr::Update { reg, clear, set } => {
                    if self.reading {
                        self.pc = self.pc + 1;
                        self.reading = false;
                        return Step::Write(reg, (input & !clear) | set);
                    } else {
                        self.reading = true;
                        return Step::Read(reg);
                    }
                },
                Instr::UpdateIf { latch, mask, expect, reg, clear, set } => {
                    if self.reading {
                        self.pc = self.pc + 1;
                        self.reading = false;
                        return Step::Write(reg, (input & !clear) | set);
                    } else if self.latches.get(latch) & mask == expect {
                        self.reading = true;
                        return Step::Read(reg);
                    } else {
                        self.pc = self.pc + 1;
                    }
                },
                Instr::Await { reg, mask, expect } => {
                    if self.reading && input & mask == expect {
                        self.pc = self.pc + 1;
                        self.reading = false;
                    } else {
                        self.reading = true;
                        return Step::Read(reg);
                    }
                },
                Instr::Fetch { reg, latch } => {
                    if self.reading {
                        self.latches.put(latch, input);
                        self.pc = self.pc + 1;
                        self.reading = false;
                    } else {
                        self.reading = true;
                        return Step::Read(reg);
                    }
                },
            }
        }
        Step::Done
    }
}

/// A value that is handed over once its register program has run.
pub struct Pending<T> {
    seq: Sequencer,
    value: T,
}

impl<T> Pending<T> {
    /// How far the program has come.
    pub closed spec fn progress(&self) -> Progress {
        self.seq@
    }

    /// The value that is held back.
    pub closed spec fn value(&self) -> T {
        self.value
    }

    /// Holds `value` back until `script` has run.
    pub fn new(script: Vec<Instr>, value: T) -> (p: Pending<T>)
        ensures
            p.progress() == Progress::start(script@),
            p.value() == value,
    {
        Pending { seq: Sequencer::new(script), value }
    }

    /// Whether the program has run to its end.
    pub fn is_done(&self) -> (d: bool)
        ensures
            d == self.progress().done(),
    {
        self.seq.is_done()
    }

    /// Takes the word loaded for the step before, if that step was a `Read`,
    /// and says what to do next.
    pub fn step(&mut self, input: u32) -> (op: Step)
        ensures
            (final(self).progress(), op) == old(self).progress().step(input),
            final(self).value() == old(self).value(),
    {
        self.seq.step(input)
    }

    /// Hands the value over if the program has run to its end, and gives
    /// `self` back unchanged if it has not.
    pub fn finish(self) -> (r: Result<T, Pending<T>>)
        ensures
            self.progress().done() ==> r == Ok::<T, Pending<T>>(self.value()),
            !self.progress().done() ==> r == Err::<T, Pending<T>>(self),
    {
        if self.seq.is_done() {
            Ok(self.value)
        } else {
            Err(self)
        }
    }
}

} // verus!
