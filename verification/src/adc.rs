//! Analog to digital converter: settings, conversions, internal reference.
//!
//! Every conversion is a full power cycle.  The converter is switched on, the
//! input is sampled, and the converter is switched off again before the
//! result is handed out.

use crate::bus::{
    run_goes_past_each_instruction, run_keeps_order, run_keeps_program, step_follows_program,
    updated, Instr, Latch, Pending, Progress, Register, Sequencer, Step,
};
use vstd::prelude::*;

verus! {

/// `ADC_ISR`: converter ready.
pub const ISR_ADRDY: u32 = 0x0000_0001;

/// `ADC_ISR`: end of conversion.
pub const ISR_EOC: u32 = 0x0000_0004;

/// `ADC_CR`: converter enabled; set to enable.
pub const CR_ADEN: u32 = 0x0000_0001;

/// `ADC_CR`: disable command.
pub const CR_ADDIS: u32 = 0x0000_0002;

/// `ADC_CR`: start command.
pub const CR_ADSTART: u32 = 0x0000_0004;

/// `ADC_CR`: stop command; reads as set until the converter has stopped.
pub const CR_ADSTP: u32 = 0x0000_0010;

/// `ADC_CFGR1`: left alignment.
pub const CFGR1_ALIGN: u32 = 0x0000_0020;

/// `ADC_CFGR2`: the word that selects the bus clock divided by four.
pub const CFGR2_CLOCK_DIV4: u32 = 0x0000_0002;

/// `ADC_SMPR`: sampling time.
pub const SMPR_SMP: u32 = 0x0000_0007;

/// `ADC_CCR`: internal voltage reference enabled.
pub const CCR_VREFEN: u32 = 0x0040_0000;

/// Nominal voltage of the internal reference, in millivolts.
pub const VREF_MILLIVOLTS: u32 = 1200;

/// Largest sample of a right-aligned conversion.
pub const FULL_SCALE: u32 = 4095;

/// Alignment of the data register.
#[derive(Clone, Copy, Debug, PartialEq, Eq, Structural)]
pub enum ALIGN {
    /// Right aligned.
    RIGHT,
    /// Left aligned.
    LEFT,
}

impl From<ALIGN> for bool {
    #[inline(always)]
    fn from(variant: ALIGN) -> (bit: bool) {
        match variant {
            ALIGN::RIGHT => false,
            ALIGN::LEFT => true,
        }
    }
}

impl vstd::std_specs::convert::FromSpecImpl<ALIGN> for bool {
    open spec fn obeys_from_spec() -> bool {
        true
    }

    open spec fn from_spec(variant: ALIGN) -> bool {
        variant == ALIGN::LEFT
    }
}

/// ADC sampling time.
///
/// Options for the sampling time, each is T + 0.5 ADC clock cycles.
#[derive(Clone, Copy, Debug, PartialEq, Eq, Structural)]
pub enum AdcSampleTime {
    /// 1.5 cycles sampling time
    T1,
    /// 7.5 cycles sampling time
    T7,
    /// 13.5 cycles sampling time
    T13,
    /// 28.5 cycles sampling time
    T28,
    /// 41.5 cycles sampling time
    T41,
    /// 55.5 cycles sampling time
    T55,
    /// 71.5 cycles sampling time
    T71,
    /// 239.5 cycles sampling time
    T239,
}

impl AdcSampleTime {
    /// The code that selects the sampling time in `ADC_SMPR`.
    pub open spec fn code(self) -> u8 {
        match self {
            AdcSampleTime::T1 => 0,
            AdcSampleTime::T7 => 1,
            AdcSampleTime::T13 => 2,
            AdcSampleTime::T28 => 3,
            AdcSampleTime::T41 => 4,
            AdcSampleTime::T55 => 5,
            AdcSampleTime::T71 => 6,
            AdcSampleTime::T239 => 7,
        }
    }

    /// Get the default sample time (currently 239.5 cycles)
    pub fn default() -> (t: Self)
        ensures
            t == AdcSampleTime::T239,
    {
        AdcSampleTime::T239
    }
}

impl From<AdcSampleTime> for u8 {
    fn from(val: AdcSampleTime) -> (code: u8) {
        match val {
            AdcSampleTime::T1 => 0,
            AdcSampleTime::T7 => 1,
            AdcSampleTime::T13 => 2,
            AdcSampleTime::T28 => 3,
            AdcSampleTime::T41 => 4,
            AdcSampleTime::T55 => 5,
            AdcSampleTime::T71 => 6,
            AdcSampleTime::T239 => 7,
        }
    }
}

impl vstd::std_specs::convert::FromSpecImpl<AdcSampleTime> for u8 {
    open spec fn obeys_from_spec() -> bool {
        true
    }

    open spec fn from_spec(val: AdcSampleTime) -> u8 {
        val.code()
    }
}

/// The eight sampling times have the eight codes 0 to 7, each its own.
pub proof fn sample_time_codes_are_distinct(a: AdcSampleTime, b: AdcSampleTime)
    ensures
        a.code() <= 7,
        a.code() == b.code() ==> a == b,
{
}

/// ADC Result Alignment
#[derive(Clone, Copy, Debug, PartialEq, Eq, Structural)]
pub enum AdcAlign {
    /// Left aligned results (most significant bits)
    ///
    /// Results in all precisions returning a value in the range 0-65535.
    /// Depending on the precision the result will step by larger or smaller
    /// amounts.
    Left,
    /// Right aligned results (least significant bits)
    ///
    /// Results in all precisions returning values from 0-(2^bits-1) in
    /// steps of 1.
    Right,
}

impl AdcAlign {
    /// The largest sample that a conversion with this alignment can give.
    pub open spec fn full_scale(self) -> u16 {
        match self {
            AdcAlign::Left => 65535,
            AdcAlign::Right => 4095,
        }
    }

    /// What the alignment puts into `ADC_CFGR1`.
    pub open spec fn bits(self) -> u32 {
        match self {
            AdcAlign::Left => CFGR1_ALIGN,
            AdcAlign::Right => 0,
        }
    }

    /// Get the default alignment (currently right aligned)
    pub fn default() -> (a: Self)
        ensures
            a == AdcAlign::Right,
    {
        AdcAlign::Right
    }
}

impl From<AdcAlign> for bool {
    fn from(val: AdcAlign) -> (bit: bool) {
        match val {
            AdcAlign::Left => true,
            AdcAlign::Right => false,
        }
    }
}

impl vstd::std_specs::convert::FromSpecImpl<AdcAlign> for bool {
    open spec fn obeys_from_spec() -> bool {
        true
    }

    open spec fn from_spec(val: AdcAlign) -> bool {
        val == AdcAlign::Left
    }
}

/// The analog inputs of the converter.
#[derive(Clone, Copy, Debug, PartialEq, Eq, Structural)]
pub enum Channel {
    /// Pin PD5.
    PD5,
    /// Pin PD6.
    PD6,
    /// Pin PC4.
    PC4,
    /// Pin PD3.
    PD3,
    /// Pin PD2.
    PD2,
    /// Pin PD1.
    PD1,
    /// Pin PC6.
    PC6,
    /// Internal supply monitor.
    Vpmu,
    /// Internal voltage reference.
    VRef,
}

impl Channel {
    /// The number under which the converter knows the input.
    pub open spec fn index(self) -> u8 {
        match self {
            Channel::PD5 => 0,
            Channel::PD6 => 1,
            Channel::PC4 => 2,
            Channel::PD3 => 3,
            Channel::PD2 => 4,
            Channel::PD1 => 5,
            Channel::PC6 => 6,
            Channel::Vpmu => 7,
            Channel::VRef => 8,
        }
    }

    /// Get the specific ID that identifies this channel, for example `0_u8`
    /// for the first ADC channel.
    pub fn channel(self) -> (id: u8)
        ensures
            id == self.index(),
            id <= 8,
    {
        match self {
            Channel::PD5 => 0,
            Channel::PD6 => 1,
            Channel::PC4 => 2,
            Channel::PD3 => 3,
            Channel::PD2 => 4,
            Channel::PD1 => 5,
            Channel::PC6 => 6,
            Channel::Vpmu => 7,
            Channel::VRef => 8,
        }
    }
}

/// Every input has a number from 0 to 8, and no two inputs share one.
pub proof fn channels_are_distinct(a: Channel, b: Channel)
    ensures
        a.index() <= 8,
        a.index() == b.index() ==> a == b,
{
}

/// Internal supply monitor (ADC channel 7)
#[derive(Debug)]
pub struct Vpmu;

impl Vpmu {
    /// Init a new Vpmu
    pub fn new() -> Self {
        Vpmu
    }

    /// The input that the monitor is read on.
    pub fn input(&self) -> (c: Channel)
        ensures
            c == Channel::Vpmu,
    {
        Channel::Vpmu
    }
}

/// Internal voltage reference (ADC channel 8)
#[derive(Debug)]
pub struct VRef;

/// A stored ADC config, can be restored by using the `Adc::restore_cfg` method
#[derive(Copy, Clone, Debug, PartialEq, Eq, Structural)]
pub struct StoredConfig(AdcSampleTime, AdcAlign);

impl StoredConfig {
    /// The sampling time that was stored.
    pub closed spec fn sample_time(self) -> AdcSampleTime {
        self.0
    }

    /// The alignment that was stored.
    pub closed spec fn align(self) -> AdcAlign {
        self.1
    }

    /// The configuration of a new converter: slowest sampling, right aligned.
    pub closed spec fn defaults() -> StoredConfig {
        StoredConfig(AdcSampleTime::T239, AdcAlign::Right)
    }

    /// The configuration with the given sampling time and alignment.
    pub closed spec fn of(sample_time: AdcSampleTime, align: AdcAlign) -> StoredConfig {
        StoredConfig(sample_time, align)
    }
}

/// A stored configuration is its sampling time and its alignment, no more.
pub proof fn stored_config_is_its_parts(cfg: StoredConfig, t: AdcSampleTime, a: AdcAlign)
    ensures
        cfg == StoredConfig::of(cfg.sample_time(), cfg.align()),
        StoredConfig::of(t, a).sample_time() == t,
        StoredConfig::of(t, a).align() == a,
        StoredConfig::defaults() == StoredConfig::of(AdcSampleTime::T239, AdcAlign::Right),
{
}

/// Switching the converter on: a stale ready flag is cleared, the converter
/// is enabled, and the ready flag is waited for.
pub open spec fn power_up_script() -> Seq<Instr> {
    seq![
        Instr::Fetch { reg: Register::AdcIsr, latch: Latch::Status },
        Instr::UpdateIf {
            latch: Latch::Status,
            mask: ISR_ADRDY,
            expect: ISR_ADRDY,
            reg: Register::AdcIsr,
            clear: ISR_ADRDY,
            set: 0,
        },
        Instr::Update { reg: Register::AdcCr, clear: 0, set: CR_ADEN },
        Instr::Await { reg: Register::AdcIsr, mask: ISR_ADRDY, expect: ISR_ADRDY },
    ]
}

/// Switching the converter off: a running conversion is stopped and the stop
/// waited for, then the converter is disabled and that waited for.
pub open spec fn power_down_script() -> Seq<Instr> {
    seq![
        Instr::Update { reg: Register::AdcCr, clear: 0, set: CR_ADSTP },
        Instr::Await { reg: Register::AdcCr, mask: CR_ADSTP, expect: 0 },
        Instr::Update { reg: Register::AdcCr, clear: 0, set: CR_ADDIS },
        Instr::Await { reg: Register::AdcCr, mask: CR_ADEN, expect: 0 },
    ]
}

/// One conversion on a converter that is on: select the channel alone, set
/// sampling time and alignment, start, wait for the end of the conversion,
/// and keep the data word in `latch`.
pub open spec fn convert_script(chan: u8, cfg: StoredConfig, latch: Latch) -> Seq<Instr> {
    seq![
        Instr::Write { reg: Register::AdcChselr, value: 1u32 << chan },
        Instr::Update {
            reg: Register::AdcSmpr,
            clear: SMPR_SMP,
            set: cfg.sample_time().code() as u32,
        },
        Instr::Update { reg: Register::AdcCfgr1, clear: CFGR1_ALIGN, set: cfg.align().bits() },
        Instr::Update { reg: Register::AdcCr, clear: 0, set: CR_ADSTART },
        Instr::Await { reg: Register::AdcIsr, mask: ISR_EOC, expect: ISR_EOC },
        Instr::Fetch { reg: Register::AdcDr, latch },
    ]
}

/// A full reading: power up, convert, power down.
pub open spec fn read_script(chan: u8, cfg: StoredConfig, latch: Latch) -> Seq<Instr> {
    power_up_script() + convert_script(chan, cfg, latch) + power_down_script()
}

/// Reading the internal reference with the default configuration.  The
/// reference is enabled for the reading, and disabled after it, only where
/// it was found disabled.
pub open spec fn vdda_script() -> Seq<Instr> {
    seq![
        Instr::Fetch { reg: Register::AdcCcr, latch: Latch::Control },
        Instr::UpdateIf {
            latch: Latch::Control,
            mask: CCR_VREFEN,
            expect: 0,
            reg: Register::AdcCcr,
            clear: 0,
            set: CCR_VREFEN,
        },
    ] + read_script(Channel::VRef.index(), StoredConfig::defaults(), Latch::Reference) + seq![
        Instr::UpdateIf {
            latch: Latch::Control,
            mask: CCR_VREFEN,
            expect: 0,
            reg: Register::AdcCcr,
            clear: CCR_VREFEN,
            set: 0,
        },
    ]
}

/// The instruction with which every reading ends: the wait for the converter
/// to be off.
pub open spec fn off_wait() -> Instr {
    Instr::Await { reg: Register::AdcCr, mask: CR_ADEN, expect: 0 }
}

/// A reading is fourteen instructions long.  It begins with the power-up and
/// ends with the power-down, whose last instruction is the wait for the
/// converter to be off.
pub proof fn read_script_shape(chan: u8, cfg: StoredConfig, latch: Latch)
    ensures
        read_script(chan, cfg, latch).len() == 14,
        read_script(chan, cfg, latch).subrange(0, 4) == power_up_script(),
        read_script(chan, cfg, latch).subrange(4, 10) == convert_script(chan, cfg, latch),
        read_script(chan, cfg, latch).subrange(10, 14) == power_down_script(),
        read_script(chan, cfg, latch)[10] == (Instr::Update {
            reg: Register::AdcCr,
            clear: 0,
            set: CR_ADSTP,
        }),
        read_script(chan, cfg, latch)[12] == (Instr::Update {
            reg: Register::AdcCr,
            clear: 0,
            set: CR_ADDIS,
        }),
        read_script(chan, cfg, latch)[13] == off_wait(),
{
    let s = read_script(chan, cfg, latch);
    assert(s.subrange(0, 4) =~= power_up_script());
    assert(s.subrange(4, 10) =~= convert_script(chan, cfg, latch));
    assert(s.subrange(10, 14) =~= power_down_script());
}

/// Reading the supply voltage takes seventeen instructions: two that look at
/// the reference, the fourteen of a reading, and one that puts the reference
/// back.  The last but one is the wait for the converter to be off.
pub proof fn vdda_script_shape()
    ensures
        vdda_script().len() == 17,
        vdda_script().subrange(2, 16) == read_script(
            Channel::VRef.index(),
            StoredConfig::defaults(),
            Latch::Reference,
        ),
        vdda_script()[15] == off_wait(),
{
    let r = read_script(Channel::VRef.index(), StoredConfig::defaults(), Latch::Reference);
    read_script_shape(Channel::VRef.index(), StoredConfig::defaults(), Latch::Reference);
    let v = vdda_script();
    assert(v.len() == 17);
    assert(v.subrange(2, 16) =~= r);
    assert(v[15] == v.subrange(2, 16)[13]);
}

/// No step goes past a wait for the converter to be off, wherever it stands
/// in a program, but the step that is handed a control word with the enable
/// bit clear in answer to its load.
pub proof fn off_wait_is_kept(p: Progress, input: u32, k: int)
    requires
        0 <= p.pc <= k < p.script.len(),
        p.script[k] == off_wait(),
        p.step(input).0.pc > k,
    ensures
        p.pc == k,
        p.reading,
        input & CR_ADEN == 0,
{
    step_follows_program(p, input);
    let (q, op) = p.step(input);
    assert(p.went_past(k, input, q, op));
}

/// A reading is over only when the converter is off: the step that says
/// `Done` is the one that loaded the control word for the last instruction
/// and found the enable bit clear.  Before it, the stop command, the wait for
/// the stop, and the disable command have been gone through in this order.
pub proof fn reading_ends_powered_down(
    p: Progress,
    input: u32,
    chan: u8,
    cfg: StoredConfig,
    latch: Latch,
)
    requires
        p.script == read_script(chan, cfg, latch),
        0 <= p.pc < p.script.len(),
        p.step(input).1 == Step::Done,
    ensures
        p.pc == 13,
        p.reading,
        input & CR_ADEN == 0,
        p.script.subrange(10, 14) == power_down_script(),
{
    read_script_shape(chan, cfg, latch);
    step_follows_program(p, input);
    off_wait_is_kept(p, input, 13);
}

/// In every run of a reading that has come to its end there are three steps,
/// in this order: one that stored the stop command to the control register,
/// one that stored the disable command, and one that was handed a control
/// word with the enable bit clear and ended the program.
pub proof fn finished_reading_has_powered_down(
    chan: u8,
    cfg: StoredConfig,
    latch: Latch,
    inputs: Seq<u32>,
) -> (steps: (int, int, int))
    requires
        Progress::start(read_script(chan, cfg, latch)).after(inputs).done(),
    ensures
        ({
            let start = Progress::start(read_script(chan, cfg, latch));
            let (stop, disable, off) = steps;
            &&& 0 <= stop < disable < off < inputs.len()
            &&& start.after(inputs.take(stop)).step(inputs[stop]).1 == Step::Write(
                Register::AdcCr,
                updated(inputs[stop], 0, CR_ADSTP),
            )
            &&& start.after(inputs.take(disable)).step(inputs[disable]).1 == Step::Write(
                Register::AdcCr,
                updated(inputs[disable], 0, CR_ADDIS),
            )
            &&& start.after(inputs.take(off)).reading
            &&& start.after(inputs.take(off)).pc == 13
            &&& inputs[off] & CR_ADEN == 0
            &&& start.after(inputs.take(off + 1)).done()
        }),
{
    let start = Progress::start(read_script(chan, cfg, latch));
    read_script_shape(chan, cfg, latch);
    run_keeps_program(start, inputs);
    let stop = run_goes_past_each_instruction(start, inputs, 10);
    let disable = run_goes_past_each_instruction(start, inputs, 12);
    let off = run_goes_past_each_instruction(start, inputs, 13);
    if disable <= stop {
        assert(inputs.take(stop + 1).take(disable + 1) =~= inputs.take(disable + 1));
        run_keeps_order(start, inputs.take(disable + 1), inputs.take(stop + 1));
    }
    if off <= disable {
        assert(inputs.take(disable + 1).take(off + 1) =~= inputs.take(off + 1));
        run_keeps_order(start, inputs.take(off + 1), inputs.take(disable + 1));
    }
    run_keeps_program(start, inputs.take(off + 1));
    (stop, disable, off)
}

/// Reading the supply voltage is over only after the converter has been seen
/// off: a step that starts before the end of the power-down and says `Done`
/// is the one that found the enable bit clear.
pub proof fn voltage_reading_ends_powered_down(p: Progress, input: u32)
    requires
        p.script == vdda_script(),
        0 <= p.pc <= 15,
        p.step(input).1 == Step::Done,
    ensures
        p.pc == 15,
        p.reading,
        input & CR_ADEN == 0,
{
    vdda_script_shape();
    step_follows_program(p, input);
    off_wait_is_kept(p, input, 15);
}

/// The sample that a data word stands for: its lower sixteen bits, shifted
/// left by eight within sixteen bits where the alignment is left.
pub open spec fn sample_of(data: u32, align: AdcAlign) -> u16 {
    match align {
        AdcAlign::Left => (data as u16) << 8,
        AdcAlign::Right => data as u16,
    }
}

/// The supply voltage in millivolts that a sample of the internal reference
/// stands for, cut to sixteen bits.
pub open spec fn vdda_of(reference: u16) -> u16
    recommends
        reference != 0,
{
    ((FULL_SCALE * VREF_MILLIVOLTS) as int / reference as int % 0x1_0000) as u16
}

/// The voltage in millivolts of a sample, given the supply voltage and the
/// largest sample, cut to sixteen bits.
pub open spec fn millivolts_of(sample: u16, vdda: u16, full_scale: u16) -> u16
    recommends
        full_scale != 0,
{
    ((sample as int * vdda as int) / full_scale as int % 0x1_0000) as u16
}

/// What a conversion measures.
#[derive(Clone, Copy, Debug, PartialEq, Eq, Structural)]
pub enum Quantity {
    /// The raw sample of an input.
    Sample,
    /// The supply voltage in millivolts.
    Vdda,
    /// The voltage of an input in millivolts.
    AbsMv,
}

/// How far a conversion has come.
///
/// A conversion runs one program, or two.  The second is the reading of an
/// input whose voltage is asked for: it follows the reading of the supply
/// voltage only where that has given a sample of the internal reference
/// that is not zero, for there is no voltage without one.
pub struct Reading {
    /// How far the program that is being carried out has come.
    pub progress: Progress,
    /// The program that is to follow, where there is one.
    pub next: Option<Seq<Instr>>,
    /// The reference word that the program before has kept; zero where there
    /// was none.
    pub reference: u32,
}

impl Reading {
    /// The start of a conversion that runs `script` alone.
    pub open spec fn of(script: Seq<Instr>) -> Reading {
        Reading { progress: Progress::start(script), next: None, reference: 0 }
    }

    /// The start of a conversion that runs `first` and, given a reference
    /// sample, `second`.
    pub open spec fn of_two(first: Seq<Instr>, second: Seq<Instr>) -> Reading {
        Reading { progress: Progress::start(first), next: Some(second), reference: 0 }
    }

    /// Whether the program at hand has run to its end with a reference
    /// sample of zero.
    pub open spec fn lacks_reference(self) -> bool {
        self.progress.latches.reference as u16 == 0
    }

    /// Whether the conversion is over: the program at hand has run to its
    /// end, and none follows or the reference sample is zero.
    pub open spec fn done(self) -> bool {
        self.progress.done() && (self.next is None || self.lacks_reference())
    }

    /// One step: the state after it and what the caller has to do.
    ///
    /// It is a step of the program at hand.  Where that says `Done`, a
    /// program follows and the reference sample is not zero, the reference
    /// word is kept and the step is the first of the program that follows.
    pub open spec fn step(self, input: u32) -> (Reading, Step) {
        let (q, op) = self.progress.step(input);
        match self.next {
            Some(second) if op == Step::Done && q.latches.reference as u16 != 0 => {
                let (r, first) = Progress::start(second).step(input);
                (Reading { progress: r, next: None, reference: q.latches.reference }, first)
            },
            _ => (Reading { progress: q, ..self }, op),
        }
    }

    /// The state after one step for each word of `inputs`, in their order.
    pub open spec fn after(self, inputs: Seq<u32>) -> Reading
        decreases inputs.len(),
    {
        if inputs.len() == 0 {
            self
        } else {
            self.after(inputs.drop_last()).step(inputs.last()).0
        }
    }

    /// The result of a conversion that is over.  There is none where the
    /// supply voltage is needed and the sample of the internal reference is
    /// zero.
    pub open spec fn result(self, quantity: Quantity, align: AdcAlign) -> Option<u16> {
        match quantity {
            Quantity::Sample => Some(sample_of(self.progress.latches.sample, align)),
            Quantity::Vdda => {
                let reference = self.progress.latches.reference as u16;
                if reference == 0 {
                    None
                } else {
                    Some(vdda_of(reference))
                }
            },
            Quantity::AbsMv => {
                let reference = self.reference as u16;
                if self.next is Some || reference == 0 {
                    None
                } else {
                    Some(
                        millivolts_of(
                            sample_of(self.progress.latches.sample, align),
                            vdda_of(reference),
                            align.full_scale(),
                        ),
                    )
                }
            },
        }
    }
}

/// A conversion of one program steps as its program does.  A conversion of
/// two goes over to the second in the step in which the first says `Done`
/// with a reference sample that is not zero, and in no other; with a sample
/// of zero it is over when the first is, and the second is never begun.
pub proof fn conversion_follows_its_programs(r: Reading, input: u32)
    requires
        r.progress.wf(),
    ensures
        ({
            let (q, op) = r.progress.step(input);
            let (after, said) = r.step(input);
            let over = op == Step::Done;
            let lacking = q.latches.reference as u16 == 0;
            let onward = Reading { progress: q, ..r };
            &&& after.progress.wf()
            &&& (r.next is None ==> after == onward && said == op)
            &&& (r.next is Some && !over ==> after == onward && said == op)
            &&& (r.next is Some && over && lacking ==> after == onward && said == op
                && after.done())
            &&& (r.next is Some && over && !lacking ==> after.next is None && after.reference
                == q.latches.reference && (after.progress, said) == Progress::start(
                r.next->0,
            ).step(input))
            &&& (said == Step::Done ==> after.done())
        }),
{
    step_follows_program(r.progress, input);
    if let Some(second) = r.next {
        step_follows_program(Progress::start(second), input);
    }
}

/// The sample that a data word stands for under the given alignment.
pub fn sample_from_data(data: u32, align: AdcAlign) -> (sample: u16)
    ensures
        sample == sample_of(data, align),
{
    let res: u16 = #[verifier::truncate]
    (data as u16);
    match align {
        AdcAlign::Left => res << 8,
        AdcAlign::Right => res,
    }
}

/// The supply voltage in millivolts for a sample of the internal reference:
/// `4095 * 1200 / reference`, cut to sixteen bits.  There is no supply
/// voltage for a sample of zero.
pub fn vdda_from_reference(reference: u16) -> (vdda: u16)
    requires
        reference != 0,
    ensures
        vdda == vdda_of(reference),
        reference >= 75 ==> vdda == 4_914_000int / reference as int,
{
    let quotient: u32 = FULL_SCALE * VREF_MILLIVOLTS / (reference as u32);
    assert(reference >= 75 ==> quotient < 0x1_0000) by (nonlinear_arith)
        requires
            reference != 0,
            quotient == 4_914_000int / reference as int,
    ;
    (quotient % 0x1_0000) as u16
}

/// The voltage of a sample in millivolts: `sample * vdda / full_scale`, cut
/// to sixteen bits.
pub fn millivolts(sample: u16, vdda: u16, full_scale: u16) -> (mv: u16)
    requires
        full_scale != 0,
    ensures
        mv == millivolts_of(sample, vdda, full_scale),
{
    assert(sample as int * vdda as int <= 0xffff * 0xffff) by (nonlinear_arith)
        requires
            sample <= 0xffff,
            vdda <= 0xffff,
    ;
    let product: u32 = (sample as u32) * (vdda as u32);
    let quotient: u32 = product / (full_scale as u32);
    (quotient % 0x1_0000) as u16
}

/// As long as the second program has not been begun, a conversion runs as
/// its first program does; a conversion of one program always does.
pub proof fn conversion_runs_its_first_program(r: Reading, inputs: Seq<u32>)
    requires
        r.next is None || r.after(inputs).next is Some,
    ensures
        r.after(inputs) == (Reading { progress: r.progress.after(inputs), ..r }),
    decreases inputs.len(),
{
    if inputs.len() > 0 {
        let shorter = inputs.drop_last();
        conversion_runs_its_first_program(r, shorter);
    }
}

/// A conversion of two programs that has begun the second has run them one
/// after the other.  There is a step with which the first program said
/// `Done`, having kept a reference sample that is not zero; the conversion
/// has kept that reference word, and from that step on it has run the second
/// program from its start.
pub proof fn conversion_runs_its_programs_in_turn(r: Reading, inputs: Seq<u32>) -> (k: int)
    requires
        r.next is Some,
        r.after(inputs).next is None,
    ensures
        0 <= k < inputs.len(),
        r.after(inputs.take(k)) == (Reading { progress: r.progress.after(inputs.take(k)), ..r }),
        r.progress.after(inputs.take(k)).step(inputs[k]).1 == Step::Done,
        r.progress.after(inputs.take(k + 1)).latches.reference as u16 != 0,
        r.after(inputs).reference == r.progress.after(inputs.take(k + 1)).latches.reference,
        r.after(inputs).progress == Progress::start(r.next->0).after(
            inputs.subrange(k, inputs.len() as int),
        ),
    decreases inputs.len(),
{
    let n = inputs.len() as int;
    let shorter = inputs.drop_last();
    let second = Progress::start(r.next->0);
    if r.after(shorter).next is None {
        let k = conversion_runs_its_programs_in_turn(r, shorter);
        assert(shorter.take(k) =~= inputs.take(k));
        assert(shorter.take(k + 1) =~= inputs.take(k + 1));
        assert(shorter[k] == inputs[k]);
        assert(inputs.subrange(k, n).drop_last() =~= shorter.subrange(k, n - 1));
        assert(inputs.subrange(k, n).last() == inputs.last());
        k
    } else {
        let k = n - 1;
        conversion_runs_its_first_program(r, shorter);
        assert(inputs.take(k) =~= shorter);
        assert(inputs.take(k + 1) =~= inputs);
        let tail = inputs.subrange(k, n);
        assert(tail.len() == 1 && tail.last() == inputs.last());
        assert(tail.drop_last().len() == 0);
        assert(second.after(tail.drop_last()) == second);
        assert(second.after(tail) == second.step(inputs.last()).0);
        k
    }
}

/// A conversion under way.  Its result is there once it is over.
pub struct Conversion {
    seq: Sequencer,
    next: Option<Vec<Instr>>,
    reference: u32,
    quantity: Quantity,
    align: AdcAlign,
}

impl Conversion {
    /// How far the conversion has come.
    pub closed spec fn state(&self) -> Reading {
        Reading {
            progress: self.seq@,
            next: match self.next {
                Some(script) => Some(script@),
                None => None,
            },
            reference: self.reference,
        }
    }

    /// What the conversion measures.
    pub closed spec fn quantity(&self) -> Quantity {
        self.quantity
    }

    /// The alignment that the sample is taken with.
    pub closed spec fn align(&self) -> AdcAlign {
        self.align
    }

    /// Whether the conversion is over.
    pub fn is_done(&self) -> (d: bool)
        ensures
            d == self.state().done(),
    {
        if !self.seq.is_done() {
            return false;
        }
        let reference: u16 = #[verifier::truncate]
        (self.seq.latches().reference as u16);
        self.next.is_none() || reference == 0
    }

    /// Takes the word loaded for the step before, if that step was a `Read`,
    /// and says what to do next.
    pub fn step(&mut self, input: u32) -> (op: Step)
        ensures
            (final(self).state(), op) == old(self).state().step(input),
            final(self).quantity() == old(self).quantity(),
            final(self).align() == old(self).align(),
    {
        let op = self.seq.step(input);
        let kept = self.seq.latches().reference;
        let reference: u16 = #[verifier::truncate]
        (kept as u16);
        if op == Step::Done && reference != 0 {
            match self.next.take() {
                Some(second) => {
                    self.reference = kept;
                    self.seq = Sequencer::new(second);
                    return self.seq.step(input);
                },
                None => {},
            }
        }
        op
    }

    /// The result, once the conversion is over.
    pub fn result(&self) -> (r: Option<u16>)
        ensures
            !self.state().done() ==> r is None,
            self.state().done() ==> r == self.state().result(self.quantity(), self.align()),
    {
        if !self.is_done() {
            return None;
        }
        let latches = self.seq.latches();
        match self.quantity {
            Quantity::Sample => Some(sample_from_data(latches.sample, self.align)),
            Quantity::Vdda => {
                let reference: u16 = #[verifier::truncate]
                (latches.reference as u16);
                if reference == 0 {
                    None
                } else {
                    Some(vdda_from_reference(reference))
                }
            },
            Quantity::AbsMv => {
                let reference: u16 = #[verifier::truncate]
                (self.reference as u16);
                if self.next.is_some() || reference == 0 {
                    None
                } else {
                    let vdda = vdda_from_reference(reference);
                    let v = sample_from_data(latches.sample, self.align);
                    let max_samp: u16 = match self.align {
                        AdcAlign::Left => 65535,
                        AdcAlign::Right => 4095,
                    };
                    Some(millivolts(v, vdda, max_samp))
                }
            },
        }
    }
}

/// Appends to `script` what switches the converter on.
fn push_power_up(script: &mut Vec<Instr>)
    ensures
        final(script)@ == old(script)@ + power_up_script(),
{
    script.push(Instr::Fetch { reg: Register::AdcIsr, latch: Latch::Status });
    script.push(
        Instr::UpdateIf {
            latch: Latch::Status,
            mask: ISR_ADRDY,
            expect: ISR_ADRDY,
            reg: Register::AdcIsr,
            clear: ISR_ADRDY,
            set: 0,
        },
    );
    script.push(Instr::Update { reg: Register::AdcCr, clear: 0, set: CR_ADEN });
    script.push(Instr::Await { reg: Register::AdcIsr, mask: ISR_ADRDY, expect: ISR_ADRDY });
    assert(final(script)@ =~= old(script)@ + power_up_script());
}

/// Appends to `script` what switches the converter off.
fn push_power_down(script: &mut Vec<Instr>)
    ensures
        final(script)@ == old(script)@ + power_down_script(),
{
    script.push(Instr::Update { reg: Register::AdcCr, clear: 0, set: CR_ADSTP });
    script.push(Instr::Await { reg: Register::AdcCr, mask: CR_ADSTP, expect: 0 });
    script.push(Instr::Update { reg: Register::AdcCr, clear: 0, set: CR_ADDIS });
    script.push(Instr::Await { reg: Register::AdcCr, mask: CR_ADEN, expect: 0 });
    assert(final(script)@ =~= old(script)@ + power_down_script());
}

/// Analog to Digital converter interface
pub struct Adc<RB> {
    rb: RB,
    sample_time: AdcSampleTime,
    align: AdcAlign,
}

impl<RB> Adc<RB> {
    /// The register block that the converter owns.
    pub closed spec fn regs(&self) -> RB {
        self.rb
    }

    /// The configuration that the next conversion is made with.
    pub closed spec fn config(&self) -> StoredConfig {
        StoredConfig(self.sample_time, self.align)
    }

    /// This converter with the configuration `cfg`.
    pub closed spec fn with_config(self, cfg: StoredConfig) -> Self {
        Adc { rb: self.rb, sample_time: cfg.0, align: cfg.1 }
    }

    /// Init a new Adc
    ///
    /// Takes the register block for its own and sets all configurable
    /// parameters to defaults.  The converter is handed over once the store
    /// that selects its clock, the bus clock divided by four, has been made.
    pub fn new(adc: RB) -> (p: Pending<Adc<RB>>)
        ensures
            p.progress() == Progress::start(
                seq![Instr::Write { reg: Register::AdcCfgr2, value: CFGR2_CLOCK_DIV4 }],
            ),
            p.value().regs() == adc,
            p.value().config() == StoredConfig::defaults(),
            p.value().config().sample_time() == AdcSampleTime::T239,
            p.value().config().align() == AdcAlign::Right,
    {
        let s = Self { rb: adc, sample_time: AdcSampleTime::default(), align: AdcAlign::default() };
        let mut script: Vec<Instr> = Vec::new();
        Self::select_clock(&mut script);
        Pending::new(script, s)
    }

    /// Saves a copy of the current ADC config
    pub fn save_cfg(&mut self) -> (cfg: StoredConfig)
        ensures
            cfg == old(self).config(),
            *final(self) == *old(self),
    {
        StoredConfig(self.sample_time, self.align)
    }

    /// Restores a stored config
    pub fn restore_cfg(&mut self, cfg: StoredConfig)
        ensures
            *final(self) == old(self).with_config(cfg),
            final(self).config() == cfg,
            final(self).regs() == old(self).regs(),
    {
        self.sample_time = cfg.0;
        self.align = cfg.1;
    }

    /// Resets the ADC config to default, returning the existing config as
    /// a stored config.
    pub fn default_cfg(&mut self) -> (cfg: StoredConfig)
        ensures
            cfg == old(self).config(),
            *final(self) == old(self).with_config(StoredConfig::defaults()),
            final(self).config() == StoredConfig::defaults(),
            final(self).config().sample_time() == AdcSampleTime::T239,
            final(self).config().align() == AdcAlign::Right,
            final(self).regs() == old(self).regs(),
    {
        let cfg = self.save_cfg();
        self.sample_time = AdcSampleTime::default();
        self.align = AdcAlign::default();
        cfg
    }

    /// Set the Adc sampling time
    ///
    /// Options can be found in [AdcSampleTime](crate::adc::AdcSampleTime).
    pub fn set_sample_time(&mut self, t_samp: AdcSampleTime)
        ensures
            final(self).config() == StoredConfig::of(t_samp, old(self).config().align()),
            final(self).config().sample_time() == t_samp,
            final(self).config().align() == old(self).config().align(),
            final(self).regs() == old(self).regs(),
    {
        self.sample_time = t_samp;
    }

    /// Set the Adc result alignment
    ///
    /// Options can be found in [AdcAlign](crate::adc::AdcAlign).
    pub fn set_align(&mut self, align: AdcAlign)
        ensures
            final(self).config() == StoredConfig::of(old(self).config().sample_time(), align),
            final(self).config().sample_time() == old(self).config().sample_time(),
            final(self).config().align() == align,
            final(self).regs() == old(self).regs(),
    {
        self.align = align;
    }

    /// Returns the largest possible sample value for the current settings
    pub fn max_sample(&self) -> (max: u16)
        ensures
            max == self.config().align().full_scale(),
            self.config().align() == AdcAlign::Left ==> max == 65535,
            self.config().align() == AdcAlign::Right ==> max == 4095,
    {
        match self.align {
            AdcAlign::Left => u16::MAX,
            AdcAlign::Right => 4095,
        }
    }

    /// Read the value of a channel and converts the result to milli-volts
    ///
    /// The supply voltage is measured first, on the internal reference with
    /// the default configuration.  The channel is read after it, with the
    /// configuration of this converter, which is left as it was; it is not
    /// read where the sample of the reference is zero.
    pub fn read_abs_mv(&mut self, pin: Channel) -> (c: Conversion)
        ensures
            c.state() == Reading::of_two(
                vdda_script(),
                read_script(pin.index(), old(self).config(), Latch::Sample),
            ),
            c.quantity() == Quantity::AbsMv,
            c.align() == old(self).config().align(),
            *final(self) == *old(self),
    {
        let mut first: Vec<Instr> = Vec::new();
        VRef::push_read_vdda(self, &mut first);
        assert(first@ =~= vdda_script());
        let mut second: Vec<Instr> = Vec::new();
        self.push_read(&mut second, pin.channel(), Latch::Sample);
        assert(second@ =~= read_script(pin.index(), old(self).config(), Latch::Sample));
        Conversion {
            seq: Sequencer::new(first),
            next: Some(second),
            reference: 0,
            quantity: Quantity::AbsMv,
            align: self.align,
        }
    }

    /// Appends to `script` the store that selects the converter's clock.
    fn select_clock(script: &mut Vec<Instr>)
        ensures
            final(script)@ == old(script)@.push(
                Instr::Write { reg: Register::AdcCfgr2, value: CFGR2_CLOCK_DIV4 },
            ),
    {
        script.push(Instr::Write { reg: Register::AdcCfgr2, value: CFGR2_CLOCK_DIV4 });
    }

    /// Switches the converter on and waits until it is ready.
    pub fn power_up(&mut self) -> (s: Sequencer)
        ensures
            s@ == Progress::start(power_up_script()),
            *final(self) == *old(self),
    {
        let mut script: Vec<Instr> = Vec::new();
        push_power_up(&mut script);
        assert(script@ =~= power_up_script());
        Sequencer::new(script)
    }

    /// Stops the converter, switches it off and waits until it is off.
    pub fn power_down(&mut self) -> (s: Sequencer)
        ensures
            s@ == Progress::start(power_down_script()),
            *final(self) == *old(self),
    {
        let mut script: Vec<Instr> = Vec::new();
        push_power_down(&mut script);
        assert(script@ =~= power_down_script());
        Sequencer::new(script)
    }

    /// Appends to `script` one conversion of channel `chan` with the present
    /// configuration, whose data word goes to `latch`.
    fn convert(&self, script: &mut Vec<Instr>, chan: u8, latch: Latch)
        requires
            chan < 32,
        ensures
            final(script)@ == old(script)@ + convert_script(chan, self.config(), latch),
    {
        script.push(Instr::Write { reg: Register::AdcChselr, value: 1_u32 << chan });
        let smp: u8 = self.sample_time.into();
        script.push(Instr::Update { reg: Register::AdcSmpr, clear: SMPR_SMP, set: smp as u32 });
        let left: bool = self.align.into();
        script.push(
            Instr::Update {
                reg: Register::AdcCfgr1,
                clear: CFGR1_ALIGN,
                set: if left {
                    CFGR1_ALIGN
                } else {
                    0
                },
            },
        );
        script.push(Instr::Update { reg: Register::AdcCr, clear: 0, set: CR_ADSTART });
        script.push(Instr::Await { reg: Register::AdcIsr, mask: ISR_EOC, expect: ISR_EOC });
        script.push(Instr::Fetch { reg: Register::AdcDr, latch });
        assert(final(script)@ =~= old(script)@ + convert_script(chan, self.config(), latch));
    }

    /// Appends to `script` a full reading of channel `chan`.
    fn push_read(&self, script: &mut Vec<Instr>, chan: u8, latch: Latch)
        requires
            chan < 32,
        ensures
            final(script)@ == old(script)@ + read_script(chan, self.config(), latch),
    {
        push_power_up(script);
        self.convert(script, chan, latch);
        push_power_down(script);
        assert(final(script)@ =~= old(script)@ + read_script(chan, self.config(), latch));
    }

    /// Request that the ADC begin a conversion on the specified pin
    ///
    /// The converter is switched on before the conversion and off after it.
    pub fn read(&mut self, pin: Channel) -> (c: Conversion)
        ensures
            c.state() == Reading::of(read_script(pin.index(), old(self).config(), Latch::Sample)),
            c.quantity() == Quantity::Sample,
            c.align() == old(self).config().align(),
            *final(self) == *old(self),
    {
        let mut script: Vec<Instr> = Vec::new();
        self.push_read(&mut script, pin.channel(), Latch::Sample);
        assert(script@ =~= read_script(pin.index(), old(self).config(), Latch::Sample));
        Conversion {
            seq: Sequencer::new(script),
            next: None,
            reference: 0,
            quantity: Quantity::Sample,
            align: self.align,
        }
    }
}

/// The largest sample goes by the alignment alone: whatever the sampling
/// time, it is 4095 right aligned and 65535 left aligned.
pub proof fn full_scale_ignores_sample_time(t: AdcSampleTime, u: AdcSampleTime)
    ensures
        StoredConfig::of(t, AdcAlign::Right).align().full_scale() == 4095,
        StoredConfig::of(t, AdcAlign::Left).align().full_scale() == 65535,
        forall|a: AdcAlign|
            StoredConfig::of(t, a).align().full_scale() == StoredConfig::of(
                u,
                a,
            ).align().full_scale(),
{
}

/// Restoring a saved configuration brings the converter back to what it was
/// when the configuration was saved, whatever was set in between.
pub proof fn restore_undoes_changes<RB>(at_save: Adc<RB>, later: Adc<RB>, cfg: StoredConfig)
    requires
        later.regs() == at_save.regs(),
    ensures
        later.with_config(at_save.config()) == at_save,
        later.with_config(cfg).config() == cfg,
        later.with_config(cfg).regs() == later.regs(),
{
}

impl VRef {
    /// Init a new VRef
    pub fn new() -> Self {
        VRef
    }

    /// The input that the reference is read on.
    pub fn input(&self) -> (c: Channel)
        ensures
            c == Channel::VRef,
    {
        Channel::VRef
    }

    /// Enable the internal voltage reference, remember to disable when not in use.
    pub fn enable<RB>(&mut self, adc: &mut Adc<RB>) -> (s: Sequencer)
        ensures
            s@ == Progress::start(
                seq![Instr::Update { reg: Register::AdcCcr, clear: 0, set: CCR_VREFEN }],
            ),
            *final(adc) == *old(adc),
    {
        let mut script: Vec<Instr> = Vec::new();
        script.push(Instr::Update { reg: Register::AdcCcr, clear: 0, set: CCR_VREFEN });
        Sequencer::new(script)
    }

    /// Disable the internal reference voltage.
    pub fn disable<RB>(&mut self, adc: &mut Adc<RB>) -> (s: Sequencer)
        ensures
            s@ == Progress::start(
                seq![Instr::Update { reg: Register::AdcCcr, clear: CCR_VREFEN, set: 0 }],
            ),
            *final(adc) == *old(adc),
    {
        let mut script: Vec<Instr> = Vec::new();
        script.push(Instr::Update { reg: Register::AdcCcr, clear: CCR_VREFEN, set: 0 });
        Sequencer::new(script)
    }

    /// Returns if the internal voltage reference is enabled, given the word
    /// that `ADC_CCR` holds.
    pub fn is_enabled<RB>(&self, adc: &Adc<RB>, ccr: u32) -> (enabled: bool)
        ensures
            enabled == (ccr & CCR_VREFEN != 0),
    {
        ccr & CCR_VREFEN != 0
    }

    /// Appends to `script` the reading of the internal reference.
    fn push_read_vdda<RB>(adc: &mut Adc<RB>, script: &mut Vec<Instr>)
        ensures
            final(script)@ == old(script)@ + vdda_script(),
            *final(adc) == *old(adc),
    {
        let vref = Self::new();

        let prev_cfg = adc.default_cfg();

        script.push(Instr::Fetch { reg: Register::AdcCcr, latch: Latch::Control });
        script.push(
            Instr::UpdateIf {
                latch: Latch::Control,
                mask: CCR_VREFEN,
                expect: 0,
                reg: Register::AdcCcr,
                clear: 0,
                set: CCR_VREFEN,
            },
        );
        adc.push_read(script, vref.input().channel(), Latch::Reference);
        script.push(
            Instr::UpdateIf {
                latch: Latch::Control,
                mask: CCR_VREFEN,
                expect: 0,
                reg: Register::AdcCcr,
                clear: CCR_VREFEN,
                set: 0,
            },
        );

        adc.restore_cfg(prev_cfg);
        assert(final(script)@ =~= old(script)@ + vdda_script());
    }

    /// Reads the value of VDDA in milli-volts
    ///
    /// The reference is sampled with the default configuration; the
    /// configuration of the converter is left as it was.
    pub fn read_vdda<RB>(adc: &mut Adc<RB>) -> (c: Conversion)
        ensures
            c.state() == Reading::of(vdda_script()),
            c.quantity() == Quantity::Vdda,
            c.align() == AdcAlign::Right,
            *final(adc) == *old(adc),
    {
        let mut script: Vec<Instr> = Vec::new();
        Self::push_read_vdda(adc, &mut script);
        assert(script@ =~= vdda_script());
        Conversion {
            seq: Sequencer::new(script),
            next: None,
            reference: 0,
            quantity: Quantity::Vdda,
            align: AdcAlign::Right,
        }
    }
}

} // verus!
