//! Reset and clock control: factory trims, clock source, flash wait states.

use crate::bus::{
    run_goes_past_each_instruction, run_keeps_order, run_keeps_program, stores_to,
    stores_to_either, stores_to_one, updated, Instr, Pending, Progress, Register, Sequencer, Step,
};
use crate::time::Hertz;
use vstd::prelude::*;

verus! {

/// Frequency of the internal high-speed oscillator, in hertz.
pub const HSI: u32 = 48_000_000;

/// Frequency of the internal low-speed oscillator, in hertz.
pub const LSI: u32 = 60_000;

/// Highest frequency that the flash serves without a wait state, in hertz.
pub const FLASH_ZERO_WAIT_MAX: u32 = 16_000_000;

/// Highest frequency that the flash serves with one wait state, in hertz.
pub const FLASH_ONE_WAIT_MAX: u32 = 32_000_000;

/// Address of the factory word that trims the high-speed oscillator.
pub const HSI_TRIM_WORD: u32 = 0x1fff_f10c;

/// Address of the factory word that trims the band gap.
pub const BGP_TRIM_WORD: u32 = 0x1fff_f114;

/// Address of the factory word that trims the regulator.
pub const LDO_TRIM_WORD: u32 = 0x1fff_f118;

/// Address of the factory word that trims the low-power regulator.
pub const LPLDO_TRIM_WORD: u32 = 0x1fff_f11c;

/// First key that opens the trim registers.
pub const PMU_UNLOCK_1: u32 = 0x0000_1985;

/// Second key that opens the trim registers.
pub const PMU_UNLOCK_2: u32 = 0x0000_0429;

/// Key that closes the trim registers; it is stored twice.
pub const PMU_LOCK: u32 = 0x0000_ffff;

/// `RCC_CR`: internal high-speed oscillator on.
pub const CR_HSION: u32 = 0x0000_0001;

/// `RCC_CR`: internal high-speed oscillator ready.
pub const CR_HSIRDY: u32 = 0x0000_0002;

/// `RCC_CR`: calibration and trim of the internal high-speed oscillator.
pub const CR_HSI_TRIM_FIELDS: u32 = 0x0000_3ffc;

/// `RCC_CR`: external clock on.
pub const CR_EXTCLKON: u32 = 0x0001_0000;

/// `RCC_CR`: external clock ready.
pub const CR_EXTCLKRDY: u32 = 0x0002_0000;

/// `RCC_CFGR`: system clock switch.
pub const CFGR_SW: u32 = 0x0000_0003;

/// `RCC_CFGR`: system clock switch status.
pub const CFGR_SWS: u32 = 0x0000_000c;

/// `RCC_CFGR`: prescalers of the two buses.
pub const CFGR_PRESCALERS: u32 = 0x0000_07f0;

/// `RCC_CFGR`: the bits that start-up clears: clock switch, prescalers and
/// clock output.
pub const CFGR_RESET_CLEARS: u32 = 0x0700_47e3;

/// `RCC_CFGR3`: the bits that start-up clears: the clock sources of the
/// serial interfaces.
pub const CFGR3_RESET_CLEARS: u32 = 0x0000_0013;

/// `RCC_CFGR4`: prescaler of the flash interface clock.
pub const CFGR4_FLITFCLK_PRE: u32 = 0x0000_7800;

/// `RCC_CFGR4`: the flash interface prescaler that goes with the internal
/// high-speed oscillator.
pub const CFGR4_FLITFCLK_PRE_HSI: u32 = 0x0000_3800;

/// `RCC_CFGR4`: external clock input selection.
pub const CFGR4_EXTCLK_SEL: u32 = 0x0300_0000;

/// `RCC_CSR`: internal low-speed oscillator on.
pub const CSR_LSION: u32 = 0x0000_0001;

/// `RCC_CSR`: internal low-speed oscillator ready.
pub const CSR_LSIRDY: u32 = 0x0000_0002;

/// `RCC_APBENR1`: power interface clock on.
pub const APBENR1_PWREN: u32 = 0x1000_0000;

/// The oscillator that drives the system clock.
#[allow(clippy::upper_case_acronyms)]
#[derive(Clone, Copy, Debug, PartialEq, Eq, Structural)]
pub enum SysClkSource {
    /// Internal high-speed oscillator.
    HSI,
    /// Internal low-speed oscillator.
    LSI,
    /// External clock of the given frequency in hertz.
    HSE(u32),
}

impl SysClkSource {
    /// The frequency at which the source runs, in hertz.
    pub open spec fn nominal(self) -> u32 {
        match self {
            SysClkSource::HSE(freq) => freq,
            SysClkSource::LSI => LSI,
            SysClkSource::HSI => HSI,
        }
    }

    /// The value of the clock switch that selects the source.
    pub open spec fn switch_code(self) -> u32 {
        match self {
            SysClkSource::HSI => 0,
            SysClkSource::HSE(_) => 1,
            SysClkSource::LSI => 3,
        }
    }
}

/// The frequency at which the source runs, in hertz.
pub fn get_freq(c_src: &SysClkSource) -> (freq: u32)
    ensures
        freq == c_src.nominal(),
{
    match c_src {
        SysClkSource::HSE(freq) => *freq,
        SysClkSource::LSI => LSI,
        _ => HSI,
    }
}

/// The four factory words, as loaded from [`HSI_TRIM_WORD`],
/// [`BGP_TRIM_WORD`], [`LDO_TRIM_WORD`] and [`LPLDO_TRIM_WORD`].
#[derive(Clone, Copy, Debug, PartialEq, Eq, Structural)]
pub struct TrimWords {
    pub hsi: u32,
    pub bgp: u32,
    pub ldo: u32,
    pub lpldo: u32,
}

/// Whether the upper half of `word` is the bitwise complement of its lower
/// half.  Erased flash reads as all ones and fails this.
pub open spec fn complement_checked(word: u32) -> bool {
    (word & 0xffff) ^ (word >> 16) == 0xffff
}

/// Whether the upper half of `word` is the bitwise complement of its lower
/// half.
pub fn is_complement_checked(word: u32) -> (ok: bool)
    ensures
        ok == complement_checked(word),
{
    let low: u32 = word & 0xffff;
    let high: u32 = (word >> 16) & 0xffff;
    assert(high <= 0xffff && ((low == 0xffff - high) <==> complement_checked(word)))
        by (bit_vector)
        requires
            low == word & 0xffff,
            high == (word >> 16) & 0xffff,
    ;
    low == 0xffff - high
}

/// A word made of a 16-bit payload below its complement passes the check.
pub proof fn complemented_payload_is_accepted(payload: u16)
    ensures
        complement_checked((payload as u32) | ((!payload) as u32) << 16),
{
    assert(complement_checked((payload as u32) | ((!payload) as u32) << 16)) by (bit_vector);
}

/// A word passes the check only if it is its lower half below the
/// complement of that half; any other word is rejected.
pub proof fn accepted_word_is_complemented_payload(word: u32)
    ensures
        complement_checked(word) <==> word == (word & 0xffff) | ((!word) & 0xffff) << 16,
{
    assert(complement_checked(word) <==> word == (word & 0xffff) | ((!word) & 0xffff) << 16)
        by (bit_vector);
}

/// The bits that a valid oscillator word puts into `RCC_CR`: the trim from
/// its second byte and the calibration from the upper six bits of its first,
/// each where it stands in the word.
pub open spec fn hsi_trim_bits(word: u32) -> u32 {
    word & 0xfffc
}

/// The band-gap trim that a valid word carries: the lower five bits of its
/// second byte and of its first, each where it stands in the word.
pub open spec fn bgp_trim_bits(word: u32) -> u32 {
    word & 0x1f1f
}

/// `body` between the two keys that open the trim registers and the two that
/// close them again.
pub open spec fn unlocked(body: Seq<Instr>) -> Seq<Instr> {
    seq![
        Instr::Write { reg: Register::PmuKey, value: PMU_UNLOCK_1 },
        Instr::Write { reg: Register::PmuKey, value: PMU_UNLOCK_2 },
    ] + body + seq![
        Instr::Write { reg: Register::PmuKey, value: PMU_LOCK },
        Instr::Write { reg: Register::PmuKey, value: PMU_LOCK },
    ]
}

/// What the oscillator word makes the loader do: nothing if the word fails
/// its check, else replace the trim fields of `RCC_CR`.
pub open spec fn hsi_trim_script(word: u32) -> Seq<Instr> {
    if complement_checked(word) {
        seq![
            Instr::Update {
                reg: Register::RccCr,
                clear: CR_HSI_TRIM_FIELDS,
                set: hsi_trim_bits(word),
            },
        ]
    } else {
        Seq::empty()
    }
}

/// What the band-gap word makes the loader do.
pub open spec fn bgp_trim_script(word: u32) -> Seq<Instr> {
    if complement_checked(word) {
        unlocked(seq![Instr::Write { reg: Register::PmuBgp, value: bgp_trim_bits(word) }])
    } else {
        Seq::empty()
    }
}

/// What the regulator word makes the loader do.
pub open spec fn ldo_trim_script(word: u32) -> Seq<Instr> {
    if complement_checked(word) {
        unlocked(
            seq![
                Instr::Write { reg: Register::PmuLdoRun, value: word & 0xff },
                Instr::Write { reg: Register::PmuLdoLpr, value: (word >> 8) & 0xff },
            ],
        )
    } else {
        Seq::empty()
    }
}

/// What the low-power regulator word makes the loader do.
pub open spec fn lpldo_trim_script(word: u32) -> Seq<Instr> {
    if complement_checked(word) {
        unlocked(seq![Instr::Write { reg: Register::PmuLpldoLpr, value: (word >> 8) & 0xff }])
    } else {
        Seq::empty()
    }
}

/// What the three regulator words make the loader do: switch the power
/// interface clock on, then trim in the order band gap, regulator, low-power
/// regulator.
pub open spec fn pmu_trim_script(bgp: u32, ldo: u32, lpldo: u32) -> Seq<Instr> {
    seq![Instr::Update { reg: Register::RccApbenr1, clear: 0, set: APBENR1_PWREN }]
        + bgp_trim_script(bgp) + ldo_trim_script(ldo) + lpldo_trim_script(lpldo)
}

/// A word that passes its check is applied: the oscillator word with one
/// load-and-store of the control register, each regulator word with its
/// stores between the keys.
pub proof fn accepted_word_is_applied(word: u32)
    requires
        complement_checked(word),
    ensures
        hsi_trim_script(word).len() == 1,
        bgp_trim_script(word).len() == 5,
        bgp_trim_script(word)[2] == (Instr::Write {
            reg: Register::PmuBgp,
            value: bgp_trim_bits(word),
        }),
        ldo_trim_script(word).len() == 6,
        ldo_trim_script(word)[2] == (Instr::Write {
            reg: Register::PmuLdoRun,
            value: word & 0xff,
        }),
        ldo_trim_script(word)[3] == (Instr::Write {
            reg: Register::PmuLdoLpr,
            value: (word >> 8) & 0xff,
        }),
        lpldo_trim_script(word).len() == 5,
        lpldo_trim_script(word)[2] == (Instr::Write {
            reg: Register::PmuLpldoLpr,
            value: (word >> 8) & 0xff,
        }),
{
}

/// A word that fails its check makes the loader store nothing, whichever of
/// the four words it is: the trim registers keep what the hardware put
/// there.  Erased flash is such a word.
pub proof fn rejected_word_stores_nothing(word: u32)
    ensures
        !complement_checked(word) ==> hsi_trim_script(word) == Seq::<Instr>::empty(),
        !complement_checked(word) ==> bgp_trim_script(word) == Seq::<Instr>::empty(),
        !complement_checked(word) ==> ldo_trim_script(word) == Seq::<Instr>::empty(),
        !complement_checked(word) ==> lpldo_trim_script(word) == Seq::<Instr>::empty(),
        !complement_checked(0xffff_ffff),
        !complement_checked(0),
{
    assert(!complement_checked(0xffff_ffff)) by (bit_vector);
    assert(!complement_checked(0)) by (bit_vector);
}

/// What is put between the keys stores to the key register and to whatever
/// the body stores to.
pub proof fn unlocked_stores(body: Seq<Instr>, reg: Register)
    ensures
        stores_to(unlocked(body), reg) <==> reg == Register::PmuKey || stores_to(body, reg),
{
    let k1 = Instr::Write { reg: Register::PmuKey, value: PMU_UNLOCK_1 };
    let k2 = Instr::Write { reg: Register::PmuKey, value: PMU_UNLOCK_2 };
    let l = Instr::Write { reg: Register::PmuKey, value: PMU_LOCK };
    let open = seq![k1, k2];
    let close = seq![l, l];
    assert(open =~= seq![k1] + seq![k2]);
    assert(close =~= seq![l] + seq![l]);
    stores_to_one(k1, reg);
    stores_to_one(k2, reg);
    stores_to_one(l, reg);
    stores_to_either(seq![k1], seq![k2], reg);
    stores_to_either(seq![l], seq![l], reg);
    stores_to_either(open, body, reg);
    stores_to_either(open + body, close, reg);
}

/// The registers that the loader of the regulator trims stores to: the
/// clock enable register always, and for each word that passes its check
/// the key register and the targets of that word.
pub proof fn pmu_trim_stores(bgp: u32, ldo: u32, lpldo: u32, reg: Register)
    ensures
        stores_to(pmu_trim_script(bgp, ldo, lpldo), reg) <==> {
            ||| reg == Register::RccApbenr1
            ||| complement_checked(bgp) && (reg == Register::PmuKey || reg == Register::PmuBgp)
            ||| complement_checked(ldo) && (reg == Register::PmuKey || reg == Register::PmuLdoRun
                || reg == Register::PmuLdoLpr)
            ||| complement_checked(lpldo) && (reg == Register::PmuKey || reg
                == Register::PmuLpldoLpr)
        },
{
    let none = Seq::<Instr>::empty();
    assert(!stores_to(none, reg));
    let on = Instr::Update { reg: Register::RccApbenr1, clear: 0, set: APBENR1_PWREN };
    stores_to_one(on, reg);

    let b = bgp_trim_script(bgp);
    let b1 = Instr::Write { reg: Register::PmuBgp, value: bgp_trim_bits(bgp) };
    stores_to_one(b1, reg);
    unlocked_stores(seq![b1], reg);

    let l = ldo_trim_script(ldo);
    let l1 = Instr::Write { reg: Register::PmuLdoRun, value: ldo & 0xff };
    let l2 = Instr::Write { reg: Register::PmuLdoLpr, value: (ldo >> 8) & 0xff };
    assert(seq![l1, l2] =~= seq![l1] + seq![l2]);
    stores_to_one(l1, reg);
    stores_to_one(l2, reg);
    stores_to_either(seq![l1], seq![l2], reg);
    unlocked_stores(seq![l1, l2], reg);

    let p = lpldo_trim_script(lpldo);
    let p1 = Instr::Write { reg: Register::PmuLpldoLpr, value: (lpldo >> 8) & 0xff };
    stores_to_one(p1, reg);
    unlocked_stores(seq![p1], reg);

    stores_to_either(seq![on], b, reg);
    stores_to_either(seq![on] + b, l, reg);
    stores_to_either(seq![on] + b + l, p, reg);
}

/// Each regulator word is judged alone.  A trim register is stored to if
/// and only if its own word passes the check, whatever the other two words
/// are; the key register is stored to if and only if one of the three does.
pub proof fn trim_targets_follow_their_words(bgp: u32, ldo: u32, lpldo: u32)
    ensures
        stores_to(pmu_trim_script(bgp, ldo, lpldo), Register::PmuBgp) <==> complement_checked(bgp),
        stores_to(pmu_trim_script(bgp, ldo, lpldo), Register::PmuLdoRun) <==> complement_checked(
            ldo,
        ),
        stores_to(pmu_trim_script(bgp, ldo, lpldo), Register::PmuLdoLpr) <==> complement_checked(
            ldo,
        ),
        stores_to(pmu_trim_script(bgp, ldo, lpldo), Register::PmuLpldoLpr) <==> complement_checked(
            lpldo,
        ),
        stores_to(pmu_trim_script(bgp, ldo, lpldo), Register::PmuKey) <==> complement_checked(bgp)
            || complement_checked(ldo) || complement_checked(lpldo),
{
    pmu_trim_stores(bgp, ldo, lpldo, Register::PmuBgp);
    pmu_trim_stores(bgp, ldo, lpldo, Register::PmuLdoRun);
    pmu_trim_stores(bgp, ldo, lpldo, Register::PmuLdoLpr);
    pmu_trim_stores(bgp, ldo, lpldo, Register::PmuLpldoLpr);
    pmu_trim_stores(bgp, ldo, lpldo, Register::PmuKey);
}

/// The oscillator trim clears bits 2 to 13 of the control word and then
/// sets what the factory word holds in its bits 2 to 15, so that bits 14 and
/// 15 of the control word can be set too: what is stored is the loaded word
/// masked with `0xffffc003`, with the trim bits set.
pub proof fn hsi_trim_keeps_other_bits(loaded: u32, word: u32)
    ensures
        updated(loaded, CR_HSI_TRIM_FIELDS, hsi_trim_bits(word)) == (loaded & 0xffff_c003)
            | hsi_trim_bits(word),
{
    let bits = hsi_trim_bits(word);
    assert(updated(loaded, CR_HSI_TRIM_FIELDS, bits) == (loaded & 0xffff_c003) | bits)
        by (bit_vector);
}

/// The flash latency code for a core frequency of `freq` hertz.
pub open spec fn latency_code(freq: u32) -> u8 {
    if freq <= FLASH_ZERO_WAIT_MAX {
        0
    } else if freq <= FLASH_ONE_WAIT_MAX {
        1
    } else {
        2
    }
}

/// The store that sets the flash latency for `freq` hertz.
pub open spec fn flash_wait_script(freq: u32) -> Seq<Instr> {
    seq![Instr::Write { reg: Register::FlashAcr, value: latency_code(freq) as u32 }]
}

/// Switching the source on and waiting until it is ready.
pub open spec fn start_source_script(src: SysClkSource) -> Seq<Instr> {
    match src {
        SysClkSource::HSE(_) => seq![
            Instr::Update { reg: Register::RccCfgr4, clear: CFGR4_EXTCLK_SEL, set: 0 },
            Instr::Update { reg: Register::RccCr, clear: 0, set: CR_EXTCLKON },
            Instr::Await { reg: Register::RccCr, mask: CR_EXTCLKRDY, expect: CR_EXTCLKRDY },
        ],
        SysClkSource::HSI => seq![
            Instr::Update { reg: Register::RccCr, clear: 0, set: CR_HSION },
            Instr::Update {
                reg: Register::RccCfgr4,
                clear: CFGR4_FLITFCLK_PRE,
                set: CFGR4_FLITFCLK_PRE_HSI,
            },
            Instr::Await { reg: Register::RccCr, mask: CR_HSIRDY, expect: CR_HSIRDY },
        ],
        SysClkSource::LSI => seq![
            Instr::Update { reg: Register::RccCsr, clear: 0, set: CSR_LSION },
            Instr::Await { reg: Register::RccCsr, mask: CSR_LSIRDY, expect: CSR_LSIRDY },
        ],
    }
}

/// Setting both bus prescalers to one, switching the system clock to the
/// source and waiting until the switch status names it.
pub open spec fn switch_script(src: SysClkSource) -> Seq<Instr> {
    seq![
        Instr::Update { reg: Register::RccCfgr, clear: CFGR_PRESCALERS, set: 0 },
        Instr::Update { reg: Register::RccCfgr, clear: CFGR_SW, set: src.switch_code() },
        Instr::Await { reg: Register::RccCfgr, mask: CFGR_SWS, expect: src.switch_code() << 2 },
    ]
}

/// Bringing the system clock over to `src`: start the source, set the flash
/// latency for its frequency, then switch.
pub open spec fn enable_clock_script(src: SysClkSource) -> Seq<Instr> {
    start_source_script(src) + flash_wait_script(src.nominal()) + switch_script(src)
}

/// Everything that freezing the clocks does, in its order: oscillator trim,
/// regulator trims, clock switch, and last the reset of the vector offset.
pub open spec fn freeze_script(src: SysClkSource, trim: TrimWords) -> Seq<Instr> {
    hsi_trim_script(trim.hsi) + pmu_trim_script(trim.bgp, trim.ldo, trim.lpldo)
        + enable_clock_script(src) + seq![
        Instr::Write { reg: Register::FlashIntVecOffset, value: 0 },
    ]
}

/// However the trims come out, freezing ends with these five instructions:
/// the store of the flash latency for the frequency of the source, the two
/// load-and-stores that set the prescalers and the clock switch, the wait
/// for the switch status to name the source, and the store that resets the
/// vector offset.
pub proof fn freeze_script_end(src: SysClkSource, trim: TrimWords)
    ensures
        ({
            let s = freeze_script(src, trim);
            let n = s.len() as int;
            &&& n >= 8
            &&& s[n - 5] == (Instr::Write {
                reg: Register::FlashAcr,
                value: latency_code(src.nominal()) as u32,
            })
            &&& s[n - 4] == (Instr::Update {
                reg: Register::RccCfgr,
                clear: CFGR_PRESCALERS,
                set: 0,
            })
            &&& s[n - 3] == (Instr::Update {
                reg: Register::RccCfgr,
                clear: CFGR_SW,
                set: src.switch_code(),
            })
            &&& s[n - 2] == (Instr::Await {
                reg: Register::RccCfgr,
                mask: CFGR_SWS,
                expect: src.switch_code() << 2,
            })
            &&& s[n - 1] == (Instr::Write { reg: Register::FlashIntVecOffset, value: 0 })
        }),
{
    let head = hsi_trim_script(trim.hsi) + pmu_trim_script(trim.bgp, trim.ldo, trim.lpldo)
        + start_source_script(src);
    let tail = flash_wait_script(src.nominal()) + switch_script(src) + seq![
        Instr::Write { reg: Register::FlashIntVecOffset, value: 0 },
    ];
    assert(tail.len() == 5);
    assert(start_source_script(src).len() >= 2);
    assert(pmu_trim_script(trim.bgp, trim.ldo, trim.lpldo).len() >= 1);
    assert(freeze_script(src, trim) =~= head + tail);
}

/// In every run of a freeze that has come to its end there are three steps,
/// in this order: one that stored the flash latency for the frequency of the
/// source, one that stored the clock switch, and one that was handed a
/// configuration word whose switch status names the source.
pub proof fn finished_freeze_has_switched(
    src: SysClkSource,
    trim: TrimWords,
    inputs: Seq<u32>,
) -> (steps: (int, int, int))
    requires
        Progress::start(freeze_script(src, trim)).after(inputs).done(),
    ensures
        ({
            let start = Progress::start(freeze_script(src, trim));
            let (latency, switch, confirmed) = steps;
            &&& 0 <= latency < switch < confirmed < inputs.len()
            &&& start.after(inputs.take(latency)).step(inputs[latency]).1 == Step::Write(
                Register::FlashAcr,
                latency_code(src.nominal()) as u32,
            )
            &&& start.after(inputs.take(switch)).step(inputs[switch]).1 == Step::Write(
                Register::RccCfgr,
                updated(inputs[switch], CFGR_SW, src.switch_code()),
            )
            &&& start.after(inputs.take(confirmed)).reading
            &&& inputs[confirmed] & CFGR_SWS == src.switch_code() << 2
        }),
{
    let start = Progress::start(freeze_script(src, trim));
    let n = start.script.len() as int;
    freeze_script_end(src, trim);
    run_keeps_program(start, inputs);
    let latency = run_goes_past_each_instruction(start, inputs, n - 5);
    let switch = run_goes_past_each_instruction(start, inputs, n - 3);
    let confirmed = run_goes_past_each_instruction(start, inputs, n - 2);
    if switch <= latency {
        assert(inputs.take(latency + 1).take(switch + 1) =~= inputs.take(switch + 1));
        run_keeps_order(start, inputs.take(switch + 1), inputs.take(latency + 1));
    }
    if confirmed <= switch {
        assert(inputs.take(switch + 1).take(confirmed + 1) =~= inputs.take(confirmed + 1));
        run_keeps_order(start, inputs.take(confirmed + 1), inputs.take(switch + 1));
    }
    (latency, switch, confirmed)
}

/// What puts the clock tree back to its state after a reset.
pub open spec fn system_init_script() -> Seq<Instr> {
    seq![
        Instr::Update { reg: Register::RccCr, clear: 0, set: CR_HSION },
        Instr::Update { reg: Register::RccCfgr, clear: CFGR_RESET_CLEARS, set: 0 },
        Instr::Update { reg: Register::RccCfgr3, clear: CFGR3_RESET_CLEARS, set: 0 },
        Instr::Write { reg: Register::RccCir, value: 0 },
    ]
}

/// Puts the clock tree back to its state after a reset: internal high-speed
/// oscillator on and selected, no prescaler, no clock interrupt.  It is meant
/// to run before anything else.
pub fn system_init() -> (s: Sequencer)
    ensures
        s@ == Progress::start(system_init_script()),
{
    let mut script: Vec<Instr> = Vec::new();
    script.push(Instr::Update { reg: Register::RccCr, clear: 0, set: CR_HSION });
    script.push(Instr::Update { reg: Register::RccCfgr, clear: CFGR_RESET_CLEARS, set: 0 });
    script.push(Instr::Update { reg: Register::RccCfgr3, clear: CFGR3_RESET_CLEARS, set: 0 });
    script.push(Instr::Write { reg: Register::RccCir, value: 0 });
    assert(script@ =~= system_init_script());
    Sequencer::new(script)
}

/// Appends to `script` what the oscillator word asks for.
pub fn hsi_trimming_value_load(script: &mut Vec<Instr>, hsivalue: u32)
    ensures
        final(script)@ == old(script)@ + hsi_trim_script(hsivalue),
{
    if is_complement_checked(hsivalue) {
        let hsical: u32 = (hsivalue & 0xff) >> 2;
        let hsitrim: u32 = (hsivalue >> 8) & 0xff;
        assert((hsitrim << 8) | (hsical << 2) == hsi_trim_bits(hsivalue)) by (bit_vector)
            requires
                hsical == (hsivalue & 0xff) >> 2,
                hsitrim == (hsivalue >> 8) & 0xff,
        ;
        script.push(
            Instr::Update {
                reg: Register::RccCr,
                clear: CR_HSI_TRIM_FIELDS,
                set: (hsitrim << 8) | (hsical << 2),
            },
        );
    }
    assert(final(script)@ =~= old(script)@ + hsi_trim_script(hsivalue));
}

/// Appends to `script` the two stores that open the trim registers.
fn unlock(script: &mut Vec<Instr>)
    ensures
        final(script)@ == old(script)@ + seq![
            Instr::Write { reg: Register::PmuKey, value: PMU_UNLOCK_1 },
            Instr::Write { reg: Register::PmuKey, value: PMU_UNLOCK_2 },
        ],
{
    script.push(Instr::Write { reg: Register::PmuKey, value: PMU_UNLOCK_1 });
    script.push(Instr::Write { reg: Register::PmuKey, value: PMU_UNLOCK_2 });
    assert(final(script)@ =~= old(script)@ + seq![
        Instr::Write { reg: Register::PmuKey, value: PMU_UNLOCK_1 },
        Instr::Write { reg: Register::PmuKey, value: PMU_UNLOCK_2 },
    ]);
}

/// Appends to `script` the two stores that close the trim registers.
fn lock(script: &mut Vec<Instr>)
    ensures
        final(script)@ == old(script)@ + seq![
            Instr::Write { reg: Register::PmuKey, value: PMU_LOCK },
            Instr::Write { reg: Register::PmuKey, value: PMU_LOCK },
        ],
{
    script.push(Instr::Write { reg: Register::PmuKey, value: PMU_LOCK });
    script.push(Instr::Write { reg: Register::PmuKey, value: PMU_LOCK });
    assert(final(script)@ =~= old(script)@ + seq![
        Instr::Write { reg: Register::PmuKey, value: PMU_LOCK },
        Instr::Write { reg: Register::PmuKey, value: PMU_LOCK },
    ]);
}

/// Appends to `script` what the three regulator words ask for.
pub fn pmu_trimming_value_load(
    script: &mut Vec<Instr>,
    bgpvalue: u32,
    ldovalue: u32,
    lpldovalue: u32,
)
    ensures
        final(script)@ == old(script)@ + pmu_trim_script(bgpvalue, ldovalue, lpldovalue),
{
    let lbgp: u32 = (bgpvalue >> 8) & 0x1f;
    let mbgp: u32 = bgpvalue & 0x1f;
    let ldoruntemp: u32 = ldovalue & 0xff;
    let ldolprtemp: u32 = (ldovalue >> 8) & 0xff;
    let lpldolprtemp: u32 = (lpldovalue >> 8) & 0xff;

    script.push(Instr::Update { reg: Register::RccApbenr1, clear: 0, set: APBENR1_PWREN });
    let ghost s0 = script@;
    assert(s0 =~= old(script)@ + seq![
        Instr::Update { reg: Register::RccApbenr1, clear: 0, set: APBENR1_PWREN },
    ]);

    if is_complement_checked(bgpvalue) {
        assert((lbgp << 8) | mbgp == bgp_trim_bits(bgpvalue)) by (bit_vector)
            requires
                lbgp == (bgpvalue >> 8) & 0x1f,
                mbgp == bgpvalue & 0x1f,
        ;
        unlock(script);
        script.push(Instr::Write { reg: Register::PmuBgp, value: (lbgp << 8) | mbgp });
        lock(script);
    }
    let ghost s1 = script@;
    assert(s1 =~= s0 + bgp_trim_script(bgpvalue));

    if is_complement_checked(ldovalue) {
        unlock(script);
        script.push(Instr::Write { reg: Register::PmuLdoRun, value: ldoruntemp });
        script.push(Instr::Write { reg: Register::PmuLdoLpr, value: ldolprtemp });
        lock(script);
    }
    let ghost s2 = script@;
    assert(s2 =~= s1 + ldo_trim_script(ldovalue));

    if is_complement_checked(lpldovalue) {
        unlock(script);
        script.push(Instr::Write { reg: Register::PmuLpldoLpr, value: lpldolprtemp });
        lock(script);
    }
    assert(script@ =~= s2 + lpldo_trim_script(lpldovalue));
    assert(script@ =~= old(script)@ + pmu_trim_script(bgpvalue, ldovalue, lpldovalue));
}

/// The flash latency code for a core clock of `freq`: 0 up to 16 MHz, 1 up
/// to 32 MHz, 2 above.
pub fn flash_latency(freq: Hertz) -> (code: u8)
    ensures
        code == latency_code(freq.0),
        freq.0 <= 16_000_000 ==> code == 0,
        16_000_000 < freq.0 <= 32_000_000 ==> code == 1,
        32_000_000 < freq.0 ==> code == 2,
{
    if freq.0 <= FLASH_ZERO_WAIT_MAX {
        0
    } else if freq.0 <= FLASH_ONE_WAIT_MAX {
        1
    } else {
        2
    }
}

/// A faster clock never gets a lower latency code.
pub proof fn latency_is_monotonic(slow: u32, fast: u32)
    requires
        slow <= fast,
    ensures
        latency_code(slow) <= latency_code(fast),
{
}

/// Appends to `script` the store that sets the flash latency for `freq`.
pub fn set_flash_wait(script: &mut Vec<Instr>, freq: Hertz)
    ensures
        final(script)@ == old(script)@ + flash_wait_script(freq.0),
{
    let code: u8 = flash_latency(freq);
    script.push(Instr::Write { reg: Register::FlashAcr, value: code as u32 });
    assert(final(script)@ =~= old(script)@ + flash_wait_script(freq.0));
}

/// Appends to `script` what brings the system clock over to `c_src`.
pub fn enable_clock(script: &mut Vec<Instr>, c_src: &SysClkSource)
    ensures
        final(script)@ == old(script)@ + enable_clock_script(*c_src),
{
    let sw_to: u32;
    match c_src {
        SysClkSource::HSE(freq) => {
            script.push(Instr::Update { reg: Register::RccCfgr4, clear: CFGR4_EXTCLK_SEL, set: 0 });
            script.push(Instr::Update { reg: Register::RccCr, clear: 0, set: CR_EXTCLKON });
            script.push(
                Instr::Await { reg: Register::RccCr, mask: CR_EXTCLKRDY, expect: CR_EXTCLKRDY },
            );
            assert(script@ =~= old(script)@ + start_source_script(*c_src));
            set_flash_wait(script, Hertz(*freq));
            sw_to = 1;
        },
        SysClkSource::HSI => {
            script.push(Instr::Update { reg: Register::RccCr, clear: 0, set: CR_HSION });
            script.push(
                Instr::Update {
                    reg: Register::RccCfgr4,
                    clear: CFGR4_FLITFCLK_PRE,
                    set: CFGR4_FLITFCLK_PRE_HSI,
                },
            );
            script.push(Instr::Await { reg: Register::RccCr, mask: CR_HSIRDY, expect: CR_HSIRDY });
            assert(script@ =~= old(script)@ + start_source_script(*c_src));
            set_flash_wait(script, Hertz(HSI));
            sw_to = 0;
        },
        SysClkSource::LSI => {
            script.push(Instr::Update { reg: Register::RccCsr, clear: 0, set: CSR_LSION });
            script.push(
                Instr::Await { reg: Register::RccCsr, mask: CSR_LSIRDY, expect: CSR_LSIRDY },
            );
            assert(script@ =~= old(script)@ + start_source_script(*c_src));
            set_flash_wait(script, Hertz(LSI));
            sw_to = 3;
        },
    }
    let ghost s1 = script@;

    script.push(Instr::Update { reg: Register::RccCfgr, clear: CFGR_PRESCALERS, set: 0 });
    script.push(Instr::Update { reg: Register::RccCfgr, clear: CFGR_SW, set: sw_to });
    script.push(Instr::Await { reg: Register::RccCfgr, mask: CFGR_SWS, expect: sw_to << 2 });
    assert(script@ =~= s1 + switch_script(*c_src));
    assert(script@ =~= old(script)@ + enable_clock_script(*c_src));
}

/// Frozen clock frequencies.
///
/// Whoever holds this value knows that the clock configuration has been
/// carried out and can no longer change.
#[derive(Clone, Copy, Debug, PartialEq, Eq, Structural)]
pub struct Clocks {
    hclk: Hertz,
    pclk: Hertz,
    sysclk: Hertz,
}

impl Clocks {
    /// The clocks of a tree in which every bus runs at `freq` hertz.
    pub closed spec fn uniform(freq: u32) -> Clocks {
        Clocks { hclk: Hertz(freq), pclk: Hertz(freq), sysclk: Hertz(freq) }
    }

    /// The frequency of the AHB.
    pub closed spec fn hclk_spec(&self) -> Hertz {
        self.hclk
    }

    /// The frequency of the APB.
    pub closed spec fn pclk_spec(&self) -> Hertz {
        self.pclk
    }

    /// The system (core) frequency.
    pub closed spec fn sysclk_spec(&self) -> Hertz {
        self.sysclk
    }

    /// Returns the frequency of the AHB.
    #[verifier::when_used_as_spec(hclk_spec)]
    pub fn hclk(&self) -> (f: Hertz)
        ensures
            f == self.hclk_spec(),
    {
        self.hclk
    }

    /// Returns the frequency of the APB.
    #[verifier::when_used_as_spec(pclk_spec)]
    pub fn pclk(&self) -> (f: Hertz)
        ensures
            f == self.pclk_spec(),
    {
        self.pclk
    }

    /// Returns the system (core) frequency.
    #[verifier::when_used_as_spec(sysclk_spec)]
    pub fn sysclk(&self) -> (f: Hertz)
        ensures
            f == self.sysclk_spec(),
    {
        self.sysclk
    }
}

/// In a uniform clock tree every getter gives the one frequency, and two
/// trees with the same getters are the same.
pub proof fn uniform_clocks(freq: u32)
    ensures
        Clocks::uniform(freq).hclk() == Hertz(freq),
        Clocks::uniform(freq).pclk() == Hertz(freq),
        Clocks::uniform(freq).sysclk() == Hertz(freq),
{
}

/// Constrained RCC peripheral: the frozen clocks and the register block they
/// were set up on.
pub struct Rcc<R> {
    pub clocks: Clocks,
    pub regs: R,
}

/// Clock configuration that has not been carried out yet.
#[allow(clippy::upper_case_acronyms)]
pub struct CFGR<R> {
    clock_src: SysClkSource,
    rcc: R,
}

/// Extension trait that sets up the `RCC` peripheral.
pub trait RccExt: Sized {
    /// Starts a clock configuration on this register block, with the internal
    /// high-speed oscillator selected.
    fn configure(self) -> (cfgr: CFGR<Self>)
        ensures
            cfgr.source() == SysClkSource::HSI,
            cfgr.regs() == self,
    ;
}

impl<R> RccExt for R {
    fn configure(self) -> (cfgr: CFGR<R>) {
        CFGR { clock_src: SysClkSource::HSI, rcc: self }
    }
}

impl<R> CFGR<R> {
    /// The source that is selected at present.
    pub closed spec fn source(&self) -> SysClkSource {
        self.clock_src
    }

    /// The register block that the configuration is for.
    pub closed spec fn regs(&self) -> R {
        self.rcc
    }

    /// Selects the external clock, which runs at `freq`.
    pub fn hse(self, freq: Hertz) -> (cfgr: Self)
        ensures
            cfgr.source() == SysClkSource::HSE(freq.0),
            cfgr.regs() == self.regs(),
    {
        let mut cfgr = self;
        cfgr.clock_src = SysClkSource::HSE(freq.0);
        cfgr
    }

    /// Selects the internal high-speed oscillator.
    pub fn hsi(self) -> (cfgr: Self)
        ensures
            cfgr.source() == SysClkSource::HSI,
            cfgr.regs() == self.regs(),
    {
        let mut cfgr = self;
        cfgr.clock_src = SysClkSource::HSI;
        cfgr
    }

    /// Selects the internal low-speed oscillator.
    pub fn lsi(self) -> (cfgr: Self)
        ensures
            cfgr.source() == SysClkSource::LSI,
            cfgr.regs() == self.regs(),
    {
        let mut cfgr = self;
        cfgr.clock_src = SysClkSource::LSI;
        cfgr
    }

    /// Freezes the configuration.
    ///
    /// What comes back holds the clocks until the register program that sets
    /// them up has run: the factory trims taken from `trim`, the switch to
    /// the selected source, and the reset of the vector offset.  The three
    /// clocks are those of the selected source; no bus is divided.
    pub fn freeze(self, trim: TrimWords) -> (p: Pending<Rcc<R>>)
        ensures
            p.progress() == Progress::start(freeze_script(self.source(), trim)),
            p.value().clocks == Clocks::uniform(self.source().nominal()),
            p.value().clocks.hclk() == Hertz(self.source().nominal()),
            p.value().clocks.pclk() == Hertz(self.source().nominal()),
            p.value().clocks.sysclk() == Hertz(self.source().nominal()),
            p.value().regs == self.regs(),
    {
        let mut script: Vec<Instr> = Vec::new();
        hsi_trimming_value_load(&mut script, trim.hsi);
        pmu_trimming_value_load(&mut script, trim.bgp, trim.ldo, trim.lpldo);

        enable_clock(&mut script, &self.clock_src);

        script.push(Instr::Write { reg: Register::FlashIntVecOffset, value: 0 });
        assert(script@ =~= freeze_script(self.source(), trim));

        let freq = get_freq(&self.clock_src);

        Pending::new(
            script,
            Rcc {
                clocks: Clocks { hclk: Hertz(freq), pclk: Hertz(freq), sysclk: Hertz(freq) },
                regs: self.rcc,
            },
        )
    }
}

} // verus!
