//! The control side of the Waves oscillator: parameter values, the events
//! scheduled for the audio thread, and which wave of which bank each
//! oscillator plays.
use vstd::prelude::*;
use crate::unit::{RuntimeDesc, K_UNIT_ERR_NONE, K_UNIT_TARGET_NTS1_MKII_OSC, desc_status, check_runtime_desc};

verus! {

/// Parameter index: wave shape (mix of wave A and wave B).
pub const K_SHAPE: u8 = 0;
/// Parameter index: sub oscillator mix.
pub const K_SUB_MIX: u8 = 1;
/// Parameter index: wave A.
pub const K_WAVE_A: u8 = 2;
/// Parameter index: wave B.
pub const K_WAVE_B: u8 = 3;
/// Parameter index: sub wave.
pub const K_SUB_WAVE: u8 = 4;
/// Parameter index: ring modulation mix.
pub const K_RING_MIX: u8 = 5;
/// Parameter index: bit crush amount.
pub const K_BIT_CRUSH: u8 = 6;
/// Parameter index: oscillator drift.
pub const K_DRIFT: u8 = 7;

/// No event pending.
pub const K_FLAGS_NONE: u32 = 0;
/// Wave A must be selected anew.
pub const K_FLAG_WAVE_A: u32 = 2;
/// Wave B must be selected anew.
pub const K_FLAG_WAVE_B: u32 = 4;
/// The sub wave must be selected anew.
pub const K_FLAG_SUB_WAVE: u32 = 8;
/// The ring mix changed.
pub const K_FLAG_RING_MIX: u32 = 16;
/// The bit crush settings must be computed anew.
pub const K_FLAG_BIT_CRUSH: u32 = 32;
/// The oscillator phases must be reset.
pub const K_FLAG_RESET: u32 = 64;

/// Waves in bank A.
pub const WAVES_A_BANK_CNT: u8 = 16;
/// Waves in bank B.
pub const WAVES_B_BANK_CNT: u8 = 16;
/// Waves in bank C.
pub const WAVES_C_BANK_CNT: u8 = 14;
/// Waves in bank D.
pub const WAVES_D_BANK_CNT: u8 = 13;
/// Waves in bank E.
pub const WAVES_E_BANK_CNT: u8 = 15;
/// Waves in bank F.
pub const WAVES_F_BANK_CNT: u8 = 16;

/// Choices of the wave A parameter (banks A, B and C in a row).
pub const K_WAVES_A_CNT: i16 = 46;
/// Choices of the wave B parameter (banks D, E and F in a row).
pub const K_WAVES_B_CNT: i16 = 44;
/// Choices of the sub wave parameter (bank A).
pub const SUB_WAVE_CNT: i16 = 16;

/// One of the six wave banks of the runtime.
#[derive(Clone, Copy, Debug, PartialEq, Eq, Structural)]
pub enum WaveBank {
    A,
    B,
    C,
    D,
    E,
    F,
}

/// A wave: a bank and a position in it.
#[derive(Clone, Copy, Debug, PartialEq, Eq, Structural)]
pub struct WaveRef {
    pub bank: WaveBank,
    pub index: u8,
}

/// Number of waves in a bank.
pub open spec fn bank_len(b: WaveBank) -> int {
    match b {
        WaveBank::A => WAVES_A_BANK_CNT as int,
        WaveBank::B => WAVES_B_BANK_CNT as int,
        WaveBank::C => WAVES_C_BANK_CNT as int,
        WaveBank::D => WAVES_D_BANK_CNT as int,
        WaveBank::E => WAVES_E_BANK_CNT as int,
        WaveBank::F => WAVES_F_BANK_CNT as int,
    }
}

/// The wave names an existing wave of its bank.
pub open spec fn wave_in_bounds(w: WaveRef) -> bool {
    w.index < bank_len(w.bank)
}

/// Wave A choice `idx` counts through banks A, B, then C.
pub open spec fn select_wave_a(idx: u8) -> WaveRef {
    if idx < WAVES_A_BANK_CNT {
        WaveRef { bank: WaveBank::A, index: idx }
    } else if idx < WAVES_A_BANK_CNT + WAVES_B_BANK_CNT {
        WaveRef { bank: WaveBank::B, index: (idx - WAVES_A_BANK_CNT) as u8 }
    } else {
        WaveRef { bank: WaveBank::C, index: (idx - WAVES_A_BANK_CNT - WAVES_B_BANK_CNT) as u8 }
    }
}

/// Wave B choice `idx` counts through banks D, E, then F.
pub open spec fn select_wave_b(idx: u8) -> WaveRef {
    if idx < WAVES_D_BANK_CNT {
        WaveRef { bank: WaveBank::D, index: idx }
    } else if idx < WAVES_D_BANK_CNT + WAVES_E_BANK_CNT {
        WaveRef { bank: WaveBank::E, index: (idx - WAVES_D_BANK_CNT) as u8 }
    } else {
        WaveRef { bank: WaveBank::F, index: (idx - WAVES_D_BANK_CNT - WAVES_E_BANK_CNT) as u8 }
    }
}

/// The sub wave choice `idx` is a wave of bank A.
pub open spec fn select_sub_wave(idx: u8) -> WaveRef {
    WaveRef { bank: WaveBank::A, index: idx }
}

/// Largest value the unit header allows for parameter `index` (the smallest
/// is 0 for every parameter); 0 for an index past the declared parameters.
pub open spec fn param_max(index: u8) -> int {
    if index == K_SHAPE || index == K_SUB_MIX {
        1023
    } else if index == K_WAVE_A {
        K_WAVES_A_CNT - 1
    } else if index == K_WAVE_B {
        K_WAVES_B_CNT - 1
    } else if index == K_SUB_WAVE {
        SUB_WAVE_CNT - 1
    } else if index == K_RING_MIX || index == K_BIT_CRUSH || index == K_DRIFT {
        1000
    } else {
        0
    }
}

/// Whether `index` is one of the declared parameters.
pub open spec fn is_declared_param(index: u8) -> bool {
    index <= K_DRIFT
}

/// Whether `index` is one of the enum (wave choice) parameters.
pub open spec fn is_enum_param(index: u8) -> bool {
    index == K_WAVE_A || index == K_WAVE_B || index == K_SUB_WAVE
}

/// The raw value of an enum parameter cut to its low 16 bits, read as signed
/// (what `value as i16` gives).
pub open spec fn low16(value: i32) -> int {
    let m = value as int % 0x10000;
    if m >= 0x8000 { m - 0x10000 } else { m }
}

/// `low16` is the value of the cast `value as i16`.
pub proof fn lemma_low16_is_cast(value: i32)
    ensures
        low16(value) == (#[verifier::truncate] (value as i16)) as int,
{
    let u: u32 = #[verifier::truncate] (value as u32);
    assert((#[verifier::truncate] (value as i16)) as int == (if (u & 0xffff) >= 0x8000 {
        (u & 0xffff) as int - 0x10000
    } else {
        (u & 0xffff) as int
    })) by (bit_vector)
        requires
            u == #[verifier::truncate] (value as u32),
    ;
    assert((u & 0xffff) as int == value as int % 0x10000) by (bit_vector)
        requires
            u == #[verifier::truncate] (value as u32),
    ;
}

/// A raw value for a declared parameter, bound-checked against the range the
/// unit header declares for it; other indices keep the value.
///
/// An enum parameter takes the low 16 bits of the value, read as signed, and
/// reduces them modulo its number of choices. A negative reading has no choice
/// it could stand for (its signed remainder would wrap to a byte past every
/// bank and the wave lookup would read past the bank), so it takes the
/// minimum, 0.
///
/// A continuous parameter is clamped: values below the minimum take the
/// minimum, values above the maximum take the maximum.
pub open spec fn bounded_value(index: u8, value: i32) -> int {
    if !is_declared_param(index) {
        value as int
    } else if is_enum_param(index) {
        if low16(value) < 0 {
            0
        } else if index == K_WAVE_A {
            low16(value) % 46
        } else if index == K_WAVE_B {
            low16(value) % 44
        } else {
            low16(value) % 16
        }
    } else if value < 0 {
        0
    } else if value > param_max(index) {
        param_max(index)
    } else {
        value as int
    }
}

/// Bound-checks the raw `value` of parameter `index` against the range the
/// unit header declares for it, as `bounded_value` says.
pub fn bound_param_value(index: u8, value: i32) -> (r: i32)
    ensures
        r as int == bounded_value(index, value),
{
    if index > K_DRIFT {
        return value;
    }
    if index == K_WAVE_A || index == K_WAVE_B || index == K_SUB_WAVE {
        let count: i16 = if index == K_WAVE_A {
            K_WAVES_A_CNT
        } else if index == K_WAVE_B {
            K_WAVES_B_CNT
        } else {
            SUB_WAVE_CNT
        };
        let r: i32 = value % 0x10000;
        let m: i32 = if r < 0 { r + 0x10000 } else { r };
        if m >= 0x8000 {
            return 0;
        }
        return m % (count as i32);
    }
    let max: i32 = if index == K_SHAPE || index == K_SUB_MIX {
        1023
    } else {
        1000
    };
    if value < 0 {
        0
    } else if value > max {
        max
    } else {
        value
    }
}

/// The choice stored for an enum parameter set to the raw `value`.
pub open spec fn choice_of(index: u8, value: i32) -> u8 {
    bounded_value(index, value) as u8
}

/// Whether `bit` is set in `flags`.
pub open spec fn has_flag(flags: u32, bit: u32) -> bool {
    flags & bit != 0
}

/// The enum parameters of the Waves oscillator.
#[derive(Clone, Copy, Debug, PartialEq, Eq, Structural)]
pub struct Params {
    pub wave_a: u8,
    pub wave_b: u8,
    pub sub_wave: u8,
    pub padding: u8,
}

/// Parameters at their defaults: every choice is the first one.
pub open spec fn default_params() -> Params {
    Params { wave_a: 0, wave_b: 0, sub_wave: 0, padding: 0 }
}

impl Params {
    /// Parameters at their defaults.
    pub fn new() -> (r: Self)
        ensures
            r == default_params(),
    {
        Params { wave_a: 0, wave_b: 0, sub_wave: 0, padding: 0 }
    }

    /// Puts every parameter back to its default.
    pub fn reset(&mut self)
        ensures
            *final(self) == default_params(),
    {
        self.wave_a = 0;
        self.wave_b = 0;
        self.sub_wave = 0;
        self.padding = 0;
    }
}

/// The waves the oscillator plays.
struct State {
    wave_a: WaveRef,
    wave_b: WaveRef,
    sub_wave: WaveRef,
}

impl State {
    fn new() -> (r: Self)
        ensures
            r.wave_a == (WaveRef { bank: WaveBank::A, index: 0 }),
            r.wave_b == (WaveRef { bank: WaveBank::D, index: 0 }),
            r.sub_wave == (WaveRef { bank: WaveBank::A, index: 0 }),
    {
        State {
            wave_a: WaveRef { bank: WaveBank::A, index: 0 },
            wave_b: WaveRef { bank: WaveBank::D, index: 0 },
            sub_wave: WaveRef { bank: WaveBank::A, index: 0 },
        }
    }
}

/// What the audio thread must do at the start of a block, besides playing
/// the selected waves.
#[derive(Clone, Copy, Debug, PartialEq, Eq, Structural)]
pub struct BlockEvents {
    /// Reset the oscillator phases.
    pub reset_phases: bool,
    /// Compute the bit crush settings anew from the bit crush parameter.
    pub bit_crush_changed: bool,
}

/// The Waves oscillator, control side.
///
/// Events for the audio thread travel in a word of event flags that the
/// caller keeps, shared between the control callbacks and the audio thread:
/// `set_parameter` and `note_on` return the flags to add to it, and
/// `begin_block` takes the word the audio thread removed from it.
pub struct Waves {
    state: State,
    params: Params,
    runtime_desc: Option<RuntimeDesc>,
}

/// Abstract state of a `Waves`.
pub struct WavesView {
    pub params: Params,
    pub wave_a: WaveRef,
    pub wave_b: WaveRef,
    pub sub_wave: WaveRef,
    pub runtime_desc: Option<RuntimeDesc>,
}

impl View for Waves {
    type V = WavesView;

    closed spec fn view(&self) -> WavesView {
        WavesView {
            params: self.params,
            wave_a: self.state.wave_a,
            wave_b: self.state.wave_b,
            sub_wave: self.state.sub_wave,
            runtime_desc: self.runtime_desc,
        }
    }
}

/// A freshly made oscillator: default parameters, first waves of banks A, D
/// and A selected, no runtime.
pub open spec fn initial_waves() -> WavesView {
    WavesView {
        params: default_params(),
        wave_a: WaveRef { bank: WaveBank::A, index: 0 },
        wave_b: WaveRef { bank: WaveBank::D, index: 0 },
        sub_wave: WaveRef { bank: WaveBank::A, index: 0 },
        runtime_desc: None,
    }
}

/// The state after loading under `desc`: on success the descriptor is kept and
/// the parameters are back at their defaults; on failure nothing changes.
pub open spec fn after_init(v: WavesView, desc: Option<RuntimeDesc>) -> WavesView {
    if desc_status(desc, K_UNIT_TARGET_NTS1_MKII_OSC) == K_UNIT_ERR_NONE {
        WavesView { params: default_params(), runtime_desc: desc, ..v }
    } else {
        v
    }
}

/// The state after setting parameter `index` to the raw `value`: an enum
/// parameter stores its bound-checked choice.
pub open spec fn after_set_parameter(v: WavesView, index: u8, value: i32) -> WavesView {
    if index == K_WAVE_A {
        WavesView { params: Params { wave_a: choice_of(K_WAVE_A, value), ..v.params }, ..v }
    } else if index == K_WAVE_B {
        WavesView { params: Params { wave_b: choice_of(K_WAVE_B, value), ..v.params }, ..v }
    } else if index == K_SUB_WAVE {
        WavesView { params: Params { sub_wave: choice_of(K_SUB_WAVE, value), ..v.params }, ..v }
    } else {
        v
    }
}

/// The event flags that setting parameter `index` raises: a new selection of
/// the wave it chooses, or new bit crush settings.
pub open spec fn param_event(index: u8) -> u32 {
    if index == K_WAVE_A {
        K_FLAG_WAVE_A
    } else if index == K_WAVE_B {
        K_FLAG_WAVE_B
    } else if index == K_SUB_WAVE {
        K_FLAG_SUB_WAVE
    } else if index == K_BIT_CRUSH {
        K_FLAG_BIT_CRUSH
    } else {
        K_FLAGS_NONE
    }
}

/// Whether parameter `index` is one whose value is continuous (a knob or a
/// percentage) and is kept by the audio side rather than here.
pub open spec fn is_continuous_param(index: u8) -> bool {
    index == K_SHAPE || index == K_SUB_MIX || index == K_RING_MIX || index == K_BIT_CRUSH
        || index == K_DRIFT
}

/// The value reported for parameter `index`: the stored choice of an enum
/// parameter, 0 for an unknown index, none for a continuous parameter.
pub open spec fn parameter_value(v: WavesView, index: u8) -> Option<i32> {
    if index == K_WAVE_A {
        Some(v.params.wave_a as i32)
    } else if index == K_WAVE_B {
        Some(v.params.wave_b as i32)
    } else if index == K_SUB_WAVE {
        Some(v.params.sub_wave as i32)
    } else if is_continuous_param(index) {
        None
    } else {
        Some(0)
    }
}

/// The state after the start of a block with the event flags `pending`: the
/// wave selections they ask for are made from the stored choices.
pub open spec fn after_block(v: WavesView, pending: u32) -> WavesView {
    WavesView {
        wave_a: if has_flag(pending, K_FLAG_WAVE_A) { select_wave_a(v.params.wave_a) } else { v.wave_a },
        wave_b: if has_flag(pending, K_FLAG_WAVE_B) { select_wave_b(v.params.wave_b) } else { v.wave_b },
        sub_wave: if has_flag(pending, K_FLAG_SUB_WAVE) {
            select_sub_wave(v.params.sub_wave)
        } else {
            v.sub_wave
        },
        ..v
    }
}

/// The events the start of a block reports for the event flags `pending`.
pub open spec fn block_events(pending: u32) -> BlockEvents {
    BlockEvents {
        reset_phases: has_flag(pending, K_FLAG_RESET),
        bit_crush_changed: has_flag(pending, K_FLAG_BIT_CRUSH),
    }
}

impl Waves {
    /// A fresh oscillator.
    pub fn new() -> (r: Self)
        ensures
            r@ == initial_waves(),
    {
        Waves { state: State::new(), params: Params::new(), runtime_desc: None }
    }

    /// Loads the oscillator under runtime `desc` (`None` for no descriptor);
    /// returns the status code.
    pub fn init(&mut self, desc: Option<RuntimeDesc>) -> (r: i8)
        ensures
            r == desc_status(desc, K_UNIT_TARGET_NTS1_MKII_OSC),
            final(self)@ == after_init(old(self)@, desc),
    {
        let status = check_runtime_desc(desc, K_UNIT_TARGET_NTS1_MKII_OSC);
        if status != K_UNIT_ERR_NONE {
            return status;
        }
        self.runtime_desc = desc;
        self.params.reset();
        K_UNIT_ERR_NONE
    }

    /// Nothing to release on this side.
    pub fn teardown(&mut self)
        ensures
            final(self)@ == old(self)@,
    {
    }

    /// Nothing to suspend on this side.
    pub fn suspend(&mut self)
        ensures
            final(self)@ == old(self)@,
    {
    }

    /// The runtime descriptor kept by a successful `init`.
    pub fn runtime_desc(&self) -> (r: Option<RuntimeDesc>)
        ensures
            r == self@.runtime_desc,
    {
        self.runtime_desc
    }

    /// Sets parameter `index` to the raw `value`. An enum parameter stores its
    /// choice, bound-checked as `bounded_value` says; other parameters leave
    /// this side as it is. Returns the event flags to add to the pending word:
    /// a new selection of the chosen wave, or new bit crush settings.
    pub fn set_parameter(&mut self, index: u8, value: i32) -> (raised: u32)
        ensures
            final(self)@ == after_set_parameter(old(self)@, index, value),
            raised == param_event(index),
    {
        if index == K_WAVE_A {
            self.params.wave_a = bound_param_value(index, value) as u8;
            K_FLAG_WAVE_A
        } else if index == K_WAVE_B {
            self.params.wave_b = bound_param_value(index, value) as u8;
            K_FLAG_WAVE_B
        } else if index == K_SUB_WAVE {
            self.params.sub_wave = bound_param_value(index, value) as u8;
            K_FLAG_SUB_WAVE
        } else if index == K_BIT_CRUSH {
            K_FLAG_BIT_CRUSH
        } else {
            K_FLAGS_NONE
        }
    }

    /// The value of parameter `index` as this side knows it: `None` for a
    /// continuous parameter.
    pub fn get_parameter_value(&self, index: u8) -> (r: Option<i32>)
        ensures
            r == parameter_value(self@, index),
    {
        if index == K_WAVE_A {
            Some(self.params.wave_a as i32)
        } else if index == K_WAVE_B {
            Some(self.params.wave_b as i32)
        } else if index == K_SUB_WAVE {
            Some(self.params.sub_wave as i32)
        } else if index == K_SHAPE || index == K_SUB_MIX || index == K_RING_MIX
            || index == K_BIT_CRUSH || index == K_DRIFT {
            None
        } else {
            Some(0)
        }
    }

    /// A note on schedules a phase reset: returns the flag to add to the
    /// pending word.
    pub fn note_on(&self, note: u8, velo: u8) -> (raised: u32)
        ensures
            raised == K_FLAG_RESET,
    {
        K_FLAG_RESET
    }

    /// Starts an audio block with the event flags `pending` taken from the
    /// pending word: makes the wave selections they ask for and reports what
    /// else the audio thread must do.
    pub fn begin_block(&mut self, pending: u32) -> (r: BlockEvents)
        ensures
            r == block_events(pending),
            final(self)@ == after_block(old(self)@, pending),
    {
        self.update_waves(pending);
        BlockEvents {
            reset_phases: pending & K_FLAG_RESET != 0,
            bit_crush_changed: pending & K_FLAG_BIT_CRUSH != 0,
        }
    }

    /// The selected wave A.
    pub fn wave_a(&self) -> (r: WaveRef)
        ensures
            r == self@.wave_a,
    {
        self.state.wave_a
    }

    /// The selected wave B.
    pub fn wave_b(&self) -> (r: WaveRef)
        ensures
            r == self@.wave_b,
    {
        self.state.wave_b
    }

    /// The selected sub wave.
    pub fn sub_wave(&self) -> (r: WaveRef)
        ensures
            r == self@.sub_wave,
    {
        self.state.sub_wave
    }

    /// Makes the wave selections that `flags` asks for from the stored choices.
    fn update_waves(&mut self, flags: u32)
        ensures
            final(self).params == old(self).params,
            final(self).runtime_desc == old(self).runtime_desc,
            final(self).state.wave_a == if has_flag(flags, K_FLAG_WAVE_A) {
                select_wave_a(old(self).params.wave_a)
            } else {
                old(self).state.wave_a
            },
            final(self).state.wave_b == if has_flag(flags, K_FLAG_WAVE_B) {
                select_wave_b(old(self).params.wave_b)
            } else {
                old(self).state.wave_b
            },
            final(self).state.sub_wave == if has_flag(flags, K_FLAG_SUB_WAVE) {
                select_sub_wave(old(self).params.sub_wave)
            } else {
                old(self).state.sub_wave
            },
    {
        if flags & K_FLAG_WAVE_A != 0 {
            let k_a_thr: u8 = WAVES_A_BANK_CNT;
            let k_b_thr: u8 = k_a_thr + WAVES_B_BANK_CNT;
            let mut idx: u8 = self.params.wave_a;
            if idx < k_a_thr {
                self.state.wave_a = WaveRef { bank: WaveBank::A, index: idx };
            } else if idx < k_b_thr {
                idx = idx - k_a_thr;
                self.state.wave_a = WaveRef { bank: WaveBank::B, index: idx };
            } else {
                idx = idx - k_b_thr;
                self.state.wave_a = WaveRef { bank: WaveBank::C, index: idx };
            }
        }
        if flags & K_FLAG_WAVE_B != 0 {
            let k_d_thr: u8 = WAVES_D_BANK_CNT;
            let k_e_thr: u8 = k_d_thr + WAVES_E_BANK_CNT;
            let mut idx: u8 = self.params.wave_b;
            if idx < k_d_thr {
                self.state.wave_b = WaveRef { bank: WaveBank::D, index: idx };
            } else if idx < k_e_thr {
                idx = idx - k_d_thr;
                self.state.wave_b = WaveRef { bank: WaveBank::E, index: idx };
            } else {
                idx = idx - k_e_thr;
                self.state.wave_b = WaveRef { bank: WaveBank::F, index: idx };
            }
        }
        if flags & K_FLAG_SUB_WAVE != 0 {
            self.state.sub_wave = WaveRef { bank: WaveBank::A, index: self.params.sub_wave };
        }
    }

}

/// Number of choices of an enum parameter (0 for any other index).
pub open spec fn enum_param_count(index: u8) -> int {
    if index == K_WAVE_A {
        K_WAVES_A_CNT as int
    } else if index == K_WAVE_B {
        K_WAVES_B_CNT as int
    } else if index == K_SUB_WAVE {
        SUB_WAVE_CNT as int
    } else {
        0
    }
}

/// The stored choices are within their ranges and the selected waves exist.
pub open spec fn waves_in_range(v: WavesView) -> bool {
    &&& v.params.wave_a < K_WAVES_A_CNT
    &&& v.params.wave_b < K_WAVES_B_CNT
    &&& v.params.sub_wave < SUB_WAVE_CNT
    &&& wave_in_bounds(v.wave_a)
    &&& wave_in_bounds(v.wave_b)
    &&& wave_in_bounds(v.sub_wave)
}

/// Setting an enum parameter reads back its bound-checked choice: a value
/// whose low 16 bits read as a non-negative number reads back as that number
/// modulo the number of choices (so a value within the header's range reads
/// back unchanged), and any other value reads back as 0.
pub proof fn lemma_enum_parameter_roundtrip(v: WavesView, index: u8, value: i32)
    requires
        is_enum_param(index),
    ensures
        parameter_value(after_set_parameter(v, index, value), index)
            == Some(bounded_value(index, value) as i32),
        0 <= bounded_value(index, value) < enum_param_count(index),
        low16(value) >= 0 ==> bounded_value(index, value) == low16(value) % enum_param_count(index),
        low16(value) < 0 ==> bounded_value(index, value) == 0,
        0 <= value < enum_param_count(index) ==> parameter_value(
            after_set_parameter(v, index, value),
            index,
        ) == Some(value),
{
    if 0 <= value < enum_param_count(index) {
        assert(low16(value) == value);
        if index == K_WAVE_A {
            assert(value % 46 == value);
        } else if index == K_WAVE_B {
            assert(value % 44 == value);
        } else {
            assert(value % 16 == value);
        }
    }
}

/// Setting one parameter does not change the value read for another.
pub proof fn lemma_set_parameter_keeps_others(v: WavesView, index: u8, other: u8, value: i32)
    requires
        index != other,
    ensures
        parameter_value(after_set_parameter(v, index, value), other) == parameter_value(v, other),
{
}

/// After setting a wave parameter, the next block (whatever else is pending)
/// plays the wave that the stored choice names.
pub proof fn lemma_block_selects_chosen_wave(v: WavesView, pending: u32, index: u8, value: i32)
    ensures
        index == K_WAVE_A ==> after_block(after_set_parameter(v, index, value), pending | param_event(index)).wave_a
            == select_wave_a(choice_of(K_WAVE_A, value)),
        index == K_WAVE_B ==> after_block(after_set_parameter(v, index, value), pending | param_event(index)).wave_b
            == select_wave_b(choice_of(K_WAVE_B, value)),
        index == K_SUB_WAVE ==> after_block(after_set_parameter(v, index, value), pending | param_event(index)).sub_wave
            == select_sub_wave(choice_of(K_SUB_WAVE, value)),
{
    let f = pending;
    assert((f | 2u32) & 2u32 != 0u32) by (bit_vector);
    assert((f | 4u32) & 4u32 != 0u32) by (bit_vector);
    assert((f | 8u32) & 8u32 != 0u32) by (bit_vector);
}

/// A fresh oscillator is in range.
pub proof fn lemma_initial_in_range()
    ensures
        waves_in_range(initial_waves()),
{
}

/// Loading keeps the oscillator in range.
pub proof fn lemma_init_in_range(v: WavesView, desc: Option<RuntimeDesc>)
    requires
        waves_in_range(v),
    ensures
        waves_in_range(after_init(v, desc)),
{
}

/// Setting any parameter to any value keeps the oscillator in range.
pub proof fn lemma_set_parameter_in_range(v: WavesView, index: u8, value: i32)
    requires
        waves_in_range(v),
    ensures
        waves_in_range(after_set_parameter(v, index, value)),
{
}

/// The start of a block keeps the oscillator in range, whatever is pending:
/// every wave it selects from an in-range choice exists in its bank.
pub proof fn lemma_block_in_range(v: WavesView, pending: u32)
    requires
        waves_in_range(v),
    ensures
        waves_in_range(after_block(v, pending)),
{
}

/// A block with nothing pending reports nothing and changes nothing.
pub proof fn lemma_empty_block(v: WavesView)
    ensures
        block_events(K_FLAGS_NONE) == (BlockEvents { reset_phases: false, bit_crush_changed: false }),
        after_block(v, K_FLAGS_NONE) == v,
{
    assert(0u32 & 64u32 == 0u32) by (bit_vector);
    assert(0u32 & 32u32 == 0u32) by (bit_vector);
    assert(0u32 & 2u32 == 0u32) by (bit_vector);
    assert(0u32 & 4u32 == 0u32) by (bit_vector);
    assert(0u32 & 8u32 == 0u32) by (bit_vector);
}

/// A note on is answered by a phase reset at the start of the next block,
/// whatever else is pending.
pub proof fn lemma_note_on_resets_phases(pending: u32)
    ensures
        block_events(pending | K_FLAG_RESET).reset_phases,
{
    let f = pending;
    assert((f | 64u32) & 64u32 != 0u32) by (bit_vector);
}

/// Setting the bit crush parameter is answered by new bit crush settings at
/// the start of the next block, whatever else is pending.
pub proof fn lemma_bit_crush_change_reported(pending: u32)
    ensures
        block_events(pending | param_event(K_BIT_CRUSH)).bit_crush_changed,
{
    let f = pending;
    assert((f | 32u32) & 32u32 != 0u32) by (bit_vector);
}

/// Events wait for the next block: adding more flags to the pending word
/// keeps every event it already reports.
pub proof fn lemma_events_accumulate(pending: u32, more: u32)
    ensures
        block_events(pending).reset_phases ==> block_events(pending | more).reset_phases,
        block_events(pending).bit_crush_changed ==> block_events(pending | more).bit_crush_changed,
{
    let f = pending;
    let b = more;
    assert(f & 64u32 != 0u32 ==> (f | b) & 64u32 != 0u32) by (bit_vector);
    assert(f & 32u32 != 0u32 ==> (f | b) & 32u32 != 0u32) by (bit_vector);
}

/// A successful load puts every parameter choice back to the first one and
/// keeps the descriptor, without touching the selected waves; a failed load
/// changes nothing.
pub proof fn lemma_init_resets_every_param(v: WavesView, desc: Option<RuntimeDesc>)
    ensures
        desc_status(desc, K_UNIT_TARGET_NTS1_MKII_OSC) == 0 ==> {
            let w = after_init(v, desc);
            &&& w.params.wave_a == 0
            &&& w.params.wave_b == 0
            &&& w.params.sub_wave == 0
            &&& w.params.padding == 0
            &&& parameter_value(w, K_WAVE_A) == Some(0i32)
            &&& parameter_value(w, K_WAVE_B) == Some(0i32)
            &&& parameter_value(w, K_SUB_WAVE) == Some(0i32)
            &&& w.runtime_desc == desc
            &&& w.wave_a == v.wave_a
            &&& w.wave_b == v.wave_b
            &&& w.sub_wave == v.sub_wave
        },
        desc_status(desc, K_UNIT_TARGET_NTS1_MKII_OSC) != 0 ==> after_init(v, desc) == v,
{
}

/// Bound-checking keeps a value the header allows and brings any other value
/// into the allowed range: SHAPE and SUB MIX allow 0..=1023; RING MIX,
/// BIT CRUSH and DRIFT allow 0..=1000 and take the nearest end otherwise;
/// wave A, wave B and the sub wave allow 0..46, 0..44 and 0..16.
pub proof fn lemma_bound_keeps_allowed_values(index: u8, value: i32)
    ensures
        (index == K_SHAPE || index == K_SUB_MIX) && 0 <= value <= 1023 ==> bounded_value(index, value) == value,
        (index == K_SHAPE || index == K_SUB_MIX) ==> 0 <= bounded_value(index, value) <= 1023,
        (index == K_SHAPE || index == K_SUB_MIX) && value > 1023 ==> bounded_value(index, value) == 1023,
        (index == K_RING_MIX || index == K_BIT_CRUSH || index == K_DRIFT) && 0 <= value <= 1000
            ==> bounded_value(index, value) == value,
        (index == K_RING_MIX || index == K_BIT_CRUSH || index == K_DRIFT) ==> 0 <= bounded_value(index, value) <= 1000,
        (index == K_RING_MIX || index == K_BIT_CRUSH || index == K_DRIFT) && value > 1000
            ==> bounded_value(index, value) == 1000,
        index <= K_DRIFT && value < 0 && !is_enum_param(index) ==> bounded_value(index, value) == 0,
        index == K_WAVE_A && 0 <= value < 46 ==> bounded_value(index, value) == value,
        index == K_WAVE_B && 0 <= value < 44 ==> bounded_value(index, value) == value,
        index == K_SUB_WAVE && 0 <= value < 16 ==> bounded_value(index, value) == value,
        index == K_WAVE_A ==> 0 <= bounded_value(index, value) < 46,
        index == K_WAVE_B ==> 0 <= bounded_value(index, value) < 44,
        index == K_SUB_WAVE ==> 0 <= bounded_value(index, value) < 16,
        index > K_DRIFT ==> bounded_value(index, value) == value,
{
    if 0 <= value < 0x8000 {
        assert(low16(value) == value);
    }
}

/// Bound-checking a bound-checked value changes nothing.
pub proof fn lemma_bound_idempotent(index: u8, value: i32)
    ensures
        bounded_value(index, bounded_value(index, value) as i32) == bounded_value(index, value),
{
    lemma_bound_keeps_allowed_values(index, value);
    let b = bounded_value(index, value) as i32;
    lemma_bound_keeps_allowed_values(index, b);
}

/// A block changes a wave selection only when that wave's flag is pending, and
/// then selects from the stored choice; it never changes the stored choices or
/// the runtime. In particular a phase reset alone leaves every wave as it was.
pub proof fn lemma_block_frame(v: WavesView, pending: u32)
    ensures
        !has_flag(pending, K_FLAG_WAVE_A) ==> after_block(v, pending).wave_a == v.wave_a,
        !has_flag(pending, K_FLAG_WAVE_B) ==> after_block(v, pending).wave_b == v.wave_b,
        !has_flag(pending, K_FLAG_SUB_WAVE) ==> after_block(v, pending).sub_wave == v.sub_wave,
        has_flag(pending, K_FLAG_WAVE_A) ==> after_block(v, pending).wave_a == select_wave_a(v.params.wave_a),
        has_flag(pending, K_FLAG_WAVE_B) ==> after_block(v, pending).wave_b == select_wave_b(v.params.wave_b),
        has_flag(pending, K_FLAG_SUB_WAVE) ==> after_block(v, pending).sub_wave
            == (WaveRef { bank: WaveBank::A, index: v.params.sub_wave }),
        after_block(v, pending).params == v.params,
        after_block(v, pending).runtime_desc == v.runtime_desc,
        after_block(v, K_FLAG_RESET).wave_a == v.wave_a,
        after_block(v, K_FLAG_RESET).wave_b == v.wave_b,
        after_block(v, K_FLAG_RESET).sub_wave == v.sub_wave,
        after_block(v, K_FLAG_BIT_CRUSH) == v,
        block_events(K_FLAG_RESET).reset_phases && !block_events(K_FLAG_RESET).bit_crush_changed,
        block_events(K_FLAG_BIT_CRUSH).bit_crush_changed && !block_events(K_FLAG_BIT_CRUSH).reset_phases,
{
    assert(64u32 & 2u32 == 0u32) by (bit_vector);
    assert(64u32 & 4u32 == 0u32) by (bit_vector);
    assert(64u32 & 8u32 == 0u32) by (bit_vector);
    assert(64u32 & 64u32 != 0u32) by (bit_vector);
    assert(64u32 & 32u32 == 0u32) by (bit_vector);
    assert(32u32 & 2u32 == 0u32) by (bit_vector);
    assert(32u32 & 4u32 == 0u32) by (bit_vector);
    assert(32u32 & 8u32 == 0u32) by (bit_vector);
    assert(32u32 & 32u32 != 0u32) by (bit_vector);
    assert(32u32 & 64u32 == 0u32) by (bit_vector);
}

/// Wave A choices count through bank A (choices 0..16), then bank B (16..32),
/// then bank C (32..46): each choice in range names an existing wave, and its
/// bank's first choice plus its index is the choice.
pub proof fn lemma_wave_a_counts_through_banks(idx: u8)
    requires
        idx < 46,
    ensures
        wave_in_bounds(select_wave_a(idx)),
        select_wave_a(idx).bank == WaveBank::A ==> select_wave_a(idx).index == idx,
        select_wave_a(idx).bank == WaveBank::B ==> select_wave_a(idx).index + 16 == idx,
        select_wave_a(idx).bank == WaveBank::C ==> select_wave_a(idx).index + 32 == idx,
        select_wave_a(idx).bank == WaveBank::A || select_wave_a(idx).bank == WaveBank::B
            || select_wave_a(idx).bank == WaveBank::C,
{
}

/// Wave B choices count through bank D (choices 0..13), then bank E (13..28),
/// then bank F (28..44), in the same way.
pub proof fn lemma_wave_b_counts_through_banks(idx: u8)
    requires
        idx < 44,
    ensures
        wave_in_bounds(select_wave_b(idx)),
        select_wave_b(idx).bank == WaveBank::D ==> select_wave_b(idx).index == idx,
        select_wave_b(idx).bank == WaveBank::E ==> select_wave_b(idx).index + 13 == idx,
        select_wave_b(idx).bank == WaveBank::F ==> select_wave_b(idx).index + 28 == idx,
        select_wave_b(idx).bank == WaveBank::D || select_wave_b(idx).bank == WaveBank::E
            || select_wave_b(idx).bank == WaveBank::F,
{
}

/// Bank sizes as the runtime has them: 16, 16, 14, 13, 15 and 16 waves.
pub proof fn lemma_bank_sizes()
    ensures
        bank_len(WaveBank::A) == 16,
        bank_len(WaveBank::B) == 16,
        bank_len(WaveBank::C) == 14,
        bank_len(WaveBank::D) == 13,
        bank_len(WaveBank::E) == 15,
        bank_len(WaveBank::F) == 16,
{
}

} // verus!
