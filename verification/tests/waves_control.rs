use lib::unit::{RuntimeDesc, K_UNIT_API_2_0_0, K_UNIT_ERR_NONE, K_UNIT_ERR_SAMPLERATE, K_UNIT_ERR_UNDEF, K_UNIT_TARGET_NTS1_MKII_OSC};
use lib::waves::{
    bound_param_value, BlockEvents, Params, WaveBank, WaveRef, Waves, K_BIT_CRUSH, K_DRIFT,
    K_FLAGS_NONE, K_FLAG_BIT_CRUSH, K_FLAG_RESET, K_FLAG_SUB_WAVE, K_FLAG_WAVE_A, K_FLAG_WAVE_B,
    K_RING_MIX, K_SHAPE, K_SUB_MIX, K_SUB_WAVE, K_WAVE_A, K_WAVE_B,
};

fn w(bank: WaveBank, index: u8) -> WaveRef {
    WaveRef { bank, index }
}

fn good_desc() -> RuntimeDesc {
    RuntimeDesc {
        target: K_UNIT_TARGET_NTS1_MKII_OSC,
        api: K_UNIT_API_2_0_0,
        samplerate: 48000,
        frames_per_buffer: 64,
        input_channels: 2,
        output_channels: 1,
    }
}

const NO_EVENTS: BlockEvents = BlockEvents { reset_phases: false, bit_crush_changed: false };

/// An oscillator with the pending event word that the audio side keeps.
struct Unit {
    osc: Waves,
    pending: u32,
}

impl Unit {
    fn new() -> Self {
        Unit { osc: Waves::new(), pending: K_FLAGS_NONE }
    }

    fn set(&mut self, index: u8, value: i32) {
        self.pending |= self.osc.set_parameter(index, value);
    }

    fn note_on(&mut self) {
        self.pending |= self.osc.note_on(60, 100);
    }

    fn block(&mut self) -> BlockEvents {
        let pending = std::mem::replace(&mut self.pending, K_FLAGS_NONE);
        self.osc.begin_block(pending)
    }

    fn get(&self, index: u8) -> Option<i32> {
        self.osc.get_parameter_value(index)
    }
}

#[test]
fn params_new_and_reset_are_defaults() {
    let mut p = Params::new();
    assert_eq!(p, Params { wave_a: 0, wave_b: 0, sub_wave: 0, padding: 0 });
    p.wave_a = 9;
    p.sub_wave = 3;
    p.reset();
    assert_eq!(p, Params::new());
}

#[test]
fn new_oscillator_state() {
    let osc = Waves::new();
    assert_eq!(osc.get_parameter_value(K_WAVE_A), Some(0));
    assert_eq!(osc.get_parameter_value(K_WAVE_B), Some(0));
    assert_eq!(osc.get_parameter_value(K_SUB_WAVE), Some(0));
    assert_eq!(osc.wave_a(), w(WaveBank::A, 0));
    assert_eq!(osc.wave_b(), w(WaveBank::D, 0));
    assert_eq!(osc.sub_wave(), w(WaveBank::A, 0));
    assert_eq!(osc.runtime_desc(), None);
}

#[test]
fn raised_event_flags() {
    let mut osc = Waves::new();
    assert_eq!(osc.set_parameter(K_WAVE_A, 1), K_FLAG_WAVE_A);
    assert_eq!(osc.set_parameter(K_WAVE_B, 1), K_FLAG_WAVE_B);
    assert_eq!(osc.set_parameter(K_SUB_WAVE, 1), K_FLAG_SUB_WAVE);
    assert_eq!(osc.set_parameter(K_BIT_CRUSH, 1), K_FLAG_BIT_CRUSH);
    for i in [K_SHAPE, K_SUB_MIX, K_RING_MIX, K_DRIFT, 8, 255] {
        assert_eq!(osc.set_parameter(i, 1), K_FLAGS_NONE);
    }
    assert_eq!(osc.note_on(1, 1), K_FLAG_RESET);
}

#[test]
fn continuous_parameters_are_not_reported_here() {
    let osc = Waves::new();
    for i in [K_SHAPE, K_SUB_MIX, K_RING_MIX, K_BIT_CRUSH, K_DRIFT] {
        assert_eq!(osc.get_parameter_value(i), None);
    }
}

#[test]
fn unknown_parameters_read_zero() {
    let mut u = Unit::new();
    u.set(8, 5);
    u.set(255, 5);
    assert_eq!(u.get(8), Some(0));
    assert_eq!(u.get(255), Some(0));
    assert_eq!(u.block(), NO_EVENTS);
}

#[test]
fn wave_a_roundtrip_over_its_range() {
    let mut u = Unit::new();
    for v in 0..46 {
        u.set(K_WAVE_A, v);
        assert_eq!(u.get(K_WAVE_A), Some(v));
    }
}

#[test]
fn wave_b_roundtrip_over_its_range() {
    let mut u = Unit::new();
    for v in 0..44 {
        u.set(K_WAVE_B, v);
        assert_eq!(u.get(K_WAVE_B), Some(v));
    }
}

#[test]
fn sub_wave_roundtrip_over_its_range() {
    let mut u = Unit::new();
    for v in 0..16 {
        u.set(K_SUB_WAVE, v);
        assert_eq!(u.get(K_SUB_WAVE), Some(v));
    }
}

#[test]
fn setting_wave_b_leaves_wave_a_and_sub_wave() {
    let mut u = Unit::new();
    u.set(K_WAVE_A, 7);
    u.set(K_SUB_WAVE, 3);
    u.set(K_WAVE_B, 12);
    assert_eq!(u.get(K_WAVE_A), Some(7));
    assert_eq!(u.get(K_SUB_WAVE), Some(3));
    assert_eq!(u.get(K_WAVE_B), Some(12));
}

#[test]
fn enum_values_above_the_range_wrap_by_their_counts() {
    let mut u = Unit::new();
    u.set(K_WAVE_A, 46);
    assert_eq!(u.get(K_WAVE_A), Some(0));
    u.set(K_WAVE_A, 50);
    assert_eq!(u.get(K_WAVE_A), Some(4));
    u.set(K_WAVE_A, 100);
    assert_eq!(u.get(K_WAVE_A), Some(8));
    u.set(K_WAVE_B, 44);
    assert_eq!(u.get(K_WAVE_B), Some(0));
    u.set(K_SUB_WAVE, 17);
    assert_eq!(u.get(K_SUB_WAVE), Some(1));
}

#[test]
fn enum_values_use_their_low_16_bits() {
    let mut u = Unit::new();
    // 65536 + 5: low 16 bits are 5
    u.set(K_WAVE_A, 65541);
    assert_eq!(u.get(K_WAVE_A), Some(5));
    // 65537: low 16 bits are 1
    u.set(K_SUB_WAVE, 65537);
    assert_eq!(u.get(K_SUB_WAVE), Some(1));
    // 32767 % 46 == 15
    u.set(K_WAVE_A, 32767);
    assert_eq!(u.get(K_WAVE_A), Some(15));
}

#[test]
fn enum_values_reading_negative_take_the_minimum() {
    let mut u = Unit::new();
    u.set(K_WAVE_A, 7);
    u.set(K_WAVE_A, -1);
    assert_eq!(u.get(K_WAVE_A), Some(0));
    // 32768 reads as -32768 in 16 bits
    u.set(K_WAVE_A, 32768);
    assert_eq!(u.get(K_WAVE_A), Some(0));
    // 65519 reads as -17 in 16 bits
    u.set(K_SUB_WAVE, 65519);
    assert_eq!(u.get(K_SUB_WAVE), Some(0));
    u.set(K_WAVE_B, i32::MIN + 3);
    assert_eq!(u.get(K_WAVE_B), Some(3));
}

#[test]
fn continuous_values_are_bound_checked() {
    assert_eq!(bound_param_value(K_DRIFT, 5000), 1000);
    assert_eq!(bound_param_value(K_DRIFT, 250), 250);
    assert_eq!(bound_param_value(K_DRIFT, -3), 0);
    assert_eq!(bound_param_value(K_SHAPE, 2000), 1023);
    assert_eq!(bound_param_value(K_SUB_MIX, 1023), 1023);
    assert_eq!(bound_param_value(K_RING_MIX, 1001), 1000);
    assert_eq!(bound_param_value(K_BIT_CRUSH, i32::MIN), 0);
    assert_eq!(bound_param_value(K_WAVE_A, 50), 4);
    // indices past the declared parameters are left as they are
    assert_eq!(bound_param_value(8, 5000), 5000);
    assert_eq!(bound_param_value(255, -7), -7);
}

#[test]
fn wave_selection_waits_for_the_block() {
    let mut u = Unit::new();
    u.set(K_WAVE_A, 20);
    assert_eq!(u.osc.wave_a(), w(WaveBank::A, 0));
    assert_eq!(u.block(), NO_EVENTS);
    assert_eq!(u.osc.wave_a(), w(WaveBank::B, 4));
}

#[test]
fn wave_a_banks() {
    let mut u = Unit::new();
    let cases = [(0, w(WaveBank::A, 0)), (15, w(WaveBank::A, 15)), (16, w(WaveBank::B, 0)),
        (31, w(WaveBank::B, 15)), (32, w(WaveBank::C, 0)), (45, w(WaveBank::C, 13))];
    for (v, expected) in cases {
        u.set(K_WAVE_A, v);
        u.block();
        assert_eq!(u.osc.wave_a(), expected);
    }
}

#[test]
fn wave_b_banks() {
    let mut u = Unit::new();
    let cases = [(0, w(WaveBank::D, 0)), (12, w(WaveBank::D, 12)), (13, w(WaveBank::E, 0)),
        (27, w(WaveBank::E, 14)), (28, w(WaveBank::F, 0)), (43, w(WaveBank::F, 15))];
    for (v, expected) in cases {
        u.set(K_WAVE_B, v);
        u.block();
        assert_eq!(u.osc.wave_b(), expected);
    }
}

#[test]
fn sub_wave_bank() {
    let mut u = Unit::new();
    u.set(K_SUB_WAVE, 15);
    u.block();
    assert_eq!(u.osc.sub_wave(), w(WaveBank::A, 15));
    assert_eq!(u.osc.wave_a(), w(WaveBank::A, 0));
}

#[test]
fn out_of_range_wave_choices_select_existing_waves() {
    let mut u = Unit::new();
    u.set(K_WAVE_A, -1);
    u.set(K_WAVE_B, 1000);
    u.set(K_SUB_WAVE, 300);
    u.block();
    assert_eq!(u.osc.wave_a(), w(WaveBank::A, 0));
    // 1000 % 44 == 32: bank F, index 4
    assert_eq!(u.osc.wave_b(), w(WaveBank::F, 4));
    // 300 % 16 == 12
    assert_eq!(u.osc.sub_wave(), w(WaveBank::A, 12));
}

#[test]
fn note_on_schedules_a_phase_reset_once() {
    let mut u = Unit::new();
    u.note_on();
    assert_eq!(u.block(), BlockEvents { reset_phases: true, bit_crush_changed: false });
    assert_eq!(u.block(), NO_EVENTS);
}

#[test]
fn bit_crush_change_is_reported_once() {
    let mut u = Unit::new();
    u.set(K_BIT_CRUSH, 500);
    assert_eq!(u.block(), BlockEvents { reset_phases: false, bit_crush_changed: true });
    assert_eq!(u.block(), NO_EVENTS);
}

#[test]
fn events_accumulate_until_the_block() {
    let mut u = Unit::new();
    u.set(K_BIT_CRUSH, 1);
    u.note_on();
    u.set(K_WAVE_B, 30);
    u.set(K_SHAPE, 300);
    assert_eq!(u.block(), BlockEvents { reset_phases: true, bit_crush_changed: true });
    assert_eq!(u.osc.wave_b(), w(WaveBank::F, 2));
}

#[test]
fn empty_block_changes_nothing() {
    let mut osc = Waves::new();
    osc.set_parameter(K_WAVE_A, 20);
    assert_eq!(osc.begin_block(K_FLAGS_NONE), NO_EVENTS);
    assert_eq!(osc.wave_a(), w(WaveBank::A, 0));
    assert_eq!(osc.get_parameter_value(K_WAVE_A), Some(20));
}

#[test]
fn block_makes_only_the_pending_selections() {
    let mut osc = Waves::new();
    osc.set_parameter(K_WAVE_A, 20);
    osc.set_parameter(K_WAVE_B, 20);
    assert_eq!(osc.begin_block(K_FLAG_WAVE_B | K_FLAG_RESET), BlockEvents { reset_phases: true, bit_crush_changed: false });
    assert_eq!(osc.wave_a(), w(WaveBank::A, 0));
    assert_eq!(osc.wave_b(), w(WaveBank::E, 7));
}

#[test]
fn continuous_parameters_schedule_nothing_but_bit_crush() {
    let mut u = Unit::new();
    for i in [K_SHAPE, K_SUB_MIX, K_RING_MIX, K_DRIFT] {
        u.set(i, 700);
    }
    assert_eq!(u.block(), NO_EVENTS);
    assert_eq!(u.get(K_WAVE_A), Some(0));
}

#[test]
fn init_success_keeps_runtime_and_resets_params() {
    let mut u = Unit::new();
    u.set(K_WAVE_A, 20);
    u.block();
    assert_eq!(u.osc.init(Some(good_desc())), K_UNIT_ERR_NONE);
    assert_eq!(u.osc.runtime_desc(), Some(good_desc()));
    assert_eq!(u.get(K_WAVE_A), Some(0));
    // the selection is made again only when the parameter is set again
    assert_eq!(u.osc.wave_a(), w(WaveBank::B, 4));
}

#[test]
fn init_failure_changes_nothing() {
    let mut u = Unit::new();
    u.set(K_WAVE_A, 20);
    assert_eq!(u.osc.init(None), K_UNIT_ERR_UNDEF);
    let bad = RuntimeDesc { samplerate: 96000, ..good_desc() };
    assert_eq!(u.osc.init(Some(bad)), K_UNIT_ERR_SAMPLERATE);
    assert_eq!(u.osc.runtime_desc(), None);
    assert_eq!(u.get(K_WAVE_A), Some(20));
}

#[test]
fn teardown_and_suspend_change_nothing() {
    let mut u = Unit::new();
    u.set(K_WAVE_A, 3);
    u.osc.teardown();
    u.osc.suspend();
    assert_eq!(u.get(K_WAVE_A), Some(3));
    u.block();
    assert_eq!(u.osc.wave_a(), w(WaveBank::A, 3));
}
