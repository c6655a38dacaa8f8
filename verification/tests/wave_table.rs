use soyboy::soyboy::constants::{ONE, PITCH_MAX, WAVETABLE_SIZE};
use soyboy::soyboy::event::{Event, Triggered};
use soyboy::soyboy::parameters::{Parameter, Parametric};
use soyboy::soyboy::types::AudioProcessor;
use soyboy::soyboy::wave_table::{random_level, WaveTableOscillator, SINE_TABLE};

const RATE: u32 = 44_100;

const SINE: [i8; 32] = [
    0, 1, 3, 4, 5, 6, 6, 7, 7, 7, 6, 6, 5, 4, 3, 1, 0, -1, -3, -4, -5, -6, -6, -7, -7, -7, -6, -6,
    -5, -4, -3, -1,
];

fn at_440() -> WaveTableOscillator {
    let mut oscillator = WaveTableOscillator::new();
    oscillator.set_freq(440 * ONE);
    oscillator.trigger(&Event::PitchBend { ratio: ONE });
    oscillator
}

#[test]
fn a_new_wavetable_holds_a_sine() {
    let oscillator = WaveTableOscillator::new();
    assert_eq!(WAVETABLE_SIZE, 32);
    assert_eq!(oscillator.get_wavetable(), SINE);
    assert_eq!(SINE_TABLE, SINE);
    assert_eq!(oscillator.phase(), 0);
    assert_eq!(oscillator.get_param(&Parameter::OscWtTableIndex), 0);
}

#[test]
fn the_sine_is_the_rounded_sine() {
    for (i, level) in SINE.iter().enumerate() {
        let exact = 7.0 * (2.0 * std::f64::consts::PI * i as f64 / 32.0).sin();
        assert_eq!(*level as f64, exact.round(), "entry {}", i);
    }
}

#[test]
fn the_sine_crosses_zero_at_the_start_and_half_way() {
    let mut oscillator = WaveTableOscillator::new();
    oscillator.trigger(&Event::ResetWaveTableAtRandom);
    oscillator.trigger(&Event::ResetWaveTableAsSine);
    let table = oscillator.get_wavetable();
    assert_eq!(table[0], 0);
    assert_eq!(table[WAVETABLE_SIZE / 2], 0);
    assert_eq!(table[WAVETABLE_SIZE / 4], 7);
    assert_eq!(table[3 * WAVETABLE_SIZE / 4], -7);
    for i in 0..16 {
        assert!(table[i] >= 0);
        assert_eq!(table[i + 16], -table[i]);
        assert_eq!(table[16 - i], table[i]);
    }
    assert_eq!(table, SINE);
}

#[test]
fn a_new_wavetable_does_not_move_before_a_pitch_is_set() {
    let mut oscillator = WaveTableOscillator::new();
    oscillator.set_freq(440 * ONE);
    for _ in 0..100 {
        assert_eq!(oscillator.process(RATE).to_i8(), 0);
        assert_eq!(oscillator.phase(), 0);
    }
}

#[test]
fn each_sample_moves_the_phase_by_one_step() {
    // 32 * 440 / 44100 = 0.319274...
    let mut oscillator = at_440();
    oscillator.process(RATE);
    assert_eq!(oscillator.phase(), 319_274);
    oscillator.process(RATE);
    assert_eq!(oscillator.phase(), 638_548);
    oscillator.process(RATE);
    assert_eq!(oscillator.phase(), 957_822);
}

#[test]
fn the_phase_is_the_sum_of_the_steps_modulo_the_table() {
    let mut oscillator = at_440();
    let length = 32 * ONE;
    for call in 1..=20_000i64 {
        oscillator.process(RATE);
        assert_eq!(oscillator.phase(), (call * 319_274) % length);
        assert!(0 <= oscillator.phase() && oscillator.phase() < length);
    }
    let mut oscillator = at_440();
    for _ in 0..100 {
        oscillator.process(RATE);
    }
    assert_eq!(oscillator.phase(), 31_927_400);
    oscillator.process(RATE);
    assert_eq!(oscillator.phase(), 246_674);
}

#[test]
fn the_step_follows_frequency_pitch_and_rate() {
    let mut oscillator = WaveTableOscillator::new();
    oscillator.set_freq(440 * ONE);
    oscillator.trigger(&Event::PitchBend { ratio: 2 * ONE });
    oscillator.process(48_000);
    assert_eq!(oscillator.phase(), 586_666);
    let mut oscillator = WaveTableOscillator::new();
    oscillator.set_freq(i64::MAX);
    oscillator.trigger(&Event::PitchBend { ratio: PITCH_MAX });
    for _ in 0..100 {
        oscillator.process(1);
        assert!(0 <= oscillator.phase() && oscillator.phase() < 32 * ONE);
    }
    let mut oscillator = at_440();
    oscillator.set_freq(-5);
    oscillator.process(RATE);
    assert_eq!(oscillator.phase(), 0);
    let mut oscillator = at_440();
    oscillator.trigger(&Event::PitchBend { ratio: -ONE });
    oscillator.process(RATE);
    assert_eq!(oscillator.phase(), 0);
}

#[test]
fn the_table_is_read_where_the_phase_lies_and_not_interpolated() {
    let mut oscillator = at_440();
    let expected = [0, 0, 0, 0, 1, 1, 1, 3, 3, 3, 4, 4];
    for level in expected {
        assert_eq!(oscillator.process(RATE).to_i8(), level);
    }
    let mut oscillator = at_440();
    for _ in 0..30_000 {
        let entry = (oscillator.phase() / ONE) as usize;
        assert_eq!(oscillator.process(RATE).to_i8(), SINE[entry]);
    }
}

#[test]
fn an_edit_shows_in_the_export_at_its_entry_alone() {
    let mut oscillator = WaveTableOscillator::new();
    oscillator.trigger(&Event::SetWaveTable { idx: 3, value: ONE });
    let mut expected = SINE;
    expected[3] = 7;
    assert_eq!(oscillator.get_wavetable(), expected);
    oscillator.trigger(&Event::SetWaveTable { idx: 31, value: -ONE });
    expected[31] = -7;
    assert_eq!(oscillator.get_wavetable(), expected);
    oscillator.trigger(&Event::SetWaveTable { idx: 0, value: 500_000 });
    expected[0] = 4;
    assert_eq!(oscillator.get_wavetable(), expected);
    oscillator.trigger(&Event::SetWaveTable { idx: 16, value: -214_286 });
    expected[16] = -2;
    assert_eq!(oscillator.get_wavetable(), expected);
    oscillator.trigger(&Event::SetWaveTable { idx: 8, value: 0 });
    expected[8] = 0;
    assert_eq!(oscillator.get_wavetable(), expected);
    for k in 0..32usize {
        let value = (k as i64 - 16) * 62_500;
        let before = oscillator.get_wavetable();
        oscillator.trigger(&Event::SetWaveTable { idx: k, value });
        let after = oscillator.get_wavetable();
        for i in 0..32 {
            if i == k {
                let scaled = value as f64 * 7.0 / 1_000_000.0;
                assert_eq!(after[i] as f64, scaled.round());
            } else {
                assert_eq!(after[i], before[i]);
            }
        }
    }
}

#[test]
fn an_edit_outside_the_table_is_passed_over() {
    let mut oscillator = at_440();
    for _ in 0..10 {
        oscillator.process(RATE);
    }
    let phase = oscillator.phase();
    for idx in [32usize, 33, 1000, usize::MAX] {
        oscillator.trigger(&Event::SetWaveTable { idx, value: ONE });
        assert_eq!(oscillator.get_wavetable(), SINE);
        assert_eq!(oscillator.phase(), phase);
    }
}

#[test]
fn an_edit_is_heard_on_the_next_sample() {
    let mut oscillator = at_440();
    oscillator.trigger(&Event::SetWaveTable { idx: 0, value: -ONE });
    assert_eq!(oscillator.process(RATE).to_i8(), -7);
}

#[test]
fn a_random_reset_fills_the_table_with_levels() {
    let mut oscillator = at_440();
    let mut changed = false;
    for _ in 0..20 {
        oscillator.trigger(&Event::ResetWaveTableAtRandom);
        let table = oscillator.get_wavetable();
        for level in table {
            assert!(-7 <= level && level <= 7);
        }
        changed = changed || table != SINE;
        assert_eq!(oscillator.phase(), 0);
    }
    assert!(changed);
    oscillator.process(RATE);
    assert_eq!(oscillator.phase(), 319_274);
}

#[test]
fn a_draw_becomes_a_wavetable_level() {
    assert_eq!(random_level(0).to_i8(), -7);
    assert_eq!(random_level(0x0800_0000).to_i8(), -7);
    assert_eq!(random_level(0x1000_0000).to_i8(), -6);
    assert_eq!(random_level(0x4000_0000).to_i8(), -4);
    assert_eq!(random_level(0x7FFF_FFFF).to_i8(), 0);
    assert_eq!(random_level(0x8000_0000).to_i8(), 0);
    assert_eq!(random_level(0xC000_0000).to_i8(), 4);
    assert_eq!(random_level(4_000_000_000).to_i8(), 6);
    assert_eq!(random_level(0xF800_0000).to_i8(), 7);
    assert_eq!(random_level(u32::MAX).to_i8(), 7);
}

#[test]
fn the_table_is_filled_from_the_draws_it_is_given() {
    let mut oscillator = at_440();
    let mut draws = [0u32; 32];
    for (i, draw) in draws.iter_mut().enumerate() {
        *draw = (i as u32) << 27;
    }
    oscillator.randomize_table_from(&draws);
    let table = oscillator.get_wavetable();
    for i in 0..32 {
        assert_eq!(table[i], random_level(draws[i]).to_i8());
    }
    assert_eq!(
        table,
        [
            -7, -7, -6, -6, -5, -5, -4, -4, -4, -3, -3, -2, -2, -1, -1, 0, 0, 0, 1, 1, 2, 2, 3,
            3, 4, 4, 4, 5, 5, 6, 6, 7
        ]
    );
    assert_eq!(oscillator.phase(), 0);
    assert_eq!(oscillator.get_param(&Parameter::OscWtTableIndex), 0);
}

#[test]
fn the_cursor_reads_back_as_set() {
    let mut oscillator = WaveTableOscillator::new();
    for k in 0..32i64 {
        oscillator.set_param(&Parameter::OscWtTableIndex, k * ONE);
        assert_eq!(oscillator.get_param(&Parameter::OscWtTableIndex), k * ONE);
        assert_eq!(
            oscillator.get_param(&Parameter::OscWtTableValue),
            SINE[k as usize] as i64 * ONE
        );
    }
}

#[test]
fn the_cursor_is_taken_modulo_the_table() {
    let mut oscillator = WaveTableOscillator::new();
    oscillator.set_param(&Parameter::OscWtTableIndex, 32 * ONE);
    assert_eq!(oscillator.get_param(&Parameter::OscWtTableIndex), 0);
    oscillator.set_param(&Parameter::OscWtTableIndex, 33 * ONE);
    assert_eq!(oscillator.get_param(&Parameter::OscWtTableIndex), ONE);
    oscillator.set_param(&Parameter::OscWtTableIndex, 100 * ONE + 999_999);
    assert_eq!(oscillator.get_param(&Parameter::OscWtTableIndex), 4 * ONE);
    oscillator.set_param(&Parameter::OscWtTableIndex, 5 * ONE + 1);
    assert_eq!(oscillator.get_param(&Parameter::OscWtTableIndex), 5 * ONE);
    oscillator.set_param(&Parameter::OscWtTableIndex, -1);
    assert_eq!(oscillator.get_param(&Parameter::OscWtTableIndex), 31 * ONE);
    oscillator.set_param(&Parameter::OscWtTableIndex, -ONE);
    assert_eq!(oscillator.get_param(&Parameter::OscWtTableIndex), 31 * ONE);
    oscillator.set_param(&Parameter::OscWtTableIndex, -ONE - 1);
    assert_eq!(oscillator.get_param(&Parameter::OscWtTableIndex), 30 * ONE);
    oscillator.set_param(&Parameter::OscWtTableIndex, -32 * ONE);
    assert_eq!(oscillator.get_param(&Parameter::OscWtTableIndex), 0);
    oscillator.set_param(&Parameter::OscWtTableIndex, i64::MAX);
    assert_eq!(oscillator.get_param(&Parameter::OscWtTableIndex), 22 * ONE);
    oscillator.set_param(&Parameter::OscWtTableIndex, i64::MIN);
    assert_eq!(oscillator.get_param(&Parameter::OscWtTableIndex), 9 * ONE);
}

#[test]
fn the_entry_under_the_cursor_reads_back_as_set() {
    let mut oscillator = WaveTableOscillator::new();
    for k in [0i64, 5, 17, 31] {
        oscillator.set_param(&Parameter::OscWtTableIndex, k * ONE);
        for level in -8..=7i64 {
            let before = oscillator.get_wavetable();
            oscillator.set_param(&Parameter::OscWtTableValue, level * ONE);
            assert_eq!(oscillator.get_param(&Parameter::OscWtTableValue), level * ONE);
            let after = oscillator.get_wavetable();
            for i in 0..32 {
                if i as i64 == k {
                    assert_eq!(after[i] as i64, level);
                } else {
                    assert_eq!(after[i], before[i]);
                }
            }
        }
    }
}

#[test]
fn the_entry_under_the_cursor_is_quantized() {
    let mut oscillator = WaveTableOscillator::new();
    oscillator.set_param(&Parameter::OscWtTableIndex, 9 * ONE);
    oscillator.set_param(&Parameter::OscWtTableValue, 2_500_000);
    assert_eq!(oscillator.get_param(&Parameter::OscWtTableValue), 3 * ONE);
    oscillator.set_param(&Parameter::OscWtTableValue, -2_499_999);
    assert_eq!(oscillator.get_param(&Parameter::OscWtTableValue), -2 * ONE);
    oscillator.set_param(&Parameter::OscWtTableValue, 100 * ONE);
    assert_eq!(oscillator.get_param(&Parameter::OscWtTableValue), 7 * ONE);
    oscillator.set_param(&Parameter::OscWtTableValue, -100 * ONE);
    assert_eq!(oscillator.get_param(&Parameter::OscWtTableValue), -8 * ONE);
    assert_eq!(oscillator.get_wavetable()[9], -8);
}

#[test]
fn the_wavetable_passes_over_the_parameters_of_others() {
    let mut oscillator = at_440();
    oscillator.set_param(&Parameter::OscWtTableIndex, 3 * ONE);
    for _ in 0..7 {
        oscillator.process(RATE);
    }
    let phase = oscillator.phase();
    for param in [
        Parameter::PitchBend,
        Parameter::OscNsInterval,
        Parameter::EgAttack,
        Parameter::EgDecay,
        Parameter::EgSustain,
        Parameter::EgRelease,
    ] {
        assert_eq!(oscillator.get_param(&param), 0);
        oscillator.set_param(&param, 5 * ONE);
        assert_eq!(oscillator.get_param(&param), 0);
        assert_eq!(oscillator.get_wavetable(), SINE);
        assert_eq!(oscillator.phase(), phase);
        assert_eq!(oscillator.get_param(&Parameter::OscWtTableIndex), 3 * ONE);
    }
    oscillator.process(RATE);
    assert_eq!(oscillator.phase(), phase + 319_274);
}

#[test]
fn the_wavetable_passes_over_notes() {
    let mut oscillator = at_440();
    let mut other = at_440();
    for call in 0..200u16 {
        oscillator.trigger(&Event::NoteOn { note: call, velocity: ONE });
        oscillator.trigger(&Event::NoteOff { note: call });
        assert_eq!(oscillator.process(RATE), other.process(RATE));
        assert_eq!(oscillator.phase(), other.phase());
        assert_eq!(oscillator.get_wavetable(), other.get_wavetable());
    }
}
