//! The wavetable oscillator: a phase that runs through a small table of
//! levels, and the ways to edit the table.

use vstd::arithmetic::div_mod::{lemma_add_mod_noop, lemma_mod_bound, lemma_small_mod};
use vstd::prelude::*;

use crate::soyboy::constants::{ONE, PITCH_MAX, WAVETABLE_SIZE};
use crate::soyboy::event::{Event, Triggered};
use crate::soyboy::parameters::{Parameter, Parametric};
use crate::soyboy::random::{random_u32, spec_unit_from_random, unit_from_random};
use crate::soyboy::types::{spec_quantize, AudioProcessor, I4, I4_MAX, I4_MIN};
use crate::soyboy::utils::{clamp, spec_clamp};

verus! {

/// One cycle of a sine at the highest level, entry by entry: `7 * sin(2 * pi *
/// i / 32)`, each rounded to the nearest level.
pub const SINE_TABLE: [i8; WAVETABLE_SIZE] = [
    0, 1, 3, 4, 5, 6, 6, 7, 7, 7, 6, 6, 5, 4, 3, 1,
    0, -1, -3, -4, -5, -6, -6, -7, -7, -7, -6, -6, -5, -4, -3, -1,
];

/// The length of the table in phase units: millionths of one entry.
pub open spec fn spec_phase_length() -> int {
    WAVETABLE_SIZE * ONE
}

/// The levels of one cycle of a sine.
pub open spec fn spec_sine_table() -> Seq<int> {
    seq![
        0int, 1, 3, 4, 5, 6, 6, 7, 7, 7, 6, 6, 5, 4, 3, 1,
        0, -1, -3, -4, -5, -6, -6, -7, -7, -7, -6, -6, -5, -4, -3, -1,
    ]
}

/// The level that a draw puts into the wavetable: the draw's number of the
/// unit interval, spread from `-ONE` to `ONE` and taken as a normalized value.
pub open spec fn spec_random_level(raw: u32) -> int {
    spec_quantize((2 * spec_unit_from_random(raw) - ONE) * I4_MAX)
}

/// Turns one draw into a level of the wavetable.
pub fn random_level(raw: u32) -> (sample: I4)
    ensures
        sample@ == spec_random_level(raw),
        sample.wf(),
{
    I4::from_normalized(2 * unit_from_random(raw) - ONE)
}

/// The levels that `draws` put into a table, entry by entry.
pub open spec fn spec_random_table(draws: Seq<u32>) -> Seq<int> {
    Seq::new(draws.len(), |i: int| spec_random_level(draws[i]))
}

/// What a wavetable oscillator holds, as mathematical integers.
pub struct WaveTableModel {
    /// Position in the table, in millionths of one entry.
    pub phase: int,
    /// Bend ratio of the pitch, in millionths.
    pub pitch: int,
    /// Frequency of the note, in millionths of a hertz.
    pub freq: int,
    /// The levels of the table.
    pub table: Seq<int>,
    /// The cursor of the single-entry editing path.
    pub index: int,
}

impl WaveTableModel {
    /// The table has its fixed length and holds levels, the phase and the
    /// cursor lie in it, and frequency and pitch are not negative.
    pub open spec fn wf(self) -> bool {
        &&& 0 <= self.phase < spec_phase_length()
        &&& 0 <= self.pitch <= PITCH_MAX
        &&& 0 <= self.freq <= i64::MAX
        &&& self.table.len() == WAVETABLE_SIZE
        &&& forall|i: int| 0 <= i < self.table.len() ==> I4_MIN <= #[trigger] self.table[i] <= I4_MAX
        &&& 0 <= self.index < WAVETABLE_SIZE
    }

    /// An oscillator as it is made: at rest at the start of one cycle of a
    /// sine.
    pub open spec fn initial() -> WaveTableModel {
        WaveTableModel { phase: 0, pitch: 0, freq: 0, table: spec_sine_table(), index: 0 }
    }

    /// The phase that one sample at `sample_rate` Hz adds: the share of a
    /// cycle that the bent frequency covers in one sample, times the table's
    /// length, in millionths of an entry, rounded down.
    pub open spec fn phase_step(self, sample_rate: int) -> int {
        (self.freq * self.pitch * WAVETABLE_SIZE) / (sample_rate * ONE)
    }

    /// The oscillator after one sample at `sample_rate` Hz: the phase has
    /// moved on by one step, modulo the table's length.
    pub open spec fn process(self, sample_rate: int) -> WaveTableModel {
        WaveTableModel {
            phase: (self.phase + self.phase_step(sample_rate)) % spec_phase_length(),
            ..self
        }
    }

    /// The sample that `process` returns: the entry that the phase lies in,
    /// read before the phase moves and not interpolated.
    pub open spec fn output(self) -> int {
        self.table[self.phase / (ONE as int)]
    }

    /// The oscillator after `calls` samples at `sample_rate` Hz.
    pub open spec fn run(self, sample_rate: int, calls: nat) -> WaveTableModel
        decreases calls,
    {
        if calls == 0 {
            self
        } else {
            self.run(sample_rate, (calls - 1) as nat).process(sample_rate)
        }
    }

    /// The oscillator with the note's frequency set; a negative one counts as
    /// 0.
    pub open spec fn set_freq(self, freq: int) -> WaveTableModel {
        WaveTableModel { freq: spec_clamp(freq, 0, i64::MAX as int), ..self }
    }

    /// The oscillator with entry `idx` set from a normalized `value`; an `idx`
    /// outside the table changes nothing.
    pub open spec fn set_wave_table(self, idx: int, value: int) -> WaveTableModel {
        if 0 <= idx < WAVETABLE_SIZE {
            WaveTableModel { table: self.table.update(idx, spec_quantize(value * I4_MAX)), ..self }
        } else {
            self
        }
    }

    /// The oscillator with its table filled from `draws`.
    pub open spec fn randomized(self, draws: Seq<u32>) -> WaveTableModel {
        WaveTableModel { table: spec_random_table(draws), ..self }
    }

    /// The oscillator after `event`, for every event but the random reset,
    /// whose outcome `randomized` gives for each sequence of draws.
    pub open spec fn trigger(self, event: Event) -> WaveTableModel {
        match event {
            Event::PitchBend { ratio } => WaveTableModel {
                pitch: spec_clamp(ratio as int, 0, PITCH_MAX as int),
                ..self
            },
            Event::SetWaveTable { idx, value } => self.set_wave_table(idx as int, value as int),
            Event::ResetWaveTableAsSine => WaveTableModel { table: spec_sine_table(), ..self },
            _ => self,
        }
    }

    /// The snapshot that an export hands out: the levels in ascending order of
    /// their index.
    pub open spec fn export(self) -> Seq<int> {
        self.table
    }

    /// Whether the oscillator has a value under `param`.
    pub open spec fn recognizes(param: Parameter) -> bool {
        param is OscWtTableIndex || param is OscWtTableValue
    }

    /// Whether `value` is one that `param` can hold: a whole index of the
    /// table, a whole level.
    pub open spec fn in_domain(param: Parameter, value: int) -> bool {
        match param {
            Parameter::OscWtTableIndex => value % (ONE as int) == 0 && 0 <= value
                < spec_phase_length(),
            Parameter::OscWtTableValue => value % (ONE as int) == 0 && I4_MIN * ONE <= value
                <= I4_MAX * ONE,
            _ => false,
        }
    }

    /// The oscillator after `param` is set to `value`. The cursor takes the
    /// whole part of the value, modulo the table's length; the entry under the
    /// cursor takes the value, quantized; a parameter of another component
    /// changes nothing.
    pub open spec fn set_param(self, param: Parameter, value: int) -> WaveTableModel {
        match param {
            Parameter::OscWtTableIndex => WaveTableModel {
                index: (value / (ONE as int)) % (WAVETABLE_SIZE as int),
                ..self
            },
            Parameter::OscWtTableValue => WaveTableModel {
                table: self.table.update(self.index, spec_quantize(value)),
                ..self
            },
            _ => self,
        }
    }

    /// The value under `param`: the cursor, or the level of the entry under
    /// it; 0 for a parameter of another component.
    pub open spec fn get_param(self, param: Parameter) -> int {
        match param {
            Parameter::OscWtTableIndex => self.index * ONE,
            Parameter::OscWtTableValue => self.table[self.index] * ONE,
            _ => 0,
        }
    }

    /// Every operation keeps an oscillator's values in their domains, and
    /// every sample is a level of the table.
    pub proof fn lemma_wf_preserved(
        self,
        event: Event,
        draws: Seq<u32>,
        param: Parameter,
        value: int,
        sample_rate: int,
    )
        requires
            self.wf(),
            0 < sample_rate,
            draws.len() == WAVETABLE_SIZE,
        ensures
            self.process(sample_rate).wf(),
            self.set_freq(value).wf(),
            self.trigger(event).wf(),
            self.randomized(draws).wf(),
            self.set_param(param, value).wf(),
            WaveTableModel::initial().wf(),
            I4_MIN <= self.output() <= I4_MAX,
    {
        lemma_mod_bound(self.phase + self.phase_step(sample_rate), spec_phase_length());
        lemma_mod_bound(value / (ONE as int), WAVETABLE_SIZE as int);
    }

    /// Producing samples changes nothing but the phase.
    pub proof fn lemma_run_keeps_settings(self, sample_rate: int, calls: nat)
        ensures
            self.run(sample_rate, calls).table == self.table,
            self.run(sample_rate, calls).freq == self.freq,
            self.run(sample_rate, calls).pitch == self.pitch,
            self.run(sample_rate, calls).index == self.index,
            self.run(sample_rate, calls).phase_step(sample_rate) == self.phase_step(sample_rate),
        decreases calls,
    {
        if calls > 0 {
            self.lemma_run_keeps_settings(sample_rate, (calls - 1) as nat);
        }
    }

    /// The phase is a sum modulo the table's length. At a constant frequency,
    /// pitch and sample rate every sample adds the same step, and after
    /// `calls` samples the phase is the phase at the start plus `calls` steps,
    /// reduced modulo the table's length.
    pub proof fn lemma_phase_after(self, sample_rate: int, calls: nat)
        requires
            self.wf(),
            0 < sample_rate,
        ensures
            self.run(sample_rate, calls).phase == (self.phase + calls * self.phase_step(
                sample_rate,
            )) % spec_phase_length(),
            self.run(sample_rate, calls).wf(),
        decreases calls,
    {
        let step = self.phase_step(sample_rate);
        let length = spec_phase_length();
        if calls == 0 {
            assert(0 * step == 0) by (nonlinear_arith);
            lemma_small_mod(self.phase as nat, length as nat);
        } else {
            self.lemma_phase_after(sample_rate, (calls - 1) as nat);
            self.lemma_run_keeps_settings(sample_rate, (calls - 1) as nat);
            let before = self.run(sample_rate, (calls - 1) as nat);
            before.lemma_wf_preserved(
                Event::ResetWaveTableAsSine,
                Seq::new(WAVETABLE_SIZE as nat, |i: int| 0u32),
                Parameter::PitchBend,
                0,
                sample_rate,
            );
            let sum = self.phase + (calls - 1) * step;
            assert(sum + step == self.phase + calls * step) by (nonlinear_arith)
                requires
                    sum == self.phase + (calls - 1) * step,
            ;
            lemma_add_mod_noop(sum, step, length);
            lemma_mod_bound(step, length);
            lemma_add_mod_noop(before.phase, step, length);
            lemma_small_mod(before.phase as nat, length as nat);
        }
    }

    /// Setting one entry shows in the export at that entry alone: the
    /// snapshot taken afterwards holds the quantized value at `idx` and is
    /// unchanged everywhere else. An `idx` outside the table changes nothing.
    pub proof fn lemma_set_then_export(self, idx: usize, value: i64)
        requires
            self.wf(),
        ensures
            ({
                let after = self.trigger(Event::SetWaveTable { idx, value });
                &&& after.export().len() == self.export().len()
                &&& idx < WAVETABLE_SIZE ==> after.export()[idx as int] == spec_quantize(
                    value * I4_MAX,
                )
                &&& forall|i: int|
                    0 <= i < WAVETABLE_SIZE && i != idx ==> after.export()[i] == self.export()[i]
                &&& idx >= WAVETABLE_SIZE ==> after == self
            }),
    {
    }

    /// The shape of the sine table: it crosses zero at its first entry and
    /// half way, peaks at the highest level a quarter of the way, rises over
    /// the first quarter, mirrors itself about the peak, and its second half
    /// is the first turned upside down.
    pub proof fn lemma_sine_shape()
        ensures
            spec_sine_table().len() == WAVETABLE_SIZE,
            spec_sine_table()[0] == 0,
            spec_sine_table()[WAVETABLE_SIZE as int / 2] == 0,
            spec_sine_table()[WAVETABLE_SIZE as int / 4] == I4_MAX,
            forall|i: int|
                0 <= i < 8 ==> #[trigger] spec_sine_table()[i] <= spec_sine_table()[i + 1],
            forall|i: int|
                0 <= i <= 16 ==> spec_sine_table()[16 - i] == #[trigger] spec_sine_table()[i],
            forall|i: int|
                0 <= i < 16 ==> spec_sine_table()[i + 16] == -(#[trigger] spec_sine_table()[i]),
            forall|i: int| 0 <= i < 32 ==> -I4_MAX <= #[trigger] spec_sine_table()[i] <= I4_MAX,
    {
        let t = spec_sine_table();
        lemma_sine_entries();
        assert forall|i: int| 0 <= i < 8 implies #[trigger] t[i] <= t[i + 1] by {
            lemma_index_cases(i);
        }
        assert forall|i: int| 0 <= i <= 16 implies t[16 - i] == #[trigger] t[i] by {
            lemma_index_cases(i);
        }
        assert forall|i: int| 0 <= i < 16 implies t[i + 16] == -(#[trigger] t[i]) by {
            lemma_index_cases(i);
        }
        assert forall|i: int| 0 <= i < 32 implies -I4_MAX <= #[trigger] t[i] <= I4_MAX by {
            lemma_index_cases(i);
        }
    }

    /// A sine reset shows in the export whatever the table held before: the
    /// snapshot taken afterwards is one cycle of a sine, with its zero
    /// crossings at the first entry and half way.
    pub proof fn lemma_sine_reset_then_export(self)
        ensures
            ({
                let after = self.trigger(Event::ResetWaveTableAsSine);
                &&& after.export() == spec_sine_table()
                &&& after.export().len() == WAVETABLE_SIZE
                &&& after.export()[0] == 0
                &&& after.export()[WAVETABLE_SIZE as int / 2] == 0
            }),
    {
        lemma_sine_entries();
    }

    /// A value of a parameter's domain is read back as it was set.
    pub proof fn lemma_param_round_trip(self, param: Parameter, value: int)
        requires
            self.wf(),
            WaveTableModel::in_domain(param, value),
        ensures
            WaveTableModel::recognizes(param),
            self.set_param(param, value).get_param(param) == value,
    {
    }

    /// A parameter of another component reads as 0, and setting it changes
    /// nothing.
    pub proof fn lemma_unknown_param(self, param: Parameter, value: int)
        requires
            !WaveTableModel::recognizes(param),
        ensures
            self.get_param(param) == 0,
            self.set_param(param, value) == self,
    {
    }
}

/// An index of the table is one of thirty-two numbers.
proof fn lemma_index_cases(i: int)
    requires
        0 <= i < 32,
    ensures
        i == 0 || i == 1 || i == 2 || i == 3 || i == 4 || i == 5 || i == 6 || i == 7 || i == 8
            || i == 9 || i == 10 || i == 11 || i == 12 || i == 13 || i == 14 || i == 15 || i
            == 16 || i == 17 || i == 18 || i == 19 || i == 20 || i == 21 || i == 22 || i == 23
            || i == 24 || i == 25 || i == 26 || i == 27 || i == 28 || i == 29 || i == 30 || i
            == 31,
{
}

/// The entries of the sine table, one by one.
proof fn lemma_sine_entries()
    ensures
        spec_sine_table().len() == 32,
        spec_sine_table()[0] == 0,
        spec_sine_table()[1] == 1,
        spec_sine_table()[2] == 3,
        spec_sine_table()[3] == 4,
        spec_sine_table()[4] == 5,
        spec_sine_table()[5] == 6,
        spec_sine_table()[6] == 6,
        spec_sine_table()[7] == 7,
        spec_sine_table()[8] == 7,
        spec_sine_table()[9] == 7,
        spec_sine_table()[10] == 6,
        spec_sine_table()[11] == 6,
        spec_sine_table()[12] == 5,
        spec_sine_table()[13] == 4,
        spec_sine_table()[14] == 3,
        spec_sine_table()[15] == 1,
        spec_sine_table()[16] == 0,
        spec_sine_table()[17] == -1,
        spec_sine_table()[18] == -3,
        spec_sine_table()[19] == -4,
        spec_sine_table()[20] == -5,
        spec_sine_table()[21] == -6,
        spec_sine_table()[22] == -6,
        spec_sine_table()[23] == -7,
        spec_sine_table()[24] == -7,
        spec_sine_table()[25] == -7,
        spec_sine_table()[26] == -6,
        spec_sine_table()[27] == -6,
        spec_sine_table()[28] == -5,
        spec_sine_table()[29] == -4,
        spec_sine_table()[30] == -3,
        spec_sine_table()[31] == -1,
{
}

/// The whole part of `value` millionths, modulo the table's length.
fn cursor_from_fixed(value: i64) -> (index: usize)
    ensures
        index == (value as int / (ONE as int)) % (WAVETABLE_SIZE as int),
        index < WAVETABLE_SIZE,
{
    if value >= 0 {
        ((value / ONE) % 32) as usize
    } else {
        let below: i64 = -(value + 1);
        (31 - (below / ONE) % 32) as usize
    }
}

/// A phase-accumulator oscillator that reads a small table which can be edited
/// while it plays.
pub struct WaveTableOscillator {
    phase: i64,
    pitch: i64,
    freq: i64,
    table: [I4; WAVETABLE_SIZE],
    index: usize,
}

impl View for WaveTableOscillator {
    type V = WaveTableModel;

    closed spec fn view(&self) -> WaveTableModel {
        WaveTableModel {
            phase: self.phase as int,
            pitch: self.pitch as int,
            freq: self.freq as int,
            table: Seq::new(WAVETABLE_SIZE as nat, |i: int| self.table[i]@),
            index: self.index as int,
        }
    }
}

impl WaveTableOscillator {
    /// Every oscillator holds values of their domains.
    #[verifier::type_invariant]
    pub open spec fn wf(self) -> bool {
        self@.wf()
    }

    /// An oscillator at rest, with one cycle of a sine in its table.
    pub fn new() -> (oscillator: WaveTableOscillator)
        ensures
            oscillator.wf(),
            oscillator@ == WaveTableModel::initial(),
    {
        let mut oscillator = WaveTableOscillator {
            phase: 0,
            freq: 0,
            pitch: 0,
            table: [I4::new(0);WAVETABLE_SIZE],
            index: 0,
        };
        oscillator.initialize_table();
        oscillator
    }

    /// Each entry of a well-formed oscillator's table is a level.
    proof fn lemma_entries_wf(self)
        requires
            self.wf(),
        ensures
            forall|j: int| 0 <= j < WAVETABLE_SIZE ==> (#[trigger] self.table[j]).wf(),
    {
        assert forall|j: int| 0 <= j < WAVETABLE_SIZE implies (#[trigger] self.table[j]).wf() by {
            assert(self@.table[j] == self.table[j]@);
        }
    }

    /// Replaces the table by `table`.
    fn set_table(&mut self, table: [I4; WAVETABLE_SIZE])
        requires
            forall|j: int| 0 <= j < WAVETABLE_SIZE ==> (#[trigger] table[j]).wf(),
        ensures
            final(self)@ == (WaveTableModel {
                table: Seq::new(WAVETABLE_SIZE as nat, |i: int| table[i]@),
                ..old(self)@
            }),
    {
        proof {
            use_type_invariant(&*self);
        }
        self.table = table;
    }

    /// Replaces the entry at `idx` by `sample`.
    fn set_entry(&mut self, idx: usize, sample: I4)
        requires
            idx < WAVETABLE_SIZE,
            sample.wf(),
        ensures
            final(self)@ == (WaveTableModel {
                table: old(self)@.table.update(idx as int, sample@),
                ..old(self)@
            }),
    {
        proof {
            use_type_invariant(&*self);
            self.lemma_entries_wf();
        }
        let mut table = self.table;
        table[idx] = sample;
        self.set_table(table);
        assert(self@.table =~= old(self)@.table.update(idx as int, sample@));
    }

    /// Fills the table from `draws`, entry by entry.
    pub fn randomize_table_from(&mut self, draws: &[u32; WAVETABLE_SIZE])
        ensures
            final(self)@ == old(self)@.randomized(draws@),
    {
        proof {
            use_type_invariant(&*self);
            self.lemma_entries_wf();
        }
        let mut table = self.table;
        let mut i: usize = 0;
        while i < WAVETABLE_SIZE
            invariant
                i <= WAVETABLE_SIZE,
                forall|j: int| 0 <= j < WAVETABLE_SIZE ==> (#[trigger] table[j]).wf(),
                forall|j: int| 0 <= j < i ==> (#[trigger] table[j])@ == spec_random_level(draws[j]),
            decreases WAVETABLE_SIZE - i,
        {
            table[i] = random_level(draws[i]);
            i += 1;
        }
        self.set_table(table);
        assert(self@.table =~= spec_random_table(draws@));
    }

    /// Fills the table with fresh random levels. Whatever was drawn, each
    /// entry is the level of its own draw.
    fn randomize_table(&mut self)
        ensures
            exists|draws: Seq<u32>|
                draws.len() == WAVETABLE_SIZE && final(self)@ == #[trigger] old(self)@.randomized(
                    draws,
                ),
    {
        let mut draws = [0u32;WAVETABLE_SIZE];
        let mut i: usize = 0;
        while i < WAVETABLE_SIZE
            invariant
                i <= WAVETABLE_SIZE,
            decreases WAVETABLE_SIZE - i,
        {
            draws[i] = random_u32();
            i += 1;
        }
        self.randomize_table_from(&draws);
    }

    /// Fills the table with one cycle of a sine.
    fn initialize_table(&mut self)
        ensures
            final(self)@ == (WaveTableModel { table: spec_sine_table(), ..old(self)@ }),
    {
        proof {
            use_type_invariant(&*self);
            self.lemma_entries_wf();
        }
        let mut table = self.table;
        let mut i: usize = 0;
        while i < WAVETABLE_SIZE
            invariant
                i <= WAVETABLE_SIZE,
                forall|j: int| 0 <= j < WAVETABLE_SIZE ==> (#[trigger] table[j]).wf(),
                forall|j: int| 0 <= j < i ==> (#[trigger] table[j])@ == spec_sine_table()[j],
            decreases WAVETABLE_SIZE - i,
        {
            proof {
                lemma_sine_entries();
            }
            table[i] = I4::new(SINE_TABLE[i]);
            i += 1;
        }
        self.set_table(table);
        assert(self@.table =~= spec_sine_table());
    }

    /// A snapshot of the table, one byte for each entry, in ascending order of
    /// the index.
    pub fn get_wavetable(&self) -> (wavetable: [i8; 32])
        ensures
            wavetable@.len() == self@.export().len(),
            forall|i: int| 0 <= i < WAVETABLE_SIZE ==> wavetable[i] as int == self@.export()[i],
    {
        let mut table: [i8; WAVETABLE_SIZE] = [0;WAVETABLE_SIZE];
        let mut i: usize = 0;
        while i < WAVETABLE_SIZE
            invariant
                i <= WAVETABLE_SIZE,
                forall|j: int| 0 <= j < i ==> table[j] as int == (#[trigger] self.table[j])@,
            decreases WAVETABLE_SIZE - i,
        {
            table[i] = self.table[i].to_i8();
            i += 1;
        }
        table
    }

    /// The position in the table, in millionths of one entry.
    pub fn phase(&self) -> (phase: i64)
        ensures
            phase == self@.phase,
            0 <= phase < spec_phase_length(),
    {
        proof {
            use_type_invariant(self);
        }
        self.phase
    }
}

impl AudioProcessor<I4> for WaveTableOscillator {
    /// Produces one sample at `sample_rate` Hz: the entry that the phase lies
    /// in; then the phase moves on.
    fn process(&mut self, sample_rate: u32) -> (sample: I4)
        ensures
            final(self)@ == old(self)@.process(sample_rate as int),
            sample@ == old(self)@.output(),
            sample.wf(),
    {
        proof {
            use_type_invariant(&*self);
        }
        let sample = self.table[(self.phase / ONE) as usize];
        let freq = self.freq as i128;
        let pitch = self.pitch as i128;
        assert(0 <= freq * pitch <= 0x7FFF_FFFF_FFFF_FFFF * 0xFFFF_FFFF) by (nonlinear_arith)
            requires
                0 <= freq <= 0x7FFF_FFFF_FFFF_FFFF,
                0 <= pitch <= 0xFFFF_FFFF,
        ;
        let step: i128 = (freq * pitch * 32) / ((sample_rate as i128) * 1_000_000);
        assert(0 <= step) by (nonlinear_arith)
            requires
                0 <= freq * pitch * 32,
                0 < (sample_rate as i128) * 1_000_000,
                step == (freq * pitch * 32) / ((sample_rate as i128) * 1_000_000),
        ;
        assert(step <= freq * pitch * 32) by (nonlinear_arith)
            requires
                0 <= freq * pitch * 32,
                0 < (sample_rate as i128) * 1_000_000,
                step == (freq * pitch * 32) / ((sample_rate as i128) * 1_000_000),
        ;
        self.phase = (((self.phase as i128) + step) % 32_000_000) as i64;
        assert(self@.table =~= old(self)@.table);
        sample
    }

    /// Sets the frequency of the note, in millionths of a hertz; a negative
    /// one counts as 0.
    fn set_freq(&mut self, freq: i64)
        ensures
            final(self)@ == old(self)@.set_freq(freq as int),
    {
        proof {
            use_type_invariant(&*self);
        }
        self.freq = clamp(freq, 0, i64::MAX);
        assert(self@.table =~= old(self)@.table);
    }
}

impl Triggered for WaveTableOscillator {
    /// Applies `event`: a pitch bend sets the ratio, a table edit sets one
    /// entry and passes over an index outside the table, and the two resets
    /// fill the table anew. The random reset gives the table of whatever was
    /// drawn. Every other event is passed over.
    fn trigger(&mut self, event: &Event)
        ensures
            match *event {
                Event::ResetWaveTableAtRandom => exists|draws: Seq<u32>|
                    draws.len() == WAVETABLE_SIZE && final(self)@ == #[trigger] old(
                        self,
                    )@.randomized(draws),
                _ => final(self)@ == old(self)@.trigger(*event),
            },
    {
        proof {
            use_type_invariant(&*self);
        }
        match event {
            Event::PitchBend { ratio } => {
                self.pitch = clamp(*ratio, 0, PITCH_MAX);
                assert(self@.table =~= old(self)@.table);
            },
            Event::SetWaveTable { idx, value } => {
                let idx = *idx;
                if idx < WAVETABLE_SIZE {
                    self.set_entry(idx, I4::from_normalized(*value));
                }
            },
            Event::ResetWaveTableAsSine => {
                self.initialize_table();
            },
            Event::ResetWaveTableAtRandom => {
                self.randomize_table();
            },
            _ => (),
        }
    }
}

impl Parametric for WaveTableOscillator {
    open spec fn recognizes(param: Parameter) -> bool {
        WaveTableModel::recognizes(param)
    }

    open spec fn in_domain(param: Parameter, value: int) -> bool {
        WaveTableModel::in_domain(param, value)
    }

    open spec fn value_of(&self, param: Parameter) -> int {
        self@.get_param(param)
    }

    /// Sets the value under `param`: the cursor, or the entry under it; a
    /// parameter of another component changes nothing.
    fn set_param(&mut self, param: &Parameter, value: i64)
        ensures
            final(self)@ == old(self)@.set_param(*param, value as int),
    {
        proof {
            use_type_invariant(&*self);
        }
        match param {
            Parameter::OscWtTableIndex => {
                self.index = cursor_from_fixed(value);
                assert(self@.table =~= old(self)@.table);
            },
            Parameter::OscWtTableValue => {
                self.set_entry(self.index, I4::from_fixed(value));
            },
            _ => (),
        }
    }

    /// The value under `param`; 0 for a parameter of another component.
    fn get_param(&self, param: &Parameter) -> (value: i64)
        ensures
            value == self@.get_param(*param),
    {
        proof {
            use_type_invariant(self);
        }
        match param {
            Parameter::OscWtTableIndex => (self.index as i64) * ONE,
            Parameter::OscWtTableValue => self.table[self.index].to_fixed(),
            _ => 0,
        }
    }
}

} // verus!
