//! The noise oscillator: a table of random levels that a clock steps through.

use vstd::prelude::*;

use crate::soyboy::constants::{INTERVAL_MAX, NANOS_PER_SECOND, NOISE_TABLE_SIZE, ONE};
use crate::soyboy::event::{Event, Triggered};
use crate::soyboy::parameters::{Parameter, Parametric};
use crate::soyboy::random::{random_u32, spec_unit_from_random, unit_from_random};
use crate::soyboy::types::{spec_quantize, AudioProcessor, I4, I4_MAX, I4_MIN, I4_RANGE};
use crate::soyboy::utils::{clamp, spec_clamp};

verus! {

/// The level that a draw puts into the noise table: the draw's number of the
/// unit interval, spread over the sixteen levels and quantized.
pub open spec fn spec_noise_level(raw: u32) -> int {
    spec_quantize(I4_RANGE * spec_unit_from_random(raw) + I4_MIN * ONE)
}

/// Turns one draw into a level of the noise table.
pub fn noise_level(raw: u32) -> (sample: I4)
    ensures
        sample@ == spec_noise_level(raw),
        sample.wf(),
{
    I4::from_fixed((I4_RANGE as i64) * unit_from_random(raw) + (I4_MIN as i64) * ONE)
}

/// What a noise oscillator holds, as mathematical integers.
pub struct NoiseModel {
    /// Time for which one table entry is held, in nanoseconds.
    pub interval_msec: int,
    /// Time counted since the last step, in nanoseconds.
    pub sec_counter: int,
    /// The levels of the table.
    pub table: Seq<int>,
    /// The entry that is being held.
    pub table_index: int,
}

impl NoiseModel {
    /// The table has its fixed length and holds levels, the index lies in it,
    /// and the hold time is at most `INTERVAL_MAX`.
    pub open spec fn wf(self) -> bool {
        &&& 0 <= self.interval_msec <= INTERVAL_MAX
        &&& 0 <= self.sec_counter <= u64::MAX
        &&& self.table.len() == NOISE_TABLE_SIZE
        &&& forall|i: int| 0 <= i < self.table.len() ==> I4_MIN <= #[trigger] self.table[i] <= I4_MAX
        &&& 0 <= self.table_index < NOISE_TABLE_SIZE
    }

    /// An oscillator as it is made around `table`: a hold time of a tenth of a
    /// millisecond, on the first entry.
    pub open spec fn initial(table: Seq<int>) -> NoiseModel {
        NoiseModel { interval_msec: 100_000, sec_counter: 0, table, table_index: 0 }
    }

    /// Whether the sample that comes next moves to the next entry: the time
    /// counted has reached the hold time.
    pub open spec fn steps(self) -> bool {
        self.sec_counter >= self.interval_msec
    }

    /// The oscillator after one sample at `sample_rate` Hz. Once the time
    /// counted has reached the hold time the next entry is taken, the first
    /// after the last, and the count starts again; then the length of one
    /// sample, in whole nanoseconds, is counted.
    pub open spec fn process(self, sample_rate: int) -> NoiseModel {
        NoiseModel {
            table_index: if self.steps() {
                (self.table_index + 1) % (NOISE_TABLE_SIZE as int)
            } else {
                self.table_index
            },
            sec_counter: (if self.steps() {
                0
            } else {
                self.sec_counter
            }) + NANOS_PER_SECOND as int / sample_rate,
            ..self
        }
    }

    /// The sample that `process` returns: the entry held after the step.
    pub open spec fn output(self, sample_rate: int) -> int {
        self.table[self.process(sample_rate).table_index]
    }

    /// The oscillator after `calls` samples at `sample_rate` Hz.
    pub open spec fn run(self, sample_rate: int, calls: nat) -> NoiseModel
        decreases calls,
    {
        if calls == 0 {
            self
        } else {
            self.run(sample_rate, (calls - 1) as nat).process(sample_rate)
        }
    }

    /// Whether the oscillator has a value under `param`.
    pub open spec fn recognizes(param: Parameter) -> bool {
        param is OscNsInterval
    }

    /// Whether `value` is one that `param` can hold: a hold time from 0 to
    /// `INTERVAL_MAX` nanoseconds.
    pub open spec fn in_domain(param: Parameter, value: int) -> bool {
        param is OscNsInterval && 0 <= value <= INTERVAL_MAX
    }

    /// The oscillator after `param` is set to `value`. A value outside the
    /// domain goes to the nearer end of it; a parameter of another component
    /// changes nothing.
    pub open spec fn set_param(self, param: Parameter, value: int) -> NoiseModel {
        match param {
            Parameter::OscNsInterval => NoiseModel {
                interval_msec: spec_clamp(value, 0, INTERVAL_MAX as int),
                ..self
            },
            _ => self,
        }
    }

    /// The value under `param`; 0 for a parameter of another component.
    pub open spec fn get_param(self, param: Parameter) -> int {
        match param {
            Parameter::OscNsInterval => self.interval_msec,
            _ => 0,
        }
    }

    /// Every operation keeps an oscillator's values in their domains, and
    /// every sample is a level of the table.
    pub proof fn lemma_wf_preserved(self, param: Parameter, value: int, sample_rate: int)
        requires
            self.wf(),
            0 < sample_rate,
        ensures
            self.process(sample_rate).wf(),
            self.set_param(param, value).wf(),
            I4_MIN <= self.output(sample_rate) <= I4_MAX,
    {
        assert(0 <= NANOS_PER_SECOND as int / sample_rate <= NANOS_PER_SECOND)
            by (nonlinear_arith)
            requires
                0 < sample_rate,
        ;
    }

    /// Producing samples changes neither the table nor the hold time.
    pub proof fn lemma_run_keeps_settings(self, sample_rate: int, calls: nat)
        requires
            self.wf(),
            0 < sample_rate,
        ensures
            self.run(sample_rate, calls).wf(),
            self.run(sample_rate, calls).table == self.table,
            self.run(sample_rate, calls).interval_msec == self.interval_msec,
        decreases calls,
    {
        if calls > 0 {
            self.lemma_run_keeps_settings(sample_rate, (calls - 1) as nat);
            self.run(sample_rate, (calls - 1) as nat).lemma_wf_preserved(
                Parameter::PitchBend,
                0,
                sample_rate,
            );
        }
    }

    /// Sample and hold. At a constant sample rate, with `step` the length of
    /// one sample in whole nanoseconds: as long as the time counted stays
    /// below the hold time, the oscillator stays on its entry and returns it;
    /// the first sample after the count has reached the hold time returns the
    /// next entry, the first after the last, and the count starts again.
    pub proof fn lemma_sample_and_hold(self, sample_rate: int, calls: nat)
        requires
            self.wf(),
            0 < sample_rate,
        ensures
            ({
                let step = NANOS_PER_SECOND as int / sample_rate;
                let after = self.run(sample_rate, calls);
                let next = (self.table_index + 1) % (NOISE_TABLE_SIZE as int);
                &&& self.sec_counter + calls * step < self.interval_msec ==> {
                    &&& after.table_index == self.table_index
                    &&& after.sec_counter == self.sec_counter + calls * step
                    &&& after.output(sample_rate) == self.table[self.table_index]
                }
                &&& (calls == 0 || self.sec_counter + (calls - 1) * step < self.interval_msec)
                    && self.sec_counter + calls * step >= self.interval_msec ==> {
                    &&& after.table_index == self.table_index
                    &&& after.output(sample_rate) == self.table[next]
                    &&& after.process(sample_rate).table_index == next
                    &&& after.process(sample_rate).sec_counter == step
                }
            }),
        decreases calls,
    {
        let step = NANOS_PER_SECOND as int / sample_rate;
        assert(0 <= step) by (nonlinear_arith)
            requires
                0 < sample_rate,
                step == NANOS_PER_SECOND as int / sample_rate,
        ;
        self.lemma_run_keeps_settings(sample_rate, calls);
        if calls > 0 {
            self.lemma_sample_and_hold(sample_rate, (calls - 1) as nat);
            assert((calls - 1) * step + step == calls * step) by (nonlinear_arith);
            assert((calls - 1) * step <= calls * step) by (nonlinear_arith)
                requires
                    0 <= step,
            ;
            if calls > 1 {
                assert((calls - 2) * step <= (calls - 1) * step) by (nonlinear_arith)
                    requires
                        0 <= step,
                ;
            }
        } else {
            assert(0 * step == 0) by (nonlinear_arith);
        }
    }

    /// A value of the parameter's domain is read back as it was set.
    pub proof fn lemma_param_round_trip(self, param: Parameter, value: int)
        requires
            NoiseModel::in_domain(param, value),
        ensures
            NoiseModel::recognizes(param),
            self.set_param(param, value).get_param(param) == value,
    {
    }

    /// A parameter of another component reads as 0, and setting it changes
    /// nothing.
    pub proof fn lemma_unknown_param(self, param: Parameter, value: int)
        requires
            !NoiseModel::recognizes(param),
        ensures
            self.get_param(param) == 0,
            self.set_param(param, value) == self,
    {
    }
}

/// A sample-and-hold noise source: a table of random levels, read one entry at
/// a time and stepped by a clock.
pub struct NoiseOscillator {
    interval_msec: i64,
    sec_counter: u64,
    table: [I4; NOISE_TABLE_SIZE],
    table_index: usize,
}

impl View for NoiseOscillator {
    type V = NoiseModel;

    closed spec fn view(&self) -> NoiseModel {
        NoiseModel {
            interval_msec: self.interval_msec as int,
            sec_counter: self.sec_counter as int,
            table: Seq::new(NOISE_TABLE_SIZE as nat, |i: int| self.table[i]@),
            table_index: self.table_index as int,
        }
    }
}

/// The levels that `draws` put into a table, entry by entry.
pub open spec fn spec_noise_table(draws: Seq<u32>) -> Seq<int> {
    Seq::new(draws.len(), |i: int| spec_noise_level(draws[i]))
}

impl NoiseOscillator {
    /// Every oscillator holds values of their domains.
    #[verifier::type_invariant]
    pub open spec fn wf(self) -> bool {
        self@.wf()
    }

    /// An oscillator around a table of fresh random levels. Whatever was
    /// drawn, each entry is the level of its own draw.
    pub fn new() -> (oscillator: NoiseOscillator)
        ensures
            oscillator.wf(),
            exists|draws: Seq<u32>|
                draws.len() == NOISE_TABLE_SIZE && oscillator@ == NoiseModel::initial(
                    #[trigger] spec_noise_table(draws),
                ),
    {
        let mut table = [I4::new(0);NOISE_TABLE_SIZE];
        let ghost mut draws: Seq<u32> = Seq::new(NOISE_TABLE_SIZE as nat, |i: int| 0u32);
        let mut i: usize = 0;
        while i < NOISE_TABLE_SIZE
            invariant
                i <= NOISE_TABLE_SIZE,
                draws.len() == NOISE_TABLE_SIZE,
                forall|j: int| 0 <= j < i ==> (#[trigger] table[j])@ == spec_noise_level(draws[j]),
                forall|j: int| 0 <= j < NOISE_TABLE_SIZE ==> (#[trigger] table[j]).wf(),
            decreases NOISE_TABLE_SIZE - i,
        {
            let raw = random_u32();
            table[i] = noise_level(raw);
            proof {
                draws = draws.update(i as int, raw);
            }
            i += 1;
        }
        let oscillator = NoiseOscillator {
            interval_msec: 100_000,
            sec_counter: 0,
            table,
            table_index: 0,
        };
        assert(oscillator@.table =~= spec_noise_table(draws));
        oscillator
    }

    /// An oscillator around `table`, on its first entry.
    pub fn with_table(table: [I4; NOISE_TABLE_SIZE]) -> (oscillator: NoiseOscillator)
        ensures
            oscillator.wf(),
            oscillator@ == NoiseModel::initial(Seq::new(NOISE_TABLE_SIZE as nat, |i: int| table[i]@)),
    {
        let mut i: usize = 0;
        while i < NOISE_TABLE_SIZE
            invariant
                i <= NOISE_TABLE_SIZE,
                forall|j: int| 0 <= j < i ==> (#[trigger] table[j]).wf(),
            decreases NOISE_TABLE_SIZE - i,
        {
            let entry = table[i];
            proof {
                use_type_invariant(&entry);
            }
            i += 1;
        }
        NoiseOscillator { interval_msec: 100_000, sec_counter: 0, table, table_index: 0 }
    }

    /// The entry that is being held.
    pub fn table_index(&self) -> (index: usize)
        ensures
            index == self@.table_index,
            index < NOISE_TABLE_SIZE,
    {
        proof {
            use_type_invariant(self);
        }
        self.table_index
    }
}

impl AudioProcessor<I4> for NoiseOscillator {
    /// Produces one sample at `sample_rate` Hz: the table entry that is held
    /// once the clock has been looked at.
    fn process(&mut self, sample_rate: u32) -> (sample: I4)
        ensures
            final(self)@ == old(self)@.process(sample_rate as int),
            sample@ == old(self)@.output(sample_rate as int),
            sample.wf(),
    {
        proof {
            use_type_invariant(&*self);
            old(self)@.lemma_wf_preserved(Parameter::PitchBend, 0, sample_rate as int);
        }
        if self.sec_counter >= self.interval_msec as u64 {
            self.table_index = (self.table_index + 1) % NOISE_TABLE_SIZE;
            self.sec_counter = 0;
        }
        self.sec_counter += NANOS_PER_SECOND / (sample_rate as u64);
        assert(self@.table =~= old(self)@.table);
        self.table[self.table_index]
    }

    /// The noise has no pitch: nothing changes.
    fn set_freq(&mut self, _freq: i64)
        ensures
            final(self)@ == old(self)@,
    {
    }
}

impl Triggered for NoiseOscillator {
    /// The noise is driven by its clock alone: every event is passed over.
    fn trigger(&mut self, event: &Event)
        ensures
            final(self)@ == old(self)@,
    {
        match event {
            Event::NoteOn { note: _, velocity: _ } => {},
            _ => (),
        }
    }
}

impl Parametric for NoiseOscillator {
    open spec fn recognizes(param: Parameter) -> bool {
        NoiseModel::recognizes(param)
    }

    open spec fn in_domain(param: Parameter, value: int) -> bool {
        NoiseModel::in_domain(param, value)
    }

    open spec fn value_of(&self, param: Parameter) -> int {
        self@.get_param(param)
    }

    /// Sets the value under `param`; a parameter of another component changes
    /// nothing.
    fn set_param(&mut self, param: &Parameter, value: i64)
        ensures
            final(self)@ == old(self)@.set_param(*param, value as int),
    {
        proof {
            use_type_invariant(&*self);
        }
        match param {
            Parameter::OscNsInterval => {
                self.interval_msec = clamp(value, 0, INTERVAL_MAX);
                assert(self@.table =~= old(self)@.table);
            },
            _ => (),
        }
    }

    /// The value under `param`; 0 for a parameter of another component.
    fn get_param(&self, param: &Parameter) -> (value: i64)
        ensures
            value == self@.get_param(*param),
    {
        match param {
            Parameter::OscNsInterval => self.interval_msec,
            _ => 0,
        }
    }
}

} // verus!
