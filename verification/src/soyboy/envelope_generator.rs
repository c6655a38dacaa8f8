//! The amplitude envelope: a state machine of five stages that produces one
//! gain for each sample.

use vstd::prelude::*;

use crate::soyboy::constants::{DURATION_MAX, ONE};
use crate::soyboy::event::{Event, Triggered};
use crate::soyboy::parameters::{Parameter, Parametric};
use crate::soyboy::types::AudioProcessor;
use crate::soyboy::utils::{
    clamp, discrete_loudness, interpolate, lemma_discrete_loudness_bounds,
    lemma_interpolate_bounds, lemma_interpolate_monotone, lemma_linear_bounds,
    lemma_linear_last_step, lemma_linear_monotone, lemma_output_bounds, level_from_velocity,
    linear, outlasts, scale, spec_clamp, spec_discrete_loudness, spec_interpolate,
    spec_level_from_velocity, spec_linear, spec_outlasts, spec_scale,
};

verus! {

/// The stage of an envelope. Attack leads to Decay and Decay to Sustain, which
/// is held; Release leads to Off, which lasts until the next note.
#[derive(Clone, Copy, Debug, PartialEq, Eq, Structural)]
pub enum EnvelopeState {
    Attack,
    Decay,
    Sustain,
    Release,
    Off,
}

/// What an envelope generator holds, as mathematical integers. Times are in
/// microseconds, levels in millionths.
pub struct EnvelopeModel {
    /// Length of the attack stage.
    pub attack: int,
    /// Length of the decay stage.
    pub decay: int,
    /// Level that the decay stage ends on.
    pub sustain: int,
    /// Length of the release stage.
    pub release: int,
    /// Velocity of the last note.
    pub velocity: int,
    /// The current stage.
    pub state: EnvelopeState,
    /// Number of samples produced since the stage was entered.
    pub elapsed_samples: int,
    /// The gain produced last, before it was stepped and scaled.
    pub last_value: int,
    /// The anchor: the gain that was frozen when the stage was entered, from
    /// which the stage's ramp starts.
    pub last_state_value: int,
}

impl EnvelopeModel {
    /// Times are at most `DURATION_MAX`, levels lie between 0 and `ONE`, and
    /// the sample count fits 64 bits.
    pub open spec fn wf(self) -> bool {
        &&& 0 <= self.attack <= DURATION_MAX
        &&& 0 <= self.decay <= DURATION_MAX
        &&& 0 <= self.sustain <= ONE
        &&& 0 <= self.release <= DURATION_MAX
        &&& 0 <= self.velocity <= ONE
        &&& 0 <= self.elapsed_samples <= u64::MAX
        &&& 0 <= self.last_value <= ONE
        &&& 0 <= self.last_state_value <= ONE
    }

    /// A generator as it is made: short attack and decay, a sustain level of
    /// three tenths, and no note playing.
    pub open spec fn initial() -> EnvelopeModel {
        EnvelopeModel {
            attack: 50_000,
            decay: 50_000,
            sustain: 300_000,
            release: 100_000,
            velocity: 0,
            state: EnvelopeState::Off,
            elapsed_samples: 1,
            last_value: 0,
            last_state_value: 0,
        }
    }

    /// Whether a note is sounding and has not been released.
    pub open spec fn is_held(self) -> bool {
        self.state is Attack || self.state is Decay || self.state is Sustain
    }

    /// Enters `state`. Where a held note is interrupted, the gain produced last
    /// becomes the anchor.
    pub open spec fn set_state(self, state: EnvelopeState) -> EnvelopeModel {
        EnvelopeModel {
            state,
            elapsed_samples: 0,
            last_state_value: if self.is_held() {
                self.last_value
            } else {
                self.last_state_value
            },
            ..self
        }
    }

    /// A key goes down: Attack is entered and the velocity stored.
    pub open spec fn note_on(self, velocity: int) -> EnvelopeModel {
        EnvelopeModel {
            velocity: spec_clamp(velocity, 0, ONE as int),
            ..self.set_state(EnvelopeState::Attack)
        }
    }

    /// A key goes up: Release is entered from whatever stage, and the gain
    /// produced last becomes the anchor.
    pub open spec fn note_off(self) -> EnvelopeModel {
        EnvelopeModel {
            state: EnvelopeState::Release,
            elapsed_samples: 0,
            last_state_value: self.last_value,
            ..self
        }
    }

    /// The generator after `event`. Only notes concern it.
    pub open spec fn trigger(self, event: Event) -> EnvelopeModel {
        match event {
            Event::NoteOn { note, velocity } => self.note_on(velocity as int),
            Event::NoteOff { note } => self.note_off(),
            _ => self,
        }
    }

    /// The completion test of a sample at `sample_rate` Hz. A stage is over
    /// once the time spent in it exceeds its length; Sustain and Off never end
    /// by themselves. Attack ends with the anchor at full scale.
    pub open spec fn update_state(self, sample_rate: int) -> EnvelopeModel {
        match self.state {
            EnvelopeState::Attack => if spec_outlasts(
                self.elapsed_samples,
                sample_rate,
                self.attack,
            ) {
                EnvelopeModel {
                    last_state_value: ONE as int,
                    ..self.set_state(EnvelopeState::Decay)
                }
            } else {
                self
            },
            EnvelopeState::Decay => if spec_outlasts(
                self.elapsed_samples,
                sample_rate,
                self.decay,
            ) {
                self.set_state(EnvelopeState::Sustain)
            } else {
                self
            },
            EnvelopeState::Sustain => self,
            EnvelopeState::Release => if spec_outlasts(
                self.elapsed_samples,
                sample_rate,
                self.release,
            ) {
                self.set_state(EnvelopeState::Off)
            } else {
                self
            },
            EnvelopeState::Off => self,
        }
    }

    /// The gain of the current stage after `elapsed` samples at `sample_rate`
    /// Hz: Attack climbs from 0 to `ONE`, Decay falls from the anchor to the
    /// sustain level, Sustain holds that level, Release falls from the anchor
    /// to 0, and Off is silent.
    pub open spec fn calculate(self, elapsed: int, sample_rate: int) -> int {
        match self.state {
            EnvelopeState::Attack => spec_linear(elapsed, sample_rate, self.attack),
            EnvelopeState::Decay => spec_interpolate(
                self.last_state_value,
                self.sustain,
                spec_linear(elapsed, sample_rate, self.decay),
            ),
            EnvelopeState::Sustain => self.sustain,
            EnvelopeState::Release => spec_interpolate(
                self.last_state_value,
                0,
                spec_linear(elapsed, sample_rate, self.release),
            ),
            EnvelopeState::Off => 0,
        }
    }

    /// The generator after one sample at `sample_rate` Hz. The time spent in
    /// the stage is measured once, on entry; the completion test comes first,
    /// then the gain of the stage that the test left, at the time measured,
    /// then the sample is counted. The count stops at the largest 64-bit
    /// number.
    pub open spec fn process(self, sample_rate: int) -> EnvelopeModel {
        let tested = self.update_state(sample_rate);
        EnvelopeModel {
            last_value: tested.calculate(self.elapsed_samples, sample_rate),
            elapsed_samples: if tested.elapsed_samples < u64::MAX {
                tested.elapsed_samples + 1
            } else {
                tested.elapsed_samples
            },
            ..tested
        }
    }

    /// The sample that `process` returns: the gain, snapped to its loudness
    /// step, then scaled by the loudness of the note's velocity.
    pub open spec fn output(self, sample_rate: int) -> int {
        spec_scale(
            spec_discrete_loudness(self.process(sample_rate).last_value),
            spec_level_from_velocity(self.velocity),
        )
    }

    /// The generator after `calls` samples at `sample_rate` Hz.
    pub open spec fn run(self, sample_rate: int, calls: nat) -> EnvelopeModel
        decreases calls,
    {
        if calls == 0 {
            self
        } else {
            self.run(sample_rate, (calls - 1) as nat).process(sample_rate)
        }
    }

    /// Whether the generator has a value under `param`.
    pub open spec fn recognizes(param: Parameter) -> bool {
        param is EgAttack || param is EgDecay || param is EgSustain || param is EgRelease
    }

    /// Whether `value` is one that `param` can hold: a time from 0 to
    /// `DURATION_MAX` microseconds, a sustain level from 0 to `ONE`.
    pub open spec fn in_domain(param: Parameter, value: int) -> bool {
        match param {
            Parameter::EgAttack | Parameter::EgDecay | Parameter::EgRelease => 0 <= value
                <= DURATION_MAX,
            Parameter::EgSustain => 0 <= value <= ONE,
            _ => false,
        }
    }

    /// The generator after `param` is set to `value`. A value outside the
    /// parameter's domain goes to the nearer end of it; a parameter of another
    /// component changes nothing.
    pub open spec fn set_param(self, param: Parameter, value: int) -> EnvelopeModel {
        match param {
            Parameter::EgAttack => EnvelopeModel {
                attack: spec_clamp(value, 0, DURATION_MAX as int),
                ..self
            },
            Parameter::EgDecay => EnvelopeModel {
                decay: spec_clamp(value, 0, DURATION_MAX as int),
                ..self
            },
            Parameter::EgSustain => EnvelopeModel {
                sustain: spec_clamp(value, 0, ONE as int),
                ..self
            },
            Parameter::EgRelease => EnvelopeModel {
                release: spec_clamp(value, 0, DURATION_MAX as int),
                ..self
            },
            _ => self,
        }
    }

    /// The value under `param`; 0 for a parameter of another component.
    pub open spec fn get_param(self, param: Parameter) -> int {
        match param {
            Parameter::EgAttack => self.attack,
            Parameter::EgDecay => self.decay,
            Parameter::EgSustain => self.sustain,
            Parameter::EgRelease => self.release,
            _ => 0,
        }
    }
}

impl EnvelopeModel {
    /// Every operation keeps a generator's values in their domains.
    pub proof fn lemma_wf_preserved(
        self,
        event: Event,
        state: EnvelopeState,
        param: Parameter,
        value: int,
        sample_rate: int,
    )
        requires
            self.wf(),
        ensures
            self.set_state(state).wf(),
            self.trigger(event).wf(),
            self.update_state(sample_rate).wf(),
            self.process(sample_rate).wf(),
            self.set_param(param, value).wf(),
            0 <= self.output(sample_rate) <= ONE,
    {
        let tested = self.update_state(sample_rate);
        lemma_linear_bounds(self.elapsed_samples, sample_rate, tested.attack);
        lemma_linear_bounds(self.elapsed_samples, sample_rate, tested.decay);
        lemma_linear_bounds(self.elapsed_samples, sample_rate, tested.release);
        lemma_interpolate_bounds(
            tested.last_state_value,
            tested.sustain,
            spec_linear(self.elapsed_samples, sample_rate, tested.decay),
        );
        lemma_interpolate_bounds(
            tested.last_state_value,
            0,
            spec_linear(self.elapsed_samples, sample_rate, tested.release),
        );
        lemma_output_bounds(self.process(sample_rate).last_value, self.velocity);
    }

    /// The generator stays well formed over any number of samples.
    pub proof fn lemma_run_wf(self, sample_rate: int, calls: nat)
        requires
            self.wf(),
        ensures
            self.run(sample_rate, calls).wf(),
        decreases calls,
    {
        if calls > 0 {
            self.lemma_run_wf(sample_rate, (calls - 1) as nat);
            self.run(sample_rate, (calls - 1) as nat).lemma_wf_preserved(
                Event::ResetWaveTableAsSine,
                EnvelopeState::Off,
                Parameter::PitchBend,
                0,
                sample_rate,
            );
        }
    }

    /// Producing samples changes no setting: the times, the sustain level and
    /// the velocity stay as they are.
    pub proof fn lemma_run_keeps_settings(self, sample_rate: int, calls: nat)
        ensures
            self.run(sample_rate, calls).attack == self.attack,
            self.run(sample_rate, calls).decay == self.decay,
            self.run(sample_rate, calls).sustain == self.sustain,
            self.run(sample_rate, calls).release == self.release,
            self.run(sample_rate, calls).velocity == self.velocity,
        decreases calls,
    {
        if calls > 0 {
            self.lemma_run_keeps_settings(sample_rate, (calls - 1) as nat);
        }
    }

    /// The length of the attack. After a note-on, at a constant sample rate,
    /// the generator is in Attack after each of its first
    /// `attack * sample_rate / ONE + 1` samples, with a gain that follows the
    /// ramp, and it enters Decay on the next sample, with the anchor at full
    /// scale.
    pub proof fn lemma_attack_length(self, velocity: int, sample_rate: int, calls: nat)
        requires
            self.wf(),
            0 < sample_rate <= u32::MAX,
        ensures
            ({
                let started = self.note_on(velocity);
                let hold = self.attack * sample_rate / (ONE as int) + 1;
                let after = started.run(sample_rate, calls);
                &&& hold >= 1
                &&& calls <= hold ==> after.state is Attack && after.elapsed_samples == calls
                &&& 1 <= calls <= hold ==> after.last_value == spec_linear(
                    calls - 1,
                    sample_rate,
                    self.attack,
                )
                &&& calls == hold + 1 ==> after.state is Decay && after.elapsed_samples == 1
                    && after.last_state_value == ONE
            }),
        decreases calls,
    {
        let started = self.note_on(velocity);
        let span = self.attack * sample_rate;
        let hold = span / (ONE as int) + 1;
        assert(0 <= span <= 0xFFFF_FFFF * 0xFFFF_FFFF) by (nonlinear_arith)
            requires
                0 <= self.attack <= 0xFFFF_FFFF,
                0 < sample_rate <= 0xFFFF_FFFF,
                span == self.attack * sample_rate,
        ;
        if calls > 0 {
            self.lemma_attack_length(velocity, sample_rate, (calls - 1) as nat);
            let before = started.run(sample_rate, (calls - 1) as nat);
            assert(started.run(sample_rate, calls) == before.process(sample_rate));
            started.lemma_run_keeps_settings(sample_rate, (calls - 1) as nat);
            if calls <= hold + 1 {
                assert(before.state is Attack);
                assert(before.elapsed_samples == calls - 1);
                assert(before.attack == self.attack);
            }
        }
    }

    /// Continuity of the attack into the decay. The gain of the last sample of
    /// a completed attack is within one sample's share of the ramp of full
    /// scale, the anchor that the decay starts from.
    pub proof fn lemma_attack_ends_at_anchor(self, velocity: int, sample_rate: int)
        requires
            self.wf(),
            0 < sample_rate <= u32::MAX,
            self.attack > 0,
        ensures
            ({
                let started = self.note_on(velocity);
                let hold = self.attack * sample_rate / (ONE as int) + 1;
                let last = started.run(sample_rate, hold as nat);
                let next = started.run(sample_rate, (hold + 1) as nat);
                &&& last.state is Attack
                &&& next.state is Decay
                &&& next.last_state_value - last.last_value <= (ONE * ONE) / (self.attack
                    * sample_rate) + 1
                &&& last.last_value <= next.last_state_value
            }),
    {
        let span = self.attack * sample_rate;
        let hold = span / (ONE as int) + 1;
        assert(0 < span) by (nonlinear_arith)
            requires
                0 < self.attack,
                0 < sample_rate,
                span == self.attack * sample_rate,
        ;
        self.lemma_attack_length(velocity, sample_rate, hold as nat);
        self.lemma_attack_length(velocity, sample_rate, (hold + 1) as nat);
        lemma_linear_bounds(hold - 1, sample_rate, self.attack);
        lemma_linear_last_step(hold - 1, span);
    }

    /// The length of the decay. At a constant sample rate a generator in
    /// Decay stays there while the time spent does not exceed the decay time,
    /// with a gain that follows the ramp from the anchor to the sustain
    /// level; the next sample enters Sustain, at the sustain level.
    pub proof fn lemma_decay_length(self, sample_rate: int, calls: nat)
        requires
            self.wf(),
            self.state is Decay,
            0 < sample_rate <= u32::MAX,
        ensures
            ({
                let last = self.decay * sample_rate / (ONE as int);
                let hold = if self.elapsed_samples <= last {
                    last + 1 - self.elapsed_samples
                } else {
                    0
                };
                let after = self.run(sample_rate, calls);
                &&& calls <= hold ==> after.state is Decay && after.elapsed_samples
                    == self.elapsed_samples + calls && after.last_state_value
                    == self.last_state_value
                &&& 1 <= calls <= hold ==> after.last_value == spec_interpolate(
                    self.last_state_value,
                    self.sustain,
                    spec_linear(self.elapsed_samples + calls - 1, sample_rate, self.decay),
                )
                &&& calls == hold + 1 ==> after.state is Sustain && after.last_value
                    == self.sustain
            }),
        decreases calls,
    {
        let span = self.decay * sample_rate;
        let last = span / (ONE as int);
        assert(0 <= span <= 0xFFFF_FFFF * 0xFFFF_FFFF) by (nonlinear_arith)
            requires
                0 <= self.decay <= 0xFFFF_FFFF,
                0 < sample_rate <= 0xFFFF_FFFF,
                span == self.decay * sample_rate,
        ;
        if calls > 0 {
            self.lemma_decay_length(sample_rate, (calls - 1) as nat);
            self.lemma_run_keeps_settings(sample_rate, (calls - 1) as nat);
            let before = self.run(sample_rate, (calls - 1) as nat);
            assert(self.run(sample_rate, calls) == before.process(sample_rate));
        }
    }

    /// Sustain is held. A generator in Sustain stays there, at the sustain
    /// level, however many samples follow, until a note event.
    pub proof fn lemma_sustain_is_held(self, sample_rate: int, calls: nat)
        requires
            self.wf(),
            self.state is Sustain,
        ensures
            self.run(sample_rate, calls).state is Sustain,
            calls >= 1 ==> self.run(sample_rate, calls).last_value == self.sustain,
            self.run(sample_rate, calls).output(sample_rate) == spec_scale(
                spec_discrete_loudness(self.sustain),
                spec_level_from_velocity(self.velocity),
            ),
        decreases calls,
    {
        self.lemma_run_keeps_settings(sample_rate, calls);
        if calls > 0 {
            self.lemma_sustain_is_held(sample_rate, (calls - 1) as nat);
            self.lemma_run_keeps_settings(sample_rate, (calls - 1) as nat);
        }
    }

    /// Continuity at a note event. A note-off freezes the gain produced last
    /// as the anchor that the release starts from, whatever stage it
    /// interrupts; a note-on over a held note freezes it too, and after a
    /// released note it leaves the anchor as it is.
    pub proof fn lemma_note_anchor(self, note: u16, velocity: i64)
        ensures
            self.trigger(Event::NoteOff { note }).state is Release,
            self.trigger(Event::NoteOff { note }).last_state_value == self.last_value,
            self.trigger(Event::NoteOff { note }).elapsed_samples == 0,
            self.trigger(Event::NoteOn { note, velocity }).state is Attack,
            self.trigger(Event::NoteOn { note, velocity }).elapsed_samples == 0,
            self.is_held() ==> self.trigger(Event::NoteOn { note, velocity }).last_state_value
                == self.last_value,
            !self.is_held() ==> self.trigger(Event::NoteOn { note, velocity }).last_state_value
                == self.last_state_value,
    {
    }

    /// A note-off at any point enters Release with the gain produced last as
    /// the anchor. At a constant sample rate the gain of the following samples
    /// starts from the anchor, never rises, and the generator is Off after
    /// `release * sample_rate / ONE + 2` samples.
    pub proof fn lemma_release(self, note: u16, sample_rate: int, calls: nat)
        requires
            self.wf(),
            0 < sample_rate <= u32::MAX,
        ensures
            ({
                let released = self.trigger(Event::NoteOff { note });
                let hold = self.release * sample_rate / (ONE as int) + 1;
                let after = released.run(sample_rate, calls);
                &&& released.state is Release
                &&& released.last_state_value == self.last_value
                &&& hold >= 1
                &&& calls <= hold ==> after.state is Release && after.elapsed_samples == calls
                    && after.last_state_value == self.last_value
                &&& 1 <= calls <= hold ==> after.last_value == spec_interpolate(
                    self.last_value,
                    0,
                    spec_linear(calls - 1, sample_rate, self.release),
                )
                &&& calls == 1 && self.release > 0 ==> after.last_value == self.last_value
                &&& 1 <= calls <= hold ==> after.last_value <= released.run(
                    sample_rate,
                    (calls - 1) as nat,
                ).last_value
                &&& calls == hold + 1 ==> after.state is Off && after.last_value == 0
            }),
        decreases calls,
    {
        let released = self.trigger(Event::NoteOff { note });
        let span = self.release * sample_rate;
        let hold = span / (ONE as int) + 1;
        assert(0 <= span <= 0xFFFF_FFFF * 0xFFFF_FFFF) by (nonlinear_arith)
            requires
                0 <= self.release <= 0xFFFF_FFFF,
                0 < sample_rate <= 0xFFFF_FFFF,
                span == self.release * sample_rate,
        ;
        if calls > 0 {
            self.lemma_release(note, sample_rate, (calls - 1) as nat);
            let before = released.run(sample_rate, (calls - 1) as nat);
            assert(released.run(sample_rate, calls) == before.process(sample_rate));
            released.lemma_run_keeps_settings(sample_rate, (calls - 1) as nat);
            if calls <= hold + 1 {
                assert(before.state is Release);
                assert(before.elapsed_samples == calls - 1);
                assert(before.release == self.release);
            }
            if calls <= hold {
                lemma_interpolate_bounds(
                    self.last_value,
                    0,
                    spec_linear(calls - 1, sample_rate, self.release),
                );
                if calls == 1 {
                    lemma_linear_bounds(0, sample_rate, self.release);
                    if self.release > 0 {
                        assert(0 < span) by (nonlinear_arith)
                            requires
                                0 < self.release,
                                0 < sample_rate,
                                span == self.release * sample_rate,
                        ;
                    }
                } else {
                    lemma_linear_monotone(calls - 2, calls - 1, sample_rate, self.release);
                    lemma_interpolate_monotone(
                        self.last_value,
                        0,
                        spec_linear(calls - 2, sample_rate, self.release),
                        spec_linear(calls - 1, sample_rate, self.release),
                    );
                }
            }
        }
    }

    /// Once Off, the generator stays Off and every sample is 0, however many
    /// follow, until a new note.
    pub proof fn lemma_off_stays_silent(self, sample_rate: int, calls: nat)
        requires
            self.wf(),
            self.state is Off,
        ensures
            self.run(sample_rate, calls).state is Off,
            calls >= 1 ==> self.run(sample_rate, calls).last_value == 0,
            self.run(sample_rate, calls).output(sample_rate) == 0,
        decreases calls,
    {
        if calls > 0 {
            self.lemma_off_stays_silent(sample_rate, (calls - 1) as nat);
        }
        let after = self.run(sample_rate, calls);
        assert(after.process(sample_rate).last_value == 0);
        lemma_discrete_loudness_bounds(0);
        assert(spec_scale(0, spec_level_from_velocity(after.velocity)) == 0) by (nonlinear_arith)
            requires
                ONE == 1_000_000,
        ;
    }

    /// A value of a parameter's domain is read back as it was set.
    pub proof fn lemma_param_round_trip(self, param: Parameter, value: int)
        requires
            EnvelopeModel::in_domain(param, value),
        ensures
            EnvelopeModel::recognizes(param),
            self.set_param(param, value).get_param(param) == value,
    {
    }

    /// A parameter of another component reads as 0, and setting it changes
    /// nothing.
    pub proof fn lemma_unknown_param(self, param: Parameter, value: int)
        requires
            !EnvelopeModel::recognizes(param),
        ensures
            self.get_param(param) == 0,
            self.set_param(param, value) == self,
    {
    }
}

/// An ADSR amplitude envelope that produces one gain per sample.
pub struct EnvelopeGenerator {
    attack: i64,
    decay: i64,
    sustain: i64,
    release: i64,
    velocity: i64,
    state: EnvelopeState,
    elapsed_samples: u64,
    last_value: i64,
    last_state_value: i64,
}

impl View for EnvelopeGenerator {
    type V = EnvelopeModel;

    closed spec fn view(&self) -> EnvelopeModel {
        EnvelopeModel {
            attack: self.attack as int,
            decay: self.decay as int,
            sustain: self.sustain as int,
            release: self.release as int,
            velocity: self.velocity as int,
            state: self.state,
            elapsed_samples: self.elapsed_samples as int,
            last_value: self.last_value as int,
            last_state_value: self.last_state_value as int,
        }
    }
}

impl EnvelopeGenerator {
    /// Every generator holds values of their domains.
    #[verifier::type_invariant]
    pub open spec fn wf(self) -> bool {
        self@.wf()
    }

    /// A generator with no note playing.
    pub fn new() -> (generator: EnvelopeGenerator)
        ensures
            generator@ == EnvelopeModel::initial(),
            generator.wf(),
    {
        EnvelopeGenerator {
            attack: 50_000,
            decay: 50_000,
            sustain: 300_000,
            release: 100_000,
            velocity: 0,
            state: EnvelopeState::Off,
            elapsed_samples: 1,
            last_value: 0,
            last_state_value: 0,
        }
    }

    /// The current stage.
    pub fn state(&self) -> (state: EnvelopeState)
        ensures
            state == self@.state,
    {
        self.state
    }

    /// Number of samples produced since the stage was entered.
    pub fn elapsed_samples(&self) -> (elapsed: u64)
        ensures
            elapsed == self@.elapsed_samples,
    {
        self.elapsed_samples
    }

    /// The gain produced last, before it was stepped and scaled.
    pub fn last_value(&self) -> (gain: i64)
        ensures
            gain == self@.last_value,
            0 <= gain <= ONE,
    {
        proof {
            use_type_invariant(self);
        }
        self.last_value
    }

    /// The anchor of the current stage.
    pub fn last_state_value(&self) -> (anchor: i64)
        ensures
            anchor == self@.last_state_value,
            0 <= anchor <= ONE,
    {
        proof {
            use_type_invariant(self);
        }
        self.last_state_value
    }

    /// Enters `state` and starts counting its samples from 0. Where a held
    /// note is interrupted, the gain produced last becomes the anchor.
    pub fn set_state(&mut self, state: EnvelopeState)
        ensures
            final(self)@ == old(self)@.set_state(state),
    {
        proof {
            use_type_invariant(&*self);
        }
        match self.state {
            EnvelopeState::Attack => self.last_state_value = self.last_value,
            EnvelopeState::Decay => self.last_state_value = self.last_value,
            EnvelopeState::Sustain => self.last_state_value = self.last_value,
            _ => (),
        }
        self.state = state;
        self.elapsed_samples = 0;
    }

    /// Ends the current stage if the time spent in it exceeds its length.
    fn update_state(&mut self, sample_rate: u32)
        ensures
            final(self)@ == old(self)@.update_state(sample_rate as int),
    {
        proof {
            use_type_invariant(&*self);
        }
        match self.state {
            EnvelopeState::Attack => {
                if outlasts(self.elapsed_samples, sample_rate, self.attack) {
                    self.set_state(EnvelopeState::Decay);
                    self.last_state_value = ONE;
                }
            },
            EnvelopeState::Decay => {
                if outlasts(self.elapsed_samples, sample_rate, self.decay) {
                    self.set_state(EnvelopeState::Sustain);
                }
            },
            EnvelopeState::Sustain => (),
            EnvelopeState::Release => {
                if outlasts(self.elapsed_samples, sample_rate, self.release) {
                    self.set_state(EnvelopeState::Off);
                }
            },
            EnvelopeState::Off => (),
        };
    }

    /// The gain of the current stage after `elapsed` samples.
    fn calculate(&self, elapsed: u64, sample_rate: u32) -> (gain: i64)
        ensures
            gain == self@.calculate(elapsed as int, sample_rate as int),
            0 <= gain <= ONE,
    {
        proof {
            use_type_invariant(self);
        }
        match self.state {
            EnvelopeState::Attack => linear(elapsed, sample_rate, self.attack),
            EnvelopeState::Decay => {
                let position = linear(elapsed, sample_rate, self.decay);
                interpolate(self.last_state_value, self.sustain, position)
            },
            EnvelopeState::Sustain => self.sustain,
            EnvelopeState::Release => {
                let position = linear(elapsed, sample_rate, self.release);
                interpolate(self.last_state_value, 0, position)
            },
            EnvelopeState::Off => 0,
        }
    }
}

impl AudioProcessor<i64> for EnvelopeGenerator {
    /// Produces the gain of one sample at `sample_rate` Hz: a value between 0
    /// and `ONE`.
    fn process(&mut self, sample_rate: u32) -> (sample: i64)
        ensures
            final(self)@ == old(self)@.process(sample_rate as int),
            sample == old(self)@.output(sample_rate as int),
            0 <= sample <= ONE,
    {
        let elapsed = self.elapsed_samples;
        self.update_state(sample_rate);
        let gain = self.calculate(elapsed, sample_rate);
        proof {
            use_type_invariant(&*self);
        }
        self.last_value = gain;
        if self.elapsed_samples < u64::MAX {
            self.elapsed_samples += 1;
        }
        scale(discrete_loudness(gain), level_from_velocity(self.velocity))
    }

    /// The envelope does not depend on the frequency: nothing changes.
    fn set_freq(&mut self, _freq: i64)
        ensures
            final(self)@ == old(self)@,
    {
    }
}

impl Triggered for EnvelopeGenerator {
    /// Applies `event`: a note-on enters Attack, a note-off enters Release,
    /// and every other event is passed over.
    fn trigger(&mut self, event: &Event)
        ensures
            final(self)@ == old(self)@.trigger(*event),
    {
        proof {
            use_type_invariant(&*self);
        }
        match event {
            Event::NoteOn { note: _, velocity } => {
                self.set_state(EnvelopeState::Attack);
                self.velocity = clamp(*velocity, 0, ONE);
            },
            Event::NoteOff { note: _ } => {
                self.last_state_value = self.last_value;
                self.state = EnvelopeState::Release;
                self.elapsed_samples = 0;
            },
            _ => (),
        }
    }
}

impl Parametric for EnvelopeGenerator {
    open spec fn recognizes(param: Parameter) -> bool {
        EnvelopeModel::recognizes(param)
    }

    open spec fn in_domain(param: Parameter, value: int) -> bool {
        EnvelopeModel::in_domain(param, value)
    }

    open spec fn value_of(&self, param: Parameter) -> int {
        self@.get_param(param)
    }

    /// Sets the value under `param`; a parameter of another component changes
    /// nothing.
    fn set_param(&mut self, param: &Parameter, value: i64)
        ensures
            final(self)@ == old(self)@.set_param(*param, value as int),
    {
        proof {
            use_type_invariant(&*self);
        }
        match param {
            Parameter::EgAttack => self.attack = clamp(value, 0, DURATION_MAX),
            Parameter::EgDecay => self.decay = clamp(value, 0, DURATION_MAX),
            Parameter::EgSustain => self.sustain = clamp(value, 0, ONE),
            Parameter::EgRelease => self.release = clamp(value, 0, DURATION_MAX),
            _ => (),
        }
    }

    /// The value under `param`; 0 for a parameter of another component.
    fn get_param(&self, param: &Parameter) -> (value: i64)
        ensures
            value == self@.get_param(*param),
    {
        match param {
            Parameter::EgAttack => self.attack,
            Parameter::EgDecay => self.decay,
            Parameter::EgSustain => self.sustain,
            Parameter::EgRelease => self.release,
            _ => 0,
        }
    }
}

} // verus!
