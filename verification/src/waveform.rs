//! Timed waveforms on output lines, as a state machine.
//!
//! A waveform is a train of pulses on a group of lines. First every line of
//! the group is claimed as an output, so that no line changes before all are
//! held. Then, for every pulse, the lines are driven high one after the other,
//! in the order in which they were requested, held for the pulse's high time,
//! driven low in the same order and held for its low time. After the last
//! pulse every line is driven low once more, so that a finished waveform
//! leaves its lines low whatever came before.
//!
//! A [`Waveform`] hands these commands out one at a time; the caller performs
//! each on the real line or clock. Since the lines of a group are written one
//! by one, the first and the last of them change a little apart: by one write's
//! latency for every further line.

use vstd::prelude::*;

verus! {

/// The level of an output line.
#[derive(Debug, Clone, Copy, PartialEq, Eq, Structural)]
pub enum Level {
    /// Driven low.
    Low,
    /// Driven high.
    High,
}

/// One thing for the caller to do.
#[derive(Debug, Clone, Copy, PartialEq, Eq, Structural)]
pub enum Command {
    /// Take the line as an output, for as long as the waveform lasts.
    Claim { pin: u8 },
    /// Drive the line to the level, at once.
    Write { pin: u8, level: Level },
    /// Block for at least so many microseconds.
    Wait { micros: u64 },
}

/// One pulse: how long the lines stay high, then low, in microseconds.
#[derive(Debug, Clone, Copy, PartialEq, Eq, Structural)]
pub struct Pulse {
    /// Time spent high.
    pub high: u64,
    /// Time spent low.
    pub low: u64,
}

/// One claim of every line of `pins`, in order.
pub open spec fn claims(pins: Seq<u8>) -> Seq<Command> {
    Seq::new(pins.len(), |j: int| Command::Claim { pin: pins[j] })
}

/// One write of `level` to every line of `pins`, in order.
pub open spec fn writes(pins: Seq<u8>, level: Level) -> Seq<Command> {
    Seq::new(pins.len(), |j: int| Command::Write { pin: pins[j], level })
}

/// The commands of one pulse.
pub open spec fn pulse_block(pins: Seq<u8>, pulse: Pulse) -> Seq<Command> {
    writes(pins, Level::High) + seq![Command::Wait { micros: pulse.high }] + writes(
        pins,
        Level::Low,
    ) + seq![Command::Wait { micros: pulse.low }]
}

/// The commands from pulse `from` on: the remaining pulses in order, then the
/// closing writes that leave every line low.
pub open spec fn train(pins: Seq<u8>, pulses: Seq<Pulse>, from: int) -> Seq<Command>
    decreases pulses.len() - from,
{
    if from >= pulses.len() {
        writes(pins, Level::Low)
    } else {
        pulse_block(pins, pulses[from]) + train(pins, pulses, from + 1)
    }
}

/// All commands of a waveform: the claims, the pulses, the closing writes.
pub open spec fn program(pins: Seq<u8>, pulses: Seq<Pulse>) -> Seq<Command> {
    claims(pins) + train(pins, pulses, 0)
}

/// `cycles` times the same pulse.
pub open spec fn fixed_pulses(pulse: Pulse, cycles: nat) -> Seq<Pulse> {
    Seq::new(cycles, |i: int| pulse)
}

/// The pulse of a duty cycle of `duty` percent of a period of `pitch`
/// microseconds.
///
/// The high time is `pitch * duty / 100` rounded to the nearest microsecond,
/// halves upwards, and at most what 64 bits hold. The low time is the rest of
/// the period, and nothing where the high time uses the period up.
pub open spec fn duty_pulse(pitch: u64, duty: u64) -> Pulse {
    let nearest = (pitch * duty + 50) / 100;
    let high = if nearest > u64::MAX {
        u64::MAX
    } else {
        nearest as u64
    };
    Pulse {
        high,
        low: if high <= pitch {
            (pitch - high) as u64
        } else {
            0
        },
    }
}

/// One pulse per entry of a duty-cycle table, against one period.
pub open spec fn duty_pulses(pitch: u64, duties: Seq<u64>) -> Seq<Pulse> {
    Seq::new(duties.len(), |i: int| duty_pulse(pitch, duties[i]))
}

/// The state of a waveform.
#[derive(Debug, Clone, Copy, PartialEq, Eq, Structural)]
pub enum State {
    /// No line was written yet.
    Idle,
    /// The last write drove a line high.
    High,
    /// The last write drove a line low.
    Low,
    /// Every command was performed.
    Done,
}

/// What a waveform is, seen from outside.
#[verifier::ext_equal]
pub struct WaveformView {
    /// The lines, in the order in which they are written.
    pub pins: Seq<u8>,
    /// The pulses, first to last.
    pub pulses: Seq<Pulse>,
    /// The commands not yet performed; the first is the pending one.
    pub remaining: Seq<Command>,
    /// The state.
    pub state: State,
}

impl WaveformView {
    /// The state in which `commands` remain and the last write, if there was
    /// one, left the state `reached`.
    pub open spec fn state_with(commands: Seq<Command>, reached: State) -> State {
        if commands.len() == 0 {
            State::Done
        } else {
            reached
        }
    }

    /// A waveform of which nothing was performed yet.
    pub open spec fn fresh(pins: Seq<u8>, pulses: Seq<Pulse>) -> WaveformView {
        WaveformView {
            pins,
            pulses,
            remaining: program(pins, pulses),
            state: Self::state_with(program(pins, pulses), State::Idle),
        }
    }

    /// A command is pending.
    pub open spec fn running(self) -> bool {
        self.remaining.len() > 0
    }

    /// The state that performing `command` leads to, while commands remain:
    /// a write leads to the state of its level, anything else changes
    /// nothing.
    pub open spec fn reached(self, command: Command) -> State {
        match command {
            Command::Write { level: Level::High, .. } => State::High,
            Command::Write { level: Level::Low, .. } => State::Low,
            _ => self.state,
        }
    }

    /// The waveform after the pending command was performed. Without a
    /// pending command nothing changes.
    pub open spec fn advanced(self) -> WaveformView {
        if self.running() {
            WaveformView {
                remaining: self.remaining.skip(1),
                state: Self::state_with(self.remaining.skip(1), self.reached(self.remaining[0])),
                ..self
            }
        } else {
            self
        }
    }
}

/// Where the pulses come from.
#[derive(Debug)]
enum Source {
    /// The same pulse, so many times.
    Fixed { pulse: Pulse, cycles: usize },
    /// One pulse per duty cycle of the table.
    Table { pitch: u64, duties: Vec<u64> },
}

impl Source {
    spec fn pulses(self) -> Seq<Pulse> {
        match self {
            Source::Fixed { pulse, cycles } => fixed_pulses(pulse, cycles as nat),
            Source::Table { pitch, duties } => duty_pulses(pitch, duties@),
        }
    }

    /// The number of pulses.
    fn count(&self) -> (n: usize)
        ensures
            n == self.pulses().len(),
    {
        match self {
            Source::Fixed { cycles, .. } => *cycles,
            Source::Table { duties, .. } => duties.len(),
        }
    }

    /// Pulse `index`.
    fn pulse(&self, index: usize) -> (pulse: Pulse)
        requires
            index < self.pulses().len(),
        ensures
            pulse == self.pulses()[index as int],
    {
        match self {
            Source::Fixed { pulse, .. } => *pulse,
            Source::Table { pitch, duties } => pulse_of_duty(*pitch, duties[index]),
        }
    }
}

/// The pulse of one duty cycle.
pub fn pulse_of_duty(pitch: u64, duty: u64) -> (pulse: Pulse)
    ensures
        pulse == duty_pulse(pitch, duty),
{
    assert(pitch * duty + 50 <= u128::MAX) by (nonlinear_arith)
        requires
            pitch <= u64::MAX,
            duty <= u64::MAX,
    ;
    let nearest: u128 = ((pitch as u128) * (duty as u128) + 50) / 100;
    let high: u64 = if nearest > u64::MAX as u128 {
        u64::MAX
    } else {
        nearest as u64
    };
    let low: u64 = if high <= pitch {
        pitch - high
    } else {
        0
    };
    Pulse { high, low }
}

/// Which part of a pulse, or of the closing writes, comes next.
#[derive(Debug, Clone, Copy, PartialEq, Eq, Structural)]
enum Stage {
    /// Claiming the lines.
    Claim,
    /// Writing the lines high, then holding them.
    Raise,
    /// Writing the lines low, then holding them.
    Lower,
    /// The closing writes.
    Park,
    /// Past the last command.
    Done,
}

/// A waveform in progress.
#[derive(Debug)]
pub struct Waveform {
    pins: Vec<u8>,
    source: Source,
    /// The pulse in progress.
    pulse: usize,
    stage: Stage,
    /// How many lines of the stage are written.
    line: usize,
    state: State,
}

/// What follows the high writes of pulse `pulse`.
spec fn past_raise(pins: Seq<u8>, pulses: Seq<Pulse>, pulse: int) -> Seq<Command> {
    seq![Command::Wait { micros: pulses[pulse].high }] + (writes(pins, Level::Low) + past_lower(
        pins,
        pulses,
        pulse,
    ))
}

/// What follows the low writes of pulse `pulse`.
spec fn past_lower(pins: Seq<u8>, pulses: Seq<Pulse>, pulse: int) -> Seq<Command> {
    seq![Command::Wait { micros: pulses[pulse].low }] + train(pins, pulses, pulse + 1)
}

impl View for Waveform {
    type V = WaveformView;

    closed spec fn view(&self) -> WaveformView {
        WaveformView {
            pins: self.pins@,
            pulses: self.source.pulses(),
            remaining: self.rest(),
            state: self.state,
        }
    }
}

impl Waveform {
    #[verifier::type_invariant]
    spec fn inv(self) -> bool {
        &&& match self.stage {
            Stage::Raise | Stage::Lower => {
                &&& self.pulse < self.source.pulses().len()
                &&& self.line <= self.pins@.len()
            },
            Stage::Claim | Stage::Park => self.line < self.pins@.len(),
            Stage::Done => true,
        }
        &&& self.stage is Done <==> self.state is Done
    }

    /// The commands from the present position on.
    spec fn rest(self) -> Seq<Command> {
        let pins = self.pins@;
        let pulses = self.source.pulses();
        match self.stage {
            Stage::Claim => claims(pins).skip(self.line as int) + train(pins, pulses, 0),
            Stage::Raise => writes(pins, Level::High).skip(self.line as int) + past_raise(
                pins,
                pulses,
                self.pulse as int,
            ),
            Stage::Lower => writes(pins, Level::Low).skip(self.line as int) + past_lower(
                pins,
                pulses,
                self.pulse as int,
            ),
            Stage::Park => writes(pins, Level::Low).skip(self.line as int),
            Stage::Done => Seq::empty(),
        }
    }

    /// The waveform placed before pulse `pulse`, or before the closing writes
    /// if there is no such pulse, in the state `reached`.
    fn at_pulse(pins: Vec<u8>, source: Source, pulse: usize, reached: State) -> (wave: Waveform)
        requires
            pulse <= source.pulses().len(),
            !(reached is Done),
        ensures
            wave@.pins == pins@,
            wave@.pulses == source.pulses(),
            wave@.remaining == train(pins@, source.pulses(), pulse as int),
            wave@.state == WaveformView::state_with(wave@.remaining, reached),
    {
        let ghost low = writes(pins@, Level::Low);
        let ghost high = writes(pins@, Level::High);
        if pulse < source.count() {
            let wave = Waveform {
                pins,
                source,
                pulse,
                stage: Stage::Raise,
                line: 0,
                state: reached,
            };
            proof {
                assert(high.skip(0) =~= high);
                assert(wave@.remaining =~= pulse_block(pins@, source.pulses()[pulse as int])
                    + train(pins@, source.pulses(), pulse + 1));
            }
            wave
        } else if pins.len() > 0 {
            let wave = Waveform { pins, source, pulse, stage: Stage::Park, line: 0, state: reached };
            assert(low.skip(0) =~= low);
            wave
        } else {
            let wave = Waveform {
                pins,
                source,
                pulse,
                stage: Stage::Done,
                line: 0,
                state: State::Done,
            };
            assert(low =~= Seq::<Command>::empty());
            wave
        }
    }

    /// The waveform before its first command.
    fn begin(pins: Vec<u8>, source: Source) -> (wave: Waveform)
        ensures
            wave@ == WaveformView::fresh(pins@, source.pulses()),
    {
        let ghost all = claims(pins@);
        if pins.len() > 0 {
            let wave = Waveform {
                pins,
                source,
                pulse: 0,
                stage: Stage::Claim,
                line: 0,
                state: State::Idle,
            };
            assert(all.skip(0) =~= all);
            assert(wave@ =~= WaveformView::fresh(pins@, source.pulses()));
            wave
        } else {
            let wave = Waveform::at_pulse(pins, source, 0, State::Idle);
            assert(all + wave@.remaining =~= wave@.remaining);
            assert(wave@ =~= WaveformView::fresh(pins@, source.pulses()));
            wave
        }
    }

    /// `cycles` times `pulse` on `pins`.
    pub(crate) fn blink(pins: Vec<u8>, pulse: Pulse, cycles: usize) -> (wave: Waveform)
        ensures
            wave@ == WaveformView::fresh(pins@, fixed_pulses(pulse, cycles as nat)),
    {
        Waveform::begin(pins, Source::Fixed { pulse, cycles })
    }

    /// One pulse per duty cycle of `duties` on `pin`, against a period of
    /// `pitch` microseconds.
    pub(crate) fn modulate(pin: u8, pitch: u64, duties: Vec<u64>) -> (wave: Waveform)
        ensures
            wave@ == WaveformView::fresh(seq![pin], duty_pulses(pitch, duties@)),
    {
        let mut pins: Vec<u8> = Vec::new();
        pins.push(pin);
        assert(pins@ =~= seq![pin]);
        Waveform::begin(pins, Source::Table { pitch, duties })
    }

    /// The lines of the waveform, in the order in which they are written.
    pub fn pins(&self) -> (pins: &Vec<u8>)
        ensures
            pins@ == self@.pins,
    {
        &self.pins
    }

    /// The number of pulses.
    pub fn pulse_count(&self) -> (n: usize)
        ensures
            n == self@.pulses.len(),
    {
        self.source.count()
    }

    /// The state: idle until the first write, then high or low as the last
    /// write left the lines, and done once no command remains.
    pub fn state(&self) -> (state: State)
        ensures
            state == self@.state,
            state is Done <==> !self@.running(),
    {
        proof {
            use_type_invariant(self);
        }
        self.state
    }

    /// The command to perform now; `None` once the waveform is over.
    pub fn pending(&self) -> (command: Option<Command>)
        ensures
            self@.running() ==> command == Some(self@.remaining[0]),
            !self@.running() ==> command is None,
    {
        proof {
            use_type_invariant(self);
        }
        match self.stage {
            Stage::Claim => Some(Command::Claim { pin: self.pins[self.line] }),
            Stage::Raise => if self.line < self.pins.len() {
                Some(Command::Write { pin: self.pins[self.line], level: Level::High })
            } else {
                Some(Command::Wait { micros: self.source.pulse(self.pulse).high })
            },
            Stage::Lower => if self.line < self.pins.len() {
                Some(Command::Write { pin: self.pins[self.line], level: Level::Low })
            } else {
                Some(Command::Wait { micros: self.source.pulse(self.pulse).low })
            },
            Stage::Park => Some(Command::Write { pin: self.pins[self.line], level: Level::Low }),
            Stage::Done => None,
        }
    }

    /// The waveform after the pending command was performed.
    pub fn advance(self) -> (next: Waveform)
        ensures
            next@ == self@.advanced(),
    {
        proof {
            use_type_invariant(&self);
        }
        let ghost before = self@;
        let ghost low = writes(before.pins, Level::Low);
        let ghost high = writes(before.pins, Level::High);
        let Waveform { pins, source, pulse, stage, line, state } = self;
        match stage {
            Stage::Claim => {
                let ghost all = claims(before.pins);
                let ghost rest = train(before.pins, before.pulses, 0);
                assert((all.skip(line as int) + rest).skip(1) =~= all.skip(line + 1) + rest);
                let width = pins.len();
                if line + 1 < width {
                    let next = Waveform { pins, source, pulse, stage, line: line + 1, state };
                    assert(next@ =~= before.advanced());
                    next
                } else {
                    let next = Waveform::at_pulse(pins, source, 0, state);
                    assert(all.skip(line + 1) + rest =~= rest);
                    assert(next@ =~= before.advanced());
                    next
                }
            },
            Stage::Raise => {
                let ghost rest = past_raise(before.pins, before.pulses, pulse as int);
                if line < pins.len() {
                    let next = Waveform {
                        pins,
                        source,
                        pulse,
                        stage,
                        line: line + 1,
                        state: State::High,
                    };
                    assert((high.skip(line as int) + rest).skip(1) =~= high.skip(line + 1) + rest);
                    assert(next@ =~= before.advanced());
                    next
                } else {
                    let next = Waveform {
                        pins,
                        source,
                        pulse,
                        stage: Stage::Lower,
                        line: 0,
                        state,
                    };
                    assert(low.skip(0) =~= low);
                    assert((high.skip(line as int) + rest).skip(1) =~= low + past_lower(
                        before.pins,
                        before.pulses,
                        pulse as int,
                    ));
                    assert(next@ =~= before.advanced());
                    next
                }
            },
            Stage::Lower => {
                let ghost rest = past_lower(before.pins, before.pulses, pulse as int);
                if line < pins.len() {
                    let next = Waveform {
                        pins,
                        source,
                        pulse,
                        stage,
                        line: line + 1,
                        state: State::Low,
                    };
                    assert((low.skip(line as int) + rest).skip(1) =~= low.skip(line + 1) + rest);
                    assert(next@ =~= before.advanced());
                    next
                } else {
                    let count = source.count();
                    let next = Waveform::at_pulse(pins, source, pulse + 1, state);
                    assert((low.skip(line as int) + rest).skip(1) =~= train(
                        before.pins,
                        before.pulses,
                        pulse + 1,
                    ));
                    assert(next@ =~= before.advanced());
                    next
                }
            },
            Stage::Park => {
                assert(low.skip(line as int).skip(1) =~= low.skip(line + 1));
                let width = pins.len();
                if line + 1 < width {
                    let next = Waveform {
                        pins,
                        source,
                        pulse,
                        stage,
                        line: line + 1,
                        state: State::Low,
                    };
                    assert(next@ =~= before.advanced());
                    next
                } else {
                    let next = Waveform {
                        pins,
                        source,
                        pulse,
                        stage: Stage::Done,
                        line: 0,
                        state: State::Done,
                    };
                    assert(next@ =~= before.advanced());
                    next
                }
            },
            Stage::Done => {
                let next = Waveform { pins, source, pulse, stage, line, state };
                assert(next@ =~= before.advanced());
                next
            },
        }
    }
}

/// A duty cycle of at most 100 percent splits the period exactly: the high
/// time is the percentage of the period to the nearest microsecond, and the
/// high and the low time add up to the period.
pub proof fn lemma_duty_fills_pitch(pitch: u64, duty: u64)
    requires
        duty <= 100,
    ensures
        duty_pulse(pitch, duty).high + duty_pulse(pitch, duty).low == pitch,
        duty_pulse(pitch, duty).high * 100 <= pitch * duty + 50,
        pitch * duty + 50 < duty_pulse(pitch, duty).high * 100 + 100,
{
    assert(pitch * duty <= pitch * 100) by (nonlinear_arith)
        requires
            duty <= 100,
    ;
}

} // verus!
