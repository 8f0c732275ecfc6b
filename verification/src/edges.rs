//! What a sequence of commands does to one line: how often the line rises,
//! how often it falls, and where it ends.

use vstd::prelude::*;
use crate::waveform::{
    claims, fixed_pulses, program, pulse_block, train, writes, Command, Level, Pulse,
};

verus! {

/// The changes of one line over a sequence of commands.
pub struct Edges {
    /// How often the line went from low to high.
    pub rises: nat,
    /// How often the line went from high to low.
    pub falls: nat,
    /// The level of the line after the last command.
    pub level: Level,
}

/// Whether `command` writes to `pin`.
pub open spec fn writes_to(command: Command, pin: u8) -> bool {
    command matches Command::Write { pin: written, .. } && written == pin
}

/// The changes of line `pin`, which stands at `start`, over `commands`. A
/// write of the level that the line already has changes nothing.
pub open spec fn edges(commands: Seq<Command>, pin: u8, start: Level) -> Edges
    decreases commands.len(),
{
    if commands.len() == 0 {
        Edges { rises: 0, falls: 0, level: start }
    } else {
        let before = edges(commands.drop_last(), pin, start);
        match commands.last() {
            Command::Write { pin: written, level } => if written == pin && level != before.level {
                match level {
                    Level::High => Edges { rises: before.rises + 1, level, ..before },
                    Level::Low => Edges { falls: before.falls + 1, level, ..before },
                }
            } else {
                before
            },
            _ => before,
        }
    }
}

/// The changes over `first` followed by `second`, where `second` finds the
/// line as `first` left it.
pub open spec fn chained(first: Edges, second: Edges) -> Edges {
    Edges {
        rises: first.rises + second.rises,
        falls: first.falls + second.falls,
        level: second.level,
    }
}

/// The changes over a concatenation are those over its parts, one after the
/// other.
pub proof fn lemma_edges_concat(first: Seq<Command>, second: Seq<Command>, pin: u8, start: Level)
    ensures
        edges(first + second, pin, start) == chained(
            edges(first, pin, start),
            edges(second, pin, edges(first, pin, start).level),
        ),
    decreases second.len(),
{
    if second.len() == 0 {
        assert(first + second =~= first);
    } else {
        assert((first + second).drop_last() =~= first + second.drop_last());
        lemma_edges_concat(first, second.drop_last(), pin, start);
    }
}

/// Commands that do not write to a line leave it as it is.
pub proof fn lemma_edges_quiet(commands: Seq<Command>, pin: u8, start: Level)
    requires
        forall|i: int| 0 <= i < commands.len() ==> !writes_to(#[trigger] commands[i], pin),
    ensures
        edges(commands, pin, start) == (Edges { rises: 0, falls: 0, level: start }),
    decreases commands.len(),
{
    if commands.len() > 0 {
        lemma_edges_quiet(commands.drop_last(), pin, start);
        assert(!writes_to(commands[commands.len() - 1], pin));
    }
}

/// The changes of a line over one write to every line of a group: none if
/// the line is not in the group or stands at the level already, else one.
pub open spec fn stroke(pins: Seq<u8>, level: Level, pin: u8, start: Level) -> Edges {
    if pins.contains(pin) && start != level {
        match level {
            Level::High => Edges { rises: 1, falls: 0, level },
            Level::Low => Edges { rises: 0, falls: 1, level },
        }
    } else {
        Edges { rises: 0, falls: 0, level: start }
    }
}

/// One write to every line of a group moves each of its lines to the level,
/// by one change at most, and no other line.
pub proof fn lemma_edges_writes(pins: Seq<u8>, level: Level, pin: u8, start: Level)
    ensures
        edges(writes(pins, level), pin, start) == stroke(pins, level, pin, start),
    decreases pins.len(),
{
    if pins.len() > 0 {
        let front = pins.drop_last();
        lemma_edges_writes(front, level, pin, start);
        assert(writes(pins, level).drop_last() =~= writes(front, level));
        assert(writes(pins, level).last() == Command::Write { pin: pins.last(), level });
        if front.contains(pin) {
            let i = choose|i: int| 0 <= i < front.len() && front[i] == pin;
            assert(pins[i] == pin);
        }
        if pins.last() == pin {
            assert(pins[pins.len() - 1] == pin);
        }
        if pins.contains(pin) && pins.last() != pin {
            let i = choose|i: int| 0 <= i < pins.len() && pins[i] == pin;
            assert(front[i] == pin);
        }
    }
}

/// One pulse on a group makes each of its lines fall once and leaves it low;
/// the line rises once before that unless it was high already.
pub proof fn lemma_edges_pulse(pins: Seq<u8>, pulse: Pulse, pin: u8, start: Level)
    requires
        pins.contains(pin),
    ensures
        edges(pulse_block(pins, pulse), pin, start) == (Edges {
            rises: if start == Level::Low {
                1
            } else {
                0
            },
            falls: 1,
            level: Level::Low,
        }),
{
    let up = writes(pins, Level::High);
    let hold = seq![Command::Wait { micros: pulse.high }];
    let down = writes(pins, Level::Low);
    let rest = seq![Command::Wait { micros: pulse.low }];
    lemma_edges_writes(pins, Level::High, pin, start);
    lemma_edges_quiet(hold, pin, Level::High);
    lemma_edges_writes(pins, Level::Low, pin, Level::High);
    lemma_edges_quiet(rest, pin, Level::Low);
    lemma_edges_concat(up, hold, pin, start);
    lemma_edges_concat(up + hold, down, pin, start);
    lemma_edges_concat(up + hold + down, rest, pin, start);
}

/// From pulse `from` on, a line of the group that stands low rises and falls
/// once for every pulse that is left, and ends low.
pub proof fn lemma_edges_train(pins: Seq<u8>, pulses: Seq<Pulse>, from: int, pin: u8)
    requires
        pins.contains(pin),
        0 <= from <= pulses.len(),
    ensures
        edges(train(pins, pulses, from), pin, Level::Low) == (Edges {
            rises: (pulses.len() - from) as nat,
            falls: (pulses.len() - from) as nat,
            level: Level::Low,
        }),
    decreases pulses.len() - from,
{
    if from >= pulses.len() {
        lemma_edges_writes(pins, Level::Low, pin, Level::Low);
    } else {
        lemma_edges_pulse(pins, pulses[from], pin, Level::Low);
        lemma_edges_train(pins, pulses, from + 1, pin);
        lemma_edges_concat(
            pulse_block(pins, pulses[from]),
            train(pins, pulses, from + 1),
            pin,
            Level::Low,
        );
    }
}

/// Whatever the level of a line of the group before, the commands from pulse
/// `from` on leave it low.
pub proof fn lemma_train_ends_low(
    pins: Seq<u8>,
    pulses: Seq<Pulse>,
    from: int,
    pin: u8,
    start: Level,
)
    requires
        pins.contains(pin),
        0 <= from <= pulses.len(),
    ensures
        edges(train(pins, pulses, from), pin, start).level == Level::Low,
{
    if from >= pulses.len() {
        lemma_edges_writes(pins, Level::Low, pin, start);
    } else {
        lemma_edges_pulse(pins, pulses[from], pin, start);
        lemma_edges_train(pins, pulses, from + 1, pin);
        lemma_edges_concat(
            pulse_block(pins, pulses[from]),
            train(pins, pulses, from + 1),
            pin,
            start,
        );
    }
}

/// A waveform makes each of its lines, standing low before, rise once and
/// fall once for every pulse, and leaves it low.
pub proof fn lemma_program_edges(pins: Seq<u8>, pulses: Seq<Pulse>, pin: u8)
    requires
        pins.contains(pin),
    ensures
        edges(program(pins, pulses), pin, Level::Low) == (Edges {
            rises: pulses.len(),
            falls: pulses.len(),
            level: Level::Low,
        }),
{
    lemma_edges_quiet(claims(pins), pin, Level::Low);
    lemma_edges_train(pins, pulses, 0, pin);
    lemma_edges_concat(claims(pins), train(pins, pulses, 0), pin, Level::Low);
}

/// A waveform leaves each of its lines low, whatever the level before.
pub proof fn lemma_program_ends_low(pins: Seq<u8>, pulses: Seq<Pulse>, pin: u8, start: Level)
    requires
        pins.contains(pin),
    ensures
        edges(program(pins, pulses), pin, start).level == Level::Low,
{
    lemma_edges_quiet(claims(pins), pin, start);
    lemma_train_ends_low(pins, pulses, 0, pin, start);
    lemma_edges_concat(claims(pins), train(pins, pulses, 0), pin, start);
}

/// Blinking `cycles` times makes each line of the group change level exactly
/// twice `cycles` times, `cycles` times to high and `cycles` times to low,
/// and leaves it low.
pub proof fn lemma_blink_edges(pins: Seq<u8>, pulse: Pulse, cycles: nat, pin: u8)
    requires
        pins.contains(pin),
    ensures
        edges(program(pins, fixed_pulses(pulse, cycles)), pin, Level::Low) == (Edges {
            rises: cycles,
            falls: cycles,
            level: Level::Low,
        }),
{
    lemma_program_edges(pins, fixed_pulses(pulse, cycles), pin);
}

/// A waveform writes to no line outside its group.
pub proof fn lemma_program_spares(pins: Seq<u8>, pulses: Seq<Pulse>, pin: u8, start: Level)
    requires
        !pins.contains(pin),
    ensures
        edges(program(pins, pulses), pin, start) == (Edges { rises: 0, falls: 0, level: start }),
{
    lemma_edges_quiet(claims(pins), pin, start);
    lemma_train_spares(pins, pulses, 0, pin, start);
    lemma_edges_concat(claims(pins), train(pins, pulses, 0), pin, start);
}

/// The commands from pulse `from` on write to no line outside the group.
proof fn lemma_train_spares(pins: Seq<u8>, pulses: Seq<Pulse>, from: int, pin: u8, start: Level)
    requires
        !pins.contains(pin),
        0 <= from <= pulses.len(),
    ensures
        edges(train(pins, pulses, from), pin, start) == (Edges { rises: 0, falls: 0, level: start }),
    decreases pulses.len() - from,
{
    if from >= pulses.len() {
        lemma_edges_writes(pins, Level::Low, pin, start);
    } else {
        let pulse = pulses[from];
        let up = writes(pins, Level::High);
        let hold = seq![Command::Wait { micros: pulse.high }];
        let down = writes(pins, Level::Low);
        let rest = seq![Command::Wait { micros: pulse.low }];
        lemma_edges_writes(pins, Level::High, pin, start);
        lemma_edges_quiet(hold, pin, start);
        lemma_edges_writes(pins, Level::Low, pin, start);
        lemma_edges_quiet(rest, pin, start);
        lemma_edges_concat(up, hold, pin, start);
        lemma_edges_concat(up + hold, down, pin, start);
        lemma_edges_concat(up + hold + down, rest, pin, start);
        lemma_train_spares(pins, pulses, from + 1, pin, start);
        lemma_edges_concat(pulse_block(pins, pulse), train(pins, pulses, from + 1), pin, start);
    }
}

} // verus!
