//! Line-level commands: what the sequencing engine asks of the four output
//! lines, and what a stream of such commands does to them.

use crate::table::Level;
use vstd::prelude::*;

verus! {

/// Settling delay after each excitation change, in milliseconds. It lets the
/// coils respond before the next transition and thereby sets the motor speed.
pub const SETTLE_MILLIS: u64 = 1;

/// One request to the hardware side.
#[derive(Clone, Copy, Debug, PartialEq, Eq, Structural)]
pub enum Command {
    /// Drive output line `line` to `level`.
    SetLine { line: usize, level: Level },
    /// Block the calling thread for `millis` milliseconds.
    Settle { millis: u64 },
}

/// The levels of the output lines after one command. A `SetLine` for a line
/// that does not exist changes nothing.
pub open spec fn apply_command(lines: Seq<Level>, command: Command) -> Seq<Level> {
    match command {
        Command::SetLine { line, level } => if line < lines.len() {
            lines.update(line as int, level)
        } else {
            lines
        },
        Command::Settle { .. } => lines,
    }
}

/// The levels of the output lines after a stream of commands, carried out in
/// order from the levels `lines`.
pub open spec fn lines_after(lines: Seq<Level>, commands: Seq<Command>) -> Seq<Level>
    decreases commands.len(),
{
    if commands.len() == 0 {
        lines
    } else {
        apply_command(lines_after(lines, commands.drop_last()), commands.last())
    }
}

/// The levels that the output lines hold during each settling delay of a
/// stream of commands, in order: the excitation states the motor is given
/// time to follow.
pub open spec fn settled_states(lines: Seq<Level>, commands: Seq<Command>) -> Seq<Seq<Level>>
    decreases commands.len(),
{
    if commands.len() == 0 {
        Seq::empty()
    } else {
        let earlier = settled_states(lines, commands.drop_last());
        match commands.last() {
            Command::Settle { .. } => earlier.push(lines_after(lines, commands.drop_last())),
            Command::SetLine { .. } => earlier,
        }
    }
}

/// The rows of levels behind a sequence of four-line arrays.
pub open spec fn rows_of(states: Seq<[Level; 4]>) -> Seq<Seq<Level>> {
    states.map_values(|state: [Level; 4]| state@)
}

/// Carries out `commands` on four lines held in memory, in place of the
/// hardware. `lines` ends up holding the levels that the output lines would;
/// the result lists the levels they held during each settling delay, in
/// order.
pub fn replay(lines: &mut [Level; 4], commands: &[Command]) -> (states: Vec<[Level; 4]>)
    ensures
        final(lines)@ == lines_after(old(lines)@, commands@),
        rows_of(states@) == settled_states(old(lines)@, commands@),
{
    let ghost start = lines@;
    let mut states: Vec<[Level; 4]> = Vec::new();
    let mut done: usize = 0;
    while done < commands.len()
        invariant
            done <= commands.len(),
            lines@ == lines_after(start, commands@.take(done as int)),
            rows_of(states@) == settled_states(start, commands@.take(done as int)),
        decreases commands.len() - done,
    {
        assert(commands@.take(done + 1).drop_last() =~= commands@.take(done as int));
        match commands[done] {
            Command::SetLine { line, level } => {
                if line < 4 {
                    lines[line] = level;
                }
            },
            Command::Settle { .. } => {
                states.push(*lines);
            },
        }
        done += 1;
    }
    assert(commands@.take(done as int) =~= commands@);
    states
}

/// Carrying out two streams one after the other is carrying out their
/// concatenation.
pub proof fn lemma_lines_after_concat(lines: Seq<Level>, first: Seq<Command>, second: Seq<Command>)
    ensures
        lines_after(lines, first + second) == lines_after(lines_after(lines, first), second),
    decreases second.len(),
{
    if second.len() > 0 {
        assert((first + second).drop_last() =~= first + second.drop_last());
        lemma_lines_after_concat(lines, first, second.drop_last());
    }
}

/// The settled states of a concatenation are those of the first stream
/// followed by those of the second, the second starting from the levels that
/// the first leaves behind.
pub proof fn lemma_settled_states_concat(
    lines: Seq<Level>,
    first: Seq<Command>,
    second: Seq<Command>,
)
    ensures
        settled_states(lines, first + second) == settled_states(lines, first) + settled_states(
            lines_after(lines, first),
            second,
        ),
    decreases second.len(),
{
    if second.len() > 0 {
        assert((first + second).drop_last() =~= first + second.drop_last());
        lemma_settled_states_concat(lines, first, second.drop_last());
        lemma_lines_after_concat(lines, first, second.drop_last());
    }
}

/// No command adds or removes a line.
pub proof fn lemma_lines_after_len(lines: Seq<Level>, commands: Seq<Command>)
    ensures
        lines_after(lines, commands).len() == lines.len(),
    decreases commands.len(),
{
    if commands.len() > 0 {
        lemma_lines_after_len(lines, commands.drop_last());
    }
}

} // verus!
