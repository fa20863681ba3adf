//! The step executor: applies one row of the excitation table to the four
//! output lines and lets the coils settle.

use crate::command::{lines_after, settled_states, Command, SETTLE_MILLIS};
use crate::table::{Level, LINE_COUNT};
use vstd::prelude::*;

verus! {

/// The writes of one step: line `i` is driven to `row[i]`, lines in index
/// order.
pub open spec fn line_writes(row: Seq<Level>) -> Seq<Command> {
    Seq::new(row.len(), |i: int| Command::SetLine { line: i as usize, level: row[i] })
}

/// The commands of one step: the writes of the row, then the settling delay.
pub open spec fn step_commands(row: Seq<Level>) -> Seq<Command> {
    line_writes(row).push(Command::Settle { millis: SETTLE_MILLIS })
}

/// Applies `row` to the output lines: appends to `sink` one write per line,
/// in index order, followed by the settling delay. Nothing already in `sink`
/// is touched.
pub fn apply_step(sink: &mut Vec<Command>, row: &[Level; 4])
    ensures
        final(sink)@ == old(sink)@ + step_commands(row@),
{
    let ghost before = sink@;
    let mut line: usize = 0;
    while line < LINE_COUNT
        invariant
            line <= LINE_COUNT,
            sink@ == before + line_writes(row@).take(line as int),
        decreases LINE_COUNT - line,
    {
        sink.push(Command::SetLine { line, level: row[line] });
        line += 1;
    }
    sink.push(Command::Settle { millis: SETTLE_MILLIS });
}

/// After the first `count` writes of a row, the first `count` lines hold the
/// row and the others are as they were.
proof fn lemma_partial_writes(lines: Seq<Level>, row: Seq<Level>, count: int)
    requires
        row.len() == lines.len(),
        row.len() <= usize::MAX,
        0 <= count <= row.len(),
    ensures
        lines_after(lines, line_writes(row).take(count)) == row.take(count) + lines.skip(count),
    decreases count,
{
    if count > 0 {
        assert(line_writes(row).take(count).drop_last() =~= line_writes(row).take(count - 1));
        lemma_partial_writes(lines, row, count - 1);
    }
}

/// One step leaves the lines holding exactly the row, whatever they held
/// before, and that row is the one state the coils are given time to settle
/// in.
pub proof fn lemma_step_sets_lines(lines: Seq<Level>, row: Seq<Level>)
    requires
        row.len() == lines.len(),
        row.len() <= usize::MAX,
    ensures
        lines_after(lines, step_commands(row)) == row,
        settled_states(lines, step_commands(row)) == seq![row],
{
    let writes = line_writes(row);
    lemma_partial_writes(lines, row, row.len() as int);
    assert(writes.take(row.len() as int) =~= writes);
    assert(row.take(row.len() as int) + lines.skip(row.len() as int) =~= row);
    assert(step_commands(row).drop_last() =~= writes);
    lemma_no_settle_in_writes(lines, row, row.len() as int);
}

/// Writes alone let nothing settle.
proof fn lemma_no_settle_in_writes(lines: Seq<Level>, row: Seq<Level>, count: int)
    requires
        0 <= count <= row.len(),
    ensures
        settled_states(lines, line_writes(row).take(count)) == Seq::<Seq<Level>>::empty(),
    decreases count,
{
    if count > 0 {
        assert(line_writes(row).take(count).drop_last() =~= line_writes(row).take(count - 1));
        lemma_no_settle_in_writes(lines, row, count - 1);
    }
}

} // verus!
