//! The sequence driver: one full traversal of the excitation table, forward
//! or in reverse, which turns the motor by one electrical revolution.

use crate::command::{lemma_lines_after_concat, lemma_settled_states_concat};
use crate::command::{lines_after, settled_states, Command};
use crate::step::{apply_step, lemma_step_sets_lines, step_commands};
use crate::table::{halfstep_rows, lemma_table_shape, Level, HALFSTEP_SEQ, LINE_COUNT, ROW_COUNT};
use vstd::prelude::*;

verus! {

/// Order in which a traversal walks the table.
#[derive(Clone, Copy, Debug, PartialEq, Eq, Structural)]
pub enum Traversal {
    /// Row 0 first, row 7 last.
    Forward,
    /// Row 7 first, row 0 last.
    Reverse,
}

/// The rows of one traversal in the order in which they are applied.
pub open spec fn traversal_rows(traversal: Traversal) -> Seq<Seq<Level>> {
    match traversal {
        Traversal::Forward => halfstep_rows(),
        Traversal::Reverse => halfstep_rows().reverse(),
    }
}

/// The commands of a run of steps, one step per row, in the order of `rows`.
pub open spec fn steps_commands(rows: Seq<Seq<Level>>) -> Seq<Command>
    decreases rows.len(),
{
    if rows.len() == 0 {
        Seq::empty()
    } else {
        steps_commands(rows.drop_last()) + step_commands(rows.last())
    }
}

/// The commands of one traversal: eight steps, never fewer.
pub open spec fn traversal_commands(traversal: Traversal) -> Seq<Command> {
    steps_commands(traversal_rows(traversal))
}

/// Applies every row of the table once, in table order for `Forward` and in
/// reverse table order for `Reverse`: appends the commands of those eight
/// steps to `sink`. It always completes all eight.
pub fn drive_sequence(sink: &mut Vec<Command>, traversal: Traversal)
    ensures
        final(sink)@ == old(sink)@ + traversal_commands(traversal),
{
    let ghost before = sink@;
    let ghost rows = traversal_rows(traversal);
    proof {
        lemma_table_shape();
    }
    let mut done: usize = 0;
    while done < ROW_COUNT
        invariant
            done <= ROW_COUNT,
            rows == traversal_rows(traversal),
            rows.len() == ROW_COUNT,
            sink@ == before + steps_commands(rows.take(done as int)),
        decreases ROW_COUNT - done,
    {
        let index = match traversal {
            Traversal::Forward => done,
            Traversal::Reverse => ROW_COUNT - 1 - done,
        };
        let row = HALFSTEP_SEQ[index];
        apply_step(sink, &row);
        proof {
            lemma_table_shape();
            assert(rows.take(done + 1).drop_last() =~= rows.take(done as int));
        }
        done += 1;
    }
    assert(rows.take(ROW_COUNT as int) =~= rows);
}

/// The commands of two runs of steps in a row are those of the rows in a row.
pub proof fn lemma_steps_commands_concat(first: Seq<Seq<Level>>, second: Seq<Seq<Level>>)
    ensures
        steps_commands(first + second) == steps_commands(first) + steps_commands(second),
    decreases second.len(),
{
    if second.len() > 0 {
        assert((first + second).drop_last() =~= first + second.drop_last());
        lemma_steps_commands_concat(first, second.drop_last());
    }
}

/// Every row is as wide as the set of lines.
pub open spec fn rows_fit(rows: Seq<Seq<Level>>, width: nat) -> bool {
    forall|r: int| 0 <= r < rows.len() ==> (#[trigger] rows[r]).len() == width
}

/// A run of steps takes the lines through exactly its rows, one settled state
/// per row, and leaves them holding the last row.
pub proof fn lemma_steps_settle_on_rows(lines: Seq<Level>, rows: Seq<Seq<Level>>)
    requires
        rows_fit(rows, lines.len()),
        lines.len() <= usize::MAX,
    ensures
        settled_states(lines, steps_commands(rows)) == rows,
        lines_after(lines, steps_commands(rows)) == if rows.len() == 0 {
            lines
        } else {
            rows.last()
        },
    decreases rows.len(),
{
    if rows.len() > 0 {
        let earlier = rows.drop_last();
        lemma_steps_settle_on_rows(lines, earlier);
        let between = lines_after(lines, steps_commands(earlier));
        lemma_step_sets_lines(between, rows.last());
        lemma_lines_after_concat(lines, steps_commands(earlier), step_commands(rows.last()));
        lemma_settled_states_concat(lines, steps_commands(earlier), step_commands(rows.last()));
    }
}

/// A traversal takes the four lines through its eight rows in order, whatever
/// they held before.
pub proof fn lemma_traversal_settles_on_rows(lines: Seq<Level>, traversal: Traversal)
    requires
        lines.len() == LINE_COUNT,
    ensures
        traversal_rows(traversal).len() == ROW_COUNT,
        settled_states(lines, traversal_commands(traversal)) == traversal_rows(traversal),
        lines_after(lines, traversal_commands(traversal)) == traversal_rows(traversal).last(),
{
    lemma_table_shape();
    lemma_steps_settle_on_rows(lines, traversal_rows(traversal));
}

/// A reverse traversal replays the forward one backwards. Its rows are the
/// forward rows in reverse order, and so are the states it takes the lines
/// through. A forward traversal followed at once by a reverse one therefore
/// takes the lines through a sequence of sixteen states that reads the same
/// in both directions, and leaves them in the state that the forward
/// traversal began with.
pub proof fn lemma_reverse_retraces_forward(lines: Seq<Level>)
    requires
        lines.len() == LINE_COUNT,
    ensures
        traversal_rows(Traversal::Reverse) == traversal_rows(Traversal::Forward).reverse(),
        settled_states(
            lines_after(lines, traversal_commands(Traversal::Forward)),
            traversal_commands(Traversal::Reverse),
        ) == settled_states(lines, traversal_commands(Traversal::Forward)).reverse(),
        ({
            let round_trip = traversal_commands(Traversal::Forward) + traversal_commands(
                Traversal::Reverse,
            );
            let states = settled_states(lines, round_trip);
            &&& states == halfstep_rows() + halfstep_rows().reverse()
            &&& states.reverse() == states
            &&& lines_after(lines, round_trip) == halfstep_rows()[0]
        }),
{
    lemma_table_shape();
    let forward = traversal_commands(Traversal::Forward);
    let reverse = traversal_commands(Traversal::Reverse);
    let turned = lines_after(lines, forward);
    lemma_traversal_settles_on_rows(lines, Traversal::Forward);
    lemma_traversal_settles_on_rows(turned, Traversal::Reverse);
    lemma_lines_after_concat(lines, forward, reverse);
    lemma_settled_states_concat(lines, forward, reverse);
}

} // verus!
