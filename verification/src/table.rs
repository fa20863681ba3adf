//! The excitation table: eight coil patterns that make up one electrical
//! revolution of half-step motion.

use vstd::prelude::*;

verus! {

/// Logic level of one digital line. `High` energizes the coil behind an
/// output line.
#[derive(Clone, Copy, Debug, PartialEq, Eq, Structural)]
pub enum Level {
    Low,
    High,
}

/// Number of output lines, one per motor coil.
pub const LINE_COUNT: usize = 4;

/// Number of rows in the excitation table.
pub const ROW_COUNT: usize = 8;

/// The half-step sequence. Row `r` holds the level of each of the four output
/// lines during half-step `r`; column `l` belongs to output line `l`. Even
/// rows energize one coil, odd rows that coil together with the next one.
pub const HALFSTEP_SEQ: [[Level; 4]; 8] = [
    [Level::High, Level::Low, Level::Low, Level::Low],
    [Level::High, Level::High, Level::Low, Level::Low],
    [Level::Low, Level::High, Level::Low, Level::Low],
    [Level::Low, Level::High, Level::High, Level::Low],
    [Level::Low, Level::Low, Level::High, Level::Low],
    [Level::Low, Level::Low, Level::High, Level::High],
    [Level::Low, Level::Low, Level::Low, Level::High],
    [Level::High, Level::Low, Level::Low, Level::High],
];

/// The table as a sequence of rows, each a sequence of four levels.
pub open spec fn halfstep_rows() -> Seq<Seq<Level>> {
    Seq::new(ROW_COUNT as nat, |r: int| HALFSTEP_SEQ[r]@)
}

/// The half-step pattern in closed form: during half-step `row` the coil
/// `row / 2` is energized, and on odd half-steps its successor as well.
pub open spec fn energized(row: int, line: int) -> bool {
    line == row / 2 || (row % 2 == 1 && line == (row / 2 + 1) % 4)
}

/// The one line whose level changes between row `row` and the row after it:
/// an even row gains the next coil, an odd row drops the older one.
pub open spec fn changed_line(row: int) -> int {
    if row % 2 == 0 {
        (row / 2 + 1) % 4
    } else {
        row / 2
    }
}

/// Two rows differ on line `line` and agree on every other line.
pub open spec fn differ_only_on(a: Seq<Level>, b: Seq<Level>, line: int) -> bool {
    &&& 0 <= line < LINE_COUNT
    &&& a[line] != b[line]
    &&& forall|other: int| 0 <= other < LINE_COUNT && other != line ==> a[other] == b[other]
}

/// Two rows differ in exactly one of the four positions.
pub open spec fn differ_in_exactly_one_line(a: Seq<Level>, b: Seq<Level>) -> bool {
    exists|line: int| differ_only_on(a, b, line)
}

/// The table has eight rows of four levels, and they are the rows written
/// out in `HALFSTEP_SEQ`.
pub proof fn lemma_table_shape()
    ensures
        halfstep_rows().len() == ROW_COUNT,
        forall|r: int| 0 <= r < ROW_COUNT ==> (#[trigger] halfstep_rows()[r]).len() == LINE_COUNT,
        halfstep_rows()[0] == seq![Level::High, Level::Low, Level::Low, Level::Low],
        halfstep_rows()[1] == seq![Level::High, Level::High, Level::Low, Level::Low],
        halfstep_rows()[2] == seq![Level::Low, Level::High, Level::Low, Level::Low],
        halfstep_rows()[3] == seq![Level::Low, Level::High, Level::High, Level::Low],
        halfstep_rows()[4] == seq![Level::Low, Level::Low, Level::High, Level::Low],
        halfstep_rows()[5] == seq![Level::Low, Level::Low, Level::High, Level::High],
        halfstep_rows()[6] == seq![Level::Low, Level::Low, Level::Low, Level::High],
        halfstep_rows()[7] == seq![Level::High, Level::Low, Level::Low, Level::High],
{
}

/// Every entry of the table follows the half-step pattern: line `l` is high
/// in row `r` exactly when `energized(r, l)`.
pub proof fn lemma_table_is_halfstep_pattern()
    ensures
        forall|r: int, l: int|
            0 <= r < ROW_COUNT && 0 <= l < LINE_COUNT ==> (#[trigger] halfstep_rows()[r][l]
                == Level::High <==> energized(r, l)),
{
    lemma_table_shape();
}

/// Each row and its cyclic successor differ in exactly one of the four
/// positions, and that position is `changed_line` of the row. Row 7 is
/// followed by row 0.
pub proof fn lemma_neighbours_differ_in_one_line(row: int)
    requires
        0 <= row < ROW_COUNT,
    ensures
        differ_only_on(
            halfstep_rows()[row],
            halfstep_rows()[(row + 1) % (ROW_COUNT as int)],
            changed_line(row),
        ),
        differ_in_exactly_one_line(
            halfstep_rows()[row],
            halfstep_rows()[(row + 1) % (ROW_COUNT as int)],
        ),
{
    lemma_table_shape();
    assert(differ_only_on(
        halfstep_rows()[row],
        halfstep_rows()[(row + 1) % (ROW_COUNT as int)],
        changed_line(row),
    ));
}

} // verus!
