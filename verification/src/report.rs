//! Composition of the one-byte fixed-function consumer control report.
//!
//! Seven input lines stand for seven controls, each with a bit of its own in
//! the report byte: next track, previous track, stop, play/pause, mute,
//! volume up and volume down, from bit 0 upwards. Bit 7 is padding.

use vstd::prelude::*;

verus! {

/// Number of input lines that the report carries.
pub const LINE_COUNT: usize = 7;

/// The report bit of an input line; 0 for a line that does not exist.
pub open spec fn line_mask(line: int) -> u8 {
    if line == 0 {
        0x01
    } else if line == 1 {
        0x02
    } else if line == 2 {
        0x04
    } else if line == 3 {
        0x08
    } else if line == 4 {
        0x10
    } else if line == 5 {
        0x20
    } else if line == 6 {
        0x40
    } else {
        0x00
    }
}

/// What a line adds to the report: its bit while active, nothing otherwise.
pub open spec fn line_share(active: Seq<bool>, line: int) -> u8 {
    if 0 <= line < active.len() && active[line] {
        line_mask(line)
    } else {
        0x00
    }
}

/// Bitwise or of the shares of the first `count` lines.
pub open spec fn combined(active: Seq<bool>, count: int) -> u8
    decreases count,
{
    if count <= 0 {
        0x00
    } else {
        combined(active, count - 1) | line_share(active, count - 1)
    }
}

/// The report byte for a set of line states.
pub open spec fn report_of(active: Seq<bool>) -> u8 {
    combined(active, LINE_COUNT as int)
}

/// The report bit of input line `line`; 0 for a line that does not exist.
pub fn line_bit(line: usize) -> (mask: u8)
    ensures
        mask == line_mask(line as int),
{
    match line {
        0 => 0x01,
        1 => 0x02,
        2 => 0x04,
        3 => 0x08,
        4 => 0x10,
        5 => 0x20,
        6 => 0x40,
        _ => 0x00,
    }
}

/// Combines the states of the input lines into the report byte: the bitwise
/// or of the bits of the active lines.
pub fn report_code(active: &[bool; 7]) -> (report: u8)
    ensures
        report == report_of(active@),
        forall|line: int| 0 <= line < 7 ==> ((report & line_mask(line)) != 0 <==> active[line]),
        report & 0x80 == 0,
{
    let mut report: u8 = 0;
    let mut line: usize = 0;
    while line < LINE_COUNT
        invariant
            line <= LINE_COUNT,
            report == combined(active@, line as int),
        decreases LINE_COUNT - line,
    {
        if active[line] {
            report = report | line_bit(line);
        } else {
            assert(report | 0x00u8 == report) by (bit_vector);
        }
        line = line + 1;
    }
    proof {
        lemma_report_bits(active@);
    }
    report
}

/// Each report bit is set exactly when its line is active, and the padding
/// bit is never set.
pub proof fn lemma_report_bits(active: Seq<bool>)
    requires
        active.len() == LINE_COUNT,
    ensures
        forall|line: int|
            0 <= line < 7 ==> ((report_of(active) & line_mask(line)) != 0 <==> active[line]),
        report_of(active) & 0x80 == 0,
{
    reveal_with_fuel(combined, 8);
    let b0 = line_share(active, 0);
    let b1 = line_share(active, 1);
    let b2 = line_share(active, 2);
    let b3 = line_share(active, 3);
    let b4 = line_share(active, 4);
    let b5 = line_share(active, 5);
    let b6 = line_share(active, 6);
    let report = report_of(active);
    assert(report == ((((((0x00u8 | b0) | b1) | b2) | b3) | b4) | b5) | b6);
    assert({
        &&& (report & 0x01 != 0 <==> b0 != 0)
        &&& (report & 0x02 != 0 <==> b1 != 0)
        &&& (report & 0x04 != 0 <==> b2 != 0)
        &&& (report & 0x08 != 0 <==> b3 != 0)
        &&& (report & 0x10 != 0 <==> b4 != 0)
        &&& (report & 0x20 != 0 <==> b5 != 0)
        &&& (report & 0x40 != 0 <==> b6 != 0)
        &&& report & 0x80 == 0
    }) by (bit_vector)
        requires
            report == ((((((0x00u8 | b0) | b1) | b2) | b3) | b4) | b5) | b6,
            b0 == 0x00 || b0 == 0x01,
            b1 == 0x00 || b1 == 0x02,
            b2 == 0x00 || b2 == 0x04,
            b3 == 0x00 || b3 == 0x08,
            b4 == 0x00 || b4 == 0x10,
            b5 == 0x00 || b5 == 0x20,
            b6 == 0x00 || b6 == 0x40,
    ;
}

} // verus!
