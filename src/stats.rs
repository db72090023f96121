//! The statistics of a finished page: words per minute and errors.
use vstd::prelude::*;
use vstd::string::*;

use crate::exercise::ExerciseModel;
use crate::exercise_component::ExerciseComponent;

verus! {

/// Characters per word.
pub const CHARS_PER_WORD: u64 = 5;

/// Milliseconds per minute.
pub const MILLIS_PER_MINUTE: u64 = 60000;

/// The errors counted on all the lines.
pub open spec fn total_errors(lines: Seq<ExerciseModel>) -> int
    decreases lines.len(),
{
    if lines.len() == 0 {
        0
    } else {
        total_errors(lines.drop_last()) + lines.last().errors
    }
}

/// The time spent on all the lines, in milliseconds.
pub open spec fn total_mseconds(lines: Seq<ExerciseModel>) -> int
    decreases lines.len(),
{
    if lines.len() == 0 {
        0
    } else {
        total_mseconds(lines.drop_last()) + lines.last().mseconds
    }
}

/// The characters of all the lines' targets.
pub open spec fn total_chars(lines: Seq<ExerciseModel>) -> int
    decreases lines.len(),
{
    if lines.len() == 0 {
        0
    } else {
        total_chars(lines.drop_last()) + lines.last().target.len()
    }
}

/// `x`, or `u64::MAX` where `x` is larger.
pub open spec fn capped(x: int) -> int {
    if x > u64::MAX {
        u64::MAX as int
    } else {
        x
    }
}

/// The integer nearest to `n / d` (for `d > 0`), halves rounded away from
/// zero.
pub open spec fn round_div(n: int, d: int) -> int {
    if n >= 0 {
        (2 * n + d) / (2 * d)
    } else {
        -((-2 * n + d) / (2 * d))
    }
}

/// Words per minute, in hundredths, rounded to the nearest hundredth: the
/// correct characters (all characters less the errors) over five, per minute
/// of typing. With no time spent it is zero.
pub open spec fn wpm_hundredths(chars: int, errors: int, mseconds: int) -> int {
    if mseconds == 0 {
        0
    } else {
        round_div((chars - errors) * (100 * MILLIS_PER_MINUTE as int / CHARS_PER_WORD as int), mseconds)
    }
}

/// The statistics of a page.
#[derive(Debug, Clone, Copy, Default, PartialEq, Eq, Structural)]
pub struct Stats {
    /// Words per minute, in hundredths (`400` is 4.00 words per minute).
    pub wpm_hundredths: i128,
    /// The errors on the page.
    pub errors: u64,
}

pub open spec fn lines_view(lines: Seq<ExerciseComponent>) -> Seq<ExerciseModel> {
    lines.map_values(|c: ExerciseComponent| c@)
}

/// The statistics of the given lines. The totals of errors, time and
/// characters that it starts from are capped at `u64::MAX`.
pub fn calculate_stats(lines: &Vec<ExerciseComponent>) -> (r: Stats)
    ensures
        r.errors == capped(total_errors(lines_view(lines@))),
        r.wpm_hundredths == wpm_hundredths(
            capped(total_chars(lines_view(lines@))),
            capped(total_errors(lines_view(lines@))),
            capped(total_mseconds(lines_view(lines@))),
        ),
{
    let mut errors: u64 = 0;
    let mut mseconds: u64 = 0;
    let mut length: u64 = 0;
    let mut i: usize = 0;
    while i < lines.len()
        invariant
            i <= lines@.len(),
            errors == capped(total_errors(lines_view(lines@.subrange(0, i as int)))),
            mseconds == capped(total_mseconds(lines_view(lines@.subrange(0, i as int)))),
            length == capped(total_chars(lines_view(lines@.subrange(0, i as int)))),
        decreases lines@.len() - i,
    {
        let line = &lines[i];
        proof {
            let before = lines_view(lines@.subrange(0, i as int));
            let after = lines_view(lines@.subrange(0, i + 1));
            assert(after.drop_last() =~= before);
            assert(after.last() == line@);
        }
        errors = errors.saturating_add(line.errors());
        mseconds = mseconds.saturating_add(line.mseconds());
        length = length.saturating_add(line.exercise().as_str().unicode_len() as u64);
        i += 1;
    }
    assert(lines@.subrange(0, lines@.len() as int) =~= lines@);
    let wpm = if mseconds == 0 {
        0
    } else {
        let correct: i128 = length as i128 - errors as i128;
        assert(-0x1_0000_0000_0000_0000 <= correct <= 0x1_0000_0000_0000_0000);
        let scaled: i128 = correct * 1_200_000;
        assert(-0x1_0000_0000_0000_0000 * 1_200_000 <= scaled <= 0x1_0000_0000_0000_0000 * 1_200_000)
            by (nonlinear_arith)
            requires
                -0x1_0000_0000_0000_0000 <= correct <= 0x1_0000_0000_0000_0000,
                scaled == correct * 1_200_000,
        ;
        let d: i128 = mseconds as i128;
        if scaled >= 0 {
            (2 * scaled + d) / (2 * d)
        } else {
            -((-2 * scaled + d) / (2 * d))
        }
    };
    Stats { wpm_hundredths: wpm, errors }
}

} // verus!
