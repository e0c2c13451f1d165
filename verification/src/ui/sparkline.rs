//! A run of latencies drawn as one line of block characters.

use vstd::prelude::*;
use vstd::string::StringExecFns;

verus! {

/// Latencies that a sparkline shows.
pub const SPARKLINE_SAMPLES: usize = 30;

/// The smallest of a run of numbers; 0 for an empty run.
pub open spec fn least(values: Seq<u64>) -> u64
    decreases values.len(),
{
    if values.len() == 0 {
        0
    } else if values.len() == 1 {
        values[0]
    } else {
        let rest = least(values.drop_last());
        if values.last() < rest {
            values.last()
        } else {
            rest
        }
    }
}

/// The largest of a run of numbers; 0 for an empty run.
pub open spec fn greatest(values: Seq<u64>) -> u64
    decreases values.len(),
{
    if values.len() == 0 {
        0
    } else if values.len() == 1 {
        values[0]
    } else {
        let rest = greatest(values.drop_last());
        if values.last() > rest {
            values.last()
        } else {
            rest
        }
    }
}

/// The height, from 0 to 7, at which `value` is drawn in a run that goes from
/// `low` to `high`: its distance from `low` in sevenths of the span, rounded
/// down. A run without span is drawn flat at 0.
pub open spec fn level(value: u64, low: u64, high: u64) -> int {
    let span = if high > low {
        high - low
    } else {
        1
    };
    let distance = if value > low {
        value - low
    } else {
        0
    };
    let l = distance * 7 / span;
    if l > 7 {
        7
    } else {
        l
    }
}

/// The block character of a height.
pub open spec fn block(level: int) -> char {
    if level <= 0 {
        '\u{2581}'
    } else if level == 1 {
        '\u{2582}'
    } else if level == 2 {
        '\u{2583}'
    } else if level == 3 {
        '\u{2584}'
    } else if level == 4 {
        '\u{2585}'
    } else if level == 5 {
        '\u{2586}'
    } else if level == 6 {
        '\u{2587}'
    } else {
        '\u{2588}'
    }
}

/// The sparkline of a run of numbers: one block per number, scaled between
/// the smallest and the greatest of the run.
pub open spec fn sparkline_text(values: Seq<u64>) -> Seq<char> {
    Seq::new(values.len(), |i: int| block(level(values[i], least(values), greatest(values))))
}

/// The smallest and the greatest of a run of numbers.
pub fn bounds(values: &Vec<u64>) -> (b: (u64, u64))
    ensures
        b.0 == least(values@),
        b.1 == greatest(values@),
        forall|i: int| 0 <= i < values@.len() ==> b.0 <= #[trigger] values@[i] <= b.1,
{
    if values.len() == 0 {
        return (0, 0);
    }
    let mut low = values[0];
    let mut high = values[0];
    let mut i: usize = 1;
    while i < values.len()
        invariant
            1 <= i <= values.len(),
            low == least(values@.take(i as int)),
            high == greatest(values@.take(i as int)),
            forall|k: int| 0 <= k < i ==> low <= #[trigger] values@[k] <= high,
        decreases values.len() - i,
    {
        assert(values@.take(i + 1).drop_last() == values@.take(i as int));
        if values[i] < low {
            low = values[i];
        }
        if values[i] > high {
            high = values[i];
        }
        i += 1;
    }
    assert(values@.take(values.len() as int) == values@);
    (low, high)
}

/// The height at which a value is drawn.
pub fn height(value: u64, low: u64, high: u64) -> (l: u8)
    ensures
        l == level(value, low, high),
        l <= 7,
{
    let span: u64 = if high > low {
        high - low
    } else {
        1
    };
    let distance: u64 = if value > low {
        value - low
    } else {
        0
    };
    let l: u128 = (distance as u128) * 7 / (span as u128);
    if l > 7 {
        7
    } else {
        l as u8
    }
}

/// The text of the block character of a height.
fn block_text(l: u8) -> (text: &'static str)
    ensures
        text@ == seq![block(l as int)],
{
    proof {
        reveal_strlit("\u{2581}");
        reveal_strlit("\u{2582}");
        reveal_strlit("\u{2583}");
        reveal_strlit("\u{2584}");
        reveal_strlit("\u{2585}");
        reveal_strlit("\u{2586}");
        reveal_strlit("\u{2587}");
        reveal_strlit("\u{2588}");
    }
    let text = if l == 0 {
        "\u{2581}"
    } else if l == 1 {
        "\u{2582}"
    } else if l == 2 {
        "\u{2583}"
    } else if l == 3 {
        "\u{2584}"
    } else if l == 4 {
        "\u{2585}"
    } else if l == 5 {
        "\u{2586}"
    } else if l == 6 {
        "\u{2587}"
    } else {
        "\u{2588}"
    };
    text
}

/// Draws a run of numbers as a sparkline.
pub fn sparkline(values: &Vec<u64>) -> (line: String)
    ensures
        line@ == sparkline_text(values@),
{
    let (low, high) = bounds(values);
    let mut line = String::from_str("");
    proof {
        reveal_strlit("");
    }
    let mut i: usize = 0;
    while i < values.len()
        invariant
            i <= values.len(),
            low == least(values@),
            high == greatest(values@),
            line@ == sparkline_text(values@).take(i as int),
        decreases values.len() - i,
    {
        let l = height(values[i], low, high);
        line.append(block_text(l));
        i += 1;
    }
    line
}

/// The line of the site list that shows the recent checks: the sparkline
/// of the latencies, or a note where there is none.
pub open spec fn last_checks_text(values: Seq<u64>) -> Seq<char> {
    "  Last checks: "@ + if values.len() > 0 {
        sparkline_text(values)
    } else {
        "(no data)"@
    }
}

/// Writes the line of the site list that shows the recent checks.
pub fn last_checks(values: &Vec<u64>) -> (line: String)
    ensures
        line@ == last_checks_text(values@),
{
    let mut line = String::from_str("  Last checks: ");
    if values.len() > 0 {
        line.append(sparkline(values).as_str());
    } else {
        line.append("(no data)");
    }
    line
}

} // verus!
