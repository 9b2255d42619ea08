//! The array-indexing sub-loop: reads a line, takes it as an index
//! (substituting zero with a warning when it does not parse), reports the
//! element at an in-bounds index, and terminates on the first out-of-range
//! index, signalling the condition instead of reading past the end.

use vstd::prelude::*;
use crate::text::lemma_deep_view_append;
use crate::parse::spec_parse_line;
use crate::parse::parse_line;
use crate::text::dec_str;
use crate::text::dec_str_int;
use crate::text::fmt_i32;
use crate::text::fmt_u64;

verus! {

/// The index one line of input asks for: the parsed number, or zero when
/// the line does not parse.
pub open spec fn spec_requested_index(line: Seq<char>) -> u64 {
    match spec_parse_line(line) {
        Option::Some(n) => n,
        Option::None => 0,
    }
}

/// What one read of the sub-loop does: report the element at an in-bounds
/// index and keep prompting, or end on an out-of-range index.
#[derive(Clone, Copy, Debug, PartialEq, Eq, Structural)]
pub enum IndexStep {
    Hit { index: u64, element: i32 },
    OutOfRange { index: u64 },
}

/// The step the sub-loop takes for one line of input against the array.
pub open spec fn spec_index_step(a: Seq<i32>, line: Seq<char>) -> IndexStep {
    let index = spec_requested_index(line);
    if index < a.len() {
        IndexStep::Hit { index, element: a[index as int] }
    } else {
        IndexStep::OutOfRange { index }
    }
}

/// Takes the sub-loop's step for one line of input.
pub fn index_step(a: &[i32; 5], line: &str) -> (r: IndexStep)
    ensures
        r == spec_index_step(a@, line@),
{
    let index = match parse_line(line) {
        Option::Some(n) => n,
        Option::None => 0,
    };
    if index < 5 {
        IndexStep::Hit { index, element: a[index as usize] }
    } else {
        IndexStep::OutOfRange { index }
    }
}

/// The warning printed when a line does not parse and the index defaults
/// to zero.
pub open spec fn warn_line() -> Seq<char> {
    "Invalid input, defaulting to 0"@
}

/// The report printed for the element at an in-bounds index.
pub open spec fn report_line(index: u64, element: i32) -> Seq<char> {
    "The value of the element at index "@ + dec_str(index as nat) + " is: "@ + dec_str_int(
        element as int,
    )
}

/// The line printed for the out-of-range index that ends the sub-loop.
pub open spec fn out_of_range_line(index: u64) -> Seq<char> {
    "Index "@ + dec_str(index as nat) + " is out of range, quitting."@
}

/// The lines one read of the sub-loop prints: the warning when the line
/// did not parse, then the element report or the out-of-range notice.
pub open spec fn spec_step_lines(a: Seq<i32>, line: Seq<char>) -> Seq<Seq<char>> {
    let warn: Seq<Seq<char>> = if spec_parse_line(line) is None {
        seq![warn_line()]
    } else {
        Seq::empty()
    };
    match spec_index_step(a, line) {
        IndexStep::Hit { index, element } => warn + seq![report_line(index, element)],
        IndexStep::OutOfRange { index } => warn + seq![out_of_range_line(index)],
    }
}

/// All the lines the sub-loop prints over a queue of input lines: one
/// read per line until the first out-of-range index (that read included),
/// or every line when none is out of range.
pub open spec fn spec_subloop_out(a: Seq<i32>, lines: Seq<Seq<char>>) -> Seq<Seq<char>>
    decreases lines.len(),
{
    if lines.len() == 0 {
        Seq::empty()
    } else if spec_index_step(a, lines[0]) is OutOfRange {
        spec_step_lines(a, lines[0])
    } else {
        spec_step_lines(a, lines[0]) + spec_subloop_out(a, lines.drop_first())
    }
}

/// How many lines the sub-loop reads before it terminates.
pub open spec fn spec_subloop_reads(a: Seq<i32>, lines: Seq<Seq<char>>) -> nat
    decreases lines.len(),
{
    if lines.len() == 0 {
        0
    } else if spec_index_step(a, lines[0]) is OutOfRange {
        1
    } else {
        1 + spec_subloop_reads(a, lines.drop_first())
    }
}

/// The out-of-range index that ends the sub-loop, when one does.
pub open spec fn spec_subloop_exit(a: Seq<i32>, lines: Seq<Seq<char>>) -> Option<u64>
    decreases lines.len(),
{
    if lines.len() == 0 {
        Option::None
    } else if spec_index_step(a, lines[0]) is OutOfRange {
        Option::Some(spec_requested_index(lines[0]))
    } else {
        spec_subloop_exit(a, lines.drop_first())
    }
}

/// Renders the lines one read of the sub-loop prints.
pub fn step_lines(a: &[i32; 5], line: &str) -> (r: (Vec<String>, IndexStep))
    ensures
        r.0.deep_view() == spec_step_lines(a@, line@),
        r.1 == spec_index_step(a@, line@),
{
    let parsed = parse_line(line);
    let mut out: Vec<String> = Vec::new();
    if matches!(parsed, Option::None) {
        out.push(String::from_str("Invalid input, defaulting to 0"));
    }
    let step = index_step(a, line);
    match step {
        IndexStep::Hit { index, element } => {
            let mut report = String::from_str("The value of the element at index ");
            let index_digits = fmt_u64(index);
            report.append(index_digits.as_str());
            report.append(" is: ");
            let element_digits = fmt_i32(element);
            report.append(element_digits.as_str());
            out.push(report);
        },
        IndexStep::OutOfRange { index } => {
            let mut notice = String::from_str("Index ");
            let index_digits = fmt_u64(index);
            notice.append(index_digits.as_str());
            notice.append(" is out of range, quitting.");
            out.push(notice);
        },
    }
    proof {
        assert(out.deep_view() =~~= spec_step_lines(a@, line@));
    }
    (out, step)
}

/// Runs the sub-loop over a queue of input lines: reports elements until
/// the first out-of-range index or the end of the queue, and returns the
/// printed lines, how many lines were read, and the out-of-range index
/// that ended it, if one did.
pub fn run_index_loop(a: &[i32; 5], inputs: &Vec<String>) -> (r: (Vec<String>, usize, Option<
    u64,
>))
    ensures
        r.0.deep_view() == spec_subloop_out(a@, inputs.deep_view()),
        r.1 == spec_subloop_reads(a@, inputs.deep_view()),
        r.2 == spec_subloop_exit(a@, inputs.deep_view()),
{
    let ghost all = inputs.deep_view();
    proof {
        assert(all.subrange(0, all.len() as int) =~= all);
    }
    let mut out: Vec<String> = Vec::new();
    let mut i: usize = 0;
    loop
        invariant
            i <= inputs.len(),
            all == inputs.deep_view(),
            all.len() == inputs.len(),
            spec_subloop_out(a@, all) == out.deep_view() + spec_subloop_out(
                a@,
                all.subrange(i as int, all.len() as int),
            ),
            spec_subloop_reads(a@, all) == i + spec_subloop_reads(
                a@,
                all.subrange(i as int, all.len() as int),
            ),
            spec_subloop_exit(a@, all) == spec_subloop_exit(
                a@,
                all.subrange(i as int, all.len() as int),
            ),
        decreases inputs.len() - i,
    {
        if i == inputs.len() {
            proof {
                assert(all.subrange(i as int, all.len() as int) =~= Seq::<Seq<char>>::empty());
                assert(out.deep_view() + Seq::<Seq<char>>::empty() =~= out.deep_view());
            }
            return (out, i, Option::None);
        }
        let (mut lines, step) = step_lines(a, inputs[i].as_str());
        let ghost pre = out;
        let ghost mid = lines;
        out.append(&mut lines);
        proof {
            let rest = all.subrange(i as int, all.len() as int);
            assert(rest[0] == all[i as int]);
            assert(rest.drop_first() =~= all.subrange(i + 1, all.len() as int));
            lemma_deep_view_append(pre, mid, out);
        }
        match step {
            IndexStep::OutOfRange { index } => {
                return (out, i + 1, Option::Some(index));
            },
            _ => {},
        }
        i = i + 1;
    }
}

/// The sub-loop never reads more lines than the queue holds.
pub proof fn lemma_subloop_reads_le(a: Seq<i32>, lines: Seq<Seq<char>>)
    ensures
        spec_subloop_reads(a, lines) <= lines.len(),
    decreases lines.len(),
{
    if lines.len() > 0 && !(spec_index_step(a, lines[0]) is OutOfRange) {
        lemma_subloop_reads_le(a, lines.drop_first());
    }
}

/// The prompt the sub-loop prints before each read: the array on one
/// line, then the instruction.
pub open spec fn spec_subloop_prompt(a: Seq<i32>) -> Seq<Seq<char>> {
    seq![
        "Array: ["@ + comma_sep(a) + "]"@,
        "Please enter an array index. Enter 5 or greater to quit."@,
    ]
}

/// The elements of an array as text, separated by commas.
pub open spec fn comma_sep(a: Seq<i32>) -> Seq<char>
    decreases a.len(),
{
    if a.len() == 0 {
        Seq::empty()
    } else if a.len() == 1 {
        dec_str_int(a[0] as int)
    } else {
        comma_sep(a.drop_last()) + ", "@ + dec_str_int(a.last() as int)
    }
}

/// Renders the sub-loop's prompt.
pub fn subloop_prompt(a: &[i32; 5]) -> (out: Vec<String>)
    ensures
        out.deep_view() == spec_subloop_prompt(a@),
{
    let mut first = String::from_str("Array: [");
    let mut i: usize = 0;
    while i < 5
        invariant
            i <= 5,
            first@ == "Array: ["@ + comma_sep(a@.subrange(0, i as int)),
        decreases 5 - i,
    {
        if i > 0 {
            first.append(", ");
        }
        let digits = fmt_i32(a[i]);
        first.append(digits.as_str());
        proof {
            let sub1 = a@.subrange(0, i + 1);
            assert(sub1.drop_last() =~= a@.subrange(0, i as int));
            assert(sub1.last() == a@[i as int]);
        }
        i = i + 1;
    }
    first.append("]");
    proof {
        assert(a@.subrange(0, 5) =~= a@);
    }
    let mut out: Vec<String> = Vec::new();
    out.push(first);
    out.push(String::from_str("Please enter an array index. Enter 5 or greater to quit."));
    proof {
        assert(out.deep_view() =~~= spec_subloop_prompt(a@));
    }
    out
}

} // verus!
