//! The menu dispatcher: maps a parsed input line to one of seven
//! demonstrations, to quitting, or to a re-prompt, and models how many
//! lines a whole menu session reads before it terminates.

use vstd::prelude::*;
use crate::demos::spec_demo_lines;
use crate::demos::demo_lines;
use crate::parse::spec_parse_line;
use crate::parse::parse_line;
use crate::text::lemma_deep_view_append;

verus! {

/// The seven demonstrations the menu offers.
#[derive(Clone, Copy, Debug, PartialEq, Eq, Structural)]
pub enum Demo {
    Shadowing,
    Integers,
    Floats,
    Booleans,
    Chars,
    Tuples,
    Arrays,
}

/// What the dispatcher decides for one line of input: run a demonstration,
/// quit the menu, or report invalid input and prompt again.
#[derive(Clone, Copy, Debug, PartialEq, Eq, Structural)]
pub enum MenuChoice {
    Run(Demo),
    Quit,
    Invalid,
}

/// The choice the dispatcher makes for a parsed menu selection: options one
/// through seven run the demonstration of that number, option eight quits,
/// and everything else (a failed parse included) is invalid.
pub open spec fn spec_dispatch(v: Option<u64>) -> MenuChoice {
    match v {
        Option::None => MenuChoice::Invalid,
        Option::Some(n) => if n == 1 {
            MenuChoice::Run(Demo::Shadowing)
        } else if n == 2 {
            MenuChoice::Run(Demo::Integers)
        } else if n == 3 {
            MenuChoice::Run(Demo::Floats)
        } else if n == 4 {
            MenuChoice::Run(Demo::Booleans)
        } else if n == 5 {
            MenuChoice::Run(Demo::Chars)
        } else if n == 6 {
            MenuChoice::Run(Demo::Tuples)
        } else if n == 7 {
            MenuChoice::Run(Demo::Arrays)
        } else if n == 8 {
            MenuChoice::Quit
        } else {
            MenuChoice::Invalid
        },
    }
}

/// The choice the dispatcher makes for a raw line of input.
pub open spec fn spec_line_choice(line: Seq<char>) -> MenuChoice {
    spec_dispatch(spec_parse_line(line))
}

/// Maps a parsed menu selection to the dispatcher's choice.
pub fn dispatch(v: Option<u64>) -> (c: MenuChoice)
    ensures
        c == spec_dispatch(v),
{
    match v {
        Option::None => MenuChoice::Invalid,
        Option::Some(n) => match n {
            1 => MenuChoice::Run(Demo::Shadowing),
            2 => MenuChoice::Run(Demo::Integers),
            3 => MenuChoice::Run(Demo::Floats),
            4 => MenuChoice::Run(Demo::Booleans),
            5 => MenuChoice::Run(Demo::Chars),
            6 => MenuChoice::Run(Demo::Tuples),
            7 => MenuChoice::Run(Demo::Arrays),
            8 => MenuChoice::Quit,
            _ => MenuChoice::Invalid,
        },
    }
}

/// Parses a raw line of input and dispatches on it.
pub fn line_choice(line: &str) -> (c: MenuChoice)
    ensures
        c == spec_line_choice(line@),
{
    dispatch(parse_line(line))
}

/// The eight options the menu lists.
pub open spec fn spec_option_lines() -> Seq<Seq<char>> {
    seq![
        "1. Shadowing Example"@,
        "2. Integer types"@,
        "3. Floating Point types"@,
        "4. The Boolean type"@,
        "5. The Character type"@,
        "6. The Tuple type"@,
        "7. The Array Type"@,
        "8. Quit"@,
    ]
}

/// The menu's option list, framed by a blank line before and after.
pub open spec fn spec_options_block() -> Seq<Seq<char>> {
    seq![Seq::<char>::empty()] + spec_option_lines() + seq![Seq::<char>::empty()]
}

/// Renders the menu's option list with its blank-line frame.
pub fn options_block() -> (out: Vec<String>)
    ensures
        out.deep_view() == spec_options_block(),
{
    let mut out: Vec<String> = Vec::new();
    out.push(String::new());
    out.push(String::from_str("1. Shadowing Example"));
    out.push(String::from_str("2. Integer types"));
    out.push(String::from_str("3. Floating Point types"));
    out.push(String::from_str("4. The Boolean type"));
    out.push(String::from_str("5. The Character type"));
    out.push(String::from_str("6. The Tuple type"));
    out.push(String::from_str("7. The Array Type"));
    out.push(String::from_str("8. Quit"));
    out.push(String::new());
    proof {
        assert(out.deep_view() =~~= spec_options_block());
    }
    out
}

/// The prompt printed after the option list.
pub fn prompt_line() -> (r: String)
    ensures
        r@ == "Select an option: "@,
{
    String::from_str("Select an option: ")
}

/// The lines printed in answer to one choice: a demonstration's lines
/// framed by a blank line before and after, the invalid-input notice, or
/// nothing at all when the choice is to quit.
pub open spec fn spec_respond(c: MenuChoice) -> Seq<Seq<char>> {
    match c {
        MenuChoice::Run(d) => seq![Seq::<char>::empty()] + spec_demo_lines(d) + seq![
            Seq::<char>::empty(),
        ],
        MenuChoice::Quit => Seq::empty(),
        MenuChoice::Invalid => seq!["Invalid input"@],
    }
}

/// Renders the lines printed in answer to one choice.
pub fn respond(c: MenuChoice) -> (out: Vec<String>)
    ensures
        out.deep_view() == spec_respond(c),
{
    match c {
        MenuChoice::Run(d) => {
            let mut out: Vec<String> = Vec::new();
            out.push(String::new());
            let ghost pre = out;
            let mut mid = demo_lines(d);
            let ghost mid_snap = mid;
            out.append(&mut mid);
            proof {
                lemma_deep_view_append(pre, mid_snap, out);
            }
            out.push(String::new());
            proof {
                assert(out.deep_view() =~~= spec_respond(c));
            }
            out
        },
        MenuChoice::Quit => {
            let out: Vec<String> = Vec::new();
            proof {
                assert(out.deep_view() =~~= spec_respond(c));
            }
            out
        },
        MenuChoice::Invalid => {
            let mut out: Vec<String> = Vec::new();
            out.push(String::from_str("Invalid input"));
            proof {
                assert(out.deep_view() =~~= spec_respond(c));
            }
            out
        },
    }
}

/// Whatever demonstration is chosen, its output begins and ends with a
/// blank line: the frame the renderer puts around every demonstration.
pub proof fn lemma_run_output_framed(d: Demo)
    ensures
        spec_respond(MenuChoice::Run(d)).len() >= 2,
        spec_respond(MenuChoice::Run(d)).first() == Seq::<char>::empty(),
        spec_respond(MenuChoice::Run(d)).last() == Seq::<char>::empty(),
{
}

/// How many lines a menu session reads from a queue of input lines before
/// it terminates: one read per line until the first line that dispatches
/// to quitting (that line included), or all of them when none quits.
pub open spec fn spec_session_reads(lines: Seq<Seq<char>>) -> nat
    decreases lines.len(),
{
    if lines.len() == 0 {
        0
    } else if spec_line_choice(lines[0]) is Quit {
        1
    } else {
        1 + spec_session_reads(lines.drop_first())
    }
}

/// Runs the dispatcher over a queue of input lines until it quits or the
/// queue runs dry, and reports how many lines were read.
pub fn session_reads(inputs: &Vec<String>) -> (reads: usize)
    ensures
        reads == spec_session_reads(inputs.deep_view()),
{
    let ghost all = inputs.deep_view();
    proof {
        assert(all.subrange(0, all.len() as int) =~= all);
    }
    let mut i: usize = 0;
    loop
        invariant
            i <= inputs.len(),
            all == inputs.deep_view(),
            all.len() == inputs.len(),
            spec_session_reads(all) == i + spec_session_reads(
                all.subrange(i as int, all.len() as int),
            ),
            forall|j: int| 0 <= j < i ==> !(spec_line_choice(#[trigger] all[j]) is Quit),
        decreases inputs.len() - i,
    {
        if i == inputs.len() {
            proof {
                assert(all.subrange(i as int, all.len() as int) =~= Seq::<Seq<char>>::empty());
            }
            return i;
        }
        let c = line_choice(inputs[i].as_str());
        proof {
            let rest = all.subrange(i as int, all.len() as int);
            assert(rest[0] == all[i as int]);
            assert(rest.drop_first() =~= all.subrange(i + 1, all.len() as int));
        }
        if matches!(c, MenuChoice::Quit) {
            return i + 1;
        }
        i = i + 1;
    }
}

/// When the first input line selects option eight, the session terminates
/// after exactly one read.
pub proof fn lemma_quit_reads_one(lines: Seq<Seq<char>>)
    requires
        lines.len() > 0,
        spec_parse_line(lines[0]) == Option::Some(8u64),
    ensures
        spec_session_reads(lines) == 1,
{
}

/// A selection that parses to nothing, or to a number outside one through
/// eight, is invalid: the dispatcher reports it and prompts again.
pub proof fn lemma_out_of_set_is_invalid(line: Seq<char>)
    requires
        spec_parse_line(line) is None || !(1 <= spec_parse_line(line).unwrap() <= 8),
    ensures
        spec_line_choice(line) is Invalid,
{
}

/// A session whose input lines are all invalid selections never quits: it
/// re-prompts for every line and reads the whole queue.
pub proof fn lemma_invalid_session_never_quits(lines: Seq<Seq<char>>)
    requires
        forall|j: int|
            0 <= j < lines.len() ==> spec_line_choice(#[trigger] lines[j]) is Invalid,
    ensures
        spec_session_reads(lines) == lines.len(),
    decreases lines.len(),
{
    if lines.len() > 0 {
        assert(spec_line_choice(lines[0]) is Invalid);
        lemma_invalid_session_never_quits(lines.drop_first());
    }
}

} // verus!
