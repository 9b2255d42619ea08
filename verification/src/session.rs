//! The whole program over a finite queue of input lines: menu turns, the
//! demonstrations they run, and the array sub-loop nested inside the array
//! demonstration, as one pure function from the queue to everything the
//! program prints, together with how many lines it reads.
//!
//! The model stops when the queue runs dry: it covers the turns the queue
//! answers, not the waiting that would follow.

use vstd::prelude::*;
use crate::arrays::spec_index_step;
use crate::arrays::spec_step_lines;
use crate::arrays::spec_subloop_prompt;
use crate::arrays::spec_subloop_reads;
use crate::arrays::lemma_subloop_reads_le;
use crate::arrays::step_lines;
use crate::arrays::subloop_prompt;
use crate::arrays::IndexStep;
use crate::demos::demo_array;
use crate::demos::spec_demo_array;
use crate::menu::spec_line_choice;
use crate::menu::spec_options_block;
use crate::menu::spec_respond;
use crate::menu::line_choice;
use crate::menu::options_block;
use crate::menu::prompt_line;
use crate::menu::respond;
use crate::menu::Demo;
use crate::menu::MenuChoice;
use crate::text::lemma_deep_view_append;
use crate::text::lemma_deep_view_push;

verus! {

/// The lines a menu turn prints before it reads: the framed option list,
/// then the prompt.
pub open spec fn spec_menu_header() -> Seq<Seq<char>> {
    spec_options_block() + seq!["Select an option: "@]
}

/// Everything the array sub-loop prints over a queue of input lines, its
/// prompt before each read included: one read per line until the first
/// out-of-range index (that read included) or the end of the queue.
pub open spec fn spec_subsession_out(a: Seq<i32>, lines: Seq<Seq<char>>) -> Seq<Seq<char>>
    decreases lines.len(),
{
    if lines.len() == 0 {
        Seq::empty()
    } else if spec_index_step(a, lines[0]) is OutOfRange {
        spec_subloop_prompt(a) + spec_step_lines(a, lines[0])
    } else {
        spec_subloop_prompt(a) + spec_step_lines(a, lines[0]) + spec_subsession_out(
            a,
            lines.drop_first(),
        )
    }
}

/// Everything the program prints over a queue of input lines: each turn
/// shows the menu and the prompt, reads one line, and answers it; the
/// array demonstration then hands the queue to the sub-loop before the
/// menu resumes; the turn that reads an eight is the last.
pub open spec fn spec_program_out(lines: Seq<Seq<char>>) -> Seq<Seq<char>>
    decreases lines.len(),
    via spec_program_out_decreases
{
    if lines.len() == 0 {
        Seq::empty()
    } else {
        let turn = spec_menu_header() + spec_respond(spec_line_choice(lines[0]));
        let rest = lines.drop_first();
        match spec_line_choice(lines[0]) {
            MenuChoice::Quit => turn,
            MenuChoice::Run(Demo::Arrays) => {
                let consumed = spec_subloop_reads(spec_demo_array(), rest);
                turn + spec_subsession_out(spec_demo_array(), rest) + spec_program_out(
                    rest.skip(consumed as int),
                )
            },
            _ => turn + spec_program_out(rest),
        }
    }
}

#[via_fn]
proof fn spec_program_out_decreases(lines: Seq<Seq<char>>) {
    if lines.len() > 0 {
        lemma_subloop_reads_le(spec_demo_array(), lines.drop_first());
    }
}

/// How many lines the program reads from the queue before it terminates
/// or the queue runs dry: one per menu turn, plus what the array sub-loop
/// reads whenever the array demonstration runs.
pub open spec fn spec_program_reads(lines: Seq<Seq<char>>) -> nat
    decreases lines.len(),
    via spec_program_reads_decreases
{
    if lines.len() == 0 {
        0
    } else {
        let rest = lines.drop_first();
        match spec_line_choice(lines[0]) {
            MenuChoice::Quit => 1,
            MenuChoice::Run(Demo::Arrays) => {
                let consumed = spec_subloop_reads(spec_demo_array(), rest);
                1 + consumed + spec_program_reads(rest.skip(consumed as int))
            },
            _ => 1 + spec_program_reads(rest),
        }
    }
}

#[via_fn]
proof fn spec_program_reads_decreases(lines: Seq<Seq<char>>) {
    if lines.len() > 0 {
        lemma_subloop_reads_le(spec_demo_array(), lines.drop_first());
    }
}

/// Runs the whole program over a queue of input lines and returns
/// everything it prints and how many lines it read.
#[verifier::rlimit(60)]
pub fn run_program(inputs: &Vec<String>) -> (r: (Vec<String>, usize))
    ensures
        r.0.deep_view() == spec_program_out(inputs.deep_view()),
        r.1 == spec_program_reads(inputs.deep_view()),
{
    let ghost all = inputs.deep_view();
    proof {
        assert(all.subrange(0, all.len() as int) =~= all);
    }
    let mut out: Vec<String> = Vec::new();
    let mut i: usize = 0;
    loop
        invariant
            i <= inputs.len(),
            all == inputs.deep_view(),
            all.len() == inputs.len(),
            spec_program_out(all) == out.deep_view() + spec_program_out(
                all.subrange(i as int, all.len() as int),
            ),
            spec_program_reads(all) == i + spec_program_reads(
                all.subrange(i as int, all.len() as int),
            ),
        decreases inputs.len() - i,
    {
        if i == inputs.len() {
            proof {
                assert(all.subrange(i as int, all.len() as int) =~= Seq::<Seq<char>>::empty());
                assert(out.deep_view() + Seq::<Seq<char>>::empty() =~= out.deep_view());
            }
            return (out, i);
        }
        let ghost rest_i = all.subrange(i as int, all.len() as int);
        proof {
            assert(rest_i[0] == all[i as int]);
            assert(rest_i.drop_first() =~= all.subrange(i + 1, all.len() as int));
        }
        let ghost pre_header = out;
        let mut header = options_block();
        let ghost header_snap = header;
        out.append(&mut header);
        proof {
            lemma_deep_view_append(pre_header, header_snap, out);
        }
        let ghost pre_prompt = out;
        let prompt = prompt_line();
        let ghost prompt_snap = prompt;
        out.push(prompt);
        proof {
            lemma_deep_view_push(pre_prompt, out, prompt_snap);
        }
        let choice = line_choice(inputs[i].as_str());
        let ghost pre_answer = out;
        let mut answer = respond(choice);
        let ghost answer_snap = answer;
        out.append(&mut answer);
        proof {
            lemma_deep_view_append(pre_answer, answer_snap, out);
            assert(out.deep_view() =~= pre_header.deep_view() + (spec_menu_header()
                + spec_respond(spec_line_choice(all[i as int]))));
        }
        match choice {
            MenuChoice::Quit => {
                proof {
                    assert(out.deep_view() =~= spec_program_out(all));
                }
                return (out, i + 1);
            },
            MenuChoice::Run(Demo::Arrays) => {
                let arr = demo_array();
                let mut j: usize = i + 1;
                proof {
                    let rest1 = all.subrange(i + 1, all.len() as int);
                    let consumed = spec_subloop_reads(arr@, rest1);
                    lemma_subloop_reads_le(arr@, rest1);
                    assert(rest1.skip(consumed as int) =~= all.subrange(
                        i + 1 + consumed,
                        all.len() as int,
                    ));
                    assert(spec_program_out(all) == out.deep_view() + spec_subsession_out(
                        arr@,
                        rest1,
                    ) + spec_program_out(all.subrange(i + 1 + consumed, all.len() as int)));
                }
                loop
                    invariant_except_break
                        i < j <= inputs.len(),
                        all == inputs.deep_view(),
                        all.len() == inputs.len(),
                        arr@ == spec_demo_array(),
                        spec_program_out(all) == out.deep_view() + spec_subsession_out(
                            arr@,
                            all.subrange(j as int, all.len() as int),
                        ) + spec_program_out(
                            all.subrange(
                                j + spec_subloop_reads(
                                    arr@,
                                    all.subrange(j as int, all.len() as int),
                                ),
                                all.len() as int,
                            ),
                        ),
                        spec_program_reads(all) == j + spec_subloop_reads(
                            arr@,
                            all.subrange(j as int, all.len() as int),
                        ) + spec_program_reads(
                            all.subrange(
                                j + spec_subloop_reads(
                                    arr@,
                                    all.subrange(j as int, all.len() as int),
                                ),
                                all.len() as int,
                            ),
                        ),
                    ensures
                        i < j <= inputs.len(),
                        spec_program_out(all) == out.deep_view() + spec_program_out(
                            all.subrange(j as int, all.len() as int),
                        ),
                        spec_program_reads(all) == j + spec_program_reads(
                            all.subrange(j as int, all.len() as int),
                        ),
                    decreases inputs.len() - j,
                {
                    if j == inputs.len() {
                        proof {
                            assert(all.subrange(j as int, all.len() as int)
                                =~= Seq::<Seq<char>>::empty());
                            assert(out.deep_view() + Seq::<Seq<char>>::empty()
                                =~= out.deep_view());
                        }
                        break;
                    }
                    let ghost rest_j = all.subrange(j as int, all.len() as int);
                    proof {
                        assert(rest_j[0] == all[j as int]);
                        assert(rest_j.drop_first() =~= all.subrange(j + 1, all.len() as int));
                        lemma_subloop_reads_le(arr@, rest_j.drop_first());
                    }
                    let ghost pre_sub_prompt = out;
                    let mut sub_prompt = subloop_prompt(&arr);
                    let ghost sub_prompt_snap = sub_prompt;
                    out.append(&mut sub_prompt);
                    proof {
                        lemma_deep_view_append(pre_sub_prompt, sub_prompt_snap, out);
                    }
                    let (mut chunk, step) = step_lines(&arr, inputs[j].as_str());
                    let ghost pre_chunk = out;
                    let ghost chunk_snap = chunk;
                    out.append(&mut chunk);
                    proof {
                        lemma_deep_view_append(pre_chunk, chunk_snap, out);
                    }
                    match step {
                        IndexStep::OutOfRange { .. } => {
                            j = j + 1;
                            proof {
                                assert(out.deep_view() =~= pre_sub_prompt.deep_view() + (
                                spec_subloop_prompt(arr@) + spec_step_lines(
                                    arr@,
                                    all[j - 1],
                                )));
                            }
                            break;
                        },
                        _ => {},
                    }
                    proof {
                        assert(out.deep_view() =~= pre_sub_prompt.deep_view() + (
                        spec_subloop_prompt(arr@) + spec_step_lines(arr@, all[j as int])));
                    }
                    j = j + 1;
                }
                i = j;
            },
            _ => {
                proof {
                    assert(out.deep_view() + spec_program_out(
                        all.subrange(i + 1, all.len() as int),
                    ) =~= spec_program_out(all));
                }
                i = i + 1;
            },
        }
    }
}

} // verus!
