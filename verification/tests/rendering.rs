use demo_menu::arrays::IndexStep;
use demo_menu::arrays::index_step;
use demo_menu::arrays::run_index_loop;
use demo_menu::arrays::step_lines;
use demo_menu::arrays::subloop_prompt;
use demo_menu::demos::UnitMark;
use demo_menu::demos::array_element;
use demo_menu::demos::boolean_lines;
use demo_menu::demos::boolean_values;
use demo_menu::demos::char_lines;
use demo_menu::demos::char_values;
use demo_menu::demos::demo_array;
use demo_menu::demos::destructure;
use demo_menu::demos::filled_array;
use demo_menu::demos::integer_lines;
use demo_menu::demos::integer_literal_values;
use demo_menu::demos::shadowing_lines;
use demo_menu::demos::shadowing_values;
use demo_menu::demos::triple_value;
use demo_menu::demos::tuple_lines;
use demo_menu::demos::void_action;
use demo_menu::text::fmt_bool;
use demo_menu::text::fmt_i32;
use demo_menu::text::fmt_u64;

#[test]
fn decimal_rendering_is_exact() {
    assert_eq!(fmt_u64(0), "0");
    assert_eq!(fmt_u64(7), "7");
    assert_eq!(fmt_u64(10), "10");
    assert_eq!(fmt_u64(12345), "12345");
    assert_eq!(fmt_u64(u64::MAX), "18446744073709551615");
    assert_eq!(fmt_i32(0), "0");
    assert_eq!(fmt_i32(-45), "-45");
    assert_eq!(fmt_i32(i32::MIN), "-2147483648");
    assert_eq!(fmt_i32(i32::MAX), "2147483647");
    assert_eq!(fmt_bool(true), "true");
    assert_eq!(fmt_bool(false), "false");
}

#[test]
fn shadowing_walks_through_the_values() {
    let v = shadowing_values();
    assert_eq!(v.first, 5);
    assert_eq!(v.mutated, 6);
    assert_eq!(v.shadowed, 7);
    assert_eq!(v.inner, 14);
    assert_eq!(v.outer, 7);
    let lines = shadowing_lines();
    assert_eq!(
        lines,
        vec![
            String::from("The value of x is: 5"),
            String::from("The value of x is: 6"),
            String::from("The value of x is: 7"),
            String::from("The value of x in the inner scope is : 14"),
            String::from("The value of x in the outer scope is : 7"),
        ]
    );
}

#[test]
fn integer_literals_have_their_values() {
    let v = integer_literal_values();
    assert_eq!(v.decimal, 314);
    assert_eq!(v.hex, 255);
    assert_eq!(v.octal, 63);
    assert_eq!(v.binary, 240);
    assert_eq!(v.byte, b'A');
    let lines = integer_lines();
    assert_eq!(lines[6], "");
    assert_eq!(lines[8], "Decimal    (3_14u32): 314");
    assert_eq!(lines[9], "Hex           (0xff): 255");
    assert_eq!(lines[10], "Octal         (0o77): 63");
    assert_eq!(lines[11], "Binary (0b1111_0000): 240");
    assert_eq!(lines[12], "Byte          (b'A'): 65");
}

#[test]
fn booleans_render_both_values() {
    let (t, f) = boolean_values();
    assert!(t);
    assert!(!f);
    let lines = boolean_lines();
    assert_eq!(lines[1], "True: true");
    assert_eq!(lines[2], "False: false");
}

#[test]
fn characters_include_the_emoji() {
    let (c, emoji) = char_values();
    assert_eq!(c, 'c');
    assert_eq!(emoji, '\u{1f63b}');
    let lines = char_lines();
    assert_eq!(lines[1], "c:     c");
    assert_eq!(lines[2], "emoji: \u{1f63b}");
}

#[test]
fn destructuring_the_triple_yields_its_parts() {
    let t = triple_value();
    let (x, y, z) = destructure(t);
    assert_eq!(x, 69);
    assert_eq!(y, "3.14");
    assert_eq!(y.parse::<f32>().unwrap(), 3.14f32);
    assert_eq!(z, 49);
    assert_eq!(z, b'1');
}

#[test]
fn a_silent_function_returns_the_unit_marker() {
    assert_eq!(void_action(), UnitMark);
}

#[test]
fn the_tuple_walkthrough_renders_each_access() {
    let lines = tuple_lines();
    assert_eq!(lines[1], "Tuple: 69, 3.14, 49");
    assert_eq!(lines[2], "Layered tuple: (69, 3.14, 49), c");
    assert_eq!(lines[4], "x = 69, y = 3.14, z = 49");
    assert_eq!(
        lines[5],
        "tuple read using functional access method (:?): (69, 3.14, 49)"
    );
    assert_eq!(lines[8], "Void returns unit: true");
}

#[test]
fn the_array_holds_one_through_five() {
    let arr = demo_array();
    assert_eq!(arr, [1, 2, 3, 4, 5]);
    let threes = filled_array();
    assert_eq!(threes, [3, 3, 3, 3, 3]);
}

#[test]
fn indexing_at_three_yields_four() {
    let arr = demo_array();
    assert_eq!(array_element(&arr, 3), 4);
}

#[test]
fn the_sub_loop_reports_the_element_at_two() {
    let arr = demo_array();
    assert_eq!(
        index_step(&arr, "2"),
        IndexStep::Hit { index: 2, element: 3 }
    );
    let (lines, _) = step_lines(&arr, "2");
    assert_eq!(
        lines,
        vec![String::from("The value of the element at index 2 is: 3")]
    );
}

#[test]
fn the_sub_loop_defaults_a_bad_line_to_zero() {
    let arr = demo_array();
    assert_eq!(
        index_step(&arr, "not a number"),
        IndexStep::Hit { index: 0, element: 1 }
    );
    let (lines, _) = step_lines(&arr, "not a number");
    assert_eq!(
        lines,
        vec![
            String::from("Invalid input, defaulting to 0"),
            String::from("The value of the element at index 0 is: 1"),
        ]
    );
}

#[test]
fn the_sub_loop_ends_on_an_out_of_range_index() {
    let arr = demo_array();
    assert_eq!(index_step(&arr, "5"), IndexStep::OutOfRange { index: 5 });
    assert_eq!(index_step(&arr, "9"), IndexStep::OutOfRange { index: 9 });
    let inputs = vec![
        String::from("2"),
        String::from("abc"),
        String::from("9"),
        String::from("1"),
    ];
    let (reports, reads, exit) = run_index_loop(&arr, &inputs);
    assert_eq!(reads, 3);
    assert_eq!(exit, Some(9));
    assert_eq!(
        reports,
        vec![
            String::from("The value of the element at index 2 is: 3"),
            String::from("Invalid input, defaulting to 0"),
            String::from("The value of the element at index 0 is: 1"),
            String::from("Index 9 is out of range, quitting."),
        ]
    );
}

#[test]
fn the_sub_loop_reads_everything_without_an_out_of_range_index() {
    let arr = demo_array();
    let inputs = vec![String::from("0"), String::from("4")];
    let (reports, reads, exit) = run_index_loop(&arr, &inputs);
    assert_eq!(reads, 2);
    assert_eq!(exit, None);
    assert_eq!(
        reports,
        vec![
            String::from("The value of the element at index 0 is: 1"),
            String::from("The value of the element at index 4 is: 5"),
        ]
    );
}

#[test]
fn the_sub_loop_prompt_shows_the_array() {
    let arr = demo_array();
    let prompt = subloop_prompt(&arr);
    assert_eq!(
        prompt,
        vec![
            String::from("Array: [1, 2, 3, 4, 5]"),
            String::from("Please enter an array index. Enter 5 or greater to quit."),
        ]
    );
}
