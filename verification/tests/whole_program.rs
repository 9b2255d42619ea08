use demo_menu::session::run_program;

fn menu_header() -> Vec<String> {
    vec![
        String::from(""),
        String::from("1. Shadowing Example"),
        String::from("2. Integer types"),
        String::from("3. Floating Point types"),
        String::from("4. The Boolean type"),
        String::from("5. The Character type"),
        String::from("6. The Tuple type"),
        String::from("7. The Array Type"),
        String::from("8. Quit"),
        String::from(""),
        String::from("Select an option: "),
    ]
}

#[test]
fn a_session_that_quits_at_once_reads_one_line() {
    let inputs = vec![String::from("8")];
    let (output, reads) = run_program(&inputs);
    assert_eq!(reads, 1);
    assert_eq!(output, menu_header());
}

#[test]
fn an_invalid_line_re_prompts_and_the_next_eight_quits() {
    let inputs = vec![String::from("pears"), String::from("8")];
    let (output, reads) = run_program(&inputs);
    assert_eq!(reads, 2);
    let mut expected = menu_header();
    expected.push(String::from("Invalid input"));
    expected.extend(menu_header());
    assert_eq!(output, expected);
}

#[test]
fn a_demonstration_is_framed_between_menus() {
    let inputs = vec![String::from("4"), String::from("8")];
    let (output, reads) = run_program(&inputs);
    assert_eq!(reads, 2);
    let mut expected = menu_header();
    expected.push(String::from(""));
    expected.push(String::from("Only true (1) or false (0)."));
    expected.push(String::from("True: true"));
    expected.push(String::from("False: false"));
    expected.push(String::from(""));
    expected.extend(menu_header());
    assert_eq!(output, expected);
}

#[test]
fn the_array_demonstration_hands_the_queue_to_the_sub_loop() {
    let inputs = vec![
        String::from("7"),
        String::from("2"),
        String::from("9"),
        String::from("8"),
    ];
    let (output, reads) = run_program(&inputs);
    assert_eq!(reads, 4);
    let mut expected = menu_header();
    expected.push(String::from(""));
    expected.push(String::from(
        "A fixed length collection of objects with the same type.",
    ));
    expected.push(String::from("arr = ["));
    for n in 1..=5 {
        expected.push(format!("    {n},"));
    }
    expected.push(String::from("]"));
    expected.push(String::from(""));
    expected.push(String::from("arr of threes = ["));
    for _ in 0..5 {
        expected.push(String::from("    3,"));
    }
    expected.push(String::from("]"));
    expected.push(String::from(""));
    expected.push(String::from("arr[3] = 4"));
    expected.push(String::from(""));
    expected.push(String::from("Array: [1, 2, 3, 4, 5]"));
    expected.push(String::from(
        "Please enter an array index. Enter 5 or greater to quit.",
    ));
    expected.push(String::from("The value of the element at index 2 is: 3"));
    expected.push(String::from("Array: [1, 2, 3, 4, 5]"));
    expected.push(String::from(
        "Please enter an array index. Enter 5 or greater to quit.",
    ));
    expected.push(String::from("Index 9 is out of range, quitting."));
    expected.extend(menu_header());
    assert_eq!(output, expected);
}

#[test]
fn the_model_stops_when_the_queue_runs_dry() {
    let inputs = vec![String::from("1"), String::from("2")];
    let (_, reads) = run_program(&inputs);
    assert_eq!(reads, 2);
    let inputs: Vec<String> = Vec::new();
    let (output, reads) = run_program(&inputs);
    assert_eq!(reads, 0);
    assert!(output.is_empty());
}
