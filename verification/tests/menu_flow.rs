use demo_menu::menu::Demo;
use demo_menu::menu::MenuChoice;
use demo_menu::menu::dispatch;
use demo_menu::menu::line_choice;
use demo_menu::menu::options_block;
use demo_menu::menu::prompt_line;
use demo_menu::menu::respond;
use demo_menu::menu::session_reads;
use demo_menu::parse::parse_line;
use demo_menu::parse::trim_line;

#[test]
fn parse_plain_digits() {
    assert_eq!(parse_line("2"), Some(2));
    assert_eq!(parse_line("42"), Some(42));
    assert_eq!(parse_line("0"), Some(0));
    assert_eq!(parse_line("007"), Some(7));
}

#[test]
fn parse_trims_whitespace() {
    assert_eq!(parse_line(" 42\n"), Some(42));
    assert_eq!(parse_line("\t8\r\n"), Some(8));
    assert_eq!(trim_line("  hello  "), "hello");
    assert_eq!(trim_line("\n"), "");
}

#[test]
fn parse_accepts_leading_plus() {
    assert_eq!(parse_line("+7"), Some(7));
    assert_eq!(parse_line("+"), None);
    assert_eq!(parse_line("++7"), None);
}

#[test]
fn parse_rejects_non_numbers() {
    assert_eq!(parse_line(""), None);
    assert_eq!(parse_line("abc"), None);
    assert_eq!(parse_line("12a"), None);
    assert_eq!(parse_line("-3"), None);
    assert_eq!(parse_line("3.14"), None);
}

#[test]
fn parse_handles_the_largest_value() {
    assert_eq!(parse_line("18446744073709551615"), Some(u64::MAX));
    assert_eq!(parse_line("18446744073709551616"), None);
    assert_eq!(parse_line("99999999999999999999999"), None);
}

#[test]
fn dispatch_maps_each_option() {
    assert_eq!(dispatch(Some(1)), MenuChoice::Run(Demo::Shadowing));
    assert_eq!(dispatch(Some(2)), MenuChoice::Run(Demo::Integers));
    assert_eq!(dispatch(Some(3)), MenuChoice::Run(Demo::Floats));
    assert_eq!(dispatch(Some(4)), MenuChoice::Run(Demo::Booleans));
    assert_eq!(dispatch(Some(5)), MenuChoice::Run(Demo::Chars));
    assert_eq!(dispatch(Some(6)), MenuChoice::Run(Demo::Tuples));
    assert_eq!(dispatch(Some(7)), MenuChoice::Run(Demo::Arrays));
    assert_eq!(dispatch(Some(8)), MenuChoice::Quit);
}

#[test]
fn dispatch_rejects_everything_else() {
    assert_eq!(dispatch(None), MenuChoice::Invalid);
    assert_eq!(dispatch(Some(0)), MenuChoice::Invalid);
    assert_eq!(dispatch(Some(9)), MenuChoice::Invalid);
    assert_eq!(dispatch(Some(u64::MAX)), MenuChoice::Invalid);
    assert_eq!(line_choice("hello"), MenuChoice::Invalid);
    assert_eq!(line_choice(""), MenuChoice::Invalid);
}

#[test]
fn option_eight_quits_after_one_read() {
    let inputs = vec![String::from("8")];
    assert_eq!(session_reads(&inputs), 1);
    let inputs = vec![String::from("8"), String::from("1"), String::from("2")];
    assert_eq!(session_reads(&inputs), 1);
}

#[test]
fn session_quits_at_the_first_eight() {
    let inputs = vec![String::from("1"), String::from(" 8 "), String::from("3")];
    assert_eq!(session_reads(&inputs), 2);
}

#[test]
fn invalid_input_re_prompts_without_quitting() {
    let inputs = vec![
        String::from("abc"),
        String::from("42"),
        String::from(""),
        String::from("9"),
        String::from("0"),
    ];
    assert_eq!(session_reads(&inputs), 5);
}

#[test]
fn every_demo_response_is_framed_by_blank_lines() {
    for n in 1u64..=7 {
        let out = respond(dispatch(Some(n)));
        assert!(out.len() >= 2);
        assert_eq!(out[0], "");
        assert_eq!(out[out.len() - 1], "");
    }
}

#[test]
fn invalid_choice_prints_the_notice() {
    let out = respond(MenuChoice::Invalid);
    assert_eq!(out, vec![String::from("Invalid input")]);
}

#[test]
fn quit_choice_prints_nothing() {
    let out = respond(MenuChoice::Quit);
    assert!(out.is_empty());
}

#[test]
fn the_menu_lists_all_eight_options() {
    let out = options_block();
    assert_eq!(
        out,
        vec![
            String::from(""),
            String::from("1. Shadowing Example"),
            String::from("2. Integer types"),
            String::from("3. Floating Point types"),
            String::from("4. The Boolean type"),
            String::from("5. The Character type"),
            String::from("6. The Tuple type"),
            String::from("7. The Array Type"),
            String::from("8. Quit"),
            String::from(""),
        ]
    );
    assert_eq!(prompt_line(), "Select an option: ");
}
