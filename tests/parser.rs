use stream_plays_emerald::input::parser::{
    parse_chat_message, parse_normalized, MAX_COMPOUND_REPEAT, MIN_COMPOUND_REPEAT,
};
use stream_plays_emerald::input::types::{GbaButton, ParsedInput};

#[test]
fn test_parses_basic_buttons() {
    assert_eq!(parse_chat_message("a"), Some(ParsedInput::Button(GbaButton::A)));
    assert_eq!(parse_chat_message("b"), Some(ParsedInput::Button(GbaButton::B)));
    assert_eq!(parse_chat_message("up"), Some(ParsedInput::Button(GbaButton::Up)));
    assert_eq!(parse_chat_message("down"), Some(ParsedInput::Button(GbaButton::Down)));
    assert_eq!(parse_chat_message("left"), Some(ParsedInput::Button(GbaButton::Left)));
    assert_eq!(parse_chat_message("right"), Some(ParsedInput::Button(GbaButton::Right)));
    assert_eq!(parse_chat_message("start"), Some(ParsedInput::Button(GbaButton::Start)));
    assert_eq!(parse_chat_message("select"), Some(ParsedInput::Button(GbaButton::Select)));
    assert_eq!(parse_chat_message("l"), Some(ParsedInput::Button(GbaButton::L)));
    assert_eq!(parse_chat_message("r"), Some(ParsedInput::Button(GbaButton::R)));
}

#[test]
fn test_case_insensitive() {
    assert_eq!(parse_chat_message("A"), Some(ParsedInput::Button(GbaButton::A)));
    assert_eq!(parse_chat_message("UP"), Some(ParsedInput::Button(GbaButton::Up)));
    assert_eq!(parse_chat_message("Right"), Some(ParsedInput::Button(GbaButton::Right)));
    assert_eq!(parse_chat_message("START"), Some(ParsedInput::Button(GbaButton::Start)));
    assert_eq!(parse_chat_message("DEMOCRACY"), Some(ParsedInput::VoleDemocracy));
}

#[test]
fn test_parses_compound_inputs() {
    assert_eq!(parse_chat_message("right3"), Some(ParsedInput::Compound(GbaButton::Right, 3)));
    assert_eq!(parse_chat_message("a2"), Some(ParsedInput::Compound(GbaButton::A, 2)));
    assert_eq!(parse_chat_message("up9"), Some(ParsedInput::Compound(GbaButton::Up, 9)));
    assert_eq!(parse_chat_message("down5"), Some(ParsedInput::Compound(GbaButton::Down, 5)));
}

#[test]
fn test_parses_mode_votes_and_wait() {
    assert_eq!(parse_chat_message("wait"), Some(ParsedInput::Wait));
    assert_eq!(parse_chat_message("anarchy"), Some(ParsedInput::VoteAnarchy));
    assert_eq!(parse_chat_message("democracy"), Some(ParsedInput::VoleDemocracy));
}

#[test]
fn test_rejects_invalid_inputs() {
    assert_eq!(parse_chat_message("hello world"), None);
    assert_eq!(parse_chat_message(""), None);
    assert_eq!(parse_chat_message("   "), None);
    assert_eq!(parse_chat_message("xyz"), None);
    assert_eq!(parse_chat_message("right10"), None);
    assert_eq!(parse_chat_message("a0"), None);
    assert_eq!(parse_chat_message("a1"), None);
    assert_eq!(parse_chat_message("notabutton3"), None);
}

#[test]
fn test_compound_repeat_cap_at_9() {
    assert_eq!(parse_chat_message("right9"), Some(ParsedInput::Compound(GbaButton::Right, 9)));
    assert_eq!(parse_chat_message("right10"), None);
}

#[test]
fn test_trims_whitespace() {
    assert_eq!(parse_chat_message("  a  "), Some(ParsedInput::Button(GbaButton::A)));
    assert_eq!(parse_chat_message("\tup\n"), Some(ParsedInput::Button(GbaButton::Up)));
}

#[test]
fn test_expand_button() {
    let input = ParsedInput::Button(GbaButton::A);
    assert_eq!(input.expand(), vec![GbaButton::A]);
}

#[test]
fn test_expand_compound() {
    let input = ParsedInput::Compound(GbaButton::Right, 3);
    assert_eq!(input.expand(), vec![GbaButton::Right, GbaButton::Right, GbaButton::Right]);
}

#[test]
fn test_expand_wait_and_votes_are_empty() {
    assert_eq!(ParsedInput::Wait.expand(), vec![]);
    assert_eq!(ParsedInput::VoteAnarchy.expand(), vec![]);
    assert_eq!(ParsedInput::VoleDemocracy.expand(), vec![]);
}

#[test]
fn padded_and_upper_case_names_parse_like_the_plain_name() {
    assert_eq!(parse_chat_message(" UP "), parse_chat_message("up"));
    for name in ["a", "b", "up", "down", "left", "right", "start", "select", "l", "r"] {
        let shouted = format!("  {}\t", name.to_uppercase());
        assert_eq!(parse_chat_message(&shouted), parse_chat_message(name));
        assert!(parse_chat_message(name).is_some());
    }
}

#[test]
fn compound_expands_to_repeated_presses() {
    let parsed = parse_chat_message("right3").unwrap();
    assert_eq!(parsed.expand(), vec![GbaButton::Right, GbaButton::Right, GbaButton::Right]);
}

#[test]
fn repeat_bounds_are_two_and_nine() {
    assert_eq!(MIN_COMPOUND_REPEAT, 2);
    assert_eq!(MAX_COMPOUND_REPEAT, 9);
    assert_eq!(parse_chat_message("select2"), Some(ParsedInput::Compound(GbaButton::Select, 2)));
    assert_eq!(parse_chat_message("l1"), None);
    assert_eq!(parse_chat_message("start100"), None);
    assert_eq!(parse_chat_message("b99999999999999999999"), None);
}

#[test]
fn digits_without_a_button_are_refused() {
    assert_eq!(parse_chat_message("3"), None);
    assert_eq!(parse_chat_message("42"), None);
    assert_eq!(parse_chat_message("wait3"), None);
    assert_eq!(parse_chat_message("a 3"), None);
}

#[test]
fn leading_zeros_count_by_value() {
    assert_eq!(parse_chat_message("a03"), Some(ParsedInput::Compound(GbaButton::A, 3)));
    assert_eq!(parse_chat_message("a00"), None);
}

#[test]
fn mixed_case_compound_parses() {
    assert_eq!(parse_chat_message(" Down4 "), Some(ParsedInput::Compound(GbaButton::Down, 4)));
}

#[test]
fn normalized_parse_is_case_sensitive() {
    assert_eq!(parse_normalized("up"), Some(ParsedInput::Button(GbaButton::Up)));
    assert_eq!(parse_normalized("UP"), None);
    assert_eq!(parse_normalized(" up"), None);
    assert_eq!(parse_normalized("left7"), Some(ParsedInput::Compound(GbaButton::Left, 7)));
}

#[test]
fn button_identifiers() {
    assert_eq!(GbaButton::A.as_str(), "a");
    assert_eq!(GbaButton::Select.as_str(), "select");
    assert_eq!(GbaButton::R.as_str(), "r");
}
