use debug_adapter_protocol::events::OutputCategory;
use debug_adapter_protocol::requests::PathFormat;
use debug_adapter_protocol::text::{
    capitalize, decimal_text, frame, replace_char, transform_description,
};
use debug_adapter_protocol::types::{ColumnDescriptorType, SteppingGranularity};
use debug_adapter_protocol::utils::{eq_default, true_};

#[test]
fn capitalize_raises_the_first_character() {
    assert_eq!(capitalize("setBreakpoints"), "SetBreakpoints");
    assert_eq!(capitalize("a"), "A");
    assert_eq!(capitalize("Already"), "Already");
    assert_eq!(capitalize("1st"), "1st");
}

#[test]
fn capitalize_of_nothing_is_nothing() {
    assert_eq!(capitalize(""), "");
}

#[test]
fn capitalize_may_give_several_characters_for_one() {
    assert_eq!(capitalize("\u{df}a"), "SSa");
    assert_eq!(capitalize("\u{e9}t\u{e9}"), "\u{c9}t\u{e9}");
}

#[test]
fn description_becomes_a_comment() {
    assert_eq!(transform_description("The thread."), "/// The thread.");
    assert_eq!(transform_description(""), "/// ");
    assert_eq!(
        transform_description("First line.\nSecond line."),
        "/// First line.\n///\n/// Second line."
    );
    assert_eq!(transform_description("a\n\nb"), "/// a\n///\n/// \n///\n/// b");
}

#[test]
fn numbers_in_decimal() {
    assert_eq!(decimal_text(0), "0");
    assert_eq!(decimal_text(7), "7");
    assert_eq!(decimal_text(10), "10");
    assert_eq!(decimal_text(1234567890), "1234567890");
    assert_eq!(decimal_text(usize::MAX), usize::MAX.to_string());
}

#[test]
fn frame_counts_bytes() {
    assert_eq!(frame("{}"), "Content-Length: 2\r\n\r\n{}");
    assert_eq!(frame(""), "Content-Length: 0\r\n\r\n");
    assert_eq!(frame("\"\u{fc}\""), "Content-Length: 4\r\n\r\n\"\u{fc}\"");
}

#[test]
fn flag_default_is_on() {
    assert!(true_());
}

#[test]
fn default_values_are_recognised() {
    assert!(eq_default(&0));
    assert!(!eq_default(&1));
    assert!(eq_default(&false));
    assert!(!eq_default(&true));
    assert!(eq_default(&String::new()));
    assert!(!eq_default(&"x".to_string()));
    assert!(eq_default(&Vec::<i32>::new()));
    assert!(eq_default(&None::<i32>));
}

#[test]
fn default_values_of_enumerations_are_recognised() {
    assert!(eq_default(&PathFormat::Path));
    assert!(!eq_default(&PathFormat::URI));
    assert!(eq_default(&OutputCategory::Console));
    assert!(!eq_default(&OutputCategory::Telemetry));
    assert!(eq_default(&ColumnDescriptorType::String));
    assert!(!eq_default(&ColumnDescriptorType::UnixTimestampUTC));
    assert!(eq_default(&SteppingGranularity::Statement));
    assert!(!eq_default(&SteppingGranularity::Instruction));
    assert!(PathFormat::Path == PathFormat::Path);
    assert!(PathFormat::Path != PathFormat::URI);
}

#[test]
fn replace_char_replaces_every_occurrence() {
    assert_eq!(replace_char("a-b-c", '-', "+++"), "a+++b+++c");
    assert_eq!(replace_char("--", '-', ""), "");
    assert_eq!(replace_char("", '-', "x"), "");
    assert_eq!(replace_char("abc", '-', "x"), "abc");
    assert_eq!(replace_char("gr\u{fc}n\n", '\n', "\r\n"), "gr\u{fc}n\r\n");
    assert_eq!(replace_char("\u{fc}\u{fc}", '\u{fc}', "ue"), "ueue");
}
