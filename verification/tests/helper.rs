use soteria::helper::{helper_command, parse_line, socket_greeting, HelperMessage};
use soteria::text::{strip_prefix, terminated, trim};

fn prompt(text: &str) -> Option<String> {
    match parse_line(text) {
        HelperMessage::Prompt(prompt) => Some(prompt),
        _ => None,
    }
}

fn notice(text: &str) -> Option<String> {
    match parse_line(text) {
        HelperMessage::Notice(notice) => Some(notice),
        _ => None,
    }
}

#[test]
fn prompts_are_read_with_and_without_echo() {
    assert_eq!(prompt("PAM_PROMPT_ECHO_OFF Password: "), Some("Password:".to_string()));
    assert_eq!(prompt("PAM_PROMPT_ECHO_ON\tlogin\u{3000}"), Some("login".to_string()));
    assert_eq!(prompt("PAM_PROMPT_ECHO_OFF"), Some(String::new()));
    assert_eq!(prompt("PAM_PROMPT_ECHO_ONLY"), Some("LY".to_string()));
    assert_eq!(prompt("PAM_PROMPT_ECHO_"), None);
    assert_eq!(prompt(" PAM_PROMPT_ECHO_ON x"), None);
}

#[test]
fn notices_are_read() {
    assert_eq!(notice("PAM_TEXT_INFO  Swipe your finger \r"), Some("Swipe your finger".to_string()));
    assert_eq!(notice("PAM_ERROR_MSG Sorry"), Some("Sorry".to_string()));
    assert_eq!(notice("PAM_ERROR_MSG   "), Some(String::new()));
    assert_eq!(notice("PAM_ERROR Sorry"), None);
}

#[test]
fn verdicts_are_read() {
    assert!(matches!(parse_line("SUCCESS"), HelperMessage::Success));
    assert!(matches!(parse_line("SUCCESSFUL"), HelperMessage::Success));
    assert!(matches!(parse_line("FAILURE"), HelperMessage::Failure));
    assert!(matches!(parse_line("success"), HelperMessage::Other));
    assert!(matches!(parse_line(" SUCCESS"), HelperMessage::Other));
    assert!(matches!(parse_line(""), HelperMessage::Other));
}

#[test]
fn trimming_agrees_with_the_standard_library_on_every_character() {
    for code in 0..0x11_0000u32 {
        if let Some(c) = char::from_u32(code) {
            let text = format!("{}x{}", c, c);
            assert_eq!(trim(&text), text.trim());
        }
    }
}

#[test]
fn trimming_keeps_the_white_space_inside() {
    assert_eq!(trim("  a b\u{a0}c \n"), "a b\u{a0}c");
    assert_eq!(trim(" \t\u{2028} "), "");
    assert_eq!(trim(""), "");
}

#[test]
fn prefixes_are_stripped_by_characters() {
    assert_eq!(strip_prefix("\u{e9}tat", "\u{e9}"), Some("tat"));
    assert_eq!(strip_prefix("abc", ""), Some("abc"));
    assert_eq!(strip_prefix("abc", "abc"), Some(""));
    assert_eq!(strip_prefix("ab", "abc"), None);
    assert_eq!(strip_prefix("abd", "abc"), None);
}

#[test]
fn greetings_are_lines() {
    assert_eq!(terminated("cookie"), "cookie\n");
    assert_eq!(socket_greeting("alice", "cookie"), "alice\ncookie\n");
}

#[test]
fn the_helper_is_started_for_the_user_in_the_c_locale() {
    let command = helper_command("/usr/lib/polkit-agent-helper-1", "alice");
    assert_eq!(command.program, "/usr/lib/polkit-agent-helper-1");
    assert_eq!(command.argument, "alice");
    assert_eq!(command.variable, "LC_ALL");
    assert_eq!(command.value, "C");
}
