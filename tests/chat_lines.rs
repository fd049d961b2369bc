use chat_bridge::chat::try_get_log_chat_message;

fn parse(line: &str) -> Option<String> {
    try_get_log_chat_message(line.to_string())
}

#[test]
fn chat_line_yields_author_and_body() {
    assert_eq!(
        parse("2023-01-01 12:00:00 [CHAT] Alice: hello world"),
        Some("Alice: hello world".to_string())
    );
}

#[test]
fn line_without_marker_yields_nothing() {
    assert_eq!(parse("2023-01-01 12:00:00 [JOIN] Alice joined the game"), None);
    assert_eq!(parse("Alice: hello [CHAT]"), None);
    assert_eq!(parse("[CHAT] Alice: no leading space"), None);
}

#[test]
fn empty_line_yields_nothing() {
    assert_eq!(parse(""), None);
}

#[test]
fn bare_marker_yields_empty_message() {
    assert_eq!(parse(" [CHAT] "), Some(String::new()));
}

#[test]
fn only_first_marker_is_significant() {
    assert_eq!(
        parse("12:00 [CHAT] Alice: see [CHAT] here"),
        Some("Alice: see [CHAT] here".to_string())
    );
}

#[test]
fn relayed_echo_is_dropped() {
    assert_eq!(parse("2023-01-01 12:00:00 [CHAT] [Discord] Bob: hi"), None);
    assert_eq!(parse(" [CHAT] [Discord]"), None);
}

#[test]
fn relay_tag_after_start_is_kept() {
    assert_eq!(
        parse("12:00 [CHAT] Bob: [Discord] hi"),
        Some("Bob: [Discord] hi".to_string())
    );
    assert_eq!(parse("12:00 [CHAT] [Discord"), Some("[Discord".to_string()));
}

#[test]
fn echo_tag_before_marker_does_not_matter() {
    assert_eq!(
        parse("[Discord] 12:00 [CHAT] Carol: ok"),
        Some("Carol: ok".to_string())
    );
}

#[test]
fn non_ascii_text_is_kept() {
    assert_eq!(
        parse("é 12:00 [CHAT] Zoë: ça va — 👍"),
        Some("Zoë: ça va — 👍".to_string())
    );
}
