use chat_bridge::command::{escape_lua_string, format_display_text, format_print_command};

/// Reads an escaped text back the way the Lua literal does.
fn unescape(s: &str) -> String {
    let mut out = String::new();
    let mut chars = s.chars();
    while let Some(c) = chars.next() {
        if c == '\\' {
            match chars.next() {
                Some(n) => out.push(n),
                None => out.push(c),
            }
        } else {
            out.push(c);
        }
    }
    out
}

#[test]
fn platform_message_becomes_escaped_print_command() {
    let text = format_display_text("Bob", "it's a trap\\");
    assert_eq!(text, "Bob: it's a trap\\");
    assert_eq!(
        format_print_command(&text),
        "/silent-command game.print('[Discord] Bob: it\\'s a trap\\\\')"
    );
}

#[test]
fn display_text_joins_author_and_body() {
    assert_eq!(format_display_text("Alice", "hello world"), "Alice: hello world");
    assert_eq!(format_display_text("", ""), ": ");
}

#[test]
fn escape_doubles_backslashes_and_escapes_quotes() {
    assert_eq!(escape_lua_string("a\\b'c"), "a\\\\b\\'c");
    assert_eq!(escape_lua_string("\\'"), "\\\\\\'");
    assert_eq!(escape_lua_string("'\\"), "\\'\\\\");
}

#[test]
fn escape_keeps_other_characters() {
    assert_eq!(escape_lua_string("plain \"text\" ]] -- é"), "plain \"text\" ]] -- é");
}

#[test]
fn empty_text_gives_empty_literal() {
    assert_eq!(escape_lua_string(""), "");
    assert_eq!(format_print_command(""), "/silent-command game.print('[Discord] ')");
}

#[test]
fn text_with_relay_tag_is_formatted_as_is() {
    assert_eq!(
        format_print_command("[Discord] Bob: hi"),
        "/silent-command game.print('[Discord] [Discord] Bob: hi')"
    );
}

#[test]
fn unescaping_recovers_the_text() {
    for s in ["", "\\\\\\", "'''", "\\'", "'\\", "it's a trap\\", "a\\'b\\\\'c", "ça'\\"] {
        assert_eq!(unescape(&escape_lua_string(s)), s);
    }
}
