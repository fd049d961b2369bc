//! Remote-console commands that print a platform message in the game.
//!
//! The message is embedded in a single-quoted Lua string literal, so every
//! backslash and single quote in it is escaped with a backslash.
use vstd::prelude::*;
use crate::chat::relay_tag;
use crate::text::{chars_of, push_char};

verus! {

/// The escaped form of one character.
pub open spec fn escape_char(c: char) -> Seq<char> {
    if c == '\\' {
        seq!['\\', '\\']
    } else if c == '\'' {
        seq!['\\', '\'']
    } else {
        seq![c]
    }
}

/// `s` escaped for a single-quoted Lua string literal.
pub open spec fn escape(s: Seq<char>) -> Seq<char>
    decreases s.len(),
{
    if s.len() == 0 {
        Seq::empty()
    } else {
        escape_char(s[0]) + escape(s.drop_first())
    }
}

/// How the Lua literal reads its contents back: a backslash stands for the
/// character after it.
pub open spec fn unescape(s: Seq<char>) -> Seq<char>
    decreases s.len(),
{
    if s.len() == 0 {
        Seq::empty()
    } else if s[0] == '\\' && s.len() >= 2 {
        seq![s[1]] + unescape(s.subrange(2, s.len() as int))
    } else {
        seq![s[0]] + unescape(s.drop_first())
    }
}

/// The text shown in the game for a platform message.
pub open spec fn display_text(author: Seq<char>, body: Seq<char>) -> Seq<char> {
    author + ": "@ + body
}

/// The command that prints `text`, tagged as relayed from the platform.
pub open spec fn print_command(text: Seq<char>) -> Seq<char> {
    "/silent-command game.print('"@ + relay_tag() + " "@ + escape(text) + "')"@
}

proof fn lemma_escape_push(s: Seq<char>, c: char)
    ensures
        escape(s.push(c)) == escape(s) + escape_char(c),
    decreases s.len(),
{
    if s.len() == 0 {
        assert(s.push(c).drop_first() =~= Seq::<char>::empty());
        assert(s.push(c)[0] == c);
        assert(escape(s.push(c).drop_first()) == Seq::<char>::empty());
        assert(escape(s.push(c)) =~= escape(s) + escape_char(c));
    } else {
        lemma_escape_push(s.drop_first(), c);
        assert(s.push(c).drop_first() =~= s.drop_first().push(c));
        assert(escape(s.push(c)) =~= escape(s) + escape_char(c));
    }
}

/// Reading the escaped text back as the Lua literal does gives the original
/// text: for every `s`, `unescape(escape(s)) == s`.
pub proof fn lemma_unescape_escape(s: Seq<char>)
    ensures
        unescape(escape(s)) == s,
    decreases s.len(),
{
    if s.len() > 0 {
        let e = escape(s);
        let rest = escape(s.drop_first());
        lemma_unescape_escape(s.drop_first());
        let c = s[0];
        if c == '\\' || c == '\'' {
            assert(e.subrange(2, e.len() as int) =~= rest);
        } else {
            assert(e.drop_first() =~= rest);
        }
        assert(unescape(e) =~= s);
    }
}

/// Escaping loses nothing: two texts with the same escaped form are equal.
pub proof fn lemma_escape_injective(a: Seq<char>, b: Seq<char>)
    requires
        escape(a) == escape(b),
    ensures
        a == b,
{
    lemma_unescape_escape(a);
    lemma_unescape_escape(b);
}

/// `text` escaped for a single-quoted Lua string literal: `\` becomes `\\`
/// and `'` becomes `\'`; every other character stays as it is.
pub fn escape_lua_string(text: &str) -> (r: String)
    ensures
        r@ == escape(text@),
{
    let chars = chars_of(text);
    let mut r = String::new();
    for i in 0..chars.len()
        invariant
            chars@ == text@,
            r@ == escape(chars@.take(i as int)),
    {
        let c = chars[i];
        if c == '\\' || c == '\'' {
            push_char(&mut r, '\\');
        }
        push_char(&mut r, c);
        proof {
            lemma_escape_push(chars@.take(i as int), c);
            assert(chars@.take(i + 1) =~= chars@.take(i as int).push(c));
        }
    }
    assert(chars@.take(chars@.len() as int) =~= chars@);
    r
}

/// The text shown in the game for a message of `author` with `body`:
/// `"{author}: {body}"`.
pub fn format_display_text(author: &str, body: &str) -> (r: String)
    ensures
        r@ == display_text(author@, body@),
{
    let mut r = String::from_str(author);
    r.append(": ");
    r.append(body);
    r
}

/// The remote-console command that prints `text` in the game:
/// `/silent-command game.print('[Discord] {escaped text}')`.
pub fn format_print_command(text: &str) -> (r: String)
    ensures
        r@ == print_command(text@),
{
    let escaped = escape_lua_string(text);
    let mut r = String::from_str("/silent-command game.print('");
    r.append("[Discord]");
    r.append(" ");
    r.append(escaped.as_str());
    r.append("')");
    r
}

} // verus!
