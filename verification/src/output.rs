//! Output formatting helpers: the escaping needed to keep text, JSON, and
//! shell-assignment output safe.

use vstd::prelude::*;
use crate::cli::Shell;
use crate::config::quoted;
use crate::text::{chars_of, digit_char, digit_to_char, eq_lit, push_char, push_str};


verus! {

/// Output mode requested by a command.
///
/// `Shell` is deliberately separate from `Text`: it emits assignment lines that
/// the shell integration can evaluate after the process exits.
#[derive(Clone, Copy, Debug, PartialEq, Eq, Structural)]
pub enum OutputFormat {
    /// Human-readable text.
    Text,
    /// Machine-readable JSON.
    Json,
    /// POSIX-shell assignment output for `gat shell-init`.
    Shell,
}

/// The format named by a `--format` value.
pub open spec fn format_named(value: Seq<char>) -> Option<OutputFormat> {
    if value == "text"@ {
        Some(OutputFormat::Text)
    } else if value == "json"@ {
        Some(OutputFormat::Json)
    } else if value == "shell"@ {
        Some(OutputFormat::Shell)
    } else {
        None
    }
}

impl OutputFormat {
    /// Parses the value accepted by `--format`.
    pub fn parse(value: &str) -> (r: Option<Self>)
        ensures
            r == format_named(value@),
    {
        let v = chars_of(value);
        if eq_lit(&v, "text") {
            Some(OutputFormat::Text)
        } else if eq_lit(&v, "json") {
            Some(OutputFormat::Json)
        } else if eq_lit(&v, "shell") {
            Some(OutputFormat::Shell)
        } else {
            None
        }
    }
}

/// Unicode control characters (general category `Cc`), as
/// `char::is_control` reports them.
pub open spec fn is_control(c: char) -> bool {
    (c as u32) <= 0x1f || (0x7f <= (c as u32) <= 0x9f)
}

/// Lowercase hexadecimal digit for `d < 16`.
pub open spec fn hex_char(d: nat) -> char {
    if d < 10 {
        digit_char(d)
    } else if d == 10 { 'a' } else if d == 11 { 'b' } else if d == 12 { 'c' }
    else if d == 13 { 'd' } else if d == 14 { 'e' } else { 'f' }
}

/// The last `width` lowercase hex digits of `n`, zero padded.
pub open spec fn hex_fixed(n: nat, width: nat) -> Seq<char>
    decreases width,
{
    if width == 0 {
        Seq::<char>::empty()
    } else {
        hex_fixed(n / 16, (width - 1) as nat).push(hex_char(n % 16))
    }
}

/// The JSON escape of one character.
pub open spec fn json_escape_char(c: char) -> Seq<char> {
    if c == '"' {
        "\\\""@
    } else if c == '\\' {
        "\\\\"@
    } else if c == '\n' {
        "\\n"@
    } else if c == '\r' {
        "\\r"@
    } else if c == '\t' {
        "\\t"@
    } else if is_control(c) {
        "\\u"@ + hex_fixed((c as u32) as nat, 4)
    } else {
        seq![c]
    }
}

/// `s` escaped for insertion between the quotes of a JSON string.
pub open spec fn json_escaped(s: Seq<char>) -> Seq<char>
    decreases s.len(),
{
    if s.len() == 0 {
        Seq::<char>::empty()
    } else {
        json_escaped(s.drop_last()) + json_escape_char(s.last())
    }
}

/// `s` with each `'` replaced by the close-escape-reopen sequence `'\''`.
pub open spec fn quote_single(s: Seq<char>) -> Seq<char>
    decreases s.len(),
{
    if s.len() == 0 {
        Seq::<char>::empty()
    } else {
        quote_single(s.drop_last()) + (if s.last() == '\'' { "'\\''"@ } else { seq![s.last()] })
    }
}

/// `s` quoted as a single POSIX shell word.
pub open spec fn shell_escaped(s: Seq<char>) -> Seq<char> {
    if s.len() == 0 {
        "''"@
    } else {
        "'"@ + quote_single(s) + "'"@
    }
}

/// Appends the hex digits of `hex_fixed(n, width)`.
fn push_hex(out: &mut String, n: u32, width: u32)
    ensures
        final(out)@ == old(out)@ + hex_fixed(n as nat, width as nat),
    decreases width,
{
    if width > 0 {
        push_hex(out, n / 16, width - 1);
        let d = n % 16;
        let c = if d < 10 {
            digit_to_char(d as u64)
        } else if d == 10 { 'a' } else if d == 11 { 'b' } else if d == 12 { 'c' }
        else if d == 13 { 'd' } else if d == 14 { 'e' } else { 'f' };
        push_char(out, c);
    }
}

/// Escapes a string for insertion into manually formatted JSON.
pub fn json_escape(value: &str) -> (r: String)
    ensures
        r@ == json_escaped(value@),
{
    let v = chars_of(value);
    let mut out = String::new();
    let mut i: usize = 0;
    while i < v.len()
        invariant
            i <= v.len(),
            v@ == value@,
            out@ == json_escaped(v@.take(i as int)),
        decreases v.len() - i,
    {
        let ch = v[i];
        assert(v@.take(i + 1).drop_last() == v@.take(i as int));
        let n = ch as u32;
        if ch == '"' {
            push_str(&mut out, "\\\"");
        } else if ch == '\\' {
            push_str(&mut out, "\\\\");
        } else if ch == '\n' {
            push_str(&mut out, "\\n");
        } else if ch == '\r' {
            push_str(&mut out, "\\r");
        } else if ch == '\t' {
            push_str(&mut out, "\\t");
        } else if n <= 0x1f || (0x7f <= n && n <= 0x9f) {
            push_str(&mut out, "\\u");
            push_hex(&mut out, n, 4);
        } else {
            push_char(&mut out, ch);
        }
        i += 1;
    }
    assert(v@.take(v.len() as int) == v@);
    out
}

/// Quotes a string as a single POSIX shell word.
pub fn shell_escape(value: &str) -> (r: String)
    ensures
        r@ == shell_escaped(value@),
{
    let v = chars_of(value);
    if v.len() == 0 {
        return String::from_str("''");
    }
    let mut out = String::new();
    push_str(&mut out, "'");
    let ghost start = out@;
    let mut i: usize = 0;
    while i < v.len()
        invariant
            i <= v.len(),
            v@ == value@,
            start == "'"@,
            out@ == start + quote_single(v@.take(i as int)),
        decreases v.len() - i,
    {
        let ch = v[i];
        assert(v@.take(i + 1).drop_last() == v@.take(i as int));
        if ch == '\'' {
            push_str(&mut out, "'\\''");
        } else {
            push_char(&mut out, ch);
        }
        i += 1;
    }
    assert(v@.take(v.len() as int) == v@);
    push_str(&mut out, "'");
    out
}

/// JSON for an optional string: a quoted escaped string, or `null`.
pub open spec fn option_json_spec(value: Option<Seq<char>>) -> Seq<char> {
    match value {
        Some(v) => "\""@ + json_escaped(v) + "\""@,
        None => "null"@,
    }
}

/// Formats an optional string value for manually generated JSON.
pub fn option_json(value: Option<&str>) -> (r: String)
    ensures
        r@ == option_json_spec(match value { Some(v) => Some(v@), None => None }),
{
    match value {
        Some(v) => {
            let mut out = String::new();
            push_str(&mut out, "\"");
            let e = json_escape(v);
            push_str(&mut out, e.as_str());
            push_str(&mut out, "\"");
            out
        },
        None => String::from_str("null"),
    }
}

/// `yes` or `no` for human-readable diagnostics.
pub open spec fn yes_no_spec(value: bool) -> Seq<char> {
    if value { "yes"@ } else { "no"@ }
}

/// Formats booleans for human-readable diagnostics.
pub fn yes_no(value: bool) -> (r: &'static str)
    ensures
        r@ == yes_no_spec(value),
{
    if value { "yes" } else { "no" }
}

/// `true` or `false`, as `bool`'s `Display` prints it.
pub open spec fn bool_text(value: bool) -> Seq<char> {
    if value { "true"@ } else { "false"@ }
}

/// Renders a boolean as `bool`'s `Display` does.
pub fn bool_string(value: bool) -> (r: String)
    ensures
        r@ == bool_text(value),
{
    if value { String::from_str("true") } else { String::from_str("false") }
}

/// The value of a hexadecimal digit (either case); 0 for other characters.
pub open spec fn hex_digit_value(c: char) -> nat {
    if '0' <= c <= '9' {
        ((c as u32) - ('0' as u32)) as nat
    } else if 'a' <= c <= 'f' {
        ((c as u32) - ('a' as u32) + 10) as nat
    } else if 'A' <= c <= 'F' {
        ((c as u32) - ('A' as u32) + 10) as nat
    } else {
        0
    }
}

/// The number four hexadecimal digits spell.
pub open spec fn hex4_value(t: Seq<char>) -> nat {
    hex_digit_value(t[0]) * 4096 + hex_digit_value(t[1]) * 256 + hex_digit_value(t[2]) * 16 + hex_digit_value(t[3])
}

/// The character a one-letter JSON escape `\e` stands for.
pub open spec fn json_escape_target(e: char) -> char {
    if e == 'n' {
        '\n'
    } else if e == 'r' {
        '\r'
    } else if e == 't' {
        '\t'
    } else if e == 'b' {
        '\u{8}'
    } else if e == 'f' {
        '\u{c}'
    } else {
        e
    }
}

/// The text that the content of a JSON string literal denotes: `\uXXXX`
/// reads as the character with that code point, `\"`, `\\`, `\/`, `\b`,
/// `\f`, `\n`, `\r` and `\t` as the characters they name, and any other
/// character as itself.
pub open spec fn json_unescaped(t: Seq<char>) -> Seq<char>
    decreases t.len(),
{
    if t.len() == 0 {
        Seq::<char>::empty()
    } else if t[0] == '\\' && t.len() >= 6 && t[1] == 'u' {
        seq![(hex4_value(t.subrange(2, 6)) as u32) as char] + json_unescaped(t.skip(6))
    } else if t[0] == '\\' && t.len() >= 2 {
        seq![json_escape_target(t[1])] + json_unescaped(t.skip(2))
    } else {
        seq![t[0]] + json_unescaped(t.skip(1))
    }
}

proof fn lemma_hex_char_value(d: nat)
    requires
        d < 16,
    ensures
        hex_digit_value(hex_char(d)) == d,
        !is_control(hex_char(d)),
{
}

/// One escaped character reads back as itself, and its escape holds no
/// control character.
proof fn lemma_json_escape_char_reads_back(c: char, rest: Seq<char>)
    ensures
        json_unescaped(json_escape_char(c) + rest) == seq![c] + json_unescaped(rest),
        forall|i: int| 0 <= i < json_escape_char(c).len() ==> !is_control(#[trigger] json_escape_char(c)[i]),
{
    reveal_strlit("\\\"");
    reveal_strlit("\\\\");
    reveal_strlit("\\n");
    reveal_strlit("\\r");
    reveal_strlit("\\t");
    reveal_strlit("\\u");
    let e = json_escape_char(c);
    let t = e + rest;
    if c == '"' || c == '\\' || c == '\n' || c == '\r' || c == '\t' {
        assert(e.len() == 2);
        assert(t[0] == '\\' && t[1] == e[1] && e[1] != 'u');
        assert(t.skip(2) =~= rest);
    } else if is_control(c) {
        let n = (c as u32) as nat;
        assert(n < 256);
        reveal_with_fuel(hex_fixed, 5);
        let h = hex_fixed(n, 4);
        assert(h =~= seq![hex_char(0), hex_char(0), hex_char(n / 16), hex_char(n % 16)]);
        lemma_hex_char_value(0);
        lemma_hex_char_value(n / 16);
        lemma_hex_char_value(n % 16);
        assert(e =~= seq!['\\', 'u'] + h);
        assert(t.subrange(2, 6) =~= h);
        assert(hex4_value(h) == n);
        assert(t.skip(6) =~= rest);
        assert(((n as u32) as char) == c);
    } else {
        assert(e =~= seq![c]);
        assert(t.skip(1) =~= rest);
    }
}

/// The escaped form of `s`, followed by more content, reads back as `s`
/// followed by what that content reads as.
proof fn lemma_json_escaped_reads_back(s: Seq<char>, rest: Seq<char>)
    ensures
        json_unescaped(json_escaped(s) + rest) == s + json_unescaped(rest),
        forall|i: int| 0 <= i < json_escaped(s).len() ==> !is_control(#[trigger] json_escaped(s)[i]),
    decreases s.len(),
{
    if s.len() == 0 {
        assert(json_escaped(s) + rest =~= rest);
        assert(s + json_unescaped(rest) =~= json_unescaped(rest));
    } else {
        let c = s.last();
        let e = json_escape_char(c);
        lemma_json_escape_char_reads_back(c, rest);
        lemma_json_escaped_reads_back(s.drop_last(), e + rest);
        let p = json_escaped(s.drop_last());
        assert(json_escaped(s) + rest =~= p + (e + rest));
        assert(s.drop_last() + (seq![c] + json_unescaped(rest)) =~= s + json_unescaped(rest));
        assert forall|i: int| 0 <= i < json_escaped(s).len() implies !is_control(#[trigger] json_escaped(s)[i]) by {
            if i < p.len() {
                assert(json_escaped(s)[i] == p[i]);
            } else {
                assert(json_escaped(s)[i] == e[i - p.len()]);
            }
        }
    }
}

/// `s` unchanged by escaping when it has no quote, backslash or control
/// character.
proof fn lemma_json_escaped_plain(s: Seq<char>)
    requires
        forall|i: int| 0 <= i < s.len() ==> #[trigger] s[i] != '"' && s[i] != '\\' && !is_control(s[i]),
    ensures
        json_escaped(s) == s,
    decreases s.len(),
{
    if s.len() > 0 {
        lemma_json_escaped_plain(s.drop_last());
        assert(s.drop_last() + seq![s.last()] =~= s);
    }
}

/// `json_escape` writes JSON string content that decodes back to the input
/// and holds no control character (those become `\n`, `\r`, `\t` or
/// `\uXXXX`); text with no quote, backslash or control character is left as
/// it is.
pub proof fn lemma_json_escape_round_trips(s: Seq<char>)
    ensures
        json_unescaped(json_escaped(s)) == s,
        forall|i: int| 0 <= i < json_escaped(s).len() ==> !is_control(#[trigger] json_escaped(s)[i]),
        (forall|i: int| 0 <= i < s.len() ==> #[trigger] s[i] != '"' && s[i] != '\\' && !is_control(s[i]))
            ==> json_escaped(s) == s,
{
    lemma_json_escaped_reads_back(s, Seq::<char>::empty());
    assert(json_escaped(s) + Seq::<char>::empty() =~= json_escaped(s));
    assert(s + json_unescaped(Seq::<char>::empty()) =~= s);
    if forall|i: int| 0 <= i < s.len() ==> #[trigger] s[i] != '"' && s[i] != '\\' && !is_control(s[i]) {
        lemma_json_escaped_plain(s);
    }
}

/// POSIX quote removal of a word made of single-quoted runs and
/// backslash-escaped characters: `quoted` tells whether the text starts
/// inside single quotes. Inside them every character stands for itself up to
/// the closing quote; outside, a backslash takes the next character
/// literally.
pub open spec fn shell_unquoted(t: Seq<char>, quoted: bool) -> Seq<char>
    decreases t.len(),
{
    if t.len() == 0 {
        Seq::<char>::empty()
    } else if quoted {
        if t[0] == '\'' {
            shell_unquoted(t.skip(1), false)
        } else {
            seq![t[0]] + shell_unquoted(t.skip(1), true)
        }
    } else if t[0] == '\'' {
        shell_unquoted(t.skip(1), true)
    } else if t[0] == '\\' && t.len() >= 2 {
        seq![t[1]] + shell_unquoted(t.skip(2), false)
    } else {
        seq![t[0]] + shell_unquoted(t.skip(1), false)
    }
}

/// Whether every character the shell sees outside single quotes is a quote
/// or a backslash-escaped quote: nothing is left for expansion, command
/// substitution or field splitting, so the text is one literal word.
pub open spec fn shell_literal(t: Seq<char>, quoted: bool) -> bool
    decreases t.len(),
{
    if t.len() == 0 {
        !quoted
    } else if quoted {
        shell_literal(t.skip(1), t[0] != '\'')
    } else if t[0] == '\'' {
        shell_literal(t.skip(1), true)
    } else {
        t.len() >= 2 && t[0] == '\\' && t[1] == '\'' && shell_literal(t.skip(2), false)
    }
}

/// Reading the quoted form of `s`, still inside the quotes, gives `s` back
/// and then whatever follows.
proof fn lemma_quote_single_reads_back(s: Seq<char>, rest: Seq<char>)
    ensures
        shell_unquoted(quote_single(s) + rest, true) == s + shell_unquoted(rest, true),
        shell_literal(quote_single(s) + rest, true) == shell_literal(rest, true),
    decreases s.len(),
{
    if s.len() > 0 {
        let c = s.last();
        let q = if c == '\'' { "'\\''"@ } else { seq![c] };
        reveal_strlit("'\\''");
        let t = q + rest;
        if c == '\'' {
            let t1 = t.skip(1);
            let t3 = t1.skip(2);
            assert(t[0] == '\'');
            assert(t1[0] == '\\' && t1[1] == '\'' && t1.len() >= 2);
            assert(t3 =~= seq!['\''] + rest);
            assert(t3[0] == '\'');
            assert(t3.skip(1) =~= rest);
            assert(shell_unquoted(t3, false) == shell_unquoted(rest, true));
            assert(shell_literal(t3, false) == shell_literal(rest, true));
            assert(shell_unquoted(t1, false) == seq!['\''] + shell_unquoted(t3, false));
            assert(shell_literal(t1, false) == shell_literal(t3, false));
            assert(shell_unquoted(t, true) == shell_unquoted(t1, false));
            assert(shell_literal(t, true) == shell_literal(t1, false));
        } else {
            assert(t[0] == c);
            assert(t.skip(1) =~= rest);
        }
        lemma_quote_single_reads_back(s.drop_last(), q + rest);
        assert(quote_single(s) + rest =~= quote_single(s.drop_last()) + (q + rest));
        assert(s.drop_last() + (seq![c] + shell_unquoted(rest, true)) =~= s + shell_unquoted(rest, true));
    } else {
        assert(quote_single(s) + rest =~= rest);
        assert(s + shell_unquoted(rest, true) =~= shell_unquoted(rest, true));
    }
}

/// `shell_escape` gives one shell word that evaluates to the input: it
/// starts and ends with a single quote, nothing in it lies open to expansion
/// or splitting, and quote removal yields exactly `s`.
pub proof fn lemma_shell_escape_is_literal(s: Seq<char>)
    ensures
        shell_escaped(s).len() >= 2,
        shell_escaped(s)[0] == '\'',
        shell_escaped(s).last() == '\'',
        shell_literal(shell_escaped(s), false),
        shell_unquoted(shell_escaped(s), false) == s,
{
    reveal_strlit("'");
    reveal_strlit("''");
    let close = "'"@;
    assert(close.len() == 1 && close[0] == '\'');
    assert(close.skip(1) =~= Seq::<char>::empty());
    assert(shell_unquoted(close.skip(1), false) =~= Seq::<char>::empty());
    assert(shell_literal(close.skip(1), false));
    assert(shell_unquoted(close, true) =~= Seq::<char>::empty());
    assert(shell_literal(close, true));
    if s.len() == 0 {
        assert("''"@.skip(1) =~= close);
        assert("''"@[0] == '\'');
    } else {
        lemma_quote_single_reads_back(s, close);
        let t = "'"@ + quote_single(s) + close;
        assert(t.skip(1) =~= quote_single(s) + close);
        assert(s + Seq::<char>::empty() =~= s);
    }
}

/// Converts a path to display text without panicking on non-UTF-8 paths
/// (`Path::to_string_lossy`, invalid sequences become U+FFFD). No contract
/// is stated: a path has no view here.
#[verifier::external_body]
pub fn path_string<P: AsRef<std::path::Path> + ?Sized>(path: &P) -> String {
    path.as_ref().to_string_lossy().into_owned()
}

} // verus!
