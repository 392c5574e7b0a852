//! Verified encoding of the wire formats the agent emits.
//!
//! Two small formats leave this system: the JSON body posted to the worker's
//! activity endpoint, `{"app_name":…,"window_title":…,"url":…}` with `url`
//! either a JSON string or `null`, and the foreground-window summary handed
//! to the UI layer. Both are built character by character here so that the
//! exact output is part of each function's contract.

use vstd::prelude::*;
use vstd::string::*;

use crate::sample::ActivitySample;
use crate::text::push_char;

verus! {

/// The lowercase hexadecimal digit for `n`.
pub open spec fn hex_digit(n: int) -> char {
    if n == 0 {
        '0'
    } else if n == 1 {
        '1'
    } else if n == 2 {
        '2'
    } else if n == 3 {
        '3'
    } else if n == 4 {
        '4'
    } else if n == 5 {
        '5'
    } else if n == 6 {
        '6'
    } else if n == 7 {
        '7'
    } else if n == 8 {
        '8'
    } else if n == 9 {
        '9'
    } else if n == 10 {
        'a'
    } else if n == 11 {
        'b'
    } else if n == 12 {
        'c'
    } else if n == 13 {
        'd'
    } else if n == 14 {
        'e'
    } else {
        'f'
    }
}

/// How one character appears inside a JSON string literal: quote and
/// backslash are escaped, control characters use their short escape where
/// JSON has one and a `\u00..` escape otherwise, everything else stands as
/// itself.
pub open spec fn escape_char(c: char) -> Seq<char> {
    if c == '"' {
        seq!['\\', '"']
    } else if c == '\\' {
        seq!['\\', '\\']
    } else if c == '\u{8}' {
        seq!['\\', 'b']
    } else if c == '\t' {
        seq!['\\', 't']
    } else if c == '\n' {
        seq!['\\', 'n']
    } else if c == '\u{c}' {
        seq!['\\', 'f']
    } else if c == '\r' {
        seq!['\\', 'r']
    } else if (c as u32) < 0x20 {
        seq!['\\', 'u', '0', '0', hex_digit(c as u32 as int / 16), hex_digit(c as u32 as int % 16)]
    } else {
        seq![c]
    }
}

/// The body of a JSON string literal encoding `s`.
pub open spec fn escape_string(s: Seq<char>) -> Seq<char>
    decreases s.len(),
{
    if s.len() == 0 {
        Seq::empty()
    } else {
        escape_char(s[0]) + escape_string(s.drop_first())
    }
}

/// A complete JSON string literal encoding `s`, quotes included.
pub open spec fn json_string(s: Seq<char>) -> Seq<char> {
    seq!['"'] + escape_string(s) + seq!['"']
}

proof fn lemma_escape_string_snoc(s: Seq<char>, c: char)
    ensures
        escape_string(s.push(c)) == escape_string(s) + escape_char(c),
    decreases s.len(),
{
    if s.len() == 0 {
        assert(s.push(c)[0] == c);
        assert(s.push(c).drop_first() =~= Seq::<char>::empty());
        assert(escape_string(Seq::<char>::empty()) == Seq::<char>::empty());
        assert(escape_string(s.push(c)) =~= escape_char(c));
        assert(escape_string(s) + escape_char(c) =~= escape_char(c));
    } else {
        lemma_escape_string_snoc(s.drop_first(), c);
        assert(s.push(c).drop_first() =~= s.drop_first().push(c));
        assert(s.push(c)[0] == s[0]);
        assert(escape_char(s[0]) + (escape_string(s.drop_first()) + escape_char(c)) =~= (escape_char(
            s[0],
        ) + escape_string(s.drop_first())) + escape_char(c));
    }
}

fn push_escaped_char(out: &mut String, c: char)
    ensures
        final (out)@ == old(out)@ + escape_char(c),
{
    let ghost before: Seq<char> = out@;
    if c == '"' {
        push_char(out, '\\');
        push_char(out, '"');
        proof {
            assert(out@ =~= before + escape_char(c));
        }
    } else if c == '\\' {
        push_char(out, '\\');
        push_char(out, '\\');
        proof {
            assert(out@ =~= before + escape_char(c));
        }
    } else if c == '\u{8}' {
        push_char(out, '\\');
        push_char(out, 'b');
        proof {
            assert(out@ =~= before + escape_char(c));
        }
    } else if c == '\t' {
        push_char(out, '\\');
        push_char(out, 't');
        proof {
            assert(out@ =~= before + escape_char(c));
        }
    } else if c == '\n' {
        push_char(out, '\\');
        push_char(out, 'n');
        proof {
            assert(out@ =~= before + escape_char(c));
        }
    } else if c == '\u{c}' {
        push_char(out, '\\');
        push_char(out, 'f');
        proof {
            assert(out@ =~= before + escape_char(c));
        }
    } else if c == '\r' {
        push_char(out, '\\');
        push_char(out, 'r');
        proof {
            assert(out@ =~= before + escape_char(c));
        }
    } else {
        let u = c as u32;
        if u < 0x20 {
            push_char(out, '\\');
            push_char(out, 'u');
            push_char(out, '0');
            push_char(out, '0');
            let hi = u / 16;
            let lo = u % 16;
            push_char(out, hex_digit_char(hi));
            push_char(out, hex_digit_char(lo));
            proof {
                assert(out@ =~= before + escape_char(c));
            }
        } else {
            push_char(out, c);
            proof {
                assert(out@ =~= before + escape_char(c));
            }
        }
    }
}

fn hex_digit_char(n: u32) -> (r: char)
    requires
        n < 16,
    ensures
        r == hex_digit(n as int),
{
    if n == 0 {
        '0'
    } else if n == 1 {
        '1'
    } else if n == 2 {
        '2'
    } else if n == 3 {
        '3'
    } else if n == 4 {
        '4'
    } else if n == 5 {
        '5'
    } else if n == 6 {
        '6'
    } else if n == 7 {
        '7'
    } else if n == 8 {
        '8'
    } else if n == 9 {
        '9'
    } else if n == 10 {
        'a'
    } else if n == 11 {
        'b'
    } else if n == 12 {
        'c'
    } else if n == 13 {
        'd'
    } else if n == 14 {
        'e'
    } else {
        'f'
    }
}

/// Appends the complete JSON string literal for `s`, quotes included.
fn push_json_string(out: &mut String, s: &str)
    ensures
        final (out)@ == old(out)@ + json_string(s@),
{
    let ghost start: Seq<char> = out@;
    push_char(out, '"');
    let len = s.unicode_len();
    let mut i: usize = 0;
    while i < len
        invariant
            i <= len,
            len == s@.len(),
            out@ == start + seq!['"'] + escape_string(s@.subrange(0, i as int)),
        decreases len - i,
    {
        push_escaped_char(out, s.get_char(i));
        proof {
            assert(s@.subrange(0, i as int).push(s@[i as int]) =~= s@.subrange(0, i + 1));
            lemma_escape_string_snoc(s@.subrange(0, i as int), s@[i as int]);
        }
        i += 1;
    }
    push_char(out, '"');
    proof {
        assert(s@.subrange(0, len as int) =~= s@);
        assert(out@ =~= start + json_string(s@));
    }
}

/// The JSON body posted to the worker's activity endpoint for one sample.
pub open spec fn sample_payload_spec(
    app: Seq<char>,
    title: Seq<char>,
    url: Option<Seq<char>>,
) -> Seq<char> {
    "{\"app_name\":"@ + json_string(app) + ",\"window_title\":"@ + json_string(title)
        + ",\"url\":"@ + (match url {
        Some(u) => json_string(u),
        None => "null"@,
    }) + "}"@
}

/// Serializes one sample to the worker's expected request body.
pub fn sample_payload_json(sample: &ActivitySample) -> (r: String)
    ensures
        r@ == sample_payload_spec(sample.app_name@, sample.window_title@, sample.url.deep_view()),
{
    let mut out = String::from_str("{\"app_name\":");
    push_json_string(&mut out, sample.app_name.as_str());
    out.append(",\"window_title\":");
    push_json_string(&mut out, sample.window_title.as_str());
    out.append(",\"url\":");
    match &sample.url {
        Some(u) => push_json_string(&mut out, u.as_str()),
        None => out.append("null"),
    }
    out.append("}");
    out
}

/// The foreground-window summary handed to the UI layer: application name
/// and title with double quotes escaped, nothing else rewritten.
pub open spec fn quote_escape(s: Seq<char>) -> Seq<char>
    decreases s.len(),
{
    if s.len() == 0 {
        Seq::empty()
    } else {
        (if s[0] == '"' {
            seq!['\\', '"']
        } else {
            seq![s[0]]
        }) + quote_escape(s.drop_first())
    }
}

/// The UI summary line for a foreground observation.
pub open spec fn stats_json_spec(app: Seq<char>, title: Seq<char>) -> Seq<char> {
    "{\"app_name\": \""@ + quote_escape(app) + "\", \"title\": \""@ + quote_escape(title) + "\"}"@
}

proof fn lemma_quote_escape_snoc(s: Seq<char>, c: char)
    ensures
        quote_escape(s.push(c)) == quote_escape(s) + (if c == '"' {
            seq!['\\', '"']
        } else {
            seq![c]
        }),
    decreases s.len(),
{
    let tail: Seq<char> = if c == '"' {
        seq!['\\', '"']
    } else {
        seq![c]
    };
    if s.len() == 0 {
        assert(s.push(c)[0] == c);
        assert(s.push(c).drop_first() =~= Seq::<char>::empty());
        assert(quote_escape(Seq::<char>::empty()) == Seq::<char>::empty());
        assert(quote_escape(s.push(c)) =~= tail);
        assert(quote_escape(s) + tail =~= tail);
    } else {
        lemma_quote_escape_snoc(s.drop_first(), c);
        assert(s.push(c).drop_first() =~= s.drop_first().push(c));
        assert(s.push(c)[0] == s[0]);
        let head: Seq<char> = if s[0] == '"' {
            seq!['\\', '"']
        } else {
            seq![s[0]]
        };
        assert(head + (quote_escape(s.drop_first()) + tail) =~= (head + quote_escape(
            s.drop_first(),
        )) + tail);
    }
}

fn push_quote_escaped(out: &mut String, s: &str)
    ensures
        final (out)@ == old(out)@ + quote_escape(s@),
{
    let ghost start: Seq<char> = out@;
    let len = s.unicode_len();
    let mut i: usize = 0;
    while i < len
        invariant
            i <= len,
            len == s@.len(),
            out@ == start + quote_escape(s@.subrange(0, i as int)),
        decreases len - i,
    {
        let c = s.get_char(i);
        let ghost before: Seq<char> = out@;
        if c == '"' {
            push_char(out, '\\');
            push_char(out, '"');
            proof {
                assert(out@ =~= before + seq!['\\', '"']);
            }
        } else {
            push_char(out, c);
        }
        proof {
            assert(s@.subrange(0, i as int).push(s@[i as int]) =~= s@.subrange(0, i + 1));
            lemma_quote_escape_snoc(s@.subrange(0, i as int), s@[i as int]);
        }
        i += 1;
    }
    proof {
        assert(s@.subrange(0, len as int) =~= s@);
    }
}

/// Formats the foreground-window summary for the UI layer, double quotes in
/// either field escaped so the result stays well-formed.
pub fn stats_json(app_name: &str, title: &str) -> (r: String)
    ensures
        r@ == stats_json_spec(app_name@, title@),
{
    let mut out = String::from_str("{\"app_name\": \"");
    push_quote_escaped(&mut out, app_name);
    out.append("\", \"title\": \"");
    push_quote_escaped(&mut out, title);
    out.append("\"}");
    out
}

} // verus!
