//! A model of JSON payload values and a verified serializer for them.
//!
//! The envelope builder wraps arbitrary payloads; this module gives the
//! library its own value type for such payloads and pins down, character by
//! character, the text that serializing a value produces.

use vstd::prelude::*;
use vstd::string::StrSliceExecFns;

verus! {

/// The decimal digit character for `d` (meaningful for `0 <= d <= 9`).
pub open spec fn dec_digit(d: int) -> char {
    if d == 0 {
        '0'
    } else if d == 1 {
        '1'
    } else if d == 2 {
        '2'
    } else if d == 3 {
        '3'
    } else if d == 4 {
        '4'
    } else if d == 5 {
        '5'
    } else if d == 6 {
        '6'
    } else if d == 7 {
        '7'
    } else if d == 8 {
        '8'
    } else {
        '9'
    }
}

/// The lowercase hexadecimal digit character for `d` (meaningful for `0 <= d <= 15`).
pub open spec fn hex_digit(d: int) -> char {
    if d < 10 {
        dec_digit(d)
    } else if d == 10 {
        'a'
    } else if d == 11 {
        'b'
    } else if d == 12 {
        'c'
    } else if d == 13 {
        'd'
    } else if d == 14 {
        'e'
    } else {
        'f'
    }
}

/// The decimal representation of `n`, most significant digit first, no sign
/// and no leading zeros (a single `'0'` for zero).
pub open spec fn spec_dec_nat(n: nat) -> Seq<char>
    decreases n,
{
    if n < 10 {
        seq![dec_digit(n as int)]
    } else {
        spec_dec_nat(n / 10) + seq![dec_digit((n % 10) as int)]
    }
}

/// The decimal representation of `n`, with a leading `'-'` when negative.
pub open spec fn spec_dec_int(n: int) -> Seq<char> {
    if n < 0 {
        seq!['-'] + spec_dec_nat((-n) as nat)
    } else {
        spec_dec_nat(n as nat)
    }
}

/// How a single character appears inside a JSON string literal: quote,
/// backslash and the named control characters get a two-character escape,
/// the remaining control characters a `\u00XX` escape, and every other
/// character stands for itself.
pub open spec fn escape_char(c: char) -> Seq<char> {
    if c == '"' {
        seq!['\\', '"']
    } else if c == '\\' {
        seq!['\\', '\\']
    } else if c == '\n' {
        seq!['\\', 'n']
    } else if c == '\r' {
        seq!['\\', 'r']
    } else if c == '\t' {
        seq!['\\', 't']
    } else if c == '\u{08}' {
        seq!['\\', 'b']
    } else if c == '\u{0c}' {
        seq!['\\', 'f']
    } else if (c as u32) < 0x20 {
        seq!['\\', 'u', '0', '0', hex_digit(c as u32 as int / 16), hex_digit(c as u32 as int % 16)]
    } else {
        seq![c]
    }
}

/// The body of a JSON string literal for the text `s`: each character in
/// order, escaped as `escape_char` says, without the surrounding quotes.
pub open spec fn spec_escaped(s: Seq<char>) -> Seq<char>
    decreases s.len(),
{
    if s.len() == 0 {
        Seq::empty()
    } else {
        spec_escaped(s.drop_last()) + escape_char(s.last())
    }
}

/// Extending the text by one character extends its escaped form by that
/// character's escape.
proof fn lemma_escaped_snoc(s: Seq<char>, i: int)
    requires
        0 <= i < s.len(),
    ensures
        spec_escaped(s.take(i + 1)) == spec_escaped(s.take(i)) + escape_char(s[i]),
{
    assert(s.take(i + 1).drop_last() =~= s.take(i));
    assert(s.take(i + 1).last() == s[i]);
}

/// Appends every character of `s` to `out`, unchanged.
pub(crate) fn push_str_chars(out: &mut Vec<char>, s: &str)
    ensures
        final(out)@ == old(out)@ + s@,
{
    let n: usize = s.unicode_len();
    let mut i: usize = 0;
    while i < n
        invariant
            n == s@.len(),
            i <= n,
            out@ == old(out)@ + s@.take(i as int),
        decreases n - i,
    {
        let c: char = s.get_char(i);
        out.push(c);
        proof {
            assert(s@.take(i + 1) =~= s@.take(i as int) + seq![s@[i as int]]);
            assert(out@ =~= old(out)@ + s@.take(i + 1));
        }
        i = i + 1;
    }
    proof {
        assert(s@.take(n as int) =~= s@);
    }
}

/// The decimal digit character for `d`.
fn dec_digit_exec(d: u64) -> (c: char)
    requires
        d < 10,
    ensures
        c == dec_digit(d as int),
{
    match d {
        0 => '0',
        1 => '1',
        2 => '2',
        3 => '3',
        4 => '4',
        5 => '5',
        6 => '6',
        7 => '7',
        8 => '8',
        _ => '9',
    }
}

/// The lowercase hexadecimal digit character for `d`.
fn hex_digit_exec(d: u32) -> (c: char)
    requires
        d < 16,
    ensures
        c == hex_digit(d as int),
{
    match d {
        0 => '0',
        1 => '1',
        2 => '2',
        3 => '3',
        4 => '4',
        5 => '5',
        6 => '6',
        7 => '7',
        8 => '8',
        9 => '9',
        10 => 'a',
        11 => 'b',
        12 => 'c',
        13 => 'd',
        14 => 'e',
        _ => 'f',
    }
}

/// Appends the decimal representation of `n` to `out`.
fn push_dec_u64(out: &mut Vec<char>, n: u64)
    ensures
        final(out)@ == old(out)@ + spec_dec_nat(n as nat),
    decreases n,
{
    if n < 10 {
        out.push(dec_digit_exec(n));
        proof {
            assert(out@ =~= old(out)@ + spec_dec_nat(n as nat));
        }
    } else {
        push_dec_u64(out, n / 10);
        out.push(dec_digit_exec(n % 10));
        proof {
            assert((n / 10) as nat == n as nat / 10);
            assert((n % 10) as nat == n as nat % 10);
            assert(out@ =~= old(out)@ + spec_dec_nat(n as nat));
        }
    }
}

/// Appends the decimal representation of `n` to `out`, sign included.
fn push_dec_i64(out: &mut Vec<char>, n: i64)
    ensures
        final(out)@ == old(out)@ + spec_dec_int(n as int),
{
    if n < 0 {
        out.push('-');
        let magnitude: u64 = (-(n as i128)) as u64;
        push_dec_u64(out, magnitude);
        proof {
            assert(magnitude as nat == (-(n as int)) as nat);
            assert(out@ =~= old(out)@ + spec_dec_int(n as int));
        }
    } else {
        push_dec_u64(out, n as u64);
    }
}

/// Appends the escaped form of `s` (the body of its JSON string literal,
/// without the quotes) to `out`.
pub(crate) fn push_escaped(out: &mut Vec<char>, s: &str)
    ensures
        final(out)@ == old(out)@ + spec_escaped(s@),
{
    let n: usize = s.unicode_len();
    let mut i: usize = 0;
    while i < n
        invariant
            n == s@.len(),
            i <= n,
            out@ == old(out)@ + spec_escaped(s@.take(i as int)),
        decreases n - i,
    {
        let c: char = s.get_char(i);
        let ghost before: Seq<char> = out@;
        if c == '"' {
            out.push('\\');
            out.push('"');
        } else if c == '\\' {
            out.push('\\');
            out.push('\\');
        } else if c == '\n' {
            out.push('\\');
            out.push('n');
        } else if c == '\r' {
            out.push('\\');
            out.push('r');
        } else if c == '\t' {
            out.push('\\');
            out.push('t');
        } else if c == '\u{08}' {
            out.push('\\');
            out.push('b');
        } else if c == '\u{0c}' {
            out.push('\\');
            out.push('f');
        } else if (c as u32) < 0x20 {
            let code: u32 = c as u32;
            out.push('\\');
            out.push('u');
            out.push('0');
            out.push('0');
            out.push(hex_digit_exec(code / 16));
            out.push(hex_digit_exec(code % 16));
        } else {
            out.push(c);
        }
        proof {
            assert(out@ =~= before + escape_char(c));
            lemma_escaped_snoc(s@, i as int);
            assert(out@ =~= old(out)@ + spec_escaped(s@.take(i + 1)));
        }
        i = i + 1;
    }
    proof {
        assert(s@.take(n as int) =~= s@);
    }
}

/// A JSON payload value.
///
/// The envelope builder is generic over any serializable payload; this type
/// holds such a payload as plain values. Object members keep their insertion
/// order, and duplicate keys are kept as given.
#[derive(Debug)]
pub enum Json {
    Null,
    Bool(bool),
    Int(i64),
    Str(String),
    Arr(Vec<Json>),
    Obj(Vec<(String, Json)>),
}

/// The JSON text for the value `v`: `null`, `true`/`false`, a decimal
/// integer, a quoted string with `escape_char` escapes, a `[...]` list or a
/// `{...}` object, members in order, separated by commas.
pub open spec fn spec_json(v: Json) -> Seq<char>
    decreases v,
{
    match v {
        Json::Null => "null"@,
        Json::Bool(b) => if b {
            "true"@
        } else {
            "false"@
        },
        Json::Int(n) => spec_dec_int(n as int),
        Json::Str(s) => seq!['"'] + spec_escaped(s@) + seq!['"'],
        Json::Arr(a) => seq!['['] + spec_items(a@) + seq![']'],
        Json::Obj(o) => seq!['{'] + spec_members(o@) + seq!['}'],
    }
}

/// The serialized elements of an array, comma-separated, without brackets.
pub open spec fn spec_items(s: Seq<Json>) -> Seq<char>
    decreases s,
{
    if s.len() == 0 {
        Seq::<char>::empty()
    } else if s.len() == 1 {
        spec_json(s[0])
    } else {
        spec_items(s.subrange(0, s.len() - 1)) + seq![','] + spec_json(s[s.len() - 1])
    }
}

/// One serialized object member: the quoted, escaped key, a colon, the value.
pub open spec fn spec_member(m: (String, Json)) -> Seq<char>
    decreases m,
{
    seq!['"'] + spec_escaped(m.0@) + seq!['"', ':'] + spec_json(m.1)
}

/// The serialized members of an object, comma-separated, without braces.
pub open spec fn spec_members(s: Seq<(String, Json)>) -> Seq<char>
    decreases s,
{
    if s.len() == 0 {
        Seq::<char>::empty()
    } else if s.len() == 1 {
        spec_member(s[0])
    } else {
        spec_members(s.subrange(0, s.len() - 1)) + seq![','] + spec_member(s[s.len() - 1])
    }
}

/// Serializing one more element appends a comma (except before the first)
/// and that element's text.
proof fn lemma_items_snoc(s: Seq<Json>, i: int)
    requires
        0 <= i < s.len(),
    ensures
        spec_items(s.take(i + 1)) == if i == 0 {
            spec_json(s[0])
        } else {
            spec_items(s.take(i)) + seq![','] + spec_json(s[i])
        },
{
    if i > 0 {
        assert(s.take(i + 1).subrange(0, i) =~= s.take(i));
        assert(s.take(i + 1)[i] == s[i]);
    } else {
        assert(s.take(1)[0] == s[0]);
    }
}

/// Serializing one more member appends a comma (except before the first)
/// and that member's text.
proof fn lemma_members_snoc(s: Seq<(String, Json)>, i: int)
    requires
        0 <= i < s.len(),
    ensures
        spec_members(s.take(i + 1)) == if i == 0 {
            spec_member(s[0])
        } else {
            spec_members(s.take(i)) + seq![','] + spec_member(s[i])
        },
{
    if i > 0 {
        assert(s.take(i + 1).subrange(0, i) =~= s.take(i));
        assert(s.take(i + 1)[i] == s[i]);
    } else {
        assert(s.take(1)[0] == s[0]);
    }
}

/// Appends the JSON text of `v` to `out`.
#[verifier::loop_isolation(false)]
pub(crate) fn push_json(out: &mut Vec<char>, v: &Json)
    ensures
        final(out)@ == old(out)@ + spec_json(*v),
    decreases *v,
{
    match v {
        Json::Null => {
            push_str_chars(out, "null");
        },
        Json::Bool(b) => {
            push_str_chars(out, if *b { "true" } else { "false" });
        },
        Json::Int(n) => {
            push_dec_i64(out, *n);
        },
        Json::Str(s) => {
            out.push('"');
            push_escaped(out, s.as_str());
            out.push('"');
            proof {
                assert(out@ =~= old(out)@ + spec_json(*v));
            }
        },
        Json::Arr(a) => {
            out.push('[');
            let n: usize = a.len();
            let mut i: usize = 0;
            proof {
                assert(out@ =~= old(out)@ + seq!['['] + spec_items(a@.take(0)));
            }
            while i < n
                invariant
                    i <= n,
                    out@ == old(out)@ + seq!['['] + spec_items(a@.take(i as int)),
                decreases n - i,
            {
                if i > 0 {
                    out.push(',');
                }
                push_json(out, &a[i]);
                proof {
                    lemma_items_snoc(a@, i as int);
                    assert(out@ =~= old(out)@ + seq!['['] + spec_items(a@.take(i + 1)));
                }
                i = i + 1;
            }
            out.push(']');
            proof {
                assert(a@.take(n as int) =~= a@);
                assert(out@ =~= old(out)@ + spec_json(*v));
            }
        },
        Json::Obj(o) => {
            out.push('{');
            let n: usize = o.len();
            let mut i: usize = 0;
            proof {
                assert(out@ =~= old(out)@ + seq!['{'] + spec_members(o@.take(0)));
            }
            while i < n
                invariant
                    i <= n,
                    out@ == old(out)@ + seq!['{'] + spec_members(o@.take(i as int)),
                decreases n - i,
            {
                if i > 0 {
                    out.push(',');
                }
                let ghost before: Seq<char> = out@;
                let pair: &(String, Json) = &o[i];
                out.push('"');
                push_escaped(out, pair.0.as_str());
                out.push('"');
                out.push(':');
                push_json(out, &pair.1);
                proof {
                    assert(out@ =~= before + spec_member(o@[i as int]));
                    lemma_members_snoc(o@, i as int);
                    assert(out@ =~= old(out)@ + seq!['{'] + spec_members(o@.take(i + 1)));
                }
                i = i + 1;
            }
            out.push('}');
            proof {
                assert(o@.take(n as int) =~= o@);
                assert(out@ =~= old(out)@ + spec_json(*v));
            }
        },
    }
}

/// Relies on `String`'s `FromIterator<char>` impl (through `Iterator::collect`):
/// collecting characters yields the string of exactly those characters, in order.
#[verifier::external_body]
pub(crate) fn chars_to_string(cs: &Vec<char>) -> (r: String)
    ensures
        r@ == cs@,
{
    cs.iter().collect()
}

/// Serializes a payload value to its JSON text.
pub fn json_to_string(v: &Json) -> (r: String)
    ensures
        r@ == spec_json(*v),
{
    let mut out: Vec<char> = Vec::new();
    push_json(&mut out, v);
    proof {
        assert(out@ =~= spec_json(*v));
    }
    chars_to_string(&out)
}

} // verus!
