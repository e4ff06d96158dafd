//! Minimal JSON text production for the library's own values: string
//! escaping and fixed-point number formatting. The texts feed the
//! generative providers' request bodies and prompts.

use vstd::prelude::*;

use crate::text::{chars_vec, dec_digits, digit_char, hex_upper, string_from_chars};

verus! {

/// What one character contributes to a JSON string body: the two-character
/// escapes for quote, backslash, and the common controls, a `\u00..`
/// escape for the other controls, and the character itself otherwise.
pub open spec fn escape_char(c: char) -> Seq<char> {
    if c == '"' {
        seq!['\\', '"']
    } else if c == '\\' {
        seq!['\\', '\\']
    } else if c == '\n' {
        seq!['\\', 'n']
    } else if c == '\r' {
        seq!['\\', 'r']
    } else if c == '\t' {
        seq!['\\', 't']
    } else if (c as int) < 32 {
        seq!['\\', 'u', '0', '0', hex_upper(c as int / 16), hex_upper(c as int % 16)]
    } else {
        seq![c]
    }
}

/// A text with every character escaped for a JSON string body.
pub open spec fn escaped(s: Seq<char>) -> Seq<char>
    decreases s.len(),
{
    if s.len() == 0 {
        Seq::<char>::empty()
    } else {
        escaped(s.drop_last()) + escape_char(s.last())
    }
}

/// A JSON string: the escaped text between quotes.
pub open spec fn json_string(s: Seq<char>) -> Seq<char> {
    seq!['"'] + escaped(s) + seq!['"']
}

/// Append one character's escape to the output.
fn push_escaped(out: &mut Vec<char>, c: char)
    ensures
        final(out)@ == old(out)@ + escape_char(c),
{
    if c == '"' {
        out.push('\\');
        out.push('"');
    } else if c == '\\' {
        out.push('\\');
        out.push('\\');
    } else if c == '\n' {
        out.push('\\');
        out.push('n');
    } else if c == '\r' {
        out.push('\\');
        out.push('r');
    } else if c == '\t' {
        out.push('\\');
        out.push('t');
    } else if (c as u32) < 32 {
        out.push('\\');
        out.push('u');
        out.push('0');
        out.push('0');
        let lo = (c as u32) as u8;
        if lo / 16 < 10 {
            out.push((48 + lo / 16) as char);
        } else {
            out.push((55 + lo / 16) as char);
        }
        if lo % 16 < 10 {
            out.push((48 + lo % 16) as char);
        } else {
            out.push((55 + lo % 16) as char);
        }
    } else {
        out.push(c);
    }
    proof {
        assert(out@ =~= old(out)@ + escape_char(c));
    }
}

/// Write a text as a JSON string, quotes and escapes included.
pub fn json_string_of(s: &str) -> (r: String)
    ensures
        r@ == json_string(s@),
{
    let cs = chars_vec(s);
    let n = cs.len();
    let mut out: Vec<char> = Vec::new();
    out.push('"');
    let mut i: usize = 0;
    while i < n
        invariant
            n == cs@.len(),
            cs@ == s@,
            i <= n,
            out@ == seq!['"'] + escaped(s@.subrange(0, i as int)),
        decreases n - i,
    {
        proof {
            let cur = s@.subrange(0, i as int + 1);
            assert(cur.drop_last() =~= s@.subrange(0, i as int));
            assert(cur.last() == s@[i as int]);
        }
        push_escaped(&mut out, cs[i]);
        i = i + 1;
    }
    out.push('"');
    proof {
        assert(s@.subrange(0, n as int) =~= s@);
        assert(out@ =~= json_string(s@));
    }
    string_from_chars(&out)
}

/// A value in hundredths written as a decimal: the whole part, a dot, and
/// exactly two fraction digits.
pub open spec fn hundredths_chars(c: int) -> Seq<char>
    recommends
        c >= 0,
{
    dec_digits(c / 100) + seq!['.', digit_char((c / 10) % 10), digit_char(c % 10)]
}

/// Write a value in hundredths as a decimal with two fraction digits.
pub fn format_hundredths(c: u32) -> (r: Vec<char>)
    ensures
        r@ == hundredths_chars(c as int),
{
    let mut r = crate::text::format_u64((c / 100) as u64);
    r.push('.');
    r.push((48 + ((c / 10) % 10) as u8) as char);
    r.push((48 + (c % 10) as u8) as char);
    proof {
        assert(r@ =~= hundredths_chars(c as int));
    }
    r
}

} // verus!
