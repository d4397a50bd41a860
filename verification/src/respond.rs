//! The sandbox server's response body: `{"response":"..."}` holding the
//! guest's output bytes read as text, escaped by the JSON string rules.

use vstd::prelude::*;
use vstd::string::*;
use vstd::utf8::encode_utf8;
use crate::numfmt::hex2_chars;

verus! {

/// What `String::from_utf8_lossy` makes of a byte sequence. The result
/// depends on the bytes alone, so it only gets a name here.
pub uninterp spec fn utf8_lossy_of(bytes: Seq<u8>) -> Seq<char>;

/// Relies on String::from_utf8_lossy: reads bytes as UTF-8 text, putting
/// the replacement character where the bytes are not valid UTF-8. The
/// result is a function of the bytes alone.
#[verifier::external_body]
fn utf8_lossy(bytes: &Vec<u8>) -> (r: String)
    ensures
        r@ == utf8_lossy_of(bytes@),
{
    String::from_utf8_lossy(bytes).to_string()
}

/// Relies on String::push: appends exactly the one character.
#[verifier::external_body]
fn push_char(s: &mut String, c: char)
    ensures
        final(s)@ == old(s)@ + seq![c],
{
    s.push(c);
}

/// How one character appears inside a JSON string: quote and backslash get
/// a backslash, the named control characters their short escape, the other
/// control characters the `\u00..` form, everything else stands as it is.
pub open spec fn escape_char(c: char) -> Seq<char> {
    if c == '"' {
        seq!['\\', '"']
    } else if c == '\\' {
        seq!['\\', '\\']
    } else if c as u32 == 8 {
        seq!['\\', 'b']
    } else if c as u32 == 9 {
        seq!['\\', 't']
    } else if c as u32 == 10 {
        seq!['\\', 'n']
    } else if c as u32 == 12 {
        seq!['\\', 'f']
    } else if c as u32 == 13 {
        seq!['\\', 'r']
    } else if (c as u32) < 32 {
        seq!['\\', 'u', '0', '0'] + hex2_chars(c as u8)
    } else {
        seq![c]
    }
}

/// A whole character sequence escaped for a JSON string.
pub open spec fn escape_chars(s: Seq<char>) -> Seq<char>
    decreases s.len(),
{
    if s.len() == 0 {
        Seq::empty()
    } else {
        escape_chars(s.drop_last()) + escape_char(s.last())
    }
}

/// The response document around an escaped text.
pub open spec fn json_response_chars(text: Seq<char>) -> Seq<char> {
    "{\"response\":\""@ + escape_chars(text) + "\"}"@
}

fn append_escaped(out: &mut String, c: char)
    ensures
        final(out)@ =~= old(out)@ + escape_char(c),
{
    if c == '"' {
        out.append("\\\"");
        proof {
            reveal_strlit("\\\"");
        }
    } else if c == '\\' {
        out.append("\\\\");
        proof {
            reveal_strlit("\\\\");
        }
    } else if c as u32 == 8 {
        out.append("\\b");
        proof {
            reveal_strlit("\\b");
        }
    } else if c as u32 == 9 {
        out.append("\\t");
        proof {
            reveal_strlit("\\t");
        }
    } else if c as u32 == 10 {
        out.append("\\n");
        proof {
            reveal_strlit("\\n");
        }
    } else if c as u32 == 12 {
        out.append("\\f");
        proof {
            reveal_strlit("\\f");
        }
    } else if c as u32 == 13 {
        out.append("\\r");
        proof {
            reveal_strlit("\\r");
        }
    } else if (c as u32) < 32 {
        out.append("\\u00");
        proof {
            reveal_strlit("\\u00");
        }
        let hex = crate::numfmt::u8_to_hex2(c as u8);
        out.append(hex.as_str());
    } else {
        push_char(out, c);
    }
}

/// Escapes a text for a JSON string.
pub fn escape_string(s: &str) -> (r: String)
    ensures
        r@ =~= escape_chars(s@),
{
    let len = s.unicode_len();
    let mut out = String::new();
    let mut i: usize = 0;
    while i < len
        invariant
            0 <= i <= len,
            len == s@.len(),
            out@ =~= escape_chars(s@.take(i as int)),
        decreases len - i,
    {
        let c = s.get_char(i);
        append_escaped(&mut out, c);
        proof {
            let t = s@.take(i + 1 as int);
            assert(t.drop_last() =~= s@.take(i as int));
            assert(t.last() == s@[i as int]);
        }
        i = i + 1;
    }
    proof {
        assert(s@.take(len as int) =~= s@);
    }
    out
}

/// Builds the `200 OK` body for a guest's output bytes: the bytes read as
/// UTF-8 text (lossily), escaped, inside `{"response":"..."}`.
pub fn response_body_bytes(guest_output: &Vec<u8>) -> (r: Vec<u8>)
    ensures
        r@ == encode_utf8(json_response_chars(utf8_lossy_of(guest_output@))),
{
    let text = utf8_lossy(guest_output);
    let escaped = escape_string(text.as_str());
    let mut out: String = "{\"response\":\"".to_owned();
    out.append(escaped.as_str());
    out.append("\"}");
    proof {
        assert(out@ =~= json_response_chars(utf8_lossy_of(guest_output@)));
    }
    out.as_str().as_bytes_vec()
}

} // verus!
