//! The load generator's wire format: the canned HTTP/1.1 POST carrying
//! `{"data":[...]}` and the blank-line test that ends a response's headers.

use vstd::prelude::*;
use vstd::string::*;
use vstd::utf8::encode_utf8;
use crate::numfmt::dec_chars;

verus! {

/// Largest request body the harness will send; callers must check.
pub const MAX_REQUEST_SIZE: usize = 1024;

/// The comma-separated decimal numerals of the bytes of `data`.
pub open spec fn json_elems_chars(data: Seq<u8>) -> Seq<char>
    decreases data.len(),
{
    if data.len() == 0 {
        Seq::empty()
    } else if data.len() == 1 {
        dec_chars(data[0] as nat)
    } else {
        json_elems_chars(data.drop_last()) + seq![','] + dec_chars(data.last() as nat)
    }
}

/// The JSON request body `{"data":[b0,b1,...]}`.
pub open spec fn json_body_chars(data: Seq<u8>) -> Seq<char> {
    "{\"data\":["@ + json_elems_chars(data) + "]}"@
}

/// The whole POST: request line, content type, a correct `Content-Length`
/// counted in bytes, and the JSON body.
pub open spec fn request_chars(data: Seq<u8>) -> Seq<char> {
    "POST / HTTP/1.1\r\nContent-Type: application/json\r\nContent-Length: "@ + dec_chars(
        encode_utf8(json_body_chars(data)).len(),
    ) + "\r\n\r\n"@ + json_body_chars(data)
}

fn json_body_string(data: &Vec<u8>) -> (s: String)
    ensures
        s@ =~= json_body_chars(data@),
{
    let mut s: String = "{\"data\":[".to_owned();
    let n = data.len();
    let mut i: usize = 0;
    while i < n
        invariant
            0 <= i <= n,
            n == data@.len(),
            s@ =~= "{\"data\":["@ + json_elems_chars(data@.take(i as int)),
        decreases n - i,
    {
        if i > 0 {
            s.append(",");
            proof {
                reveal_strlit(",");
            }
        }
        let num = crate::numfmt::u64_to_string(data[i] as u64);
        s.append(num.as_str());
        proof {
            let t = data@.take(i + 1 as int);
            assert(t.drop_last() =~= data@.take(i as int));
            assert(t.last() == data@[i as int]);
        }
        i = i + 1;
    }
    proof {
        assert(data@.take(n as int) =~= data@);
    }
    s.append("]}");
    s
}

/// Builds the canned HTTP POST for a request body of the given bytes.
pub fn build_request(data: Vec<u8>) -> (r: Vec<u8>)
    ensures
        r@ == encode_utf8(request_chars(data@)),
{
    let body = json_body_string(&data);
    let body_bytes = body.as_str().as_bytes_vec();
    let byte_len = body_bytes.len();
    let mut s: String =
        "POST / HTTP/1.1\r\nContent-Type: application/json\r\nContent-Length: ".to_owned();
    s.append(crate::numfmt::u64_to_string(byte_len as u64).as_str());
    s.append("\r\n\r\n");
    s.append(body.as_str());
    proof {
        assert(s@ =~= request_chars(data@));
    }
    let r = s.as_str().as_bytes_vec();
    proof {
        assert(r@ == encode_utf8(s@));
        assert(encode_utf8(s@) == encode_utf8(request_chars(data@)));
    }
    r
}

/// The same preamble with `Content-Length: 0` and no body, used to ask the
/// sandbox server to warm one more sandbox.
pub fn build_empty_request() -> (r: Vec<u8>)
    ensures
        r@ == encode_utf8(
            "POST / HTTP/1.1\r\nContent-Type: application/json\r\nContent-Length: 0\r\n\r\n"@,
        ),
{
    "POST / HTTP/1.1\r\nContent-Type: application/json\r\nContent-Length: 0\r\n\r\n".as_bytes_vec()
}

/// Some line of `s`, split at each line feed with a carriage return allowed
/// before it, is empty: the end-of-headers sentinel the response reader
/// looks for.
pub open spec fn has_blank_line(s: Seq<u8>) -> bool {
    ||| s.len() >= 1 && s[0] == 10
    ||| s.len() >= 2 && s[0] == 13 && s[1] == 10
    ||| exists|i: int|
        0 <= i && i + 1 < s.len() && #[trigger] s[i] == 10 && (s[i + 1] == 10 || (i + 2 < s.len()
            && s[i + 1] == 13 && s[i + 2] == 10))
}

/// Reports whether the buffered response already holds an empty line.
pub fn contains_blank_line(s: &[u8]) -> (r: bool)
    ensures
        r == has_blank_line(s@),
{
    let n = s.len();
    if n >= 1 && s[0] == 10 {
        return true;
    }
    if n >= 2 && s[0] == 13 && s[1] == 10 {
        return true;
    }
    let mut i: usize = 0;
    while i < n
        invariant
            0 <= i <= n,
            n == s@.len(),
            forall|j: int|
                0 <= j < i ==> !(j + 1 < n && #[trigger] s@[j] == 10 && (s@[j + 1] == 10 || (j + 2
                    < n && s@[j + 1] == 13 && s@[j + 2] == 10))),
        decreases n - i,
    {
        if i + 1 < n && s[i] == 10 {
            if s[i + 1] == 10 {
                return true;
            }
            if i + 2 < n && s[i + 1] == 13 && s[i + 2] == 10 {
                return true;
            }
        }
        i = i + 1;
    }
    false
}

} // verus!
