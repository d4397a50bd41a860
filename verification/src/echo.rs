//! The plain HTTP echo service that the non-Hyperlight sandboxes run:
//! its command line, how it answers a request body, and the
//! case-insensitive content-type lookup of its smallest variant.

use vstd::prelude::*;
use vstd::string::*;
use crate::cli::ArgsError;
use crate::cli::string_is;
use crate::jsonparse::parse_data_body;
use crate::respond::json_response_chars;
use crate::respond::utf8_lossy_of;
use crate::server::Reply;
use crate::server::STATUS_BAD_REQUEST;
use crate::server::STATUS_OK;

verus! {

/// The echo service; it keeps no state between requests.
pub struct HttpService {}

impl HttpService {
    /// A fresh service.
    pub fn new() -> (r: Self)
        ensures
            r == (HttpService {  }),
    {
        HttpService {  }
    }

    /// Answers one request: a well-formed `{"data":[...]}` body is echoed
    /// back as `{"response":"..."}` under a `200`; anything else gets a
    /// `400` with an empty body.
    pub fn echo_reply(body: &Vec<u8>) -> (r: Reply)
        ensures
            match parse_data_body(body@) {
                Some(data) => r.status == STATUS_OK && r.body@ == vstd::utf8::encode_utf8(
                    json_response_chars(utf8_lossy_of(data)),
                ),
                None => r.status == STATUS_BAD_REQUEST && r.body@.len() == 0,
            },
    {
        match crate::jsonparse::parse_data_body_exec(body) {
            Some(data) => Reply {
                status: STATUS_OK,
                body: crate::respond::response_body_bytes(&data),
            },
            None => crate::server::bad_request_reply(),
        }
    }
}

/// One character of a header name compared without regard to ASCII case.
pub open spec fn ascii_eq_ic_char(a: char, b: char) -> bool {
    ||| a == b
    ||| (65 <= a as u32 <= 90 && b as u32 == a as u32 + 32)
    ||| (65 <= b as u32 <= 90 && a as u32 == b as u32 + 32)
}

/// Whether a header name is `Content-type`, compared without regard to
/// ASCII case, as the header field comparison of the echo server does.
pub open spec fn is_content_type_name(name: Seq<char>) -> bool {
    name.len() == "Content-type"@.len() && (forall|i: int|
        0 <= i < name.len() ==> ascii_eq_ic_char(#[trigger] name[i], "Content-type"@[i]))
}

fn name_matches(name: &String) -> (r: bool)
    ensures
        r == is_content_type_name(name@),
{
    proof {
        reveal_strlit("Content-type");
    }
    let pat = "Content-type";
    let n = name.as_str().unicode_len();
    if n != pat.unicode_len() {
        return false;
    }
    let mut i: usize = 0;
    while i < n
        invariant
            0 <= i <= n,
            n == name@.len(),
            n == "Content-type"@.len(),
            pat@ == "Content-type"@,
            forall|j: int| 0 <= j < i ==> ascii_eq_ic_char(#[trigger] name@[j], "Content-type"@[j]),
        decreases n - i,
    {
        let a = name.as_str().get_char(i);
        let b = pat.get_char(i);
        let au = a as u32;
        let bu = b as u32;
        let matches_here = a == b || (65 <= au && au <= 90 && bu == au + 32) || (65 <= bu && bu
            <= 90 && au == bu + 32);
        if !matches_here {
            proof {
                assert(!ascii_eq_ic_char(name@[i as int], "Content-type"@[i as int]));
            }
            return false;
        }
        i = i + 1;
    }
    true
}

/// The value of the first header named `Content-type`, compared without
/// regard to ASCII case; `None` when no header carries that name.
pub fn find_content_type(headers: &Vec<(String, String)>) -> (r: Option<String>)
    ensures
        match r {
            Some(v) => exists|k: int|
                0 <= k < headers@.len() && is_content_type_name(#[trigger] headers@[k].0@) && v@
                    == headers@[k].1@ && forall|j: int|
                    0 <= j < k ==> !is_content_type_name(#[trigger] headers@[j].0@),
            None => forall|k: int|
                0 <= k < headers@.len() ==> !is_content_type_name(#[trigger] headers@[k].0@),
        },
{
    let n = headers.len();
    let mut k: usize = 0;
    while k < n
        invariant
            0 <= k <= n,
            n == headers@.len(),
            forall|j: int| 0 <= j < k ==> !is_content_type_name(#[trigger] headers@[j].0@),
        decreases n - k,
    {
        if name_matches(&headers[k].0) {
            return Some(headers[k].1.clone());
        }
        k = k + 1;
    }
    None
}

/// What `Args::parse` makes of a command line, read from position `i`
/// with the value gathered so far.
pub open spec fn parse_spec(args: Seq<Seq<char>>, i: int, listen: Seq<char>) -> Result<
    Seq<char>,
    ArgsError,
>
    decreases args.len() - i,
{
    if i >= args.len() {
        Ok(listen)
    } else if args[i] == "-help"@ {
        Err(ArgsError::WrongUsage)
    } else if args[i] == "-listen"@ {
        if i + 1 < args.len() {
            parse_spec(args, i + 2, args[i + 1])
        } else {
            Err(ArgsError::MissingValue)
        }
    } else {
        Err(ArgsError::InvalidArgument)
    }
}

/// The echo server's command line: where to listen.
pub struct Args {
    pub listen_sockaddr: String,
}

impl Args {
    /// Reads the command line. The first entry is the program name and is
    /// skipped; the listen address defaults to the empty string.
    pub fn parse(args: Vec<String>) -> (r: Result<Self, ArgsError>)
        ensures
            match r {
                Ok(a) => parse_spec(args.deep_view(), 1, Seq::empty()) == Ok::<_, ArgsError>(
                    a.listen_sockaddr@,
                ),
                Err(e) => parse_spec(args.deep_view(), 1, Seq::empty()) == Err::<Seq<char>, _>(e),
            },
    {
        let ghost av = args.deep_view();
        let mut listen: String = String::new();
        let mut i: usize = 1;
        proof {
            assert(av.len() == args@.len());
        }
        while i < args.len()
            invariant
                1 <= i,
                av == args.deep_view(),
                av.len() == args@.len(),
                parse_spec(av, 1, Seq::empty()) == parse_spec(av, i as int, listen@),
            decreases args@.len() - i,
        {
            proof {
                assert(av[i as int] == args@[i as int]@);
            }
            if string_is(&args[i], "-help") {
                return Err(ArgsError::WrongUsage);
            } else if string_is(&args[i], "-listen") {
                if i + 1 < args.len() {
                    proof {
                        assert(av[i as int + 1] == args@[i as int + 1]@);
                    }
                    listen = args[i + 1].clone();
                    i = i + 2;
                } else {
                    return Err(ArgsError::MissingValue);
                }
            } else {
                return Err(ArgsError::InvalidArgument);
            }
        }
        Ok(Args { listen_sockaddr: listen })
    }

    /// The socket address the echo server listens on.
    pub fn listen_sockaddr(&self) -> (r: &str)
        ensures
            r@ == self.listen_sockaddr@,
    {
        self.listen_sockaddr.as_str()
    }
}

} // verus!
