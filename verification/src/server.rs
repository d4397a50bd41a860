//! The sandbox server's decisions: its command line, how a request body is
//! classified, and which status and body answer each outcome. The sockets,
//! the HTTP plumbing and the in-process sandboxes stay outside the
//! library; they hand the results of their work to these functions.

use vstd::prelude::*;
use vstd::utf8::encode_utf8;
use crate::cli::ArgsError;
use crate::cli::string_is;
use crate::jsonparse::parse_data_body;
use crate::numfmt::all_dec_digits;
use crate::numfmt::dec_value;
use crate::pool::SandboxPool;
use crate::respond::json_response_chars;
use crate::respond::response_body_bytes;
use crate::respond::utf8_lossy_of;

verus! {

/// Status line numbers the server answers with.
pub const STATUS_OK: u16 = 200;

pub const STATUS_NO_CONTENT: u16 = 204;

pub const STATUS_BAD_REQUEST: u16 = 400;

pub const STATUS_INTERNAL_ERROR: u16 = 500;

/// What a request body asks for.
pub enum RequestClass {
    /// Empty body: warm one more sandbox.
    Prewarm,
    /// A well-formed `{"data":[...]}` body: run the guest on these bytes.
    Invoke(Vec<u8>),
    /// A non-empty body the grammar refuses.
    Malformed,
}

/// Sorts a request body: empty means prewarm, anything else is read as
/// `{"data":[...]}` or refused.
pub fn classify_request(body: &Vec<u8>) -> (r: RequestClass)
    ensures
        match r {
            RequestClass::Prewarm => body@.len() == 0,
            RequestClass::Invoke(data) => body@.len() > 0 && parse_data_body(body@) == Some(data@),
            RequestClass::Malformed => body@.len() > 0 && parse_data_body(body@) is None,
        },
{
    if body.len() == 0 {
        return RequestClass::Prewarm;
    }
    match crate::jsonparse::parse_data_body_exec(body) {
        Some(data) => RequestClass::Invoke(data),
        None => RequestClass::Malformed,
    }
}

/// A finished answer: status line number and body bytes.
pub struct Reply {
    pub status: u16,
    pub body: Vec<u8>,
}

/// Answers a prewarm request. A freshly created sandbox joins the back of
/// the pool and the answer is `204 No Content`; if creation failed the
/// pool stands as it was and the answer is a `500`.
pub fn prewarm_reply<T>(pool: &mut SandboxPool<T>, created: Option<T>) -> (r: Reply)
    ensures
        match created {
            Some(sb) => r.status == STATUS_NO_CONTENT && r.body@.len() == 0
                && final(pool).contents() =~= old(pool).contents().push(sb),
            None => r.status == STATUS_INTERNAL_ERROR && r.body@.len() == 0
                && final(pool).contents() =~= old(pool).contents(),
        },
{
    match created {
        Some(sb) => {
            pool.push_back(sb);
            Reply { status: STATUS_NO_CONTENT, body: Vec::new() }
        },
        None => Reply { status: STATUS_INTERNAL_ERROR, body: Vec::new() },
    }
}

/// Answers an invoke request once the guest has run. The guest's output
/// becomes `{"response":"..."}` under a `200`; a guest that failed gives a
/// `500` with an empty body.
pub fn invoke_reply(guest_result: Option<Vec<u8>>) -> (r: Reply)
    ensures
        match guest_result {
            Some(out) => r.status == STATUS_OK && r.body@ == encode_utf8(
                json_response_chars(utf8_lossy_of(out@)),
            ),
            None => r.status == STATUS_INTERNAL_ERROR && r.body@.len() == 0,
        },
{
    match guest_result {
        Some(out) => Reply { status: STATUS_OK, body: response_body_bytes(&out) },
        None => Reply { status: STATUS_INTERNAL_ERROR, body: Vec::new() },
    }
}

/// The answer to a body the grammar refuses.
pub fn bad_request_reply() -> (r: Reply)
    ensures
        r.status == STATUS_BAD_REQUEST && r.body@.len() == 0,
{
    Reply { status: STATUS_BAD_REQUEST, body: Vec::new() }
}

/// The answer when reading the body, making a sandbox, or the guest call
/// itself failed.
pub fn internal_error_reply() -> (r: Reply)
    ensures
        r.status == STATUS_INTERNAL_ERROR && r.body@.len() == 0,
{
    Reply { status: STATUS_INTERNAL_ERROR, body: Vec::new() }
}

/// What `Args::parse` makes of a command line, read from position `i` with
/// the values gathered so far.
pub open spec fn parse_spec(
    args: Seq<Seq<char>>,
    i: int,
    listen: Seq<char>,
    guest: Seq<char>,
    size: nat,
) -> Result<(Seq<char>, Seq<char>, nat), ArgsError>
    decreases args.len() - i,
{
    if i >= args.len() {
        Ok((listen, guest, size))
    } else if args[i] == "-help"@ {
        Err(ArgsError::WrongUsage)
    } else if args[i] == "-listen"@ {
        if i + 1 < args.len() {
            parse_spec(args, i + 2, args[i + 1], guest, size)
        } else {
            Err(ArgsError::MissingValue)
        }
    } else if args[i] == "-guest"@ {
        if i + 1 < args.len() {
            parse_spec(args, i + 2, listen, args[i + 1], size)
        } else {
            Err(ArgsError::MissingValue)
        }
    } else if args[i] == "-init-sandbox-size"@ {
        if i + 1 < args.len() {
            if args[i + 1].len() > 0 && all_dec_digits(args[i + 1]) && dec_value(args[i + 1])
                <= usize::MAX {
                parse_spec(args, i + 2, listen, guest, dec_value(args[i + 1]) as nat)
            } else {
                Err(ArgsError::InvalidNumber)
            }
        } else {
            Err(ArgsError::MissingValue)
        }
    } else {
        Err(ArgsError::InvalidArgument)
    }
}

/// The sandbox server's command line: where to listen, which guest binary
/// to load, and how many sandboxes to create before serving.
pub struct Args {
    pub listen_sockaddr: String,
    pub guest: String,
    pub init_sandbox_size: usize,
}

impl Args {
    /// Reads the command line. The first entry is the program name and is
    /// skipped; defaults are an empty address, an empty guest path and
    /// zero sandboxes.
    pub fn parse(args: Vec<String>) -> (r: Result<Self, ArgsError>)
        ensures
            match r {
                Ok(a) => parse_spec(args.deep_view(), 1, Seq::empty(), Seq::empty(), 0)
                    == Ok::<_, ArgsError>((a.listen_sockaddr@, a.guest@, a.init_sandbox_size as nat)),
                Err(e) => parse_spec(args.deep_view(), 1, Seq::empty(), Seq::empty(), 0)
                    == Err::<(Seq<char>, Seq<char>, nat), _>(e),
            },
    {
        let ghost av = args.deep_view();
        let mut listen: String = String::new();
        let mut guest: String = String::new();
        let mut size: usize = 0;
        let mut i: usize = 1;
        proof {
            assert(av.len() == args@.len());
        }
        while i < args.len()
            invariant
                1 <= i,
                av == args.deep_view(),
                av.len() == args@.len(),
                parse_spec(av, 1, Seq::empty(), Seq::empty(), 0) == parse_spec(
                    av,
                    i as int,
                    listen@,
                    guest@,
                    size as nat,
                ),
            decreases args@.len() - i,
        {
            proof {
                assert(av[i as int] == args@[i as int]@);
            }
            if string_is(&args[i], "-help") {
                return Err(ArgsError::WrongUsage);
            } else if string_is(&args[i], "-listen") {
                if i + 1 < args.len() {
                    proof {
                        assert(av[i as int + 1] == args@[i as int + 1]@);
                    }
                    listen = args[i + 1].clone();
                    i = i + 2;
                } else {
                    return Err(ArgsError::MissingValue);
                }
            } else if string_is(&args[i], "-guest") {
                if i + 1 < args.len() {
                    proof {
                        assert(av[i as int + 1] == args@[i as int + 1]@);
                    }
                    guest = args[i + 1].clone();
                    i = i + 2;
                } else {
                    return Err(ArgsError::MissingValue);
                }
            } else if string_is(&args[i], "-init-sandbox-size") {
                if i + 1 < args.len() {
                    proof {
                        assert(av[i as int + 1] == args@[i as int + 1]@);
                    }
                    match crate::numfmt::parse_u64(args[i + 1].as_str()) {
                        Some(v) => {
                            if v <= usize::MAX as u64 {
                                size = v as usize;
                                i = i + 2;
                            } else {
                                return Err(ArgsError::InvalidNumber);
                            }
                        },
                        None => {
                            return Err(ArgsError::InvalidNumber);
                        },
                    }
                } else {
                    return Err(ArgsError::MissingValue);
                }
            } else {
                return Err(ArgsError::InvalidArgument);
            }
        }
        Ok(Args { listen_sockaddr: listen, guest, init_sandbox_size: size })
    }

    /// The socket address the server listens on.
    pub fn listen_sockaddr(&self) -> (r: &str)
        ensures
            r@ == self.listen_sockaddr@,
    {
        self.listen_sockaddr.as_str()
    }

    /// The path of the guest binary each sandbox loads.
    pub fn guest(&self) -> (r: &str)
        ensures
            r@ == self.guest@,
    {
        self.guest.as_str()
    }

    /// How many sandboxes to create before serving.
    pub fn init_sandbox_size(&self) -> (r: usize)
        ensures
            r == self.init_sandbox_size,
    {
        self.init_sandbox_size
    }
}

} // verus!
