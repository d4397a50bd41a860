//! The demonstration host's command line: where to listen and which
//! guest binary to load.

use vstd::prelude::*;
use crate::cli::ArgsError;
use crate::cli::string_is;

verus! {

/// What `Args::parse` makes of a command line, read from position `i`
/// with the values gathered so far.
pub open spec fn parse_spec(args: Seq<Seq<char>>, i: int, listen: Seq<char>, guest: Seq<char>) -> Result<
    (Seq<char>, Seq<char>),
    ArgsError,
>
    decreases args.len() - i,
{
    if i >= args.len() {
        Ok((listen, guest))
    } else if args[i] == "-help"@ {
        Err(ArgsError::WrongUsage)
    } else if args[i] == "-listen"@ {
        if i + 1 < args.len() {
            parse_spec(args, i + 2, args[i + 1], guest)
        } else {
            Err(ArgsError::MissingValue)
        }
    } else if args[i] == "-guest"@ {
        if i + 1 < args.len() {
            parse_spec(args, i + 2, listen, args[i + 1])
        } else {
            Err(ArgsError::MissingValue)
        }
    } else {
        Err(ArgsError::InvalidArgument)
    }
}

/// The demonstration host's command line.
pub struct Args {
    pub listen_sockaddr: String,
    pub guest: String,
}

impl Args {
    /// Reads the command line. The first entry is the program name and is
    /// skipped; both values default to the empty string.
    pub fn parse(args: Vec<String>) -> (r: Result<Self, ArgsError>)
        ensures
            match r {
                Ok(a) => parse_spec(args.deep_view(), 1, Seq::empty(), Seq::empty()) == Ok::<
                    _,
                    ArgsError,
                >((a.listen_sockaddr@, a.guest@)),
                Err(e) => parse_spec(args.deep_view(), 1, Seq::empty(), Seq::empty()) == Err::<
                    (Seq<char>, Seq<char>),
                    _,
                >(e),
            },
    {
        let ghost av = args.deep_view();
        let mut listen: String = String::new();
        let mut guest: String = String::new();
        let mut i: usize = 1;
        proof {
            assert(av.len() == args@.len());
        }
        while i < args.len()
            invariant
                1 <= i,
                av == args.deep_view(),
                av.len() == args@.len(),
                parse_spec(av, 1, Seq::empty(), Seq::empty()) == parse_spec(
                    av,
                    i as int,
                    listen@,
                    guest@,
                ),
            decreases args@.len() - i,
        {
            proof {
                assert(av[i as int] == args@[i as int]@);
            }
            if string_is(&args[i], "-help") {
                return Err(ArgsError::WrongUsage);
            } else if string_is(&args[i], "-listen") {
                if i + 1 < args.len() {
                    proof {
                        assert(av[i as int + 1] == args@[i as int + 1]@);
                    }
                    listen = args[i + 1].clone();
                    i = i + 2;
                } else {
                    return Err(ArgsError::MissingValue);
                }
            } else if string_is(&args[i], "-guest") {
                if i + 1 < args.len() {
                    proof {
                        assert(av[i as int + 1] == args@[i as int + 1]@);
                    }
                    guest = args[i + 1].clone();
                    i = i + 2;
                } else {
                    return Err(ArgsError::MissingValue);
                }
            } else {
                return Err(ArgsError::InvalidArgument);
            }
        }
        Ok(Args { listen_sockaddr: listen, guest })
    }

    /// The socket address the host listens on.
    pub fn listen_sockaddr(&self) -> (r: &str)
        ensures
            r@ == self.listen_sockaddr@,
    {
        self.listen_sockaddr.as_str()
    }

    /// The path of the guest binary.
    pub fn guest(&self) -> (r: &str)
        ensures
            r@ == self.guest@,
    {
        self.guest.as_str()
    }
}

} // verus!
