//! The load generator's command line: where to connect, how often to
//! inject a request, for how long, and with how large a body.

use vstd::prelude::*;
use crate::cli::ArgsError;
use crate::cli::string_is;
use crate::numfmt::all_dec_digits;
use crate::numfmt::dec_value;

verus! {

/// What `Args::parse` makes of a command line, read from position `i`
/// with the values gathered so far.
pub open spec fn parse_spec(
    args: Seq<Seq<char>>,
    i: int,
    frequency: nat,
    connect: Seq<char>,
    duration: nat,
    size: nat,
) -> Result<(nat, Seq<char>, nat, nat), ArgsError>
    decreases args.len() - i,
{
    if i >= args.len() {
        Ok((frequency, connect, duration, size))
    } else if args[i] == "-help"@ {
        Err(ArgsError::WrongUsage)
    } else if args[i] == "-frequency"@ {
        if i + 1 < args.len() {
            if args[i + 1].len() > 0 && all_dec_digits(args[i + 1]) && dec_value(args[i + 1])
                <= u128::MAX {
                parse_spec(args, i + 2, dec_value(args[i + 1]) as nat, connect, duration, size)
            } else {
                Err(ArgsError::InvalidNumber)
            }
        } else {
            Err(ArgsError::MissingValue)
        }
    } else if args[i] == "-connect"@ {
        if i + 1 < args.len() {
            parse_spec(args, i + 2, frequency, args[i + 1], duration, size)
        } else {
            Err(ArgsError::MissingValue)
        }
    } else if args[i] == "-duration"@ {
        if i + 1 < args.len() {
            if args[i + 1].len() > 0 && all_dec_digits(args[i + 1]) && dec_value(args[i + 1])
                <= u64::MAX {
                parse_spec(args, i + 2, frequency, connect, dec_value(args[i + 1]) as nat, size)
            } else {
                Err(ArgsError::InvalidNumber)
            }
        } else {
            Err(ArgsError::MissingValue)
        }
    } else if args[i] == "-size"@ {
        if i + 1 < args.len() {
            if args[i + 1].len() > 0 && all_dec_digits(args[i + 1]) && dec_value(args[i + 1])
                <= usize::MAX {
                parse_spec(args, i + 2, frequency, connect, duration, dec_value(args[i + 1]) as nat)
            } else {
                Err(ArgsError::InvalidNumber)
            }
        } else {
            Err(ArgsError::MissingValue)
        }
    } else {
        Err(ArgsError::InvalidArgument)
    }
}

/// The load generator's command line.
pub struct Args {
    /// Nanoseconds between two injected requests.
    pub frequency: u128,
    /// The `ip:port` to connect to.
    pub connect_sockaddr: String,
    /// How many seconds to keep injecting.
    pub duration: u64,
    /// How many bytes the request body carries.
    pub size: usize,
}

impl Args {
    /// Reads the command line. The first entry is the program name and is
    /// skipped; every value defaults to zero or the empty string.
    pub fn parse(args: Vec<String>) -> (r: Result<Self, ArgsError>)
        ensures
            match r {
                Ok(a) => parse_spec(args.deep_view(), 1, 0, Seq::empty(), 0, 0) == Ok::<
                    _,
                    ArgsError,
                >((a.frequency as nat, a.connect_sockaddr@, a.duration as nat, a.size as nat)),
                Err(e) => parse_spec(args.deep_view(), 1, 0, Seq::empty(), 0, 0) == Err::<
                    (nat, Seq<char>, nat, nat),
                    _,
                >(e),
            },
    {
        let ghost av = args.deep_view();
        let mut frequency: u128 = 0;
        let mut connect: String = String::new();
        let mut duration: u64 = 0;
        let mut size: usize = 0;
        let mut i: usize = 1;
        proof {
            assert(av.len() == args@.len());
        }
        while i < args.len()
            invariant
                1 <= i,
                av == args.deep_view(),
                av.len() == args@.len(),
                parse_spec(av, 1, 0, Seq::empty(), 0, 0) == parse_spec(
                    av,
                    i as int,
                    frequency as nat,
                    connect@,
                    duration as nat,
                    size as nat,
                ),
            decreases args@.len() - i,
        {
            proof {
                assert(av[i as int] == args@[i as int]@);
            }
            if string_is(&args[i], "-help") {
                return Err(ArgsError::WrongUsage);
            } else if string_is(&args[i], "-frequency") {
                if i + 1 < args.len() {
                    proof {
                        assert(av[i as int + 1] == args@[i as int + 1]@);
                    }
                    match crate::numfmt::parse_u128(args[i + 1].as_str()) {
                        Some(v) => {
                            frequency = v;
                            i = i + 2;
                        },
                        None => {
                            return Err(ArgsError::InvalidNumber);
                        },
                    }
                } else {
                    return Err(ArgsError::MissingValue);
                }
            } else if string_is(&args[i], "-connect") {
                if i + 1 < args.len() {
                    proof {
                        assert(av[i as int + 1] == args@[i as int + 1]@);
                    }
                    connect = args[i + 1].clone();
                    i = i + 2;
                } else {
                    return Err(ArgsError::MissingValue);
                }
            } else if string_is(&args[i], "-duration") {
                if i + 1 < args.len() {
                    proof {
                        assert(av[i as int + 1] == args@[i as int + 1]@);
                    }
                    match crate::numfmt::parse_u64(args[i + 1].as_str()) {
                        Some(v) => {
                            duration = v;
                            i = i + 2;
                        },
                        None => {
                            return Err(ArgsError::InvalidNumber);
                        },
                    }
                } else {
                    return Err(ArgsError::MissingValue);
                }
            } else if string_is(&args[i], "-size") {
                if i + 1 < args.len() {
                    proof {
                        assert(av[i as int + 1] == args@[i as int + 1]@);
                    }
                    match crate::numfmt::parse_u64(args[i + 1].as_str()) {
                        Some(v) => {
                            if v <= usize::MAX as u64 {
                                size = v as usize;
                                i = i + 2;
                            } else {
                                return Err(ArgsError::InvalidNumber);
                            }
                        },
                        None => {
                            return Err(ArgsError::InvalidNumber);
                        },
                    }
                } else {
                    return Err(ArgsError::MissingValue);
                }
            } else {
                return Err(ArgsError::InvalidArgument);
            }
        }
        Ok(Args { frequency, connect_sockaddr: connect, duration, size })
    }

    /// Nanoseconds between two injected requests.
    pub fn frequency(&self) -> (r: u128)
        ensures
            r == self.frequency,
    {
        self.frequency
    }

    /// The address to connect to.
    pub fn connect_sockaddr(&self) -> (r: String)
        ensures
            r@ == self.connect_sockaddr@,
    {
        self.connect_sockaddr.clone()
    }

    /// How many seconds to keep injecting.
    pub fn duration(&self) -> (r: u64)
        ensures
            r == self.duration,
    {
        self.duration
    }

    /// How many bytes the request body carries.
    pub fn size(&self) -> (r: usize)
        ensures
            r == self.size,
    {
        self.size
    }
}

} // verus!
