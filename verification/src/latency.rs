//! The latency benchmark: its command line and the sample rows it emits
//! for one sandbox iteration. Timing itself happens outside the library;
//! the measured microseconds are handed in.

use vstd::prelude::*;
use crate::bench::csv_row;
use crate::bench::csv_row_chars;
use crate::cli::ArgsError;
use crate::cli::string_is;
use crate::numfmt::all_dec_digits;
use crate::numfmt::dec_value;

verus! {

/// The header above all latency rows.
pub const LATENCY_HEADER: &'static str = "SYSTEM,OP_TYPE,LATENCY_MICROSECONDS";

/// What `Args::parse` makes of a command line, read from position `i`
/// with the values gathered so far.
pub open spec fn parse_spec(
    args: Seq<Seq<char>>,
    i: int,
    config: Seq<char>,
    data_size: nat,
    invocations: nat,
    iterations: nat,
) -> Result<(Seq<char>, nat, nat, nat), ArgsError>
    decreases args.len() - i,
{
    if i >= args.len() {
        Ok((config, data_size, invocations, iterations))
    } else if args[i] == "-help"@ {
        Err(ArgsError::WrongUsage)
    } else if args[i] == "-config"@ {
        if i + 1 < args.len() {
            parse_spec(args, i + 2, args[i + 1], data_size, invocations, iterations)
        } else {
            Err(ArgsError::MissingValue)
        }
    } else if args[i] == "-data_size"@ {
        if i + 1 < args.len() {
            if args[i + 1].len() > 0 && all_dec_digits(args[i + 1]) && dec_value(args[i + 1])
                <= usize::MAX {
                parse_spec(
                    args,
                    i + 2,
                    config,
                    dec_value(args[i + 1]) as nat,
                    invocations,
                    iterations,
                )
            } else {
                Err(ArgsError::InvalidNumber)
            }
        } else {
            Err(ArgsError::MissingValue)
        }
    } else if args[i] == "-invocations"@ {
        if i + 1 < args.len() {
            if args[i + 1].len() > 0 && all_dec_digits(args[i + 1]) && dec_value(args[i + 1])
                <= u32::MAX {
                parse_spec(args, i + 2, config, data_size, dec_value(args[i + 1]) as nat, iterations)
            } else {
                Err(ArgsError::InvalidNumber)
            }
        } else {
            Err(ArgsError::MissingValue)
        }
    } else if args[i] == "-iterations"@ {
        if i + 1 < args.len() {
            if args[i + 1].len() > 0 && all_dec_digits(args[i + 1]) && dec_value(args[i + 1])
                <= u16::MAX {
                parse_spec(args, i + 2, config, data_size, invocations, dec_value(args[i + 1]) as nat)
            } else {
                Err(ArgsError::InvalidNumber)
            }
        } else {
            Err(ArgsError::MissingValue)
        }
    } else {
        Err(ArgsError::InvalidArgument)
    }
}

/// The latency benchmark's command line: the configuration file, the
/// request body size, how many requests per iteration, and how many
/// iterations per variant.
pub struct Args {
    pub config: String,
    pub data_size: usize,
    pub invocations: u32,
    pub iterations: u16,
}

impl Args {
    /// Reads the command line. The first entry is the program name and is
    /// skipped; the defaults are an empty configuration path, a body of
    /// 1024 bytes, 1000 invocations and 5 iterations.
    pub fn parse(args: Vec<String>) -> (r: Result<Self, ArgsError>)
        ensures
            match r {
                Ok(a) => parse_spec(args.deep_view(), 1, Seq::empty(), 1024, 1000, 5)
                    == Ok::<_, ArgsError>(
                    (a.config@, a.data_size as nat, a.invocations as nat, a.iterations as nat),
                ),
                Err(e) => parse_spec(args.deep_view(), 1, Seq::empty(), 1024, 1000, 5)
                    == Err::<(Seq<char>, nat, nat, nat), _>(e),
            },
    {
        let ghost av = args.deep_view();
        let mut config: String = String::new();
        let mut data_size: usize = 1024;
        let mut invocations: u32 = 1000;
        let mut iterations: u16 = 5;
        let mut i: usize = 1;
        proof {
            assert(av.len() == args@.len());
        }
        while i < args.len()
            invariant
                1 <= i,
                av == args.deep_view(),
                av.len() == args@.len(),
                parse_spec(av, 1, Seq::empty(), 1024, 1000, 5) == parse_spec(
                    av,
                    i as int,
                    config@,
                    data_size as nat,
                    invocations as nat,
                    iterations as nat,
                ),
            decreases args@.len() - i,
        {
            proof {
                assert(av[i as int] == args@[i as int]@);
            }
            if string_is(&args[i], "-help") {
                return Err(ArgsError::WrongUsage);
            } else if string_is(&args[i], "-config") {
                if i + 1 < args.len() {
                    proof {
                        assert(av[i as int + 1] == args@[i as int + 1]@);
                    }
                    config = args[i + 1].clone();
                    i = i + 2;
                } else {
                    return Err(ArgsError::MissingValue);
                }
            } else if string_is(&args[i], "-data_size") {
                if i + 1 < args.len() {
                    proof {
                        assert(av[i as int + 1] == args@[i as int + 1]@);
                    }
                    match crate::numfmt::parse_u64(args[i + 1].as_str()) {
                        Some(v) => {
                            if v <= usize::MAX as u64 {
                                data_size = v as usize;
                                i = i + 2;
                            } else {
                                return Err(ArgsError::InvalidNumber);
                            }
                        },
                        None => {
                            return Err(ArgsError::InvalidNumber);
                        },
                    }
                } else {
                    return Err(ArgsError::MissingValue);
                }
            } else if string_is(&args[i], "-invocations") {
                if i + 1 < args.len() {
                    proof {
                        assert(av[i as int + 1] == args@[i as int + 1]@);
                    }
                    match crate::numfmt::parse_u64(args[i + 1].as_str()) {
                        Some(v) => {
                            if v <= u32::MAX as u64 {
                                invocations = v as u32;
                                i = i + 2;
                            } else {
                                return Err(ArgsError::InvalidNumber);
                            }
                        },
                        None => {
                            return Err(ArgsError::InvalidNumber);
                        },
                    }
                } else {
                    return Err(ArgsError::MissingValue);
                }
            } else if string_is(&args[i], "-iterations") {
                if i + 1 < args.len() {
                    proof {
                        assert(av[i as int + 1] == args@[i as int + 1]@);
                    }
                    match crate::numfmt::parse_u64(args[i + 1].as_str()) {
                        Some(v) => {
                            if v <= u16::MAX as u64 {
                                iterations = v as u16;
                                i = i + 2;
                            } else {
                                return Err(ArgsError::InvalidNumber);
                            }
                        },
                        None => {
                            return Err(ArgsError::InvalidNumber);
                        },
                    }
                } else {
                    return Err(ArgsError::MissingValue);
                }
            } else {
                return Err(ArgsError::InvalidArgument);
            }
        }
        Ok(Args { config, data_size, invocations, iterations })
    }

    /// The configuration file path.
    pub fn config(&self) -> (r: &str)
        ensures
            r@ == self.config@,
    {
        self.config.as_str()
    }

    /// How many bytes the request body carries.
    pub fn data_size(&self) -> (r: usize)
        ensures
            r == self.data_size,
    {
        self.data_size
    }

    /// How many requests each iteration sends.
    pub fn invocations(&self) -> (r: u32)
        ensures
            r == self.invocations,
    {
        self.invocations
    }

    /// How many iterations each variant runs.
    pub fn iterations(&self) -> (r: u16)
        ensures
            r == self.iterations,
    {
        self.iterations
    }
}

/// The rows one iteration emits once its samples are in: the first
/// request's time, the cold start as presetup plus setup plus that first
/// time, and one row for each later request.
pub fn latency_report(name: &str, presetup: u128, setup: u128, samples: &Vec<u128>) -> (r: Vec<
    String,
>)
    requires
        samples@.len() >= 1,
        presetup + setup + samples@[0] <= u128::MAX,
    ensures
        r@.len() == samples@.len() + 1,
        r@[0]@ == csv_row_chars(name@, "FIRST_EXECUTION"@, samples@[0] as nat),
        r@[1]@ == csv_row_chars(
            name@,
            "COLD_START_EXECUTION"@,
            (presetup + setup + samples@[0]) as nat,
        ),
        forall|k: int|
            2 <= k < r@.len() ==> r@[k]@ == csv_row_chars(
                name@,
                "EXECUTION"@,
                samples@[k - 1] as nat,
            ),
{
    let mut r: Vec<String> = Vec::new();
    r.push(csv_row(name, "FIRST_EXECUTION", samples[0]));
    let cold = presetup + setup + samples[0];
    r.push(csv_row(name, "COLD_START_EXECUTION", cold));
    let mut k: usize = 1;
    while k < samples.len()
        invariant
            1 <= k <= samples@.len(),
            samples@.len() >= 1,
            presetup + setup + samples@[0] <= u128::MAX,
            r@.len() == k + 1,
            r@[0]@ == csv_row_chars(name@, "FIRST_EXECUTION"@, samples@[0] as nat),
            r@[1]@ == csv_row_chars(
                name@,
                "COLD_START_EXECUTION"@,
                (presetup + setup + samples@[0]) as nat,
            ),
            forall|t: int|
                2 <= t < r@.len() ==> r@[t]@ == csv_row_chars(
                    name@,
                    "EXECUTION"@,
                    samples@[t - 1] as nat,
                ),
        decreases samples@.len() - k,
    {
        r.push(csv_row(name, "EXECUTION", samples[k]));
        k = k + 1;
    }
    r
}

} // verus!
