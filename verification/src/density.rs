//! The density benchmark: its command line, the free-memory reading it
//! keeps creating sandboxes against, and the rows it emits. Reading
//! `/proc/meminfo` happens outside the library; the text is handed in.

use vstd::prelude::*;
use vstd::string::*;
use crate::bench::csv_row_chars;
use crate::cli::ArgsError;
use crate::cli::string_is;
use crate::numfmt::all_dec_digits;
use crate::numfmt::dec_chars;
use crate::numfmt::dec_value;

verus! {

/// The header above all density rows, spaced as the harness prints it.
pub const DENSITY_HEADER: &'static str = "SYSTEM,OP_TYPE,ITERATION, FREE_MEMORY";

/// ASCII whitespace as the free-memory line is split on.
pub open spec fn is_space_char(c: char) -> bool {
    c == ' ' || c == '\t' || c == '\n' || c == '\r'
}

/// The first position at or after `i` that holds no whitespace.
pub open spec fn skip_space(s: Seq<char>, i: int) -> int
    decreases s.len() - i,
    when 0 <= i <= s.len()
{
    if i < s.len() && is_space_char(s[i]) {
        skip_space(s, i + 1)
    } else {
        i
    }
}

/// The first position at or after `i` that ends the running token.
pub open spec fn token_end(s: Seq<char>, i: int) -> int
    decreases s.len() - i,
    when 0 <= i <= s.len()
{
    if i < s.len() && !is_space_char(s[i]) {
        token_end(s, i + 1)
    } else {
        i
    }
}

pub proof fn lemma_skip_space_bounds(s: Seq<char>, i: int)
    requires
        0 <= i <= s.len(),
    ensures
        i <= skip_space(s, i) <= s.len(),
    decreases s.len() - i,
{
    if i < s.len() && is_space_char(s[i]) {
        lemma_skip_space_bounds(s, i + 1);
    }
}

pub proof fn lemma_token_end_bounds(s: Seq<char>, i: int)
    requires
        0 <= i <= s.len(),
    ensures
        i <= token_end(s, i) <= s.len(),
    decreases s.len() - i,
{
    if i < s.len() && !is_space_char(s[i]) {
        lemma_token_end_bounds(s, i + 1);
    }
}

/// The second whitespace-separated token of the free-memory line: on a
/// line `MemFree: <n> kB` it is the number.
pub open spec fn second_token(s: Seq<char>) -> Seq<char> {
    let a = skip_space(s, 0);
    let b = token_end(s, a);
    let c = skip_space(s, b);
    let d = token_end(s, c);
    s.subrange(c, d)
}

fn space_at(s: &str, j: usize) -> (r: bool)
    requires
        j < s@.len(),
    ensures
        r == is_space_char(s@[j as int]),
{
    let c = s.get_char(j);
    c == ' ' || c == '\t' || c == '\n' || c == '\r'
}

fn skip_space_exec(s: &str, len: usize, i: usize) -> (r: usize)
    requires
        i <= len,
        len == s@.len(),
    ensures
        r == skip_space(s@, i as int),
        i <= r <= len,
{
    let mut j = i;
    while j < len && space_at(s, j)
        invariant
            i <= j <= len,
            len == s@.len(),
            skip_space(s@, i as int) == skip_space(s@, j as int),
        decreases len - j,
    {
        j = j + 1;
    }
    proof {
        lemma_skip_space_bounds(s@, i as int);
    }
    j
}

fn token_end_exec(s: &str, len: usize, i: usize) -> (r: usize)
    requires
        i <= len,
        len == s@.len(),
    ensures
        r == token_end(s@, i as int),
        i <= r <= len,
{
    let mut j = i;
    while j < len && !space_at(s, j)
        invariant
            i <= j <= len,
            len == s@.len(),
            token_end(s@, i as int) == token_end(s@, j as int),
        decreases len - j,
    {
        j = j + 1;
    }
    proof {
        lemma_token_end_bounds(s@, i as int);
    }
    j
}

/// Reads the free memory in megabytes from the `MemFree` line: the second
/// token as kilobytes, divided by 1024. `None` exactly when that token is
/// empty, holds a non-digit, or names a value above `u64::MAX`.
pub fn free_mem_mb_from(line: &str) -> (r: Option<u64>)
    ensures
        match r {
            Some(mb) => second_token(line@).len() > 0 && all_dec_digits(second_token(line@)) && mb
                == dec_value(second_token(line@)) / 1024,
            None => second_token(line@).len() == 0 || !all_dec_digits(second_token(line@))
                || dec_value(second_token(line@)) > u64::MAX,
        },
{
    let len = line.unicode_len();
    let a = skip_space_exec(line, len, 0);
    let b = token_end_exec(line, len, a);
    let c = skip_space_exec(line, len, b);
    let d = token_end_exec(line, len, c);
    let token = line.substring_char(c, d);
    match crate::numfmt::parse_u64(token) {
        Some(kb) => Some(kb / 1024),
        None => None,
    }
}

/// One `system,FREE_MEM_MB,iteration,megabytes` row.
pub fn density_row(name: &str, iteration: u64, free_mb: u64) -> (r: String)
    ensures
        r@ == csv_row_chars(name@, "FREE_MEM_MB"@, iteration as nat) + ","@ + dec_chars(
            free_mb as nat,
        ),
{
    let mut s = crate::bench::csv_row(name, "FREE_MEM_MB", iteration as u128);
    s.append(",");
    s.append(crate::numfmt::u64_to_string(free_mb).as_str());
    s
}

/// The density loop stops once free memory fell under the limit.
pub fn should_stop(free_mb: u64, memory_limit: u64) -> (r: bool)
    ensures
        r == (free_mb < memory_limit),
{
    free_mb < memory_limit
}

/// Only the Firecracker variant's readiness is taken on trust after a
/// fixed sleep; every other variant is probed and sent one warm-up
/// request.
pub fn skips_port_probe(name: &str) -> (r: bool)
    ensures
        r == (name@ == "Firecracker"@),
{
    let owned: String = name.to_owned();
    string_is(&owned, "Firecracker")
}

/// What `Args::parse` makes of a command line, read from position `i`
/// with the values gathered so far.
pub open spec fn parse_spec(args: Seq<Seq<char>>, i: int, config: Seq<char>, limit: nat) -> Result<
    (Seq<char>, nat),
    ArgsError,
>
    decreases args.len() - i,
{
    if i >= args.len() {
        Ok((config, limit))
    } else if args[i] == "-help"@ {
        Err(ArgsError::WrongUsage)
    } else if args[i] == "-config"@ {
        if i + 1 < args.len() {
            parse_spec(args, i + 2, args[i + 1], limit)
        } else {
            Err(ArgsError::MissingValue)
        }
    } else if args[i] == "-memory-limit"@ {
        if i + 1 < args.len() {
            if args[i + 1].len() > 0 && all_dec_digits(args[i + 1]) && dec_value(args[i + 1])
                <= u64::MAX {
                parse_spec(args, i + 2, config, dec_value(args[i + 1]) as nat)
            } else {
                Err(ArgsError::InvalidNumber)
            }
        } else {
            Err(ArgsError::MissingValue)
        }
    } else {
        Err(ArgsError::InvalidArgument)
    }
}

/// The density benchmark's command line: the configuration file and the
/// free-memory floor in megabytes.
pub struct Args {
    pub config: String,
    pub memory_limit: u64,
}

impl Args {
    /// Reads the command line. The first entry is the program name and is
    /// skipped; the defaults are an empty configuration path and a floor
    /// of 512 MB.
    pub fn parse(args: Vec<String>) -> (r: Result<Self, ArgsError>)
        ensures
            match r {
                Ok(a) => parse_spec(args.deep_view(), 1, Seq::empty(), 512) == Ok::<_, ArgsError>(
                    (a.config@, a.memory_limit as nat),
                ),
                Err(e) => parse_spec(args.deep_view(), 1, Seq::empty(), 512) == Err::<
                    (Seq<char>, nat),
                    _,
                >(e),
            },
    {
        let ghost av = args.deep_view();
        let mut config: String = String::new();
        let mut memory_limit: u64 = 512;
        let mut i: usize = 1;
        proof {
            assert(av.len() == args@.len());
        }
        while i < args.len()
            invariant
                1 <= i,
                av == args.deep_view(),
                av.len() == args@.len(),
                parse_spec(av, 1, Seq::empty(), 512) == parse_spec(
                    av,
                    i as int,
                    config@,
                    memory_limit as nat,
                ),
            decreases args@.len() - i,
        {
            proof {
                assert(av[i as int] == args@[i as int]@);
            }
            if string_is(&args[i], "-help") {
                return Err(ArgsError::WrongUsage);
            } else if string_is(&args[i], "-config") {
                if i + 1 < args.len() {
                    proof {
                        assert(av[i as int + 1] == args@[i as int + 1]@);
                    }
                    config = args[i + 1].clone();
                    i = i + 2;
                } else {
                    return Err(ArgsError::MissingValue);
                }
            } else if string_is(&args[i], "-memory-limit") {
                if i + 1 < args.len() {
                    proof {
                        assert(av[i as int + 1] == args@[i as int + 1]@);
                    }
                    match crate::numfmt::parse_u64(args[i + 1].as_str()) {
                        Some(v) => {
                            memory_limit = v;
                            i = i + 2;
                        },
                        None => {
                            return Err(ArgsError::InvalidNumber);
                        },
                    }
                } else {
                    return Err(ArgsError::MissingValue);
                }
            } else {
                return Err(ArgsError::InvalidArgument);
            }
        }
        Ok(Args { config, memory_limit })
    }

    /// The configuration file path.
    pub fn config(&self) -> (r: &str)
        ensures
            r@ == self.config@,
    {
        self.config.as_str()
    }

    /// The free-memory floor in megabytes.
    pub fn memory_limit(&self) -> (r: u64)
        ensures
            r == self.memory_limit,
    {
        self.memory_limit
    }
}

} // verus!
