//! The sandbox server's request body format: a JSON object `{"data":[...]}`
//! whose array holds byte values. The grammar accepts the usual JSON
//! whitespace between tokens and nothing besides the one `"data"` member.

use vstd::prelude::*;
use vstd::utf8::encode_utf8;
use vstd::utf8::is_ascii_chars;
use vstd::utf8::is_ascii_chars_encode_utf8;
use crate::numfmt::dec_chars;
use crate::numfmt::digit_char;
use crate::request::json_body_chars;
use crate::request::json_elems_chars;

verus! {

/// JSON insignificant whitespace: space, tab, line feed, carriage return.
pub open spec fn is_ws(b: u8) -> bool {
    b == 32 || b == 9 || b == 10 || b == 13
}

/// An ASCII decimal digit byte.
pub open spec fn is_digit_byte(b: u8) -> bool {
    48 <= b <= 57
}

/// The first position at or after `i` that does not hold whitespace.
pub open spec fn skip_ws(s: Seq<u8>, i: int) -> int
    decreases s.len() - i,
    when 0 <= i <= s.len()
{
    if i < s.len() && is_ws(s[i]) {
        skip_ws(s, i + 1)
    } else {
        i
    }
}

/// The first position at or after `i` that does not hold a digit.
pub open spec fn digit_run_end(s: Seq<u8>, i: int) -> int
    decreases s.len() - i,
    when 0 <= i <= s.len()
{
    if i < s.len() && is_digit_byte(s[i]) {
        digit_run_end(s, i + 1)
    } else {
        i
    }
}

/// The value of the digits `s[i..j)`, most significant first.
pub open spec fn digits_value(s: Seq<u8>, i: int, j: int) -> int
    decreases j - i,
{
    if i >= j {
        0
    } else {
        digits_value(s, i, j - 1) * 10 + (s[j - 1] - 48)
    }
}

pub proof fn lemma_skip_ws_bounds(s: Seq<u8>, i: int)
    requires
        0 <= i <= s.len(),
    ensures
        i <= skip_ws(s, i) <= s.len(),
    decreases s.len() - i,
{
    if i < s.len() && is_ws(s[i]) {
        lemma_skip_ws_bounds(s, i + 1);
    }
}

pub proof fn lemma_digit_run_bounds(s: Seq<u8>, i: int)
    requires
        0 <= i <= s.len(),
    ensures
        i <= digit_run_end(s, i) <= s.len(),
    decreases s.len() - i,
{
    if i < s.len() && is_digit_byte(s[i]) {
        lemma_digit_run_bounds(s, i + 1);
    }
}

/// A JSON number restricted to one byte: either the single digit `0`, or a
/// run of digits not starting with `0` whose value is at most 255. Yields
/// the value and the position after the digits.
pub open spec fn parse_byte_num(s: Seq<u8>, j: int) -> Option<(u8, int)> {
    if 0 <= j < s.len() && is_digit_byte(s[j]) {
        if s[j] == 48 {
            Some((0u8, j + 1))
        } else {
            let e = digit_run_end(s, j);
            let v = digits_value(s, j, e);
            if v <= 255 {
                Some((v as u8, e))
            } else {
                None
            }
        }
    } else {
        None
    }
}

/// One or more comma-separated byte numbers followed by `]`, read from
/// position `i`. Yields the bytes and the position after the `]`.
pub open spec fn parse_items(s: Seq<u8>, i: int) -> Option<(Seq<u8>, int)>
    decreases s.len() - i,
    when 0 <= i <= s.len()
    via parse_items_dec
{
    let j = skip_ws(s, i);
    match parse_byte_num(s, j) {
        Some((v, k)) => {
            let m = skip_ws(s, k);
            if m < s.len() && s[m] == 44 {
                match parse_items(s, m + 1) {
                    Some((rest, end)) => Some((seq![v] + rest, end)),
                    None => None,
                }
            } else if m < s.len() && s[m] == 93 {
                Some((seq![v], m + 1))
            } else {
                None
            }
        },
        None => None,
    }
}

#[via_fn]
proof fn parse_items_dec(s: Seq<u8>, i: int) {
    lemma_skip_ws_bounds(s, i);
    let j = skip_ws(s, i);
    if 0 <= j < s.len() && is_digit_byte(s[j]) {
        lemma_digit_run_bounds(s, j);
        if s[j] == 48 {
            lemma_skip_ws_bounds(s, j + 1);
        } else {
            let e = digit_run_end(s, j);
            if e < s.len() {
                lemma_skip_ws_bounds(s, e);
            } else {
                lemma_skip_ws_bounds(s, e);
            }
        }
    }
}

/// The array tail right after `[`: either an immediate `]` for no items, or
/// the non-empty item list.
pub open spec fn parse_array_tail(s: Seq<u8>, i: int) -> Option<(Seq<u8>, int)> {
    let j = skip_ws(s, i);
    if j < s.len() && s[j] == 93 {
        Some((Seq::empty(), j + 1))
    } else {
        parse_items(s, i)
    }
}

/// The bytes of the member name `"data"`, quotes included.
pub open spec fn data_key() -> Seq<u8> {
    seq![34u8, 100u8, 97u8, 116u8, 97u8, 34u8]
}

/// The whole body: `{"data":[...]}` with optional whitespace between
/// tokens and nothing after the closing brace.
pub open spec fn parse_data_body(s: Seq<u8>) -> Option<Seq<u8>> {
    let i0 = skip_ws(s, 0);
    if s.len() > 0 && i0 < s.len() && s[i0] == 123 {
        let i1 = skip_ws(s, i0 + 1);
        if i1 + 6 <= s.len() && s.subrange(i1, i1 + 6) =~= data_key() {
            let i2 = skip_ws(s, i1 + 6);
            if i2 < s.len() && s[i2] == 58 {
                let i3 = skip_ws(s, i2 + 1);
                if i3 < s.len() && s[i3] == 91 {
                    match parse_array_tail(s, i3 + 1) {
                        Some((items, end)) => {
                            let i4 = skip_ws(s, end);
                            if i4 < s.len() && s[i4] == 125 {
                                if skip_ws(s, i4 + 1) == s.len() {
                                    Some(items)
                                } else {
                                    None
                                }
                            } else {
                                None
                            }
                        },
                        None => None,
                    }
                } else {
                    None
                }
            } else {
                None
            }
        } else {
            None
        }
    } else {
        None
    }
}

fn skip_ws_exec(s: &Vec<u8>, i: usize) -> (r: usize)
    requires
        i <= s@.len(),
    ensures
        r == skip_ws(s@, i as int),
        i <= r <= s@.len(),
{
    let mut j = i;
    while j < s.len() && (s[j] == 32 || s[j] == 9 || s[j] == 10 || s[j] == 13)
        invariant
            i <= j <= s@.len(),
            skip_ws(s@, i as int) == skip_ws(s@, j as int),
        decreases s@.len() - j,
    {
        j = j + 1;
    }
    proof {
        lemma_skip_ws_bounds(s@, i as int);
    }
    j
}

proof fn lemma_digits_value_extend(s: Seq<u8>, i: int, j: int)
    requires
        i <= j,
    ensures
        digits_value(s, i, j + 1) == digits_value(s, i, j) * 10 + (s[j] - 48),
{
}

proof fn lemma_digits_value_nonneg(s: Seq<u8>, i: int, j: int)
    requires
        forall|k: int| i <= k < j ==> is_digit_byte(#[trigger] s[k]),
    ensures
        digits_value(s, i, j) >= 0,
    decreases j - i,
{
    if i < j {
        lemma_digits_value_nonneg(s, i, j - 1);
    }
}

proof fn lemma_digits_value_monotonic(s: Seq<u8>, i: int, j: int, e: int)
    requires
        i <= j <= e,
        forall|k: int| i <= k < e ==> is_digit_byte(#[trigger] s[k]),
    ensures
        digits_value(s, i, e) >= digits_value(s, i, j),
    decreases e - j,
{
    if j < e {
        lemma_digits_value_nonneg(s, i, j);
        lemma_digits_value_monotonic(s, i, j + 1, e);
        lemma_digits_value_extend(s, i, j);
    }
}

fn parse_byte_num_exec(s: &Vec<u8>, j: usize) -> (r: Option<(u8, usize)>)
    requires
        j <= s@.len(),
    ensures
        match r {
            Some((v, k)) => parse_byte_num(s@, j as int) == Some((v, k as int)) && j < k <= s@.len(),
            None => parse_byte_num(s@, j as int) is None,
        },
{
    if j >= s.len() || s[j] < 48 || s[j] > 57 {
        return None;
    }
    if s[j] == 48 {
        return Some((0u8, j + 1));
    }
    let ghost e = digit_run_end(s@, j as int);
    proof {
        lemma_digit_run_bounds(s@, j as int);
    }
    let mut k = j;
    let mut val: u32 = 0;
    let mut over = false;
    while k < s.len() && s[k] >= 48 && s[k] <= 57
        invariant
            j <= k <= s@.len(),
            digit_run_end(s@, j as int) == digit_run_end(s@, k as int),
            forall|t: int| j <= t < k ==> is_digit_byte(#[trigger] s@[t]),
            !over ==> val == digits_value(s@, j as int, k as int) && val <= 255,
            over ==> digits_value(s@, j as int, k as int) > 255,
        decreases s@.len() - k,
    {
        proof {
            lemma_digits_value_extend(s@, j as int, k as int);
            if over {
                lemma_digits_value_nonneg(s@, j as int, k as int);
            }
        }
        if !over {
            let d: u32 = (s[k] - 48) as u32;
            let next: u32 = val * 10 + d;
            if next > 255 {
                over = true;
            } else {
                val = next;
            }
            proof {
                if next > 255 {
                    assert(digits_value(s@, j as int, k as int + 1) > 255);
                }
            }
        }
        k = k + 1;
    }
    proof {
        assert(k as int == digit_run_end(s@, k as int));
        assert(k as int == e);
    }
    if over {
        None
    } else {
        Some((val as u8, k))
    }
}

/// Reads the item list from position `i`; mirrors `parse_items`.
fn parse_items_exec(s: &Vec<u8>, i: usize) -> (r: Option<(Vec<u8>, usize)>)
    requires
        i <= s@.len(),
    ensures
        match r {
            Some((v, end)) => parse_items(s@, i as int) == Some((v@, end as int)) && end <= s@.len(),
            None => parse_items(s@, i as int) is None,
        },
    decreases s@.len() - i,
{
    let j = skip_ws_exec(s, i);
    match parse_byte_num_exec(s, j) {
        Some((v, k)) => {
            let m = skip_ws_exec(s, k);
            if m < s.len() && s[m] == 44 {
                match parse_items_exec(s, m + 1) {
                    Some((rest, end)) => {
                        let mut items = rest;
                        items.insert(0, v);
                        proof {
                            assert(items@ =~= seq![v] + items@.subrange(1, items@.len() as int));
                        }
                        Some((items, end))
                    },
                    None => None,
                }
            } else if m < s.len() && s[m] == 93 {
                let mut items: Vec<u8> = Vec::new();
                items.push(v);
                proof {
                    assert(items@ =~= seq![v]);
                }
                Some((items, m + 1))
            } else {
                None
            }
        },
        None => None,
    }
}

/// Reads a whole request body. `Some` holds the bytes of the `"data"` array
/// exactly when the body matches the grammar; anything else is `None`.
pub fn parse_data_body_exec(s: &Vec<u8>) -> (r: Option<Vec<u8>>)
    ensures
        match r {
            Some(v) => parse_data_body(s@) == Some(v@),
            None => parse_data_body(s@) is None,
        },
{
    if s.len() == 0 {
        return None;
    }
    let i0 = skip_ws_exec(s, 0);
    if !(i0 < s.len() && s[i0] == 123) {
        return None;
    }
    let i1 = skip_ws_exec(s, i0 + 1);
    if !(s.len() >= 6 && i1 <= s.len() - 6 && s[i1] == 34 && s[i1 + 1] == 100 && s[i1 + 2] == 97
        && s[i1 + 3] == 116 && s[i1 + 4] == 97 && s[i1 + 5] == 34) {
        proof {
            if i1 + 6 <= s@.len() {
                assert(s@.subrange(i1 as int, i1 as int + 6) =~= data_key() ==> (s@[i1 as int]
                    == 34 && s@[i1 as int + 1] == 100 && s@[i1 as int + 2] == 97 && s@[i1 as int + 3]
                    == 116 && s@[i1 as int + 4] == 97 && s@[i1 as int + 5] == 34)) by {
                    if s@.subrange(i1 as int, i1 as int + 6) =~= data_key() {
                        assert(forall|t: int|
                            0 <= t < 6 ==> s@.subrange(i1 as int, i1 as int + 6)[t] == data_key()[t]);
                    }
                }
            }
        }
        return None;
    }
    proof {
        assert(s@.subrange(i1 as int, i1 as int + 6) =~= data_key());
    }
    let i2 = skip_ws_exec(s, i1 + 6);
    if !(i2 < s.len() && s[i2] == 58) {
        return None;
    }
    let i3 = skip_ws_exec(s, i2 + 1);
    if !(i3 < s.len() && s[i3] == 91) {
        return None;
    }
    let j = skip_ws_exec(s, i3 + 1);
    let tail: Option<(Vec<u8>, usize)> = if j < s.len() && s[j] == 93 {
        Some((Vec::new(), j + 1))
    } else {
        parse_items_exec(s, i3 + 1)
    };
    match tail {
        Some((items, end)) => {
            let i4 = skip_ws_exec(s, end);
            if !(i4 < s.len() && s[i4] == 125) {
                return None;
            }
            if skip_ws_exec(s, i4 + 1) == s.len() {
                Some(items)
            } else {
                None
            }
        },
        None => None,
    }
}

/// The bytes of the shortest decimal numeral for `n`.
pub open spec fn dec_bytes(n: nat) -> Seq<u8>
    decreases n,
{
    if n < 10 {
        seq![(48 + n) as u8]
    } else {
        dec_bytes(n / 10) + seq![(48 + n % 10) as u8]
    }
}

/// The bytes of the comma-separated numerals of `data`.
pub open spec fn elems_bytes(data: Seq<u8>) -> Seq<u8>
    decreases data.len(),
{
    if data.len() == 0 {
        Seq::empty()
    } else if data.len() == 1 {
        dec_bytes(data[0] as nat)
    } else {
        elems_bytes(data.drop_last()) + seq![44u8] + dec_bytes(data.last() as nat)
    }
}

/// The bytes of the whole encoded body `{"data":[...]}`.
pub open spec fn body_bytes(data: Seq<u8>) -> Seq<u8> {
    seq![123u8, 34u8, 100u8, 97u8, 116u8, 97u8, 34u8, 58u8, 91u8] + elems_bytes(data) + seq![
        93u8,
        125u8,
    ]
}

/// Each character of an ASCII sequence as one byte.
pub open spec fn bytes_of_chars(s: Seq<char>) -> Seq<u8> {
    Seq::new(s.len(), |i: int| s[i] as u8)
}

proof fn lemma_ascii_encode(s: Seq<char>)
    requires
        is_ascii_chars(s),
    ensures
        encode_utf8(s) =~= bytes_of_chars(s),
{
    is_ascii_chars_encode_utf8(s);
}

proof fn lemma_bytes_of_chars_concat(a: Seq<char>, b: Seq<char>)
    ensures
        bytes_of_chars(a + b) =~= bytes_of_chars(a) + bytes_of_chars(b),
{
}

proof fn lemma_dec_chars_bytes(n: nat)
    ensures
        is_ascii_chars(dec_chars(n)),
        bytes_of_chars(dec_chars(n)) =~= dec_bytes(n),
    decreases n,
{
    if n < 10 {
        assert(digit_char(n as int) as u8 == 48 + n);
    } else {
        lemma_dec_chars_bytes(n / 10);
        assert(digit_char((n % 10) as int) as u8 == 48 + n % 10);
        assert(is_ascii_chars(dec_chars(n))) by {
            assert(forall|i: int|
                0 <= i < dec_chars(n).len() - 1 ==> #[trigger] dec_chars(n)[i] == dec_chars(
                    n / 10,
                )[i]);
        }
    }
}

proof fn lemma_elems_chars_bytes(data: Seq<u8>)
    ensures
        is_ascii_chars(json_elems_chars(data)),
        bytes_of_chars(json_elems_chars(data)) =~= elems_bytes(data),
    decreases data.len(),
{
    if data.len() == 0 {
    } else if data.len() == 1 {
        lemma_dec_chars_bytes(data[0] as nat);
    } else {
        lemma_elems_chars_bytes(data.drop_last());
        lemma_dec_chars_bytes(data.last() as nat);
        let a = json_elems_chars(data.drop_last());
        let b = seq![','];
        let c = dec_chars(data.last() as nat);
        assert(',' as u8 == 44);
        assert(bytes_of_chars(b) =~= seq![44u8]);
        lemma_bytes_of_chars_concat(a, b);
        lemma_bytes_of_chars_concat(a + b, c);
        assert(is_ascii_chars(json_elems_chars(data))) by {
            assert(forall|i: int|
                0 <= i < a.len() ==> #[trigger] json_elems_chars(data)[i] == a[i]);
            assert(json_elems_chars(data)[a.len() as int] == ',');
            assert(forall|i: int|
                a.len() + 1 <= i < json_elems_chars(data).len()
                    ==> #[trigger] json_elems_chars(data)[i] == c[i - a.len() - 1]);
        }
    }
}

/// The character-level body that the request builder emits encodes to
/// exactly the byte-level body the parser reads.
proof fn lemma_body_encoding(data: Seq<u8>)
    ensures
        encode_utf8(json_body_chars(data)) =~= body_bytes(data),
{
    reveal_strlit("{\"data\":[");
    reveal_strlit("]}");
    let p = "{\"data\":["@;
    let q = "]}"@;
    let e = json_elems_chars(data);
    lemma_elems_chars_bytes(data);
    assert(bytes_of_chars(p) =~= seq![123u8, 34u8, 100u8, 97u8, 116u8, 97u8, 34u8, 58u8, 91u8]);
    assert(bytes_of_chars(q) =~= seq![93u8, 125u8]);
    assert(is_ascii_chars(p)) by {
        assert(forall|i: int| 0 <= i < p.len() ==> '\0' <= #[trigger] p[i] <= '\u{7f}');
    }
    assert(is_ascii_chars(q)) by {
        assert(forall|i: int| 0 <= i < q.len() ==> '\0' <= #[trigger] q[i] <= '\u{7f}');
    }
    assert(is_ascii_chars(p + e + q)) by {
        assert(forall|i: int|
            0 <= i < (p + e + q).len() ==> '\0' <= #[trigger] (p + e + q)[i] <= '\u{7f}');
    }
    lemma_ascii_encode(p + e + q);
    lemma_bytes_of_chars_concat(p, e);
    lemma_bytes_of_chars_concat(p + e, q);
}

proof fn lemma_skip_ws_noop(s: Seq<u8>, i: int)
    requires
        0 <= i <= s.len(),
        i == s.len() || !is_ws(s[i]),
    ensures
        skip_ws(s, i) == i,
{
}

proof fn lemma_digit_run_of(s: Seq<u8>, i: int, e: int)
    requires
        0 <= i <= e <= s.len(),
        forall|k: int| i <= k < e ==> is_digit_byte(#[trigger] s[k]),
        e == s.len() || !is_digit_byte(s[e]),
    ensures
        digit_run_end(s, i) == e,
    decreases e - i,
{
    if i < e {
        lemma_digit_run_of(s, i + 1, e);
    }
}

proof fn lemma_dec_bytes_digits(n: nat)
    ensures
        dec_bytes(n).len() >= 1,
        forall|i: int| 0 <= i < dec_bytes(n).len() ==> is_digit_byte(#[trigger] dec_bytes(n)[i]),
        n > 0 ==> dec_bytes(n)[0] != 48,
        n == 0 ==> dec_bytes(n) =~= seq![48u8],
    decreases n,
{
    if n >= 10 {
        lemma_dec_bytes_digits(n / 10);
        assert(forall|i: int|
            0 <= i < dec_bytes(n).len() - 1 ==> #[trigger] dec_bytes(n)[i] == dec_bytes(n / 10)[i]);
    }
}

proof fn lemma_digits_value_of_dec(s: Seq<u8>, i: int, n: nat)
    requires
        0 <= i,
        i + dec_bytes(n).len() <= s.len(),
        s.subrange(i, i + dec_bytes(n).len() as int) =~= dec_bytes(n),
    ensures
        digits_value(s, i, i + dec_bytes(n).len() as int) == n,
    decreases n,
{
    let len = dec_bytes(n).len() as int;
    if n < 10 {
        assert(s[i] == dec_bytes(n)[0]);
        assert(digits_value(s, i, i + 1) == digits_value(s, i, i) * 10 + (s[i] - 48));
    } else {
        let hi = dec_bytes(n / 10).len() as int;
        assert(s.subrange(i, i + hi) =~= dec_bytes(n / 10)) by {
            assert(forall|t: int|
                0 <= t < hi ==> s.subrange(i, i + hi)[t] == #[trigger] dec_bytes(n / 10)[t]);
        }
        lemma_digits_value_of_dec(s, i, n / 10);
        assert(s[i + len - 1] == dec_bytes(n)[len - 1]);
        assert(dec_bytes(n)[len - 1] == (48 + n % 10) as u8);
        lemma_digits_value_extend(s, i, i + len - 1);
    }
}

proof fn lemma_parse_byte_num_of(s: Seq<u8>, i: int, v: u8)
    requires
        0 <= i,
        i + dec_bytes(v as nat).len() <= s.len(),
        s.subrange(i, i + dec_bytes(v as nat).len() as int) =~= dec_bytes(v as nat),
        i + dec_bytes(v as nat).len() == s.len() || !is_digit_byte(
            s[i + dec_bytes(v as nat).len()],
        ),
    ensures
        parse_byte_num(s, i) == Some((v, i + dec_bytes(v as nat).len() as int)),
{
    let len = dec_bytes(v as nat).len() as int;
    lemma_dec_bytes_digits(v as nat);
    assert forall|k: int| i <= k < i + len implies s[k] == dec_bytes(v as nat)[k - i] by {
        assert(s[k] == s.subrange(i, i + len)[k - i]);
    }
    assert(s[i] == dec_bytes(v as nat)[0]);
    assert(is_digit_byte(s[i]));
    if v == 0 {
        assert(s[i] == 48);
    } else {
        assert(s[i] != 48);
        assert forall|k: int| i <= k < i + len implies is_digit_byte(s[k]) by {
            assert(s[k] == dec_bytes(v as nat)[k - i]);
        }
        lemma_digit_run_of(s, i, i + len);
        lemma_digits_value_of_dec(s, i, v as nat);
    }
}

proof fn lemma_elems_bytes_front(data: Seq<u8>)
    requires
        data.len() >= 1,
    ensures
        data.len() == 1 ==> elems_bytes(data) =~= dec_bytes(data[0] as nat),
        data.len() > 1 ==> elems_bytes(data) =~= dec_bytes(data[0] as nat) + seq![44u8]
            + elems_bytes(data.drop_first()),
    decreases data.len(),
{
    if data.len() > 1 {
        let dl = data.drop_last();
        lemma_elems_bytes_front(dl);
        if data.len() == 2 {
            assert(data.drop_first() =~= seq![data[1]]);
            assert(elems_bytes(data.drop_first()) == dec_bytes(data[1] as nat));
        } else {
            assert(dl.drop_first() =~= data.drop_first().drop_last());
            assert(data.drop_first().last() == data.last());
            assert(elems_bytes(data.drop_first()) == elems_bytes(data.drop_first().drop_last())
                + seq![44u8] + dec_bytes(data.drop_first().last() as nat));
        }
    }
}

proof fn lemma_parse_items_of(s: Seq<u8>, pos: int, data: Seq<u8>)
    requires
        data.len() >= 1,
        0 <= pos,
        pos + elems_bytes(data).len() < s.len(),
        s.subrange(pos, pos + elems_bytes(data).len() as int) =~= elems_bytes(data),
        s[pos + elems_bytes(data).len()] == 93,
    ensures
        parse_items(s, pos) == Some((data, pos + elems_bytes(data).len() + 1)),
    decreases data.len(),
{
    let el = elems_bytes(data).len() as int;
    let v0 = data[0];
    let l0 = dec_bytes(v0 as nat).len() as int;
    lemma_elems_bytes_front(data);
    lemma_dec_bytes_digits(v0 as nat);
    assert forall|t: int| 0 <= t < el implies s[pos + t] == elems_bytes(data)[t] by {
        assert(s[pos + t] == s.subrange(pos, pos + el)[t]);
    }
    assert(s.subrange(pos, pos + l0) =~= dec_bytes(v0 as nat)) by {
        assert forall|t: int|
            0 <= t < l0 implies s.subrange(pos, pos + l0)[t] == dec_bytes(v0 as nat)[t] by {
            assert(s[pos + t] == elems_bytes(data)[t]);
            assert(elems_bytes(data)[t] == dec_bytes(v0 as nat)[t]);
        }
    }
    assert(s[pos] == elems_bytes(data)[0]);
    assert(elems_bytes(data)[0] == dec_bytes(v0 as nat)[0]);
    assert(!is_ws(s[pos]));
    lemma_skip_ws_noop(s, pos);
    if data.len() == 1 {
        assert(s[pos + l0] == 93);
        lemma_parse_byte_num_of(s, pos, v0);
        lemma_skip_ws_noop(s, pos + l0);
        assert(parse_items(s, pos) == Some((seq![v0], pos + l0 + 1)));
        assert(seq![v0] =~= data);
    } else {
        assert(elems_bytes(data)[l0] == 44);
        assert(s[pos + l0] == 44);
        lemma_parse_byte_num_of(s, pos, v0);
        lemma_skip_ws_noop(s, pos + l0);
        let rest = data.drop_first();
        let restlen = elems_bytes(rest).len() as int;
        assert(el == l0 + 1 + restlen);
        assert(s.subrange(pos + l0 + 1, pos + l0 + 1 + restlen) =~= elems_bytes(rest)) by {
            assert forall|t: int|
                0 <= t < restlen implies s.subrange(pos + l0 + 1, pos + l0 + 1 + restlen)[t]
                == elems_bytes(rest)[t] by {
                assert(s[pos + (l0 + 1 + t)] == elems_bytes(data)[l0 + 1 + t]);
                assert(elems_bytes(data)[l0 + 1 + t] == elems_bytes(rest)[t]);
            }
        }
        assert(s[pos + l0 + 1 + restlen] == 93);
        lemma_parse_items_of(s, pos + l0 + 1, rest);
        assert(seq![v0] + rest =~= data);
    }
}

/// Round trip: a body built by the request builder for any data bytes is
/// read back by the parser as exactly those bytes.
pub proof fn lemma_request_round_trip(data: Seq<u8>)
    ensures
        parse_data_body(encode_utf8(json_body_chars(data))) == Some(data),
{
    lemma_body_encoding(data);
    let s = body_bytes(data);
    let el = elems_bytes(data).len() as int;
    assert(s.len() == 11 + el);
    assert(s[0] == 123);
    lemma_skip_ws_noop(s, 0);
    assert(s.subrange(1, 7) =~= data_key());
    lemma_skip_ws_noop(s, 1);
    assert(s[7] == 58);
    lemma_skip_ws_noop(s, 7);
    assert(s[8] == 91);
    lemma_skip_ws_noop(s, 8);
    assert(s[9 + el] == 93);
    assert(s[10 + el] == 125);
    if data.len() == 0 {
        assert(el == 0);
        lemma_skip_ws_noop(s, 9);
        assert(parse_array_tail(s, 9) == Some((Seq::<u8>::empty(), 10int)));
        lemma_skip_ws_noop(s, 10);
        lemma_skip_ws_noop(s, 11);
        assert(parse_data_body(s) == Some(Seq::<u8>::empty()));
        assert(Seq::<u8>::empty() =~= data);
    } else {
        assert(forall|t: int| 0 <= t < el ==> s[9 + t] == #[trigger] elems_bytes(data)[t]);
        assert(s.subrange(9, 9 + el) =~= elems_bytes(data)) by {
            assert(forall|t: int|
                0 <= t < el ==> s.subrange(9, 9 + el)[t] == #[trigger] elems_bytes(data)[t]);
        }
        lemma_elems_bytes_front(data);
        lemma_dec_bytes_digits(data[0] as nat);
        assert(s[9] == dec_bytes(data[0] as nat)[0]);
        assert(is_digit_byte(s[9]));
        assert(!is_ws(s[9]) && s[9] != 93);
        lemma_skip_ws_noop(s, 9);
        lemma_parse_items_of(s, 9, data);
        assert(parse_array_tail(s, 9) == Some((data, 10 + el)));
        lemma_skip_ws_noop(s, 10 + el);
        lemma_skip_ws_noop(s, 11 + el);
    }
}

} // verus!
