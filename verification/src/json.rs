//! Byte-level production and reading of the JSON wire text.
//!
//! Frames travel as UTF-8 text. This module builds that text directly as
//! bytes: escaping for JSON strings, decimal rendering of integers, and the
//! small tokens that the envelope needs. It also reads decimal integers back,
//! as message identifiers arrive as decimal strings.

use vstd::prelude::*;
use vstd::string::StringSliceAdditionalSpecFns;

verus! {

/// One hexadecimal digit, lower case.
pub open spec fn spec_hex_digit(n: u8) -> u8 {
    if n < 10 {
        (0x30 + n) as u8
    } else {
        (0x61 + (n - 10)) as u8
    }
}

/// The JSON escape of one byte of UTF-8 text.
///
/// Bytes of multi-byte UTF-8 sequences are all at least 0x80 and pass
/// through unchanged, so escaping byte by byte escapes exactly the ASCII
/// characters that JSON requires escaped.
pub open spec fn spec_escape_byte(b: u8) -> Seq<u8> {
    if b == 0x22 {
        seq![0x5cu8, 0x22u8]
    } else if b == 0x5c {
        seq![0x5cu8, 0x5cu8]
    } else if b == 0x08 {
        seq![0x5cu8, 0x62u8]
    } else if b == 0x09 {
        seq![0x5cu8, 0x74u8]
    } else if b == 0x0a {
        seq![0x5cu8, 0x6eu8]
    } else if b == 0x0c {
        seq![0x5cu8, 0x66u8]
    } else if b == 0x0d {
        seq![0x5cu8, 0x72u8]
    } else if b < 0x20 {
        seq![0x5cu8, 0x75u8, 0x30u8, 0x30u8, spec_hex_digit(b / 16), spec_hex_digit(b % 16)]
    } else {
        seq![b]
    }
}

/// The JSON escape of a whole byte string.
pub open spec fn spec_escaped(s: Seq<u8>) -> Seq<u8>
    decreases s.len(),
{
    if s.len() == 0 {
        seq![]
    } else {
        spec_escaped(s.drop_last()) + spec_escape_byte(s.last())
    }
}

/// A JSON string: a quote, the escaped bytes, a quote.
pub open spec fn spec_json_string(s: Seq<u8>) -> Seq<u8> {
    seq![0x22u8] + spec_escaped(s) + seq![0x22u8]
}

proof fn lemma_escaped_step(s: Seq<u8>, i: int)
    requires
        0 <= i < s.len(),
    ensures
        spec_escaped(s.take(i + 1)) == spec_escaped(s.take(i)) + spec_escape_byte(s[i]),
{
    assert(s.take(i + 1).drop_last() =~= s.take(i));
    assert(s.take(i + 1).last() == s[i]);
}

/// Append a byte slice unchanged.
pub fn push_all(out: &mut Vec<u8>, s: &[u8])
    ensures
        final(out)@ == old(out)@ + s@,
{
    let mut i: usize = 0;
    while i < s.len()
        invariant
            i <= s@.len(),
            out@ == old(out)@ + s@.take(i as int),
        decreases s@.len() - i,
    {
        out.push(s[i]);
        proof {
            assert(s@.take(i + 1) =~= s@.take(i as int) + seq![s@[i as int]]);
        }
        i = i + 1;
    }
    proof {
        assert(s@.take(s@.len() as int) =~= s@);
    }
}

/// Append the JSON escape of a byte slice.
pub fn push_escaped(out: &mut Vec<u8>, s: &[u8])
    ensures
        final(out)@ == old(out)@ + spec_escaped(s@),
{
    let mut i: usize = 0;
    while i < s.len()
        invariant
            i <= s@.len(),
            out@ == old(out)@ + spec_escaped(s@.take(i as int)),
        decreases s@.len() - i,
    {
        let b = s[i];
        if b == 0x22 {
            out.push(0x5c);
            out.push(0x22);
        } else if b == 0x5c {
            out.push(0x5c);
            out.push(0x5c);
        } else if b == 0x08 {
            out.push(0x5c);
            out.push(0x62);
        } else if b == 0x09 {
            out.push(0x5c);
            out.push(0x74);
        } else if b == 0x0a {
            out.push(0x5c);
            out.push(0x6e);
        } else if b == 0x0c {
            out.push(0x5c);
            out.push(0x66);
        } else if b == 0x0d {
            out.push(0x5c);
            out.push(0x72);
        } else if b < 0x20 {
            out.push(0x5c);
            out.push(0x75);
            out.push(0x30);
            out.push(0x30);
            out.push(if b / 16 < 10 { 0x30 + b / 16 } else { 0x61 + (b / 16 - 10) });
            out.push(if b % 16 < 10 { 0x30 + b % 16 } else { 0x61 + (b % 16 - 10) });
        } else {
            out.push(b);
        }
        proof {
            lemma_escaped_step(s@, i as int);
            assert(out@ == old(out)@ + spec_escaped(s@.take(i + 1)));
        }
        i = i + 1;
    }
    proof {
        assert(s@.take(s@.len() as int) =~= s@);
    }
}

/// Append a JSON string made from UTF-8 text.
pub fn push_json_string(out: &mut Vec<u8>, s: &str)
    ensures
        final(out)@ == old(out)@ + spec_json_string(s.spec_bytes()),
{
    out.push(0x22);
    push_escaped(out, s.as_bytes());
    out.push(0x22);
    proof {
        assert(old(out)@ + spec_json_string(s.spec_bytes()) =~= old(out)@ + seq![0x22u8]
            + spec_escaped(s.spec_bytes()) + seq![0x22u8]);
    }
}

/// Decimal rendering of an unsigned integer, most significant digit first.
pub open spec fn spec_dec_u64(n: nat) -> Seq<u8>
    decreases n,
{
    if n < 10 {
        seq![(0x30 + n) as u8]
    } else {
        spec_dec_u64(n / 10) + seq![(0x30 + n % 10) as u8]
    }
}

/// Decimal rendering of a signed integer: a minus sign where negative.
pub open spec fn spec_dec_i64(n: int) -> Seq<u8> {
    if n >= 0 {
        spec_dec_u64(n as nat)
    } else {
        seq![0x2du8] + spec_dec_u64((-n) as nat)
    }
}

/// Append the decimal digits of an unsigned integer.
pub fn push_dec_u64(out: &mut Vec<u8>, n: u64)
    ensures
        final(out)@ == old(out)@ + spec_dec_u64(n as nat),
    decreases n,
{
    if n < 10 {
        out.push(0x30 + n as u8);
    } else {
        push_dec_u64(out, n / 10);
        out.push(0x30 + (n % 10) as u8);
    }
}

/// Append the decimal rendering of a signed integer.
pub fn push_dec_i64(out: &mut Vec<u8>, n: i64)
    ensures
        final(out)@ == old(out)@ + spec_dec_i64(n as int),
{
    if n >= 0 {
        push_dec_u64(out, n as u64);
    } else {
        out.push(0x2d);
        let mag: u64 = if n == i64::MIN {
            0x8000000000000000u64
        } else {
            (-n) as u64
        };
        push_dec_u64(out, mag);
    }
}

/// An ASCII decimal digit.
pub open spec fn is_digit(b: u8) -> bool {
    0x30 <= b <= 0x39
}

pub open spec fn all_digits(s: Seq<u8>) -> bool {
    forall|i: int| 0 <= i < s.len() ==> is_digit(#[trigger] s[i])
}

/// The value of a string of decimal digits.
pub open spec fn digits_val(s: Seq<u8>) -> nat
    recommends
        all_digits(s),
    decreases s.len(),
{
    if s.len() == 0 {
        0
    } else {
        digits_val(s.drop_last()) * 10 + (s.last() - 0x30) as nat
    }
}

/// What `i64` reads from decimal text: an optional sign, then at least one
/// digit and nothing else, with the value in range.
pub open spec fn spec_parse_i64(s: Seq<u8>) -> Option<i64> {
    let neg = s.len() > 0 && s[0] == 0x2d;
    let ds = if s.len() > 0 && (s[0] == 0x2d || s[0] == 0x2b) {
        s.drop_first()
    } else {
        s
    };
    if ds.len() == 0 || !all_digits(ds) {
        None
    } else if neg && digits_val(ds) <= 0x8000000000000000 {
        Some((-(digits_val(ds) as int)) as i64)
    } else if !neg && digits_val(ds) <= 0x7fffffffffffffff {
        Some(digits_val(ds) as i64)
    } else {
        None
    }
}

proof fn lemma_digits_val_prefix(s: Seq<u8>, k: int)
    requires
        all_digits(s),
        0 <= k <= s.len(),
    ensures
        digits_val(s.take(k)) <= digits_val(s),
    decreases s.len(),
{
    if k < s.len() {
        assert(s.drop_last().take(k) =~= s.take(k));
        assert(all_digits(s.drop_last()));
        lemma_digits_val_prefix(s.drop_last(), k);
    } else {
        assert(s.take(k) =~= s);
    }
}

proof fn lemma_digits_step(s: Seq<u8>, i: int)
    requires
        0 <= i < s.len(),
    ensures
        digits_val(s.take(i + 1)) == digits_val(s.take(i)) * 10 + (s[i] - 0x30) as nat,
{
    assert(s.take(i + 1).drop_last() =~= s.take(i));
    assert(s.take(i + 1).last() == s[i]);
}

proof fn lemma_dec_u64_digits(n: nat)
    ensures
        all_digits(spec_dec_u64(n)),
        digits_val(spec_dec_u64(n)) == n,
        spec_dec_u64(n).len() >= 1,
        is_digit(spec_dec_u64(n)[0]),
    decreases n,
{
    if n < 10 {
        let s = spec_dec_u64(n);
        assert(s.drop_last() =~= Seq::<u8>::empty());
        assert(digits_val(s.drop_last()) == 0);
        assert(digits_val(s) == (s.last() - 0x30) as nat);
    } else {
        lemma_dec_u64_digits(n / 10);
        let whole = spec_dec_u64(n);
        assert(whole.drop_last() =~= spec_dec_u64(n / 10));
        assert(whole.last() == (0x30 + n % 10) as u8);
        assert(n as int == (n / 10) as int * 10 + (n % 10) as int) by {
            vstd::arithmetic::div_mod::lemma_fundamental_div_mod(n as int, 10);
        };
        assert((whole.last() - 0x30) as nat == n % 10);
        assert(digits_val(whole.drop_last()) == n / 10);
        assert(digits_val(whole) == digits_val(whole.drop_last()) * 10 + (whole.last()
            - 0x30) as nat);
        assert(digits_val(whole) == (n / 10) * 10 + n % 10);
        assert forall|i: int| 0 <= i < whole.len() implies is_digit(#[trigger] whole[i]) by {
            if i < whole.len() - 1 {
                assert(whole[i] == spec_dec_u64(n / 10)[i]);
            }
        }
    }
}

/// Reading back a rendered decimal yields the number itself: the decimal
/// writer and the decimal reader agree on every value.
pub proof fn lemma_dec_i64_round_trip(n: i64)
    ensures
        spec_parse_i64(spec_dec_i64(n as int)) == Some(n),
{
    if n >= 0 {
        lemma_dec_u64_digits(n as nat);
        let s = spec_dec_u64(n as nat);
        assert(s[0] != 0x2d && s[0] != 0x2b);
        assert(spec_parse_i64(s) == Some(n));
    } else {
        lemma_dec_u64_digits((-(n as int)) as nat);
        let s = spec_dec_i64(n as int);
        assert(s[0] == 0x2d);
        assert(s.drop_first() =~= spec_dec_u64((-(n as int)) as nat));
        assert(digits_val(s.drop_first()) == (-(n as int)) as nat);
        assert(spec_parse_i64(s) == Some(n));
    }
}

/// Read a signed 64-bit integer from decimal text, exactly as `i64` does:
/// an optional sign, then at least one digit and nothing else, value in range.
pub fn parse_i64(s: &str) -> (r: Option<i64>)
    ensures
        r == spec_parse_i64(s.spec_bytes()),
{
    let b = s.as_bytes();
    if b.len() == 0 {
        return None;
    }
    let first = b[0];
    let neg = first == 0x2d;
    let start: usize = if first == 0x2d || first == 0x2b {
        1
    } else {
        0
    };
    let ghost ds = if b@[0] == 0x2d || b@[0] == 0x2b {
        b@.drop_first()
    } else {
        b@
    };
    proof {
        assert(ds =~= b@.subrange(start as int, b@.len() as int));
    }
    if b.len() == start {
        return None;
    }
    let limit: u64 = if neg {
        0x8000000000000000
    } else {
        0x7fffffffffffffff
    };
    let mut acc: u64 = 0;
    let mut i: usize = start;
    while i < b.len()
        invariant
            b@ == s.spec_bytes(),
            start <= i <= b@.len(),
            start <= 1,
            b@.len() > start,
            ds == b@.subrange(start as int, b@.len() as int),
            ds == if b@[0] == 0x2d || b@[0] == 0x2b {
                b@.drop_first()
            } else {
                b@
            },
            all_digits(ds.take(i - start)),
            acc == digits_val(ds.take(i - start)),
            acc <= limit,
            limit == if neg { 0x8000000000000000u64 } else { 0x7fffffffffffffffu64 },
            neg == (b@[0] == 0x2d),
            (b@[0] == 0x2d || b@[0] == 0x2b) == (start == 1),
        decreases b@.len() - i,
    {
        let d = b[i];
        proof {
            assert(ds[i - start] == b@[i as int]);
        }
        if d < 0x30 || d > 0x39 {
            proof {
                assert(!is_digit(ds[i - start]));
                assert(!all_digits(ds));
            }
            return None;
        }
        let dv: u64 = (d - 0x30) as u64;
        let q: u64 = limit / 10;
        let rm: u64 = limit % 10;
        if acc > q || (acc == q && dv > rm) {
            proof {
                lemma_digits_step(ds, i - start);
                assert(limit as int == q as int * 10 + rm as int) by {
                    vstd::arithmetic::div_mod::lemma_fundamental_div_mod(limit as int, 10);
                };
                assert(acc as int * 10 + dv as int > limit as int);
                assert(digits_val(ds.take(i - start + 1)) > limit);
                if all_digits(ds) {
                    lemma_digits_val_prefix(ds, i - start + 1);
                    assert(digits_val(ds) > limit);
                }
            }
            return None;
        }
        proof {
            lemma_digits_step(ds, i - start);
            assert(ds.take(i - start + 1) =~= ds.take(i - start) + seq![ds[i - start]]);
        }
        acc = acc * 10 + dv;
        i = i + 1;
    }
    proof {
        assert(ds.take(b@.len() - start) =~= ds);
    }
    if neg {
        if acc == 0x8000000000000000 {
            Some(i64::MIN)
        } else {
            Some(-(acc as i64))
        }
    } else {
        Some(acc as i64)
    }
}

} // verus!
