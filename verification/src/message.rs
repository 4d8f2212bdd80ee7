//! Messages as ordered segment lists, and the helpers handlers use on them.

use vstd::prelude::*;
use vstd::string::StringExecFns;
use vstd::utf8::{encode_utf8, is_ascii_chars};

use crate::json::{spec_dec_i64, spec_dec_u64, spec_parse_i64};
use crate::segments::{Segment, TextSegment};

verus! {

/// A message is an ordered list of segments.
pub type Message = Vec<Segment>;

/// The concatenated text of every plain-text segment, in order.
pub open spec fn plain_text_of(m: Seq<Segment>) -> Seq<char>
    decreases m.len(),
{
    if m.len() == 0 {
        seq![]
    } else {
        plain_text_of(m.drop_last()) + (match m.last() {
            Segment::Text(t) => t.text@,
            _ => seq![],
        })
    }
}

proof fn lemma_plain_text_step(m: Seq<Segment>, i: int)
    requires
        0 <= i < m.len(),
    ensures
        plain_text_of(m.take(i + 1)) == plain_text_of(m.take(i)) + (match m[i] {
            Segment::Text(t) => t.text@,
            _ => seq![],
        }),
{
    assert(m.take(i + 1).drop_last() =~= m.take(i));
    assert(m.take(i + 1).last() == m[i]);
}

/// Extra reading on whole messages.
pub trait MessageExt {
    spec fn spec_plain_text(&self) -> Seq<char>;

    /// All plain text of the message, joined in order.
    fn extract_plain_text(&self) -> (r: String)
        ensures
            r@ == self.spec_plain_text(),
    ;
}

impl MessageExt for Vec<Segment> {
    open spec fn spec_plain_text(&self) -> Seq<char> {
        plain_text_of(self@)
    }

    fn extract_plain_text(&self) -> (r: String)
        ensures
            r@ == self.spec_plain_text(),
    {
        let mut out = String::new();
        let mut i: usize = 0;
        while i < self.len()
            invariant
                i <= self@.len(),
                out@ == plain_text_of(self@.take(i as int)),
            decreases self@.len() - i,
        {
            match &self[i] {
                Segment::Text(t) => {
                    out.append(t.text.as_str());
                },
                _ => {},
            }
            proof {
                lemma_plain_text_step(self@, i as int);
            }
            i = i + 1;
        }
        proof {
            assert(self@.take(self@.len() as int) =~= self@);
        }
        out
    }
}

/// A single-segment message holding exactly the given text.
pub open spec fn is_single_text(m: Seq<Segment>, s: Seq<char>) -> bool {
    &&& m.len() == 1
    &&& m[0] matches Segment::Text(t) && t.text@ == s
}

/// Conversion into a message; string-like values become one text segment.
pub trait IntoMessage: Sized {
    /// The text this value carries.
    spec fn spec_text(self) -> Seq<char>;

    fn into_message(self) -> (r: Vec<Segment>)
        ensures
            is_single_text(r@, self.spec_text()),
    ;
}

impl IntoMessage for String {
    open spec fn spec_text(self) -> Seq<char> {
        self@
    }

    fn into_message(self) -> (r: Vec<Segment>)
        ensures
            is_single_text(r@, self.spec_text()),
    {
        let mut r: Vec<Segment> = Vec::new();
        r.push(Segment::Text(TextSegment { text: self }));
        r
    }
}

impl<'a> IntoMessage for &'a str {
    open spec fn spec_text(self) -> Seq<char> {
        self@
    }

    fn into_message(self) -> (r: Vec<Segment>)
        ensures
            is_single_text(r@, self.spec_text()),
    {
        let mut r: Vec<Segment> = Vec::new();
        r.push(Segment::Text(TextSegment { text: self.to_owned() }));
        r
    }
}

/// One decimal digit as a character.
pub open spec fn spec_digit_char(d: nat) -> char {
    if d == 0 {
        '0'
    } else if d == 1 {
        '1'
    } else if d == 2 {
        '2'
    } else if d == 3 {
        '3'
    } else if d == 4 {
        '4'
    } else if d == 5 {
        '5'
    } else if d == 6 {
        '6'
    } else if d == 7 {
        '7'
    } else if d == 8 {
        '8'
    } else {
        '9'
    }
}

/// Decimal rendering of an unsigned integer, as characters.
pub open spec fn spec_dec_chars_u64(n: nat) -> Seq<char>
    decreases n,
{
    if n < 10 {
        seq![spec_digit_char(n)]
    } else {
        spec_dec_chars_u64(n / 10) + seq![spec_digit_char(n % 10)]
    }
}

/// Decimal rendering of a signed integer, as characters.
pub open spec fn spec_dec_chars_i64(n: int) -> Seq<char> {
    if n >= 0 {
        spec_dec_chars_u64(n as nat)
    } else {
        seq!['-'] + spec_dec_chars_u64((-n) as nat)
    }
}

fn append_digit(out: &mut String, d: u64)
    requires
        d < 10,
    ensures
        final(out)@ == old(out)@ + seq![spec_digit_char(d as nat)],
{
    proof {
        reveal_strlit("0");
        reveal_strlit("1");
        reveal_strlit("2");
        reveal_strlit("3");
        reveal_strlit("4");
        reveal_strlit("5");
        reveal_strlit("6");
        reveal_strlit("7");
        reveal_strlit("8");
        reveal_strlit("9");
    }
    if d == 0 {
        out.append("0");
    } else if d == 1 {
        out.append("1");
    } else if d == 2 {
        out.append("2");
    } else if d == 3 {
        out.append("3");
    } else if d == 4 {
        out.append("4");
    } else if d == 5 {
        out.append("5");
    } else if d == 6 {
        out.append("6");
    } else if d == 7 {
        out.append("7");
    } else if d == 8 {
        out.append("8");
    } else {
        out.append("9");
    }
}

fn append_dec_u64(out: &mut String, n: u64)
    ensures
        final(out)@ == old(out)@ + spec_dec_chars_u64(n as nat),
    decreases n,
{
    if n < 10 {
        append_digit(out, n);
    } else {
        append_dec_u64(out, n / 10);
        append_digit(out, n % 10);
    }
}

proof fn lemma_dec_chars_match_bytes(n: nat)
    ensures
        spec_dec_chars_u64(n).len() == spec_dec_u64(n as nat).len(),
        is_ascii_chars(spec_dec_chars_u64(n)),
        forall|i: int|
            0 <= i < spec_dec_chars_u64(n).len() ==> (#[trigger] spec_dec_chars_u64(n)[i]) as u8
                == spec_dec_u64(n)[i],
    decreases n,
{
    if n < 10 {
        assert(spec_digit_char(n) as u8 == (0x30 + n) as u8);
        assert('\0' <= spec_digit_char(n) <= '\u{7f}');
        assert(is_ascii_chars(spec_dec_chars_u64(n)));
    } else {
        lemma_dec_chars_match_bytes(n / 10);
        let cs = spec_dec_chars_u64(n);
        let bs = spec_dec_u64(n);
        assert(cs == spec_dec_chars_u64(n / 10) + seq![spec_digit_char(n % 10)]);
        assert(bs == spec_dec_u64(n / 10) + seq![(0x30 + n % 10) as u8]);
        assert(spec_digit_char(n % 10) as u8 == (0x30 + n % 10) as u8);
        assert('\0' <= spec_digit_char(n % 10) <= '\u{7f}');
        assert forall|i: int| 0 <= i < cs.len() implies '\0' <= #[trigger] cs[i] <= '\u{7f}' by {
            if i < cs.len() - 1 {
                assert(cs[i] == spec_dec_chars_u64(n / 10)[i]);
            }
        }
        assert forall|i: int| 0 <= i < cs.len() implies (#[trigger] cs[i]) as u8 == bs[i] by {
            if i < cs.len() - 1 {
                assert(cs[i] == spec_dec_chars_u64(n / 10)[i]);
                assert(bs[i] == spec_dec_u64(n / 10)[i]);
            }
        }
    }
}

/// The identifier a reply segment carries reads back as the number it was
/// made from: the decimal text of [`Message::reply`]'s target, taken as
/// UTF-8, parses to the original message identifier.
pub proof fn lemma_reply_id_round_trip(id: i64)
    ensures
        spec_parse_i64(encode_utf8(spec_dec_chars_i64(id as int))) == Some(id),
{
    broadcast use vstd::utf8::is_ascii_chars_encode_utf8;

    crate::json::lemma_dec_i64_round_trip(id);
    if id >= 0 {
        lemma_dec_chars_match_bytes(id as nat);
        let cs = spec_dec_chars_u64(id as nat);
        assert(is_ascii_chars(cs));
        assert(encode_utf8(cs) =~= spec_dec_u64(id as nat));
    } else {
        let m = (-(id as int)) as nat;
        lemma_dec_chars_match_bytes(m);
        let cs = spec_dec_chars_i64(id as int);
        assert(cs == seq!['-'] + spec_dec_chars_u64(m));
        assert forall|i: int| 0 <= i < cs.len() implies '\0' <= #[trigger] cs[i] <= '\u{7f}' by {
            if i > 0 {
                assert(cs[i] == spec_dec_chars_u64(m)[i - 1]);
            }
        }
        assert(is_ascii_chars(cs));
        assert(encode_utf8(cs) =~= spec_dec_i64(id as int)) by {
            assert(cs[0] as u8 == 0x2du8);
            assert(forall|i: int|
                0 < i < cs.len() ==> (#[trigger] cs[i]) as u8 == spec_dec_chars_u64(m)[i - 1] as u8);
        };
    }
}

/// The decimal text of a signed integer.
pub fn i64_to_string(n: i64) -> (r: String)
    ensures
        r@ == spec_dec_chars_i64(n as int),
{
    let mut out = String::new();
    if n >= 0 {
        append_dec_u64(&mut out, n as u64);
    } else {
        proof {
            reveal_strlit("-");
        }
        out.append("-");
        let mag: u64 = if n == i64::MIN {
            0x8000000000000000u64
        } else {
            (-n) as u64
        };
        append_dec_u64(&mut out, mag);
    }
    out
}

} // verus!
