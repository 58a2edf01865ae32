//! JSON text pieces shared by every outbound message, and line framing.

use vstd::prelude::*;

verus! {

/// The character of a decimal digit.
pub open spec fn digit_char(d: nat) -> char {
    if d == 0 {
        '0'
    } else if d == 1 {
        '1'
    } else if d == 2 {
        '2'
    } else if d == 3 {
        '3'
    } else if d == 4 {
        '4'
    } else if d == 5 {
        '5'
    } else if d == 6 {
        '6'
    } else if d == 7 {
        '7'
    } else if d == 8 {
        '8'
    } else {
        '9'
    }
}

/// The shortest decimal notation of a natural number.
pub open spec fn decimal_text(n: nat) -> Seq<char>
    decreases n,
{
    if n < 10 {
        seq![digit_char(n)]
    } else {
        decimal_text(n / 10).push(digit_char(n % 10))
    }
}

/// The decimal notation of an integer, with a leading minus when negative.
pub open spec fn signed_text(v: int) -> Seq<char> {
    if v < 0 {
        seq!['-'] + decimal_text((-v) as nat)
    } else {
        decimal_text(v as nat)
    }
}

/// What serde_json writes for a string value: the quoted, escaped literal.
pub uninterp spec fn json_string(s: Seq<char>) -> Seq<char>;

/// True when no character of `s` ends a line.
pub open spec fn single_line(s: Seq<char>) -> bool {
    forall|i: int| 0 <= i < s.len() ==> s[i] != '\n'
}

/// Joining two single-line texts gives a single-line text.
pub broadcast proof fn lemma_single_line_concat(a: Seq<char>, b: Seq<char>)
    requires
        single_line(a),
        single_line(b),
    ensures
        #[trigger] single_line(a + b),
{
    assert forall|i: int| 0 <= i < (a + b).len() implies (a + b)[i] != '\n' by {
        if i >= a.len() {
            assert((a + b)[i] == b[i - a.len()]);
        }
    }
}

/// Decimal notation never ends a line.
pub proof fn lemma_decimal_single_line(n: nat)
    ensures
        single_line(decimal_text(n)),
    decreases n,
{
    if n >= 10 {
        lemma_decimal_single_line(n / 10);
        assert(decimal_text(n) =~= decimal_text(n / 10) + seq![digit_char(n % 10)]);
        lemma_single_line_concat(decimal_text(n / 10), seq![digit_char(n % 10)]);
    }
}

fn digit(d: usize) -> (r: &'static str)
    requires
        d < 10,
    ensures
        r@ == seq![digit_char(d as nat)],
{
    proof {
        reveal_strlit("0");
        reveal_strlit("1");
        reveal_strlit("2");
        reveal_strlit("3");
        reveal_strlit("4");
        reveal_strlit("5");
        reveal_strlit("6");
        reveal_strlit("7");
        reveal_strlit("8");
        reveal_strlit("9");
    }
    let r = match d {
        0 => "0",
        1 => "1",
        2 => "2",
        3 => "3",
        4 => "4",
        5 => "5",
        6 => "6",
        7 => "7",
        8 => "8",
        _ => "9",
    };
    assert(r@ =~= seq![digit_char(d as nat)]);
    r
}

/// Decimal notation of an unsigned count, as JSON writes a number.
pub fn decimal(n: usize) -> (r: String)
    ensures
        r@ == decimal_text(n as nat),
        single_line(r@),
    decreases n,
{
    proof {
        lemma_decimal_single_line(n as nat);
    }
    if n < 10 {
        String::from_str(digit(n))
    } else {
        let mut s = decimal(n / 10);
        s.append(digit(n % 10));
        s
    }
}

/// Decimal notation of a signed code, as JSON writes a number.
pub fn decimal_signed(v: i32) -> (r: String)
    ensures
        r@ == signed_text(v as int),
        single_line(r@),
{
    if v < 0 {
        let m: u32 = (0i64 - v as i64) as u32;
        let digits = decimal(m as usize);
        proof {
            reveal_strlit("-");
        }
        let r = String::from_str("-").concat(digits.as_str());
        proof {
            lemma_single_line_concat("-"@, digits@);
        }
        r
    } else {
        decimal(v as usize)
    }
}

/// Relies on serde_json::to_string for a `str`: the value as a JSON string
/// literal, between double quotes, with every control character escaped.
#[verifier::external_body]
pub(crate) fn quote(s: &str) -> (r: String)
    ensures
        r@ == json_string(s@),
        r@.len() >= 2,
        r@[0] == '"',
        r@.last() == '"',
        single_line(r@),
{
    serde_json::to_string(s).unwrap_or_default()
}

/// One output record: the message followed by a line terminator.
pub fn frame_record(msg: &str) -> (r: String)
    ensures
        r@ == msg@.push('\n'),
{
    proof {
        reveal_strlit("\n");
    }
    let r = String::from_str(msg).concat("\n");
    assert(r@ =~= msg@.push('\n'));
    r
}

/// The output stream after a run of records has been written in order, each
/// followed by its line terminator.
pub open spec fn output_stream(msgs: Seq<Seq<char>>) -> Seq<char>
    decreases msgs.len(),
{
    if msgs.len() == 0 {
        Seq::empty()
    } else {
        output_stream(msgs.drop_last()) + msgs.last().push('\n')
    }
}

/// Where the `i`-th record starts in the output stream.
pub open spec fn record_start(msgs: Seq<Seq<char>>, i: int) -> int {
    output_stream(msgs.take(i)).len() as int
}

/// The `i`-th record appears intact at its place in the output stream,
/// followed by its terminator, and the next record starts right after.
pub open spec fn record_intact(msgs: Seq<Seq<char>>, i: int) -> bool {
    let s = output_stream(msgs);
    let b = record_start(msgs, i);
    let e = b + msgs[i].len();
    0 <= b && e < s.len() && s.subrange(b, e) == msgs[i] && s[e] == '\n' && record_start(msgs, i + 1)
        == e + 1
}

/// Written whole and in order, single-line records stay whole: each appears
/// intact at its place in the output, followed by its terminator, with no
/// other record's characters in between.
pub proof fn lemma_records_stay_whole(msgs: Seq<Seq<char>>)
    requires
        forall|i: int| 0 <= i < msgs.len() ==> single_line(#[trigger] msgs[i]),
    ensures
        forall|i: int| 0 <= i < msgs.len() ==> #[trigger] record_intact(msgs, i),
    decreases msgs.len(),
{
    if msgs.len() > 0 {
        let pre = msgs.drop_last();
        let n = msgs.len() - 1;
        lemma_records_stay_whole(pre);
        let s = output_stream(msgs);
        let sp = output_stream(pre);
        assert(msgs.take(n) =~= pre);
        assert(msgs.take(n + 1) =~= msgs);
        assert forall|i: int| 0 <= i < msgs.len() implies #[trigger] record_intact(msgs, i) by {
            if i < n {
                assert(msgs.take(i) =~= pre.take(i));
                assert(msgs.take(i + 1) =~= pre.take(i + 1));
                assert(msgs[i] == pre[i]);
                assert(record_intact(pre, i));
                assert(s.subrange(record_start(msgs, i), record_start(msgs, i) + msgs[i].len())
                    =~= sp.subrange(record_start(pre, i), record_start(pre, i) + pre[i].len()));
            } else {
                assert(msgs.take(i + 1).drop_last() =~= msgs.take(i));
                assert(s.subrange(record_start(msgs, i), record_start(msgs, i) + msgs[i].len())
                    =~= msgs[i]);
            }
        }
    }
}

} // verus!
