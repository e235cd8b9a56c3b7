use vstd::prelude::*;
use vstd::string::StringSliceAdditionalSpecFns;
use vstd::utf8::{decode_utf8, encode_utf8, is_char_boundary};
use crate::level::{Level, level_name};

verus! {

/// Most bytes a source tag keeps, in UTF-8.
pub const TAG_CAP: usize = 32;

/// Most bytes a message keeps, in UTF-8.
pub const MESSAGE_CAP: usize = 64;

/// Ticks of the monotonic counter in one millisecond.
pub const TICKS_PER_MS: u64 = 1000;

/// The ellipsis that marks a shortened tag.
pub open spec fn ellipsis() -> Seq<char> {
    seq!['.', '.', '.']
}

/// Length in bytes of the UTF-8 encoding of `s`.
pub open spec fn utf8_len(s: Seq<char>) -> nat {
    encode_utf8(s).len()
}

/// The largest character boundary of `b` that is at most `n`.
pub open spec fn boundary_at_most(b: Seq<u8>, n: nat) -> nat
    decreases n,
{
    if n == 0 {
        0
    } else if is_char_boundary(b, n as int) {
        n
    } else {
        boundary_at_most(b, (n - 1) as nat)
    }
}

/// The longest prefix of `s` that ends on a character boundary and whose
/// UTF-8 encoding takes at most `n` bytes.
pub open spec fn utf8_prefix(s: Seq<char>, n: nat) -> Seq<char> {
    decode_utf8(encode_utf8(s).take(boundary_at_most(encode_utf8(s), n) as int))
}

/// A tag as stored in a record: unchanged when it fits the cap, otherwise
/// its longest prefix of at most `TAG_CAP - 4` bytes followed by the
/// ellipsis.
pub open spec fn tag_field(t: Seq<char>) -> Seq<char> {
    if utf8_len(t) <= TAG_CAP {
        t
    } else {
        utf8_prefix(t, (TAG_CAP - 4) as nat) + ellipsis()
    }
}

/// A message as stored in a record: its longest prefix of at most
/// `MESSAGE_CAP` bytes, with no marker.
pub open spec fn message_field(m: Seq<char>) -> Seq<char> {
    if utf8_len(m) <= MESSAGE_CAP {
        m
    } else {
        utf8_prefix(m, MESSAGE_CAP as nat)
    }
}

/// UTF-8 encoding distributes over concatenation.
proof fn lemma_encode_utf8_concat(a: Seq<char>, b: Seq<char>)
    ensures
        encode_utf8(a + b) == encode_utf8(a) + encode_utf8(b),
    decreases a.len(),
{
    if a.len() == 0 {
        assert(a + b =~= b);
        assert(encode_utf8(a) + encode_utf8(b) =~= encode_utf8(b));
    } else {
        assert((a + b).drop_first() =~= a.drop_first() + b);
        lemma_encode_utf8_concat(a.drop_first(), b);
        assert(encode_utf8(a + b) =~= encode_utf8(a) + encode_utf8(b));
    }
}

/// The ellipsis takes three bytes.
proof fn lemma_ellipsis_len()
    ensures
        utf8_len(ellipsis()) == 3,
{
    reveal_with_fuel(encode_utf8, 4);
    assert(ellipsis().drop_first() =~= seq!['.', '.']);
    assert(ellipsis().drop_first().drop_first() =~= seq!['.']);
    assert(ellipsis().drop_first().drop_first().drop_first() =~= Seq::<char>::empty());
}

/// The longest prefix of `s` ending on a character boundary within `n`
/// bytes, for a string longer than `n` bytes.
fn utf8_head(s: &str, n: usize) -> (r: &str)
    requires
        n < utf8_len(s@),
    ensures
        r@ == utf8_prefix(s@, n as nat),
        utf8_len(r@) <= n,
{
    let ghost b = encode_utf8(s@);
    proof {
        vstd::utf8::encode_utf8_valid_utf8(s@);
        vstd::utf8::is_char_boundary_start_end_of_seq(b);
    }
    let mut i: usize = n;
    while !s.is_char_boundary(i)
        invariant
            i <= n,
            n < b.len(),
            b == s.spec_bytes(),
            is_char_boundary(b, 0),
            boundary_at_most(b, n as nat) == boundary_at_most(b, i as nat),
        decreases i,
    {
        i = i - 1;
    }
    let (head, _) = s.split_at(i);
    proof {
        vstd::utf8::encode_utf8_decode_utf8(head@);
        assert(boundary_at_most(b, i as nat) == i);
        assert(encode_utf8(head@) =~= b.take(i as int));
    }
    head
}

/// The character of a decimal digit.
pub open spec fn digit_char(d: nat) -> char {
    if d == 0 {
        '0'
    } else if d == 1 {
        '1'
    } else if d == 2 {
        '2'
    } else if d == 3 {
        '3'
    } else if d == 4 {
        '4'
    } else if d == 5 {
        '5'
    } else if d == 6 {
        '6'
    } else if d == 7 {
        '7'
    } else if d == 8 {
        '8'
    } else {
        '9'
    }
}

/// Decimal notation of a natural number, without leading zeros.
pub open spec fn decimal(n: nat) -> Seq<char>
    decreases n,
{
    if n < 10 {
        seq![digit_char(n)]
    } else {
        decimal(n / 10).push(digit_char(n % 10))
    }
}

/// One formatted log entry, immutable once built.
#[derive(Debug, Clone)]
pub struct LogRecord {
    pub time_ms: u64,
    pub level: Level,
    pub target: String,
    pub message: String,
}

/// The record that a log call produces from its raw inputs.
pub open spec fn record_matches(
    r: LogRecord,
    level: Level,
    tag: Seq<char>,
    message: Seq<char>,
    now_ticks: u64,
) -> bool {
    &&& r.time_ms == now_ticks / TICKS_PER_MS
    &&& r.level == level
    &&& r.target@ == tag_field(tag)
    &&& r.message@ == message_field(message)
}

/// A record whose tag and message keep within their byte caps.
pub open spec fn record_bounded(r: LogRecord) -> bool {
    utf8_len(r.target@) <= TAG_CAP && utf8_len(r.message@) <= MESSAGE_CAP
}

/// The line written for a record: `[<ms>] [<LEVEL>/<tag>] <message>\r\n`.
pub open spec fn line_of(r: LogRecord) -> Seq<char> {
    seq!['['] + decimal(r.time_ms as nat) + seq![']', ' ', '['] + level_name(r.level) + seq!['/']
        + r.target@ + seq![']', ' '] + r.message@ + seq!['\r', '\n']
}

/// Shortens a source tag to fit the tag cap, marking the cut with an ellipsis.
pub fn truncate_tag(tag: &str) -> (r: String)
    ensures
        r@ == tag_field(tag@),
        utf8_len(r@) <= TAG_CAP,
{
    let n = tag.as_bytes().len();
    assert(n == utf8_len(tag@));
    if n <= TAG_CAP {
        String::from_str(tag)
    } else {
        let mut r = String::from_str(utf8_head(tag, TAG_CAP - 4));
        proof {
            reveal_strlit("...");
            assert("..."@ =~= ellipsis());
        }
        let ghost head = r@;
        r.append("...");
        proof {
            lemma_encode_utf8_concat(head, ellipsis());
            lemma_ellipsis_len();
        }
        r
    }
}

/// Cuts a message at the message cap, on a character boundary, with no marker.
pub fn truncate_message(message: &str) -> (r: String)
    ensures
        r@ == message_field(message@),
        utf8_len(r@) <= MESSAGE_CAP,
{
    let n = message.as_bytes().len();
    assert(n == utf8_len(message@));
    if n <= MESSAGE_CAP {
        String::from_str(message)
    } else {
        String::from_str(utf8_head(message, MESSAGE_CAP))
    }
}

/// The one-character string of a decimal digit.
fn digit_str(d: u64) -> (r: &'static str)
    requires
        d < 10,
    ensures
        r@ == seq![digit_char(d as nat)],
{
    proof {
        reveal_strlit("0");
        reveal_strlit("1");
        reveal_strlit("2");
        reveal_strlit("3");
        reveal_strlit("4");
        reveal_strlit("5");
        reveal_strlit("6");
        reveal_strlit("7");
        reveal_strlit("8");
        reveal_strlit("9");
    }
    if d == 0 {
        "0"
    } else if d == 1 {
        "1"
    } else if d == 2 {
        "2"
    } else if d == 3 {
        "3"
    } else if d == 4 {
        "4"
    } else if d == 5 {
        "5"
    } else if d == 6 {
        "6"
    } else if d == 7 {
        "7"
    } else if d == 8 {
        "8"
    } else {
        "9"
    }
}

/// Appends the decimal notation of `n` to `out`.
pub fn push_decimal(out: &mut String, n: u64)
    ensures
        final(out)@ == old(out)@ + decimal(n as nat),
    decreases n,
{
    if n >= 10 {
        push_decimal(out, n / 10);
    }
    out.append(digit_str(n % 10));
}

/// Builds the record for a log call: the message and tag are cut to their
/// caps and the tick count becomes whole milliseconds.
pub fn make_record(level: Level, tag: &str, message: &str, now_ticks: u64) -> (r: LogRecord)
    ensures
        record_matches(r, level, tag@, message@, now_ticks),
        record_bounded(r),
{
    LogRecord {
        time_ms: now_ticks / TICKS_PER_MS,
        level,
        target: truncate_tag(tag),
        message: truncate_message(message),
    }
}

/// Formats a record as one line of the log stream, terminator included.
pub fn format_line(r: &LogRecord) -> (line: String)
    ensures
        line@ == line_of(*r),
{
    proof {
        reveal_strlit("[");
        reveal_strlit("] [");
        reveal_strlit("/");
        reveal_strlit("] ");
        reveal_strlit("\r\n");
    }
    let mut line = String::from_str("[");
    push_decimal(&mut line, r.time_ms);
    line.append("] [");
    line.append(r.level.as_str());
    line.append("/");
    line.append(r.target.as_str());
    line.append("] ");
    line.append(r.message.as_str());
    line.append("\r\n");
    assert(line@ =~= line_of(*r));
    line
}

} // verus!
