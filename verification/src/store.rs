//! The resume-timestamp store: a decimal ASCII integer of milliseconds
//! since the UNIX epoch, written by the scheduler on resume and read by
//! the runner.  The file itself is handled outside the library; this
//! module encodes and decodes the record, and keeps the scheduler's
//! in-memory copy.

use vstd::prelude::*;
use vstd::arithmetic::div_mod::{lemma_div_decreases, lemma_fundamental_div_mod};
use crate::time::RealtimeInstant;

verus! {

/// An ASCII decimal digit.
pub open spec fn is_digit(b: u8) -> bool {
    0x30 <= b <= 0x39
}

/// The number a sequence of digit bytes spells (most significant first).
pub open spec fn digits_value(s: Seq<u8>) -> int
    decreases s.len(),
{
    if s.len() == 0 {
        0
    } else {
        digits_value(s.drop_last()) * 10 + (s.last() - 0x30)
    }
}

/// Every byte is a decimal digit.
pub open spec fn all_digits(s: Seq<u8>) -> bool {
    forall|i: int| 0 <= i < s.len() ==> is_digit(#[trigger] s[i])
}

/// The canonical decimal spelling of a nonnegative number.
pub open spec fn spec_decimal_nat(n: nat) -> Seq<u8>
    decreases n,
{
    if n < 10 {
        seq![(0x30 + n) as u8]
    } else {
        spec_decimal_nat(n / 10) + seq![(0x30 + n % 10) as u8]
    }
}

/// The canonical decimal spelling of an integer: a minus sign for
/// negative values, then the magnitude's digits.
pub open spec fn spec_decimal_int(v: int) -> Seq<u8> {
    if v < 0 {
        seq![0x2du8] + spec_decimal_nat((-v) as nat)
    } else {
        spec_decimal_nat(v as nat)
    }
}

/// The digit part of a record: everything after an optional sign byte.
pub open spec fn record_digits(s: Seq<u8>) -> Seq<u8> {
    if s.len() > 0 && (s[0] == 0x2b || s[0] == 0x2d) {
        s.drop_first()
    } else {
        s
    }
}

/// Whether the record carries a minus sign.
pub open spec fn record_negative(s: Seq<u8>) -> bool {
    s.len() > 0 && s[0] == 0x2d
}

/// A well-formed record: an optional sign followed by at least one
/// digit, and nothing else.
pub open spec fn record_wf(s: Seq<u8>) -> bool {
    record_digits(s).len() > 0 && all_digits(record_digits(s))
}

/// The integer a well-formed record spells.
pub open spec fn record_value(s: Seq<u8>) -> int {
    if record_negative(s) {
        -digits_value(record_digits(s))
    } else {
        digits_value(record_digits(s))
    }
}

/// Why a record failed to parse.
#[derive(Debug, Clone, Copy, PartialEq, Eq, Structural)]
pub enum RecordError {
    /// No digits at all (empty record, or a bare sign).
    Empty,
    /// A byte that is not a decimal digit where one was expected.
    InvalidDigit,
    /// Well-formed digits spelling a value outside the 64-bit range.
    OutOfRange,
}

/// Appends the canonical decimal digits of `n`.
fn push_decimal_u64(n: u64, out: &mut Vec<u8>)
    ensures
        final(out)@ == old(out)@ + spec_decimal_nat(n as nat),
    decreases n,
{
    if n < 10 {
        out.push(0x30 + n as u8);
        assert(final(out)@ =~= old(out)@ + spec_decimal_nat(n as nat));
    } else {
        proof {
            lemma_div_decreases(n as int, 10);
        }
        push_decimal_u64(n / 10, out);
        out.push(0x30 + (n % 10) as u8);
        assert(final(out)@ =~= old(out)@ + spec_decimal_nat(n as nat));
    }
}

/// The decimal ASCII spelling of a millisecond timestamp, exactly the
/// canonical form `spec_decimal_int` describes.
pub fn encode_resume_record(millis: i64) -> (r: Vec<u8>)
    ensures
        r@ == spec_decimal_int(millis as int),
{
    let mut out: Vec<u8> = Vec::new();
    if millis < 0 {
        out.push(0x2d);
        let magnitude: u64 = (-(millis as i128)) as u64;
        push_decimal_u64(magnitude, &mut out);
        assert(out@ =~= spec_decimal_int(millis as int));
    } else {
        push_decimal_u64(millis as u64, &mut out);
        assert(out@ =~= spec_decimal_int(millis as int));
    }
    out
}

/// A number already past a bound stays past it when another digit is
/// appended.
proof fn lemma_digits_value_grows(s: Seq<u8>, bound: int)
    requires
        s.len() > 0,
        all_digits(s),
        digits_value(s.drop_last()) > bound,
        bound >= 0,
    ensures
        digits_value(s) > bound,
{
    lemma_digits_value_nonneg(s.drop_last());
}

/// Digit sequences spell nonnegative numbers.
proof fn lemma_digits_value_nonneg(s: Seq<u8>)
    requires
        all_digits(s),
    ensures
        digits_value(s) >= 0,
    decreases s.len(),
{
    if s.len() > 0 {
        assert(all_digits(s.drop_last())) by {
            assert(forall|i: int|
                0 <= i < s.len() - 1 ==> #[trigger] s.drop_last()[i] == s[i]);
        }
        lemma_digits_value_nonneg(s.drop_last());
    }
}

/// Parses a decimal ASCII record: an optional sign, then digits, nothing
/// else, spelling a value the 64-bit range can hold.  The errors
/// partition the failures: no digits at all, a stray byte, or a value out
/// of range.
pub fn parse_resume_record(bytes: &Vec<u8>) -> (r: Result<i64, RecordError>)
    ensures
        r matches Ok(v) ==> record_wf(bytes@) && record_value(bytes@) == v,
        r is Ok <==> record_wf(bytes@) && i64::MIN <= record_value(bytes@) <= i64::MAX,
        r matches Err(e) ==> (e is Empty <==> record_digits(bytes@).len() == 0),
        r matches Err(e) ==> (e is InvalidDigit <==> record_digits(bytes@).len() > 0
            && !all_digits(record_digits(bytes@))),
        r matches Err(e) ==> (e is OutOfRange <==> record_wf(bytes@) && !(i64::MIN
            <= record_value(bytes@) <= i64::MAX)),
{
    let n: usize = bytes.len();
    let mut start: usize = 0;
    let mut negative: bool = false;
    if n > 0 && (bytes[0] == 0x2b || bytes[0] == 0x2d) {
        start = 1;
        negative = bytes[0] == 0x2d;
    }
    proof {
        assert(record_digits(bytes@) =~= bytes@.subrange(start as int, n as int));
    }
    if start == n {
        return Err(RecordError::Empty);
    }
    // The magnitude may not pass 2^63 for a negative value, 2^63 - 1
    // otherwise.
    let limit: u64 = if negative {
        9223372036854775808
    } else {
        9223372036854775807
    };
    let mut magnitude: u64 = 0;
    let mut over: bool = false;
    let mut i: usize = start;
    while i < n
        invariant
            start <= i <= n,
            n == bytes@.len(),
            start <= 1,
            limit == if negative {
                9223372036854775808u64
            } else {
                9223372036854775807u64
            },
            record_digits(bytes@) == bytes@.subrange(start as int, n as int),
            all_digits(bytes@.subrange(start as int, i as int)),
            !over ==> magnitude == digits_value(bytes@.subrange(start as int, i as int))
                && magnitude <= limit,
            over ==> digits_value(bytes@.subrange(start as int, i as int)) > limit,
        decreases n - i,
    {
        let b = bytes[i];
        if b < 0x30 || b > 0x39 {
            proof {
                assert(record_digits(bytes@)[i as int - start as int] == bytes@[i as int]);
            }
            return Err(RecordError::InvalidDigit);
        }
        proof {
            assert(bytes@.subrange(start as int, i as int + 1).drop_last() =~= bytes@.subrange(
                start as int,
                i as int,
            ));
            assert(bytes@.subrange(start as int, i as int + 1).last() == bytes@[i as int]);
            if over {
                lemma_digits_value_grows(
                    bytes@.subrange(start as int, i as int + 1),
                    limit as int,
                );
            }
        }
        if !over {
            let digit: u64 = (b - 0x30) as u64;
            if magnitude > (limit - digit) / 10 {
                over = true;
                proof {
                    lemma_fundamental_div_mod(limit as int - digit, 10);
                }
            } else {
                proof {
                    lemma_fundamental_div_mod(limit as int - digit, 10);
                }
                magnitude = magnitude * 10 + digit;
            }
        }
        i = i + 1;
    }
    proof {
        assert(bytes@.subrange(start as int, n as int) =~= record_digits(bytes@));
    }
    if over {
        return Err(RecordError::OutOfRange);
    }
    if negative {
        Ok((-(magnitude as i128)) as i64)
    } else {
        Ok(magnitude as i64)
    }
}

/// Encoding then parsing a millisecond timestamp gives it back: the
/// record format round-trips every 64-bit value.
pub proof fn lemma_record_round_trip(v: i64)
    ensures
        record_wf(spec_decimal_int(v as int)),
        i64::MIN <= record_value(spec_decimal_int(v as int)) <= i64::MAX,
        record_value(spec_decimal_int(v as int)) == v,
{
    if v < 0 {
        let mag = (-(v as int)) as nat;
        lemma_decimal_nat_digits(mag);
        lemma_decimal_nat_value(mag);
        let s = spec_decimal_int(v as int);
        assert(s.drop_first() =~= spec_decimal_nat(mag));
        assert(record_digits(s) == spec_decimal_nat(mag));
    } else {
        lemma_decimal_nat_digits(v as nat);
        lemma_decimal_nat_value(v as nat);
        let s = spec_decimal_int(v as int);
        assert(!(s[0] == 0x2b || s[0] == 0x2d));
        assert(record_digits(s) == s);
    }
}

/// The canonical spelling is all digits, nonempty, and starts with a
/// digit.
proof fn lemma_decimal_nat_digits(n: nat)
    ensures
        spec_decimal_nat(n).len() > 0,
        all_digits(spec_decimal_nat(n)),
        is_digit(spec_decimal_nat(n)[0]),
    decreases n,
{
    if n >= 10 {
        lemma_div_decreases(n as int, 10);
        vstd::arithmetic::div_mod::lemma_div_pos_is_pos(n as int, 10);
        lemma_mod_digit_range(n);
        lemma_decimal_nat_digits(n / 10);
    }
}

/// The remainder by ten is a single digit.
proof fn lemma_mod_digit_range(n: nat)
    ensures
        0 <= n % 10 < 10,
{
    vstd::arithmetic::div_mod::lemma_mod_bound(n as int, 10);
}

/// The canonical spelling spells the number itself.
proof fn lemma_decimal_nat_value(n: nat)
    ensures
        digits_value(spec_decimal_nat(n)) == n,
    decreases n,
{
    if n < 10 {
        let s = spec_decimal_nat(n);
        assert(s.drop_last() =~= Seq::<u8>::empty());
        assert(digits_value(Seq::<u8>::empty()) == 0);
    } else {
        lemma_div_decreases(n as int, 10);
        vstd::arithmetic::div_mod::lemma_div_pos_is_pos(n as int, 10);
        lemma_decimal_nat_value(n / 10);
        lemma_mod_digit_range(n);
        let s = spec_decimal_nat(n);
        assert(s.drop_last() =~= spec_decimal_nat(n / 10));
        assert(s.last() == (0x30 + n % 10) as u8);
        lemma_fundamental_div_mod(n as int, 10);
        assert(digits_value(s) == digits_value(s.drop_last()) * 10 + (s.last() - 0x30));
        assert(digits_value(s.drop_last()) == n / 10);
        assert(s.last() - 0x30 == n % 10);
    }
}

/// The scheduler's in-memory copy of the resume timestamp, exposed to the
/// runner over the bus.
#[derive(Debug)]
pub struct Server {
    /// Milliseconds since the UNIX epoch at the most recent resume; zero
    /// before any resume was seen.
    pub resume_timestamp: i64,
}

impl Server {
    /// A server that has seen no resume yet.
    pub fn new() -> (s: Server)
        ensures
            s.resume_timestamp == 0,
    {
        Server { resume_timestamp: 0 }
    }

    /// Records the most recent resume instant.
    pub fn set_resume_timestamp(&mut self, timestamp: RealtimeInstant)
        ensures
            final(self).resume_timestamp == timestamp.usecs as int / 1000,
    {
        self.resume_timestamp = timestamp.millis_i64();
    }

    /// Records the most recent resume, as milliseconds since the epoch.
    pub fn set_resume_timestamp_raw(&mut self, timestamp: i64)
        ensures
            final(self).resume_timestamp == timestamp,
    {
        self.resume_timestamp = timestamp;
    }

    /// The stored resume timestamp, as milliseconds since the epoch.
    pub fn resume_timestamp_raw(&self) -> (r: i64)
        ensures
            r == self.resume_timestamp,
    {
        self.resume_timestamp
    }
}

} // verus!
