//! Deciding the hardware clock's time-zone mode from the contents of the
//! adjtime file.
//!
//! The file is read elsewhere; this module gets the raw bytes (or the news
//! that the file is absent) and applies the rule: the third line, trimmed,
//! must read `UTC` or `LOCAL`; an absent file means UTC, the kernel
//! default.

use vstd::prelude::*;
use crate::rtcwake::ClockMode;

verus! {

/// Why the adjtime contents did not yield a clock mode.
#[derive(Debug, Clone, Copy, PartialEq, Eq, Structural)]
pub enum AdjtimeError {
    /// The file has no third line.
    MissingModeLine,
    /// The third line is neither `UTC` nor `LOCAL` once trimmed.
    UnrecognizedMode,
}

/// ASCII whitespace, the bytes that trimming removes.
pub open spec fn is_ascii_space(b: u8) -> bool {
    b == 0x20 || 0x09 <= b <= 0x0d
}

/// The suffix of `s` after its first `k` newline bytes; everything is
/// consumed when `s` holds fewer than `k` newlines.
pub open spec fn after_newlines(s: Seq<u8>, k: nat) -> Seq<u8>
    decreases s.len(),
{
    if k == 0 {
        s
    } else if s.len() == 0 {
        s
    } else if s.first() == 10 {
        after_newlines(s.drop_first(), (k - 1) as nat)
    } else {
        after_newlines(s.drop_first(), k)
    }
}

/// The prefix of `s` up to (not including) its first newline byte.
pub open spec fn take_line(s: Seq<u8>) -> Seq<u8>
    decreases s.len(),
{
    if s.len() == 0 {
        seq![]
    } else if s.first() == 10 {
        seq![]
    } else {
        seq![s.first()] + take_line(s.drop_first())
    }
}

/// Does the content have a third line, the way reading it line by line
/// would see one?
pub open spec fn has_third_line(s: Seq<u8>) -> bool {
    after_newlines(s, 2).len() > 0
}

/// The third line of the content.
pub open spec fn third_line(s: Seq<u8>) -> Seq<u8> {
    take_line(after_newlines(s, 2))
}

/// `s` without its leading ASCII whitespace.
pub open spec fn trim_front(s: Seq<u8>) -> Seq<u8>
    decreases s.len(),
{
    if s.len() > 0 && is_ascii_space(s.first()) {
        trim_front(s.drop_first())
    } else {
        s
    }
}

/// `s` without its trailing ASCII whitespace.
pub open spec fn trim_back(s: Seq<u8>) -> Seq<u8>
    decreases s.len(),
{
    if s.len() > 0 && is_ascii_space(s.last()) {
        trim_back(s.drop_last())
    } else {
        s
    }
}

/// `s` without leading and trailing ASCII whitespace.
pub open spec fn trimmed(s: Seq<u8>) -> Seq<u8> {
    trim_back(trim_front(s))
}

/// The bytes of `UTC`.
pub open spec fn utc_bytes() -> Seq<u8> {
    seq![0x55u8, 0x54u8, 0x43u8]
}

/// The bytes of `LOCAL`.
pub open spec fn local_bytes() -> Seq<u8> {
    seq![0x4cu8, 0x4fu8, 0x43u8, 0x41u8, 0x4cu8]
}

/// The clock mode the adjtime contents denote: UTC when the file is
/// absent; otherwise the trimmed third line decides, and anything it does
/// not spell is an error.
pub open spec fn spec_clock_mode(content: Option<Seq<u8>>) -> Result<ClockMode, AdjtimeError> {
    match content {
        None => Ok(ClockMode::Utc),
        Some(s) => if !has_third_line(s) {
            Err(AdjtimeError::MissingModeLine)
        } else if trimmed(third_line(s)) == utc_bytes() {
            Ok(ClockMode::Utc)
        } else if trimmed(third_line(s)) == local_bytes() {
            Ok(ClockMode::Local)
        } else {
            Err(AdjtimeError::UnrecognizedMode)
        },
    }
}

/// The view of the optional content handed to the parser.
pub open spec fn view_of_content(content: Option<&Vec<u8>>) -> Option<Seq<u8>> {
    match content {
        None => None,
        Some(v) => Some(v@),
    }
}

/// ASCII whitespace test on a byte.
fn is_space_exec(b: u8) -> (r: bool)
    ensures
        r == is_ascii_space(b),
{
    b == 0x20 || (0x09 <= b && b <= 0x0d)
}

/// Decides the hardware clock mode from the adjtime file's bytes, or from
/// its absence (`None`), which means UTC.  Returns exactly what the
/// denotation `spec_clock_mode` assigns: `MissingModeLine` when there is
/// no third line, `UnrecognizedMode` when the trimmed third line is
/// neither `UTC` nor `LOCAL`.
pub fn clock_mode_from_adjtime(content: Option<&Vec<u8>>) -> (r: Result<ClockMode, AdjtimeError>)
    ensures
        r == spec_clock_mode(view_of_content(content)),
{
    let v = match content {
        None => {
            return Ok(ClockMode::Utc);
        },
        Some(v) => v,
    };
    let n: usize = v.len();

    // Find the start of the third line: the position after the second
    // newline.
    assert(v@.subrange(0, n as int) =~= v@);
    let mut i: usize = 0;
    let mut newlines: usize = 0;
    while i < n && newlines < 2
        invariant
            0 <= i <= n,
            n == v@.len(),
            newlines <= 2,
            after_newlines(v@, 2) == after_newlines(
                v@.subrange(i as int, n as int),
                (2 - newlines) as nat,
            ),
        decreases n - i,
    {
        proof {
            lemma_after_newlines_step(v@.subrange(i as int, n as int), (2 - newlines) as nat);
            assert(v@.subrange(i as int, n as int).drop_first() =~= v@.subrange(
                i as int + 1,
                n as int,
            ));
        }
        if v[i] == 10 {
            newlines = newlines + 1;
        }
        i = i + 1;
    }
    if newlines < 2 {
        // Fewer than two newlines: the suffix after two newlines is empty.
        assert(v@.subrange(i as int, n as int) =~= Seq::<u8>::empty());
        return Err(AdjtimeError::MissingModeLine);
    }
    let start: usize = i;
    assert(after_newlines(v@, 2) =~= v@.subrange(start as int, n as int));
    if start == n {
        return Err(AdjtimeError::MissingModeLine);
    }

    // Collect the third line: everything up to the next newline.
    let mut j: usize = start;
    while j < n && v[j] != 10
        invariant
            start <= j <= n,
            n == v@.len(),
            take_line(v@.subrange(start as int, n as int)) == v@.subrange(
                start as int,
                j as int,
            ) + take_line(v@.subrange(j as int, n as int)),
            forall|k: int| start <= k < j ==> v@[k] != 10,
        decreases n - j,
    {
        proof {
            lemma_take_line_step(v@.subrange(j as int, n as int));
            assert(v@.subrange(j as int, n as int).drop_first() =~= v@.subrange(
                j as int + 1,
                n as int,
            ));
            assert(v@.subrange(start as int, j as int) + seq![v@[j as int]] =~= v@.subrange(
                start as int,
                j as int + 1,
            ));
        }
        j = j + 1;
    }
    proof {
        if j < n {
            assert(take_line(v@.subrange(j as int, n as int)) =~= Seq::<u8>::empty());
        } else {
            assert(v@.subrange(j as int, n as int) =~= Seq::<u8>::empty());
        }
        assert(third_line(v@) =~= v@.subrange(start as int, j as int));
    }

    // Trim ASCII whitespace off both ends of the line.
    let mut lo: usize = start;
    while lo < j && is_space_exec(v[lo])
        invariant
            start <= lo <= j <= n,
            n == v@.len(),
            trim_front(v@.subrange(start as int, j as int)) == trim_front(
                v@.subrange(lo as int, j as int),
            ),
        decreases j - lo,
    {
        proof {
            assert(v@.subrange(lo as int, j as int).drop_first() =~= v@.subrange(
                lo as int + 1,
                j as int,
            ));
        }
        lo = lo + 1;
    }
    assert(trim_front(v@.subrange(start as int, j as int)) == v@.subrange(lo as int, j as int));
    let mut hi: usize = j;
    while hi > lo && is_space_exec(v[hi - 1])
        invariant
            lo <= hi <= j <= n,
            n == v@.len(),
            trim_back(v@.subrange(lo as int, j as int)) == trim_back(
                v@.subrange(lo as int, hi as int),
            ),
        decreases hi,
    {
        proof {
            assert(v@.subrange(lo as int, hi as int).drop_last() =~= v@.subrange(
                lo as int,
                hi as int - 1,
            ));
        }
        hi = hi - 1;
    }
    assert(trimmed(third_line(v@)) == v@.subrange(lo as int, hi as int));

    // Match the trimmed line against the two spellings.
    let len: usize = hi - lo;
    if len == 3 && v[lo] == 0x55 && v[lo + 1] == 0x54 && v[lo + 2] == 0x43 {
        assert(v@.subrange(lo as int, hi as int) =~= utc_bytes());
        Ok(ClockMode::Utc)
    } else if len == 5 && v[lo] == 0x4c && v[lo + 1] == 0x4f && v[lo + 2] == 0x43 && v[lo + 3]
        == 0x41 && v[lo + 4] == 0x4c {
        assert(v@.subrange(lo as int, hi as int) =~= local_bytes());
        Ok(ClockMode::Local)
    } else {
        proof {
            let t = v@.subrange(lo as int, hi as int);
            if t == utc_bytes() {
                assert(t.len() == 3 && t[0] == 0x55 && t[1] == 0x54 && t[2] == 0x43);
            }
            if t == local_bytes() {
                assert(t.len() == 5 && t[0] == 0x4c && t[1] == 0x4f && t[2] == 0x43 && t[3]
                    == 0x41 && t[4] == 0x4c);
            }
        }
        Err(AdjtimeError::UnrecognizedMode)
    }
}

/// One scanning step of `after_newlines`.
proof fn lemma_after_newlines_step(s: Seq<u8>, k: nat)
    requires
        s.len() > 0,
        k > 0,
    ensures
        s.first() == 10 ==> after_newlines(s, k) == after_newlines(s.drop_first(), (k - 1) as nat),
        s.first() != 10 ==> after_newlines(s, k) == after_newlines(s.drop_first(), k),
{
}

/// One scanning step of `take_line`.
proof fn lemma_take_line_step(s: Seq<u8>)
    requires
        s.len() > 0,
        s.first() != 10,
    ensures
        take_line(s) == seq![s.first()] + take_line(s.drop_first()),
{
}

} // verus!
