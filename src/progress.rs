use vstd::prelude::*;

use crate::error::MonitorError;

verus! {

/// The number of slots in one epoch.
pub const EPOCH_SLOTS: u64 = 432000;

/// How far past the next whole epoch a run goes on: a tenth of an epoch.
pub const MARGIN_SLOTS: u64 = 43200;

/// ASCII whitespace around the number in the progress source's output.
pub open spec fn is_space(b: u8) -> bool {
    b == 32 || b == 9 || b == 10 || b == 13
}

pub open spec fn is_digit(b: u8) -> bool {
    48 <= b <= 57
}

/// The first position at or after `i` that holds no whitespace.
pub open spec fn skip_front(s: Seq<u8>, i: int) -> int
    decreases s.len() - i,
{
    if 0 <= i < s.len() && is_space(s[i]) {
        skip_front(s, i + 1)
    } else {
        i
    }
}

/// The end of `s[lo..j]` once trailing whitespace is dropped.
pub open spec fn skip_back(s: Seq<u8>, lo: int, j: int) -> int
    decreases j - lo,
{
    if lo < j && is_space(s[j - 1]) {
        skip_back(s, lo, j - 1)
    } else {
        j
    }
}

/// The decimal value of the digits `s[lo..hi]`.
pub open spec fn digits_value(s: Seq<u8>, lo: int, hi: int) -> nat
    decreases hi - lo,
{
    if hi <= lo {
        0
    } else {
        digits_value(s, lo, hi - 1) * 10 + (s[hi - 1] - 48) as nat
    }
}

/// The slot number that `out` prints: one run of decimal digits with optional
/// whitespace around it, or `None`.
pub open spec fn slot_of_output(out: Seq<u8>) -> Option<nat> {
    let lo = skip_front(out, 0);
    let hi = skip_back(out, lo, out.len() as int);
    if lo < hi && (forall|i: int| lo <= i < hi ==> is_digit(#[trigger] out[i])) {
        Some(digits_value(out, lo, hi))
    } else {
        None
    }
}

/// The first slot of the first whole epoch at or after `slot`, plus the margin.
pub open spec fn end_boundary(slot: u64) -> int {
    ((slot + EPOCH_SLOTS - 1) / EPOCH_SLOTS as int) * EPOCH_SLOTS + MARGIN_SLOTS
}

proof fn lemma_digits_grow(s: Seq<u8>, lo: int, i: int, hi: int)
    requires
        lo <= i <= hi,
    ensures
        digits_value(s, lo, i) <= digits_value(s, lo, hi),
    decreases hi - i,
{
    if i < hi {
        lemma_digits_grow(s, lo, i, hi - 1);
    }
}

/// Reads the slot number printed by the progress source.
pub fn parse_slot(out: &[u8]) -> (r: Result<u64, MonitorError>)
    ensures
        match slot_of_output(out@) {
            Some(v) => if v <= u64::MAX {
                r == Ok::<u64, MonitorError>(v as u64)
            } else {
                r == Err::<u64, MonitorError>(MonitorError::OracleParseError)
            },
            None => r == Err::<u64, MonitorError>(MonitorError::OracleParseError),
        },
{
    let n = out.len();
    let mut lo: usize = 0;
    while lo < n && (out[lo] == 32 || out[lo] == 9 || out[lo] == 10 || out[lo] == 13)
        invariant
            lo <= n,
            n == out@.len(),
            skip_front(out@, 0) == skip_front(out@, lo as int),
        decreases n - lo,
    {
        lo = lo + 1;
    }
    let mut hi: usize = n;
    while hi > lo && (out[hi - 1] == 32 || out[hi - 1] == 9 || out[hi - 1] == 10 || out[hi - 1] == 13)
        invariant
            lo <= hi <= n,
            n == out@.len(),
            lo == skip_front(out@, 0),
            skip_back(out@, lo as int, n as int) == skip_back(out@, lo as int, hi as int),
        decreases hi,
    {
        hi = hi - 1;
    }
    if lo >= hi {
        return Err(MonitorError::OracleParseError);
    }
    let mut acc: u64 = 0;
    let mut i: usize = lo;
    while i < hi
        invariant
            lo <= i <= hi <= n,
            n == out@.len(),
            lo == skip_front(out@, 0),
            hi == skip_back(out@, lo as int, n as int),
            forall|j: int| lo <= j < i ==> is_digit(#[trigger] out@[j]),
            acc == digits_value(out@, lo as int, i as int),
        decreases hi - i,
    {
        let b = out[i];
        if b < 48 || b > 57 {
            return Err(MonitorError::OracleParseError);
        }
        let d = (b - 48) as u64;
        if acc > (u64::MAX - d) / 10 {
            proof {
                assert(digits_value(out@, lo as int, i + 1) > u64::MAX);
                lemma_digits_grow(out@, lo as int, i + 1, hi as int);
            }
            return Err(MonitorError::OracleParseError);
        }
        acc = acc * 10 + d;
        i = i + 1;
    }
    Ok(acc)
}

/// How far the epoch clock has run: `slot / EPOCH_SLOTS` epochs.
#[derive(Clone, Copy, Debug, PartialEq, Eq, Structural)]
pub struct Progress {
    pub slot: u64,
}

impl Progress {
    /// Progress from the progress source's output.
    pub fn from_output(out: &[u8]) -> (r: Result<Progress, MonitorError>)
        ensures
            match slot_of_output(out@) {
                Some(v) => if v <= u64::MAX {
                    r == Ok::<Progress, MonitorError>(Progress { slot: v as u64 })
                } else {
                    r == Err::<Progress, MonitorError>(MonitorError::OracleParseError)
                },
                None => r == Err::<Progress, MonitorError>(MonitorError::OracleParseError),
            },
    {
        match parse_slot(out) {
            Ok(slot) => Ok(Progress { slot }),
            Err(e) => Err(e),
        }
    }

    /// The whole epochs completed.
    pub fn epochs(&self) -> (r: u64)
        ensures
            r == self.slot / EPOCH_SLOTS,
    {
        self.slot / EPOCH_SLOTS
    }

    /// The slots completed in the current epoch: the fractional part of the
    /// progress, in units of `1 / EPOCH_SLOTS`.
    pub fn slot_in_epoch(&self) -> (r: u64)
        ensures
            r == self.slot % EPOCH_SLOTS,
            self.slot == (self.slot / EPOCH_SLOTS) * EPOCH_SLOTS + r,
    {
        self.slot % EPOCH_SLOTS
    }

    /// The stop boundary of a run that starts here: the next whole epoch
    /// (this one, if it is whole) plus a tenth of an epoch, in slots.
    pub fn end_point(&self) -> (r: u128)
        ensures
            r == end_boundary(self.slot),
    {
        let whole = (self.slot as u128 + (EPOCH_SLOTS - 1) as u128) / EPOCH_SLOTS as u128;
        assert(whole <= u64::MAX) by (nonlinear_arith)
            requires whole == (self.slot + EPOCH_SLOTS - 1) / EPOCH_SLOTS as int;
        whole * EPOCH_SLOTS as u128 + MARGIN_SLOTS as u128
    }
}

} // verus!
