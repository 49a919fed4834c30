use vstd::prelude::*;

verus! {

/// Minimum time between two committed write batches, in milliseconds.
pub const WRITE_TIMEOUT_MS: u16 = 2000;

/// How long a write batch must wait, given the time of the last committed
/// write (if one is known) and the time now, both in milliseconds.
pub open spec fn write_delay(last_write_ms: Option<u64>, now_ms: u64) -> u64 {
    match last_write_ms {
        None => 0,
        Some(last) => if now_ms < last {
            WRITE_TIMEOUT_MS as u64
        } else if now_ms - last >= WRITE_TIMEOUT_MS {
            0
        } else {
            (WRITE_TIMEOUT_MS - (now_ms - last)) as u64
        },
    }
}

/// The wait before a write batch. No known prior write means no wait; a
/// clock that reads earlier than the last write gives the whole window.
pub fn write_delay_ms(last_write_ms: Option<u64>, now_ms: u64) -> (r: u64)
    ensures
        r == write_delay(last_write_ms, now_ms),
        r <= WRITE_TIMEOUT_MS,
{
    match last_write_ms {
        None => 0,
        Some(last) => {
            if now_ms < last {
                WRITE_TIMEOUT_MS as u64
            } else {
                let elapsed = now_ms - last;
                if elapsed >= WRITE_TIMEOUT_MS as u64 {
                    0
                } else {
                    WRITE_TIMEOUT_MS as u64 - elapsed
                }
            }
        },
    }
}

/// A write batch that waits as told starts at least the whole window after
/// the previous commit, and the first write ever does not wait.
pub proof fn lemma_writes_spaced(last_write_ms: u64, now_ms: u64)
    requires
        last_write_ms <= now_ms,
    ensures
        now_ms + write_delay(Some(last_write_ms), now_ms) >= last_write_ms + WRITE_TIMEOUT_MS,
        write_delay(None, now_ms) == 0,
{
}

/// ASCII `0` to `9`.
pub open spec fn is_digit(b: u8) -> bool {
    48u8 <= b <= 57u8
}

/// The number written by a string of decimal digits, most significant first.
pub open spec fn decimal_value(s: Seq<u8>) -> nat
    decreases s.len(),
{
    if s.len() == 0 {
        0
    } else {
        decimal_value(s.drop_last()) * 10 + (s.last() - 48u8) as nat
    }
}

/// The timestamp a text holds: one or more decimal digits and nothing else,
/// of a value that fits in 64 bits.
pub open spec fn timestamp_of(s: Seq<u8>) -> Option<u64> {
    if s.len() > 0 && (forall|i: int| 0 <= i < s.len() ==> is_digit(#[trigger] s[i]))
        && decimal_value(s) <= u64::MAX {
        Some(decimal_value(s) as u64)
    } else {
        None
    }
}

proof fn lemma_decimal_grows(s: Seq<u8>, j: int, k: int)
    requires
        0 <= j <= k <= s.len(),
        forall|i: int| 0 <= i < s.len() ==> is_digit(#[trigger] s[i]),
    ensures
        decimal_value(s.take(j)) <= decimal_value(s.take(k)),
    decreases k - j,
{
    if j < k {
        lemma_decimal_grows(s, j, k - 1);
        assert(s.take(k).drop_last() =~= s.take(k - 1));
    }
}

/// Reads the stored time of the last write; `None` when the text is empty,
/// holds anything but digits, or is too large.
pub fn parse_timestamp(text: &[u8]) -> (r: Option<u64>)
    ensures
        r == timestamp_of(text@),
{
    let n = text.len();
    if n == 0 {
        return None;
    }
    let mut value: u64 = 0;
    let mut i: usize = 0;
    while i < n
        invariant
            n == text@.len(),
            0 <= i <= n,
            forall|j: int| 0 <= j < i ==> is_digit(#[trigger] text@[j]),
            value == decimal_value(text@.take(i as int)),
        decreases n - i,
    {
        let b = text[i];
        if b < 48u8 || b > 57u8 {
            assert(!is_digit(text@[i as int]));
            return None;
        }
        let d = (b - 48u8) as u64;
        assert(text@.take(i + 1).drop_last() =~= text@.take(i as int));
        if value > (u64::MAX - d) / 10 {
            proof {
                assert(decimal_value(text@.take(i + 1)) > u64::MAX) by (nonlinear_arith)
                    requires
                        value > (u64::MAX - d) / 10,
                        decimal_value(text@.take(i + 1)) == value * 10 + d,
                ;
                if forall|j: int| 0 <= j < text@.len() ==> is_digit(#[trigger] text@[j]) {
                    lemma_decimal_grows(text@, i + 1, n as int);
                    assert(text@.take(n as int) =~= text@);
                }
            }
            return None;
        }
        assert(value * 10 + d <= u64::MAX) by (nonlinear_arith)
            requires
                value <= (u64::MAX - d) / 10,
                d <= 9,
        ;
        value = value * 10 + d;
        i = i + 1;
    }
    assert(text@.take(n as int) =~= text@);
    Some(value)
}

/// The decimal digits of `n`, most significant first, without leading zeros.
pub open spec fn decimal_digits(n: nat) -> Seq<u8>
    decreases n,
{
    if n < 10 {
        seq![(48 + n) as u8]
    } else {
        decimal_digits(n / 10).push((48 + n % 10) as u8)
    }
}

proof fn lemma_decimal_digits(n: nat)
    ensures
        decimal_digits(n).len() > 0,
        forall|i: int| 0 <= i < decimal_digits(n).len() ==> is_digit(#[trigger] decimal_digits(n)[i]),
        decimal_value(decimal_digits(n)) == n,
    decreases n,
{
    if n >= 10 {
        lemma_decimal_digits(n / 10);
        let s = decimal_digits(n / 10);
        let d = (48 + n % 10) as u8;
        assert(s.push(d).drop_last() =~= s);
        assert(s.push(d).last() == d);
        assert(decimal_digits(n) == s.push(d));
        assert(decimal_value(s.push(d)) == decimal_value(s) * 10 + (d - 48u8) as nat);
        assert(n == (n / 10) * 10 + n % 10) by (nonlinear_arith);
    } else {
        let d = (48 + n) as u8;
        assert(decimal_digits(n) == seq![d]);
        assert(seq![d].drop_last() =~= Seq::<u8>::empty());
        assert(decimal_value(seq![d]) == decimal_value(Seq::<u8>::empty()) * 10 + (d - 48u8) as nat);
    }
}

/// The text that records a write time: its decimal digits.
pub fn timestamp_text(ms: u64) -> (r: Vec<u8>)
    ensures
        r@ == decimal_digits(ms as nat),
    decreases ms,
{
    if ms < 10 {
        vec![48u8 + ms as u8]
    } else {
        let mut r = timestamp_text(ms / 10);
        r.push(48u8 + (ms % 10) as u8);
        r
    }
}

/// A recorded write time reads back as the same time.
pub proof fn lemma_timestamp_round_trip(ms: u64)
    ensures
        timestamp_of(decimal_digits(ms as nat)) == Some(ms),
{
    lemma_decimal_digits(ms as nat);
}

} // verus!
