use vstd::prelude::*;

verus! {

pub open spec fn is_digit(c: char) -> bool {
    '0' <= c && c <= '9'
}

pub open spec fn all_digits(t: Seq<char>) -> bool {
    forall|i: int| 0 <= i < t.len() ==> is_digit(#[trigger] t[i])
}

pub open spec fn digit_value(c: char) -> nat {
    (c as nat - '0' as nat) as nat
}

/// The decimal number that a run of digits spells.
pub open spec fn decimal_value(t: Seq<char>) -> nat
    decreases t.len(),
{
    if t.len() == 0 {
        0
    } else {
        decimal_value(t.drop_last()) * 10 + digit_value(t.last())
    }
}

/// The number that `t` spells as an unsigned decimal: an optional `+`, then one
/// or more digits.
pub open spec fn unsigned_text(t: Seq<char>) -> Option<nat> {
    let d = if t.len() > 0 && t[0] == '+' { t.skip(1) } else { t };
    if d.len() > 0 && all_digits(d) {
        Some(decimal_value(d))
    } else {
        None
    }
}

/// The number that `t` spells as a signed decimal: an optional `+` or `-`, then
/// one or more digits.
pub open spec fn signed_text(t: Seq<char>) -> Option<int> {
    if t.len() > 0 && t[0] == '-' {
        let d = t.skip(1);
        if d.len() > 0 && all_digits(d) {
            Some(-decimal_value(d))
        } else {
            None
        }
    } else {
        match unsigned_text(t) {
            Some(n) => Some(n as int),
            None => None,
        }
    }
}

/// What `t` reads as a `u64`: `None` where it is no unsigned decimal or does
/// not fit.
pub open spec fn u64_text(t: Seq<char>) -> Option<u64> {
    match unsigned_text(t) {
        Some(n) => if n <= u64::MAX {
            Some(n as u64)
        } else {
            None
        },
        None => None,
    }
}

proof fn lemma_prefix_value_le(t: Seq<char>, k: int)
    requires
        0 <= k <= t.len(),
    ensures
        decimal_value(t.take(k)) <= decimal_value(t),
    decreases t.len(),
{
    if k < t.len() {
        assert(t.drop_last().take(k) =~= t.take(k));
        lemma_prefix_value_le(t.drop_last(), k);
    } else {
        assert(t.take(k) =~= t);
    }
}

/// Reads the digits `t[start..]` as a number, `None` where one of them is no
/// digit, where there are none, or where the number exceeds `u64::MAX`.
fn digits_from(t: &Vec<char>, start: usize) -> (r: Option<u64>)
    requires
        start <= t@.len(),
    ensures
        ({
            let d = t@.skip(start as int);
            r == if d.len() > 0 && all_digits(d) && decimal_value(d) <= u64::MAX {
                Some(decimal_value(d) as u64)
            } else {
                None
            }
        }),
{
    let ghost d = t@.skip(start as int);
    if start == t.len() {
        return None;
    }
    let mut v: u64 = 0;
    let mut i: usize = start;
    while i < t.len()
        invariant
            start <= i <= t@.len(),
            d == t@.skip(start as int),
            all_digits(d.take(i - start)),
            v == decimal_value(d.take(i - start)),
        decreases t@.len() - i,
    {
        let c = t[i];
        let ghost k = i - start;
        assert(d.take(k + 1).drop_last() =~= d.take(k));
        assert(d.take(k + 1).last() == c);
        if !('0' <= c && c <= '9') {
            assert(!all_digits(d));
            return None;
        }
        let dv = (c as u32 - '0' as u32) as u64;
        if v > (u64::MAX - dv) / 10 {
            proof {
                lemma_prefix_value_le(d, k + 1);
            }
            return None;
        }
        v = v * 10 + dv;
        i = i + 1;
        assert(all_digits(d.take(k + 1))) by {
            assert forall|j: int| 0 <= j < k + 1 implies is_digit(#[trigger] d.take(k + 1)[j]) by {
                if j < k {
                    assert(d.take(k + 1)[j] == d.take(k)[j]);
                }
            }
        }
    }
    assert(d.take(t@.len() - start) =~= d);
    Some(v)
}

/// Reads a word as a `u64` written in decimal.
pub fn parse_u64(t: &Vec<char>) -> (r: Option<u64>)
    ensures
        r == u64_text(t@),
{
    let start: usize = if t.len() > 0 && t[0] == '+' { 1 } else { 0 };
    assert(t@.skip(0) =~= t@);
    digits_from(t, start)
}

/// Reads a word as a signed decimal whose value lies in `lo..=hi`.
pub fn parse_small_int(t: &Vec<char>, lo: i8, hi: i8) -> (r: Option<i8>)
    ensures
        r == match signed_text(t@) {
            Some(k) => if lo <= k <= hi {
                Some(k as i8)
            } else {
                None
            },
            None => None,
        },
{
    assert(t@.skip(0) =~= t@);
    if t.len() > 0 && t[0] == '-' {
        match digits_from(t, 1) {
            Some(n) => if n <= 128 && lo as i64 <= -(n as i64) && -(n as i64) <= hi as i64 {
                Some((-(n as i64)) as i8)
            } else {
                None
            },
            None => {
                proof {
                    let d = t@.skip(1);
                    if d.len() > 0 && all_digits(d) {
                        assert(decimal_value(d) > u64::MAX);
                    }
                }
                None
            },
        }
    } else {
        let start: usize = if t.len() > 0 && t[0] == '+' { 1 } else { 0 };
        match digits_from(t, start) {
            Some(n) => if n <= 127 && lo as i64 <= n as i64 && n as i64 <= hi as i64 {
                Some(n as i8)
            } else {
                None
            },
            None => None,
        }
    }
}

} // verus!
