//! Reading a time limit written as text.
//!
//! A limit is one or more terms written one after the other without
//! spaces, such as `30m` or `1h30m`. A term is a decimal number followed
//! by a unit: `s` for seconds, `m` for minutes, `h` for hours, `d` for
//! days. The limit is the sum of its terms.

use vstd::prelude::*;
use vstd::std_specs::iter::IteratorSpec;

verus! {

/// The value of a decimal digit.
pub open spec fn digit_value(c: char) -> Option<nat> {
    if '0' as u32 <= c as u32 <= '9' as u32 {
        Some((c as u32 - '0' as u32) as nat)
    } else {
        None
    }
}

/// The number of seconds in the unit that a letter stands for.
pub open spec fn unit_seconds(c: char) -> Option<nat> {
    if c == 's' {
        Some(1)
    } else if c == 'm' {
        Some(60)
    } else if c == 'h' {
        Some(3600)
    } else if c == 'd' {
        Some(86400)
    } else {
        None
    }
}

/// What has been read of a limit: the sum of the terms that are complete,
/// and the number of the term that is begun, if one is.
pub struct Scan {
    pub total: nat,
    pub number: Option<nat>,
}

impl Scan {
    /// What is read after one more character, where that character may
    /// follow.
    pub open spec fn step(self, c: char) -> Option<Scan> {
        if let Some(d) = digit_value(c) {
            let before = match self.number {
                Some(n) => n,
                None => 0,
            };
            Some(Scan { total: self.total, number: Some(before * 10 + d) })
        } else if let (Some(unit), Some(n)) = (unit_seconds(c), self.number) {
            Some(Scan { total: self.total + n * unit, number: None })
        } else {
            None
        }
    }

    /// A number that the limit is at least, however the text goes on.
    pub open spec fn floor(self) -> nat {
        match self.number {
            Some(n) => self.total + n,
            None => self.total,
        }
    }
}

/// What is read of a limit after the characters of `s`, where `s` can
/// begin a limit.
pub open spec fn scan(s: Seq<char>) -> Option<Scan>
    decreases s.len(),
{
    if s.len() == 0 {
        Some(Scan { total: 0, number: None })
    } else {
        match scan(s.drop_last()) {
            Some(before) => before.step(s.last()),
            None => None,
        }
    }
}

/// The seconds that `s` stands for, where `s` is a limit.
pub open spec fn duration_seconds(s: Seq<char>) -> Option<nat> {
    match scan(s) {
        Some(read) => if s.len() > 0 && read.number is None {
            Some(read.total)
        } else {
            None
        },
        None => None,
    }
}

/// The seconds that `s` stands for, where `s` is a limit of no more than
/// `u64::MAX` seconds.
pub open spec fn timeout_seconds(s: Seq<char>) -> Option<u64> {
    match duration_seconds(s) {
        Some(n) => if n <= u64::MAX {
            Some(n as u64)
        } else {
            None
        },
        None => None,
    }
}

/// Text that cannot begin a limit cannot be continued to one, and a limit
/// is at least the floor of each of its beginnings.
pub proof fn lemma_scan_grows(s: Seq<char>, i: int)
    requires
        0 <= i <= s.len(),
    ensures
        scan(s.take(i)) is None ==> scan(s) is None,
        scan(s) is Some ==> scan(s)->0.floor() >= scan(s.take(i))->0.floor(),
    decreases s.len(),
{
    if i == s.len() {
        assert(s.take(i) =~= s);
    } else {
        let shorter = s.drop_last();
        assert(shorter.take(i) =~= s.take(i));
        lemma_scan_grows(shorter, i);
        if let Some(before) = scan(shorter) {
            if let Some(after) = before.step(s.last()) {
                if let (Some(unit), Some(n)) = (unit_seconds(s.last()), before.number) {
                    assert(n * unit >= n) by (nonlinear_arith)
                        requires
                            unit >= 1,
                    ;
                }
            }
        }
    }
}

/// The number that a sequence of decimal digits stands for.
pub open spec fn decimal_value(digits: Seq<char>) -> nat
    decreases digits.len(),
{
    if digits.len() == 0 {
        0
    } else {
        let last = match digit_value(digits.last()) {
            Some(d) => d,
            None => 0,
        };
        decimal_value(digits.drop_last()) * 10 + last
    }
}

/// After digits alone, a term is begun whose number is their value.
pub proof fn lemma_scan_digits(digits: Seq<char>)
    requires
        digits.len() > 0,
        forall|i: int| 0 <= i < digits.len() ==> digit_value(#[trigger] digits[i]) is Some,
    ensures
        scan(digits) == Some(Scan { total: 0, number: Some(decimal_value(digits)) }),
    decreases digits.len(),
{
    let shorter = digits.drop_last();
    assert(digit_value(digits[digits.len() - 1]) is Some);
    if shorter.len() > 0 {
        assert forall|i: int| 0 <= i < shorter.len() implies digit_value(
            #[trigger] shorter[i],
        ) is Some by {
            assert(shorter[i] == digits[i]);
        }
        lemma_scan_digits(shorter);
    } else {
        assert(scan(shorter) == Some(Scan { total: 0, number: None }));
        assert(decimal_value(shorter) == 0);
    }
}

/// A number followed by a unit is a limit of that many units.
pub proof fn law_term(digits: Seq<char>, unit: char)
    requires
        digits.len() > 0,
        forall|i: int| 0 <= i < digits.len() ==> digit_value(#[trigger] digits[i]) is Some,
        unit_seconds(unit) is Some,
    ensures
        duration_seconds(digits.push(unit)) == Some(
            decimal_value(digits) * unit_seconds(unit)->0,
        ),
{
    lemma_scan_digits(digits);
    assert(digits.push(unit).drop_last() =~= digits);
}

/// What is read after a limit and more text is the limit and what is
/// read of that text alone.
pub proof fn lemma_scan_after_limit(limit: Seq<char>, more: Seq<char>)
    requires
        scan(limit) matches Some(read) && read.number is None,
        scan(more) is Some,
    ensures
        scan(limit + more) == Some(
            Scan {
                total: scan(limit)->0.total + scan(more)->0.total,
                number: scan(more)->0.number,
            },
        ),
    decreases more.len(),
{
    if more.len() == 0 {
        assert(limit + more =~= limit);
    } else {
        assert((limit + more).drop_last() =~= limit + more.drop_last());
        lemma_scan_after_limit(limit, more.drop_last());
    }
}

/// Two limits written one after the other are a limit, and it is their
/// sum.
pub proof fn law_limits_add(first: Seq<char>, second: Seq<char>)
    requires
        duration_seconds(first) is Some,
        duration_seconds(second) is Some,
    ensures
        duration_seconds(first + second) == Some(
            duration_seconds(first)->0 + duration_seconds(second)->0,
        ),
{
    lemma_scan_after_limit(first, second);
}

fn digit_of(c: char) -> (d: Option<u64>)
    ensures
        digit_value(c) == match d {
            Some(v) => Some(v as nat),
            None => None,
        },
        d matches Some(v) ==> v <= 9,
{
    let code = c as u32;
    if 48 <= code && code <= 57 {
        Some((code - 48) as u64)
    } else {
        None
    }
}

fn unit_of(c: char) -> (unit: Option<u64>)
    ensures
        unit_seconds(c) == match unit {
            Some(v) => Some(v as nat),
            None => None,
        },
        unit matches Some(v) ==> 1 <= v <= 86400,
{
    if c == 's' {
        Some(1)
    } else if c == 'm' {
        Some(60)
    } else if c == 'h' {
        Some(3600)
    } else if c == 'd' {
        Some(86400)
    } else {
        None
    }
}

/// Reads a time limit. The result is the limit in seconds; it is `None`
/// where the text is no limit, and where the limit is longer than
/// `u64::MAX` seconds.
pub fn parse_duration(text: &str) -> (secs: Option<u64>)
    ensures
        secs == timeout_seconds(text@),
{
    let mut it = text.chars();
    let mut total: u64 = 0;
    let mut number: Option<u64> = None;
    let mut empty = true;
    let ghost mut i: int = 0;
    assert(text@.take(0) =~= Seq::<char>::empty());
    loop
        invariant
            it.obeys_prophetic_iter_laws(),
            it.decrease() is Some,
            0 <= i <= text@.len(),
            it.remaining() == text@.skip(i),
            empty == (i == 0),
            scan(text@.take(i)) == Some(
                Scan {
                    total: total as nat,
                    number: match number {
                        Some(n) => Some(n as nat),
                        None => None,
                    },
                },
            ),
        decreases it.decrease()->0,
    {
        let c = match it.next() {
            Some(c) => c,
            None => {
                assert(text@.take(i) =~= text@);
                return if empty || number.is_some() {
                    None
                } else {
                    Some(total)
                };
            },
        };
        proof {
            assert(c == text@[i]);
            assert(text@.skip(i).drop_first() =~= text@.skip(i + 1));
            assert(text@.take(i + 1).drop_last() =~= text@.take(i));
            assert(text@.take(i + 1).last() == c);
            lemma_scan_grows(text@, i + 1);
        }
        if let Some(d) = digit_of(c) {
            let before: u64 = match number {
                Some(n) => n,
                None => 0,
            };
            let wide: u128 = (before as u128) * 10 + (d as u128);
            if wide > u64::MAX as u128 {
                return None;
            }
            number = Some(wide as u64);
        } else {
            match (unit_of(c), number) {
                (Some(unit), Some(n)) => {
                    assert(n * unit <= u64::MAX * 86400) by (nonlinear_arith)
                        requires
                            n <= u64::MAX,
                            unit <= 86400,
                    ;
                    let wide: u128 = (total as u128) + (n as u128) * (unit as u128);
                    if wide > u64::MAX as u128 {
                        return None;
                    }
                    total = wide as u64;
                    number = None;
                },
                _ => {
                    return None;
                },
            }
        }
        empty = false;
        proof {
            i = i + 1;
        }
    }
}

} // verus!
