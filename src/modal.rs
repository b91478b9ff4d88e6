//! Notifications, the confirmation and input dialogs, and the commands a
//! confirmation defers.

use vstd::prelude::*;

use crate::text::{pop_char, push_char, str_eq};

verus! {

/// A transient notice shown to the user.
#[derive(Clone, Debug)]
pub struct InfoToShow {
    pub message: String,
    pub is_error: bool,
}

impl InfoToShow {
    pub fn error(message: String) -> (r: InfoToShow)
        ensures
            r.message == message,
            r.is_error,
    {
        InfoToShow { message, is_error: true }
    }

    pub fn info(message: String) -> (r: InfoToShow)
        ensures
            r.message == message,
            !r.is_error,
    {
        InfoToShow { message, is_error: false }
    }
}

#[verifier::external_type_specification]
#[verifier::external_body]
pub struct ExTimeDelta(chrono::TimeDelta);

/// The largest number of seconds a `TimeDelta` holds either way:
/// `i64::MAX / 1000`.
pub open spec fn max_delta_seconds() -> int {
    9223372036854775
}

/// Relies on `chrono::TimeDelta::try_hours`: `None` exactly when the hours,
/// in seconds, overflow `i64` or lie outside `±i64::MAX / 1000`.
#[verifier::external_body]
fn hours_delta(hours: i64) -> (r: Option<chrono::TimeDelta>)
    ensures
        r is Some <==> -max_delta_seconds() <= hours * 3600 <= max_delta_seconds(),
{
    chrono::TimeDelta::try_hours(hours)
}

/// An admin operation, with everything it needs captured when it was asked
/// for.
#[derive(Clone, Debug)]
pub enum ConfirmedCommand {
    CloseInfoMessage,
    DeleteSubscription { tenant: String, namespace: String, topic: String, sub_name: String },
    SkipAllMessages { tenant: String, namespace: String, topic: String, sub_name: String },
    SeekSubscription {
        tenant: String,
        namespace: String,
        topic: String,
        sub_name: String,
        hours: i64,
    },
}

/// A yes/no dialog that runs `command` when accepted.
#[derive(Clone, Debug)]
pub struct ConfirmationModal {
    pub message: String,
    pub command: ConfirmedCommand,
}

/// The unit label shown after an hour count.
pub open spec fn suffix_for(input: Seq<char>) -> Seq<char> {
    if input == seq!['1'] {
        seq![' ', 'h', 'o', 'u', 'r']
    } else {
        seq![' ', 'h', 'o', 'u', 'r', 's']
    }
}

/// A dialog that captures text, numeric only when `is_input_numeric`.
#[derive(Clone, Debug)]
pub struct InputModal {
    pub message: String,
    pub input: String,
    pub input_suffix: String,
    pub is_input_numeric: bool,
}

fn literal(s: &str) -> (r: String)
    ensures
        r@ == s@,
{
    s.to_owned()
}

impl InputModal {
    /// Removes the last character of the input, if any.
    pub fn pop_input(&mut self)
        ensures
            final(self).input@ == (if old(self).input@.len() == 0 {
                old(self).input@
            } else {
                old(self).input@.drop_last()
            }),
            final(self).input_suffix@ == suffix_for(final(self).input@),
            final(self).message == old(self).message,
            final(self).is_input_numeric == old(self).is_input_numeric,
    {
        pop_char(&mut self.input);
        self.update_suffix();
    }

    /// Appends `c` to the input.
    pub fn push_input(&mut self, c: char)
        ensures
            final(self).input@ == old(self).input@.push(c),
            final(self).input_suffix@ == suffix_for(final(self).input@),
            final(self).message == old(self).message,
            final(self).is_input_numeric == old(self).is_input_numeric,
    {
        push_char(&mut self.input, c);
        self.update_suffix();
    }

    /// Recomputes the unit label from the input.
    pub fn update_suffix(&mut self)
        ensures
            final(self).input_suffix@ == suffix_for(final(self).input@),
            final(self).input == old(self).input,
            final(self).message == old(self).message,
            final(self).is_input_numeric == old(self).is_input_numeric,
    {
        proof {
            reveal_strlit("1");
            reveal_strlit(" hour");
            reveal_strlit(" hours");
            assert("1"@ =~= seq!['1']);
            assert(" hour"@ =~= seq![' ', 'h', 'o', 'u', 'r']);
            assert(" hours"@ =~= seq![' ', 'h', 'o', 'u', 'r', 's']);
        }
        if str_eq(self.input.as_str(), "1") {
            self.input_suffix = literal(" hour");
        } else {
            self.input_suffix = literal(" hours");
        }
    }
}

/// The character is an ASCII digit.
pub open spec fn is_digit(c: char) -> bool {
    48 <= (c as u32) <= 57
}

/// Every character is an ASCII digit.
pub open spec fn all_digits(s: Seq<char>) -> bool {
    forall|i: int| 0 <= i < s.len() ==> is_digit(#[trigger] s[i])
}

/// The number that a run of ASCII digits writes in base ten.
pub open spec fn digits_value(s: Seq<char>) -> int
    decreases s.len(),
{
    if s.len() == 0 {
        0
    } else {
        digits_value(s.drop_last()) * 10 + ((s.last() as u32) - 48)
    }
}

/// What an hour count typed as text stands for: a non-empty run of ASCII
/// digits whose value fits in `i64`.
pub open spec fn hours_of(s: Seq<char>) -> Option<i64> {
    if s.len() > 0 && all_digits(s) && digits_value(s) <= i64::MAX {
        Some(digits_value(s) as i64)
    } else {
        None
    }
}

proof fn lemma_digits_value_nonneg(s: Seq<char>)
    requires
        all_digits(s),
    ensures
        digits_value(s) >= 0,
    decreases s.len(),
{
    if s.len() > 0 {
        assert(all_digits(s.drop_last())) by {
            assert forall|i: int| 0 <= i < s.drop_last().len() implies is_digit(
                #[trigger] s.drop_last()[i],
            ) by {
                assert(s.drop_last()[i] == s[i]);
            }
        }
        lemma_digits_value_nonneg(s.drop_last());
        assert(is_digit(s[s.len() - 1]));
    }
}

proof fn lemma_digits_value_grows(s: Seq<char>, c: char)
    requires
        all_digits(s),
        is_digit(c),
    ensures
        digits_value(s.push(c)) >= digits_value(s),
        all_digits(s.push(c)),
{
    lemma_digits_value_nonneg(s);
    assert(s.push(c).drop_last() == s);
    assert forall|i: int| 0 <= i < s.push(c).len() implies is_digit(#[trigger] s.push(c)[i]) by {
        if i < s.len() {
            assert(s.push(c)[i] == s[i]);
        }
    }
}

/// Reads an hour count typed as decimal digits.
pub fn parse_hours(s: &str) -> (r: Option<i64>)
    ensures
        r == hours_of(s@),
{
    let mut v: i64 = 0;
    let mut ok = true;
    let ghost mut n: int = 0;
    for c in it: s.chars()
        invariant
            it.seq() == s@,
            n == it.index(),
            0 <= v,
            ok ==> all_digits(s@.subrange(0, n)) && v == digits_value(s@.subrange(0, n)),
            !ok ==> hours_of(s@) is None,
    {
        let ghost pre = s@.subrange(0, n);
        proof {
            assert(s@.subrange(0, n + 1) == pre.push(c));
            assert(pre.push(c).drop_last() == pre);
        }
        if ok {
            let code = c as u32;
            if code < 48 || code > 57 {
                ok = false;
                proof {
                    assert(!is_digit(s@[n]));
                    assert(!all_digits(s@));
                }
            } else {
                let d = (code - 48) as i64;
                if v > (i64::MAX - d) / 10 {
                    ok = false;
                    proof {
                        lemma_digits_value_grows(pre, c);
                        assert(digits_value(pre.push(c)) > i64::MAX);
                        lemma_prefix_value_bounded(s@, n + 1);
                    }
                } else {
                    assert(v * 10 + d <= i64::MAX) by (nonlinear_arith)
                        requires
                            0 <= v <= (i64::MAX - d) / 10,
                            0 <= d <= 9,
                    ;
                    v = v * 10 + d;
                    proof {
                        lemma_digits_value_grows(pre, c);
                    }
                }
            }
        }
        proof {
            n = n + 1;
        }
    }
    proof {
        assert(s@.subrange(0, s@.len() as int) == s@);
    }
    if ok && !s.is_empty() {
        Some(v)
    } else {
        None
    }
}

/// A digit string's value is at least that of each of its prefixes.
proof fn lemma_prefix_value_bounded(s: Seq<char>, k: int)
    requires
        0 <= k <= s.len(),
        all_digits(s.subrange(0, k)),
        digits_value(s.subrange(0, k)) > i64::MAX,
    ensures
        hours_of(s) is None,
    decreases s.len() - k,
{
    if k < s.len() && all_digits(s) {
        let p = s.subrange(0, k);
        assert(s.subrange(0, k + 1) == p.push(s[k]));
        assert(is_digit(s[k]));
        lemma_digits_value_grows(p, s[k]);
        lemma_prefix_value_bounded(s, k + 1);
    } else if k == s.len() {
        assert(s.subrange(0, k) == s);
    }
}

/// Decimal digits of a natural number.
pub open spec fn digits_of(n: nat) -> Seq<char>
    decreases n,
{
    let d = seq!['0', '1', '2', '3', '4', '5', '6', '7', '8', '9'];
    if n < 10 {
        seq![d[n as int]]
    } else {
        digits_of(n / 10).push(d[(n % 10) as int])
    }
}

/// A number written in base ten, with a leading minus when negative.
pub open spec fn decimal_of(n: int) -> Seq<char> {
    if n < 0 {
        seq!['-'] + digits_of((-n) as nat)
    } else {
        digits_of(n as nat)
    }
}

fn digit_char(k: u64) -> (c: char)
    requires
        k < 10,
    ensures
        c == seq!['0', '1', '2', '3', '4', '5', '6', '7', '8', '9'][k as int],
{
    if k == 0 {
        '0'
    } else if k == 1 {
        '1'
    } else if k == 2 {
        '2'
    } else if k == 3 {
        '3'
    } else if k == 4 {
        '4'
    } else if k == 5 {
        '5'
    } else if k == 6 {
        '6'
    } else if k == 7 {
        '7'
    } else if k == 8 {
        '8'
    } else {
        '9'
    }
}

/// `n` written in base ten, with a leading minus when negative.
pub fn decimal(n: i64) -> (r: String)
    ensures
        r@ == decimal_of(n as int),
{
    let magnitude: u64 = if n < 0 {
        (0i128 - n as i128) as u64
    } else {
        n as u64
    };
    let ghost whole = magnitude as nat;
    let mut m: u64 = magnitude;
    let mut tail: Vec<char> = Vec::new();
    while m >= 10
        invariant
            digits_of(whole) == digits_of(m as nat) + tail@,
        decreases m,
    {
        let c = digit_char(m % 10);
        proof {
            assert(digits_of(m as nat) == digits_of((m / 10) as nat).push(c));
            assert(digits_of((m / 10) as nat).push(c) + tail@ =~= digits_of((m / 10) as nat) + (
            seq![c] + tail@));
        }
        let ghost before = tail@;
        tail.insert(0, c);
        proof {
            assert(tail@ =~= seq![c] + before);
        }
        m = m / 10;
    }
    let mut r = String::new();
    if n < 0 {
        push_char(&mut r, '-');
    }
    push_char(&mut r, digit_char(m));
    let ghost head = r@;
    let mut i: usize = 0;
    while i < tail.len()
        invariant
            r@ == head + tail@.subrange(0, i as int),
            i <= tail@.len(),
        decreases tail@.len() - i,
    {
        proof {
            assert(tail@.subrange(0, i + 1) == tail@.subrange(0, i as int).push(tail@[i as int]));
        }
        push_char(&mut r, tail[i]);
        i = i + 1;
    }
    proof {
        assert(tail@.subrange(0, tail@.len() as int) == tail@);
        assert(digits_of(m as nat) == seq![seq!['0', '1', '2', '3', '4', '5', '6', '7', '8', '9'][m as int]]);
        if n < 0 {
            assert(r@ =~= seq!['-'] + digits_of(whole));
        } else {
            assert(r@ =~= digits_of(whole));
        }
    }
    r
}

/// The hours that Enter on an open hour-count dialog seeks back by: the
/// typed count when `chrono` can hold it as a `TimeDelta`, else `None`.
pub fn seek_hours(input: &str) -> (r: Option<i64>)
    ensures
        match hours_of(input@) {
            Some(h) => r == (if h * 3600 <= max_delta_seconds() {
                Some(h)
            } else {
                None
            }),
            None => r is None,
        },
{
    match parse_hours(input) {
        Some(h) => {
            proof {
                lemma_digits_value_nonneg(input@);
            }
            match hours_delta(h) {
                Some(_) => Some(h),
                None => None,
            }
        },
        None => None,
    }
}

} // verus!
