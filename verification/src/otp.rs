//! One-time passwords: how a code is shown, the parameters of an account's
//! codes, and when a time-based code runs out.
use vstd::prelude::*;

use crate::models::TwoFAccount;
use crate::text::{
    all_ascii_digits, chars_of, decimal, is_ascii_digit, lowercase, push_decimal,
    string_of_chars, to_lowercase, to_uppercase, uppercase,
};

verus! {

/// A code as shown: a string of exactly `digits` ASCII digits is split in
/// two by a space (3+3 for six digits, 4+4 for eight, halves for other
/// lengths above four); any other code is shown as it came.
pub open spec fn formatted_otp(code: Seq<char>, digits: u32) -> Seq<char> {
    if !all_ascii_digits(code) || code.len() != digits {
        code
    } else if code.len() == 6 {
        code.subrange(0, 3) + seq![' '] + code.subrange(3, 6)
    } else if code.len() == 8 {
        code.subrange(0, 4) + seq![' '] + code.subrange(4, 8)
    } else if code.len() > 4 {
        let split = code.len() as int / 2;
        code.subrange(0, split) + seq![' '] + code.subrange(split, code.len() as int)
    } else {
        code
    }
}

/// Splits a code of `digits` digits for reading; see `formatted_otp`. A code
/// made of ASCII digits has as many bytes as characters, so its length is
/// compared in characters.
pub fn format_otp(code: &str, digits: u32) -> (r: String)
    ensures
        r@ == formatted_otp(code@, digits),
{
    let chars = chars_of(code);
    let n = chars.len();
    let mut i: usize = 0;
    while i < n
        invariant
            n == chars@.len(),
            chars@ == code@,
            i <= n,
            forall|k: int| 0 <= k < i ==> is_ascii_digit(#[trigger] chars@[k]),
        decreases n - i,
    {
        if !('0' <= chars[i] && chars[i] <= '9') {
            return code.to_owned();
        }
        i += 1;
    }
    if n as u64 != digits as u64 {
        return code.to_owned();
    }
    let split: usize = if n == 6 {
        3
    } else if n == 8 {
        4
    } else if n > 4 {
        n / 2
    } else {
        return code.to_owned();
    };
    let mut r = string_of_chars(chars.as_slice(), 0, split);
    crate::text::push_char(&mut r, ' ');
    let tail = string_of_chars(chars.as_slice(), split, n);
    r.append(tail.as_str());
    r
}

/// Formatting a code only ever inserts one space between two non-empty
/// parts of it: the characters of the code are all kept, in order.
pub proof fn law_formatting_keeps_the_code(code: Seq<char>, digits: u32)
    ensures
        formatted_otp(code, digits) == code || exists|k: int|
            0 < k < code.len() && formatted_otp(code, digits) == code.subrange(0, k) + seq![' ']
                + code.subrange(k, code.len() as int),
{
    let f = formatted_otp(code, digits);
    if f != code {
        let k: int = if code.len() == 6 {
            3
        } else if code.len() == 8 {
            4
        } else {
            code.len() as int / 2
        };
        assert(0 < k < code.len());
        assert(f == code.subrange(0, k) + seq![' '] + code.subrange(k, code.len() as int));
    }
}

pub open spec fn totp_chars() -> Seq<char> {
    seq!['t', 'o', 't', 'p']
}

/// How an account's codes are shown: whether they are time-based (the type
/// is `totp` in any case), how many digits they have (at least one) and how
/// many seconds a time-based code lasts (30 by default, at least one).
pub struct OtpSettings {
    pub is_totp: bool,
    pub digits: u32,
    pub period: u32,
}

pub open spec fn spec_is_totp(otp_type: Seq<char>) -> bool {
    lowercase(otp_type) == totp_chars()
}

pub open spec fn effective_digits(digits: u32) -> u32 {
    if digits < 1 {
        1
    } else {
        digits
    }
}

pub open spec fn effective_period(period: Option<u32>) -> u32 {
    match period {
        Some(p) => if p < 1 {
            1
        } else {
            p
        },
        None => 30,
    }
}

impl OtpSettings {
    /// The settings for showing the codes of `account`.
    pub fn for_account(account: &TwoFAccount) -> (s: Self)
        ensures
            s.is_totp == spec_is_totp(account.otp_type@),
            s.digits == effective_digits(account.digits),
            s.period == effective_period(account.period),
    {
        let lower = chars_of(to_lowercase(account.otp_type.as_str()).as_str());
        let is_totp = lower.len() == 4 && lower[0] == 't' && lower[1] == 'o' && lower[2] == 't'
            && lower[3] == 'p';
        proof {
            if is_totp {
                assert(lower@ =~= totp_chars());
            } else if lower@ == totp_chars() {
                assert(lower@[0] == 't' && lower@[1] == 'o' && lower@[2] == 't' && lower@[3] == 'p');
            }
        }
        let digits = if account.digits < 1 {
            1
        } else {
            account.digits
        };
        let period = match account.period {
            Some(p) => if p < 1 {
                1
            } else {
                p
            },
            None => 30,
        };
        OtpSettings { is_totp, digits, period }
    }
}

pub open spec fn details_separator() -> Seq<char> {
    seq![' ', '\u{b7}', ' ']
}

/// The line under the account name: type and algorithm in upper case, then
/// the number of digits and the word for digits, as in `TOTP · SHA1 · 6 digits`.
pub open spec fn otp_details_text(otp_type: Seq<char>, algorithm: Seq<char>, digits: u32, digits_word: Seq<
    char,
>) -> Seq<char> {
    uppercase(otp_type) + details_separator() + uppercase(algorithm) + details_separator() + decimal(
        digits as nat,
    ) + seq![' '] + digits_word
}

/// Builds the details line; see `otp_details_text`.
pub fn otp_details(account: &TwoFAccount, digits: u32, digits_word: &str) -> (r: String)
    ensures
        r@ == otp_details_text(account.otp_type@, account.algorithm@, digits, digits_word@),
{
    let mut r = to_uppercase(account.otp_type.as_str());
    crate::text::push_char(&mut r, ' ');
    crate::text::push_char(&mut r, '\u{b7}');
    crate::text::push_char(&mut r, ' ');
    let algorithm = to_uppercase(account.algorithm.as_str());
    r.append(algorithm.as_str());
    crate::text::push_char(&mut r, ' ');
    crate::text::push_char(&mut r, '\u{b7}');
    crate::text::push_char(&mut r, ' ');
    push_decimal(&mut r, digits as u64);
    crate::text::push_char(&mut r, ' ');
    r.append(digits_word);
    assert(r@ =~= otp_details_text(account.otp_type@, account.algorithm@, digits, digits_word@));
    r
}

/// The counter line of a counter-based account: the word for counter, a
/// colon and the counter, or `HOTP` where the server gave no counter.
pub open spec fn counter_text(counter: Option<u64>, counter_word: Seq<char>) -> Seq<char> {
    match counter {
        Some(c) => counter_word + seq![':', ' '] + decimal(c as nat),
        None => seq!['H', 'O', 'T', 'P'],
    }
}

/// Builds the counter line; see `counter_text`.
pub fn counter_label(counter: Option<u64>, counter_word: &str) -> (r: String)
    ensures
        r@ == counter_text(counter, counter_word@),
{
    let mut r = String::new();
    match counter {
        Some(c) => {
            r.append(counter_word);
            crate::text::push_char(&mut r, ':');
            crate::text::push_char(&mut r, ' ');
            push_decimal(&mut r, c);
        },
        None => {
            crate::text::push_char(&mut r, 'H');
            crate::text::push_char(&mut r, 'O');
            crate::text::push_char(&mut r, 'T');
            crate::text::push_char(&mut r, 'P');
        },
    }
    assert(r@ =~= counter_text(counter, counter_word@));
    r
}

/// A time in whole seconds as milliseconds, saturating at `u64::MAX`.
pub open spec fn spec_secs_to_ms(seconds: u64) -> int {
    if seconds as int * 1000 > u64::MAX {
        u64::MAX as int
    } else {
        seconds as int * 1000
    }
}

/// The server clock when a code arrived, in milliseconds since the Unix
/// epoch, and the period it falls in.
pub struct OtpClock {
    pub server_ms: u64,
    pub period_index: u64,
}

/// Starts the clock of a fetched code from the server time of the response,
/// in whole seconds (`None` where it carried no usable date), or else from
/// the local time in milliseconds.
pub fn start_otp_clock(server_time: Option<u64>, local_now_ms: u64, period: u32) -> (c: OtpClock)
    requires
        period > 0,
    ensures
        c.server_ms == (match server_time {
            Some(t) => spec_secs_to_ms(t),
            None => local_now_ms as int,
        }),
        c.period_index == spec_current_period_index(c.server_ms, period),
{
    let server_ms = match server_time {
        Some(t) => if t > u64::MAX / 1000 {
            u64::MAX
        } else {
            t * 1000
        },
        None => local_now_ms,
    };
    OtpClock { server_ms, period_index: current_period_index(server_ms, period) }
}

/// The server time in milliseconds, `elapsed_ms` after a code arrived at
/// `server_ms`, saturating at `u64::MAX`.
pub open spec fn spec_server_clock_ms(server_ms: u64, elapsed_ms: u64) -> int {
    let t = server_ms as int + elapsed_ms as int;
    if t > u64::MAX {
        u64::MAX as int
    } else {
        t
    }
}

pub fn server_clock_ms(server_ms: u64, elapsed_ms: u64) -> (r: u64)
    ensures
        r == spec_server_clock_ms(server_ms, elapsed_ms),
{
    if server_ms > u64::MAX - elapsed_ms {
        u64::MAX
    } else {
        server_ms + elapsed_ms
    }
}

/// The milliseconds left in the current period at server time `now_ms`.
pub open spec fn spec_remaining_ms(now_ms: u64, period: u32) -> int {
    period as int * 1000 - now_ms as int % (period as int * 1000)
}

/// The whole seconds shown as left, rounded up.
pub open spec fn spec_seconds_left(now_ms: u64, period: u32) -> int {
    (spec_remaining_ms(now_ms, period) + 999) / 1000
}

/// The period that server time `now_ms` falls in.
pub open spec fn spec_current_period_index(now_ms: u64, period: u32) -> int {
    now_ms as int / (period as int * 1000)
}

/// The countdown shown for a time-based code at server time `now_ms`.
pub fn seconds_left(now_ms: u64, period: u32) -> (r: u64)
    requires
        period > 0,
    ensures
        r == spec_seconds_left(now_ms, period),
{
    let p = period as u64 * 1000;
    let remaining = p - now_ms % p;
    (remaining + 999) / 1000
}

/// The milliseconds left in the current period, for the progress bar.
pub fn remaining_ms(now_ms: u64, period: u32) -> (r: u64)
    requires
        period > 0,
    ensures
        r == spec_remaining_ms(now_ms, period),
{
    let p = period as u64 * 1000;
    p - now_ms % p
}

/// The period that server time `now_ms` falls in.
pub fn current_period_index(now_ms: u64, period: u32) -> (r: u64)
    requires
        period > 0,
    ensures
        r == spec_current_period_index(now_ms, period),
{
    now_ms / (period as u64 * 1000)
}

/// Whether a new code is fetched: a new period has begun since the code
/// shown was fetched, and no request is under way.
pub fn needs_refresh(now_ms: u64, period: u32, fetched_period_index: u64, request_in_progress: bool) -> (r:
    bool)
    requires
        period > 0,
    ensures
        r == (!request_in_progress && spec_current_period_index(now_ms, period)
            > fetched_period_index),
{
    !request_in_progress && current_period_index(now_ms, period) > fetched_period_index
}

/// Starts a request for a code unless one is under way: answers whether it
/// was started, and marks a request as under way.
pub fn begin_otp_request(in_progress: &mut bool) -> (started: bool)
    ensures
        started == !*old(in_progress),
        *final(in_progress),
{
    if *in_progress {
        false
    } else {
        *in_progress = true;
        true
    }
}

/// Whether codes are time-based does not depend on the case of the type:
/// two types with the same lower-case form agree, and a type counts as
/// time-based exactly when its lower-case form is `totp`.
pub proof fn law_totp_ignores_case(a: Seq<char>, b: Seq<char>)
    ensures
        lowercase(a) == lowercase(b) ==> spec_is_totp(a) == spec_is_totp(b),
        spec_is_totp(a) == (lowercase(a) == seq!['t', 'o', 't', 'p']),
{
}

/// The countdown of a time-based code is always between one second and the
/// whole period.
pub proof fn law_countdown_within_period(now_ms: u64, period: u32)
    requires
        period > 0,
    ensures
        1 <= spec_seconds_left(now_ms, period) <= period,
        0 < spec_remaining_ms(now_ms, period) <= period as int * 1000,
{
    let p = period as int * 1000;
    vstd::arithmetic::div_mod::lemma_mod_pos_bound(now_ms as int, p);
    let rem = spec_remaining_ms(now_ms, period);
    assert(1 <= rem <= p);
    assert((rem + 999) / 1000 >= 1);
    assert((rem + 999) / 1000 <= period) by {
        vstd::arithmetic::div_mod::lemma_div_is_ordered(rem + 999, p + 999, 1000);
        assert((p + 999) / 1000 == period as int);
    }
}

/// A code is kept until its period runs out: while less time has passed
/// since it arrived than was left in its period, the clock is still in the
/// period it was fetched for.
pub proof fn law_code_kept_until_period_ends(server_ms: u64, elapsed_ms: u64, period: u32)
    requires
        period > 0,
        elapsed_ms < spec_remaining_ms(server_ms, period),
        server_ms as int + elapsed_ms as int <= u64::MAX,
    ensures
        spec_current_period_index(spec_server_clock_ms(server_ms, elapsed_ms) as u64, period)
            == spec_current_period_index(server_ms, period),
{
    let p = period as int * 1000;
    let q = server_ms as int / p;
    let r = server_ms as int % p;
    vstd::arithmetic::div_mod::lemma_fundamental_div_mod(server_ms as int, p);
    vstd::arithmetic::div_mod::lemma_mod_pos_bound(server_ms as int, p);
    assert(0 <= r + elapsed_ms < p);
    vstd::arithmetic::div_mod::lemma_div_multiples_vanish_fancy(q, r + elapsed_ms as int, p);
    assert(p * q + (r + elapsed_ms as int) == server_ms as int + elapsed_ms as int);
}

} // verus!
