//! Small helpers: policy constants, the clock and identifier generation.

use rand::rngs::ThreadRng;
use rand::Rng;
use std::time::{Duration, SystemTime, SystemTimeError, UNIX_EPOCH};
use vstd::prelude::*;
use vstd::string::StrSliceExecFns;

verus! {

/// A point in time as the operating system reports it. Nothing of its inside
/// is visible to proofs.
#[verifier::external_type_specification]
#[verifier::external_body]
pub struct ExSystemTime(SystemTime);

/// The error of `SystemTime::duration_since`: the second point in time is
/// later than the first.
#[verifier::external_type_specification]
#[verifier::external_body]
pub struct ExSystemTimeError(SystemTimeError);

/// `SystemTime::now` reads the system clock. Nothing is claimed of the value.
pub assume_specification[ std::time::SystemTime::now ]() -> (t: SystemTime)
;

/// Calls `SystemTime::duration_since` with `UNIX_EPOCH`: the time elapsed from
/// the Unix epoch to `t`, or an error when `t` lies before the epoch. Nothing
/// is claimed of the value.
#[verifier::external_body]
fn since_epoch(t: &SystemTime) -> (r: Result<Duration, SystemTimeError>) {
    t.duration_since(UNIX_EPOCH)
}

/// `Duration::as_secs` gives the whole seconds of a duration. Nothing is
/// claimed of the value.
pub assume_specification[ std::time::Duration::as_secs ](d: &Duration) -> (s: u64)
;

/// `Duration::as_micros` gives a duration in whole microseconds. Nothing is
/// claimed of the value.
pub assume_specification[ std::time::Duration::as_micros ](d: &Duration) -> (us: u128)
;

/// The random number generator of the current thread, of the crate `rand`.
/// Nothing of its inside is visible to proofs.
#[verifier::external_type_specification]
#[verifier::external_body]
pub struct ExThreadRng(ThreadRng);

/// `rand::thread_rng` hands out the generator of the current thread, which the
/// system seeds; where the system has no seed to give, it panics. Nothing is
/// claimed of the generator.
pub assume_specification[ rand::thread_rng ]() -> (rng: ThreadRng)
;

/// Calls `Rng::gen_range` with the range `0..bound`: a random index below
/// `bound`. The range must not be empty, or the call panics.
#[verifier::external_body]
fn random_below(rng: &mut ThreadRng, bound: usize) -> (r: usize)
    requires
        bound > 0,
    ensures
        r < bound,
{
    rng.gen_range(0..bound)
}

/// Whether the two texts are the same, character by character.
pub(crate) fn str_eq(a: &str, b: &str) -> (r: bool)
    ensures
        r == (a@ == b@),
{
    let n = a.unicode_len();
    if b.unicode_len() != n {
        return false;
    }
    let mut i: usize = 0;
    while i < n
        invariant
            i <= n,
            n == a@.len(),
            n == b@.len(),
            forall|j: int| 0 <= j < i ==> a@[j] == b@[j],
        decreases n - i,
    {
        if a.get_char(i) != b.get_char(i) {
            return false;
        }
        i = i + 1;
    }
    assert(a@ =~= b@);
    true
}

/// `String::push` appends one character to the end of a string.
pub assume_specification[ std::string::String::push ](s: &mut String, c: char)
    ensures
        final(s)@ == old(s)@.push(c),
;

/// The characters that identifiers are made of, in the order of their value.
pub const URL_ID_CHARSET: &'static str = "0123456789abcdef";

/// Whether `c` is a lower-case hexadecimal digit.
pub open spec fn is_hex_digit(c: char) -> bool {
    ('0' <= c && c <= '9') || ('a' <= c && c <= 'f')
}

/// Whether `s` is made of lower-case hexadecimal digits only.
pub open spec fn is_hex_id(s: Seq<char>) -> bool {
    forall|i: int| 0 <= i < s.len() ==> is_hex_digit(#[trigger] s[i])
}

/// The hexadecimal digit of value `idx`.
pub fn hex_digit(idx: usize) -> (c: char)
    requires
        idx < 16,
    ensures
        c == URL_ID_CHARSET@[idx as int],
        is_hex_digit(c),
{
    proof {
        reveal_strlit("0123456789abcdef");
    }
    URL_ID_CHARSET.get_char(idx)
}

/// A random identifier of `length` lower-case hexadecimal digits.
pub fn generate_hex_id(length: u32) -> (id: String)
    ensures
        id@.len() == length,
        is_hex_id(id@),
{
    let mut rng = rand::thread_rng();
    let mut id = String::new();
    let mut n: u32 = 0;
    while n < length
        invariant
            n <= length,
            id@.len() == n,
            is_hex_id(id@),
        decreases length - n,
    {
        let idx = random_below(&mut rng, 16);
        let c = hex_digit(idx);
        id.push(c);
        n = n + 1;
    }
    id
}

/// Number of seconds in a day.
pub open spec fn spec_day_seconds() -> int {
    24int * 60 * 60
}

/// Number of seconds in a week.
pub open spec fn spec_week_seconds() -> int {
    7 * spec_day_seconds()
}

/// The time elapsed since the Unix epoch, or `None` when the system clock is
/// set before it.
fn current_duration() -> (r: Option<Duration>) {
    let t = SystemTime::now();
    match since_epoch(&t) {
        Ok(d) => Some(d),
        Err(_) => None,
    }
}

/// Microseconds since the Unix epoch; 0 when the system clock is set before it.
pub fn time_us() -> (r: u128) {
    match current_duration() {
        Some(d) => d.as_micros(),
        None => 0,
    }
}

/// Seconds since the Unix epoch, never negative: 0 when the system clock is
/// set before the epoch, and `i64::MAX` when it is further away than an `i64`
/// can tell.
pub fn now() -> (r: i64)
    ensures
        r >= 0,
{
    let elapsed: Option<u64> = match current_duration() {
        Some(d) => Some(d.as_secs()),
        None => None,
    };
    epoch_seconds(elapsed)
}

/// The time that a reading of the clock tells, in seconds since the Unix
/// epoch. `elapsed` is the whole seconds from the epoch to the reading, or
/// `None` where the reading lies before the epoch: that reads as the epoch
/// itself, and a reading further away than an `i64` can tell as `i64::MAX`.
pub open spec fn spec_epoch_seconds(elapsed: Option<u64>) -> int {
    match elapsed {
        Some(secs) => if secs > i64::MAX {
            i64::MAX as int
        } else {
            secs as int
        },
        None => 0,
    }
}

/// The time that a reading of the clock tells, in seconds since the Unix
/// epoch: see `spec_epoch_seconds`.
pub fn epoch_seconds(elapsed: Option<u64>) -> (r: i64)
    ensures
        r == spec_epoch_seconds(elapsed),
        r >= 0,
{
    match elapsed {
        Some(secs) => {
            if secs > i64::MAX as u64 {
                i64::MAX
            } else {
                secs as i64
            }
        },
        None => 0,
    }
}

/// The default number of reads of a link.
pub fn one() -> (r: i64)
    ensures
        r == 1,
{
    1
}

/// The length of a day, in seconds.
pub fn day_seconds() -> (r: i64)
    ensures
        r == spec_day_seconds(),
        r == 86_400,
{
    24 * 60 * 60
}

/// The length of a week, in seconds: the default lifetime of a link.
pub fn week_seconds() -> (r: i64)
    ensures
        r == spec_week_seconds(),
        r == 604_800,
{
    7 * day_seconds()
}

/// Whether `x` is zero.
pub fn is_zero(x: &i64) -> (r: bool)
    ensures
        r == (*x == 0),
{
    *x == 0
}

} // verus!
