use super::duration::{core_duration_from_micros, core_duration_of_micros, in_i32, Duration};
use super::text::{duration_text, duration_text_of_micros};
use vstd::prelude::*;

verus! {

/// The number of distinct values of `u64`.
pub open spec fn u64_range() -> int {
    0x1_0000_0000_0000_0000
}

/// Represents a timestamp used by the API surface.
///
/// The origin is application-defined. If an application desires to represent a
/// calender time using `Time`, it's recommended to use the midnight UTC on
/// January 1, 1970 (a.k.a. “UNIX timestamp”) as the origin.
///
/// `Time` is backed by `u64` and can represent up to 213,503,982 days with
/// microsecond precision.
#[derive(Clone, Copy, PartialEq, Eq, Structural, PartialOrd, Ord, Hash, Debug)]
pub struct Time {
    micros: u64,
}

impl View for Time {
    type V = int;

    /// The number of microseconds since the origin.
    closed spec fn view(&self) -> int {
        self.micros as int
    }
}

impl Default for Time {
    fn default() -> (t: Self)
        ensures
            t@ == 0,
    {
        Time { micros: 0 }
    }
}

/// Error type returned when a checked timestamp type conversion fails.
#[derive(Debug, Clone, Copy, PartialEq, Eq, Structural)]
pub struct TryFromDateTimeError {
    _private: u8,
}

impl TryFromDateTimeError {
    /// The value of the error, the same wherever it is raised.
    pub closed spec fn value_spec() -> TryFromDateTimeError {
        TryFromDateTimeError { _private: 0 }
    }
}

impl Default for TryFromDateTimeError {
    fn default() -> (r: Self)
        ensures
            r == TryFromDateTimeError::value_spec(),
    {
        TryFromDateTimeError { _private: 0 }
    }
}

/// The microseconds since the origin that a UNIX timestamp made of `secs`
/// whole seconds and `subsec_micros` microseconds stands for, or `None` where
/// that is outside the representable range of `Time`.
pub open spec fn time_of_timestamp(secs: int, subsec_micros: int) -> Option<int> {
    if secs >= 0 && secs * 1_000_000 + subsec_micros <= u64::MAX {
        Some(secs * 1_000_000 + subsec_micros)
    } else {
        None
    }
}

/// Advance the time by a duration, wrapping around at the ends of the
/// representable range.
impl core::ops::Add<Duration> for Time {
    type Output = Time;

    fn add(self, rhs: Duration) -> (r: Time) {
        self.wrapping_add(rhs)
    }
}

impl vstd::std_specs::ops::AddSpecImpl<Duration> for Time {
    open spec fn obeys_add_spec() -> bool {
        true
    }

    open spec fn add_req(self, rhs: Duration) -> bool {
        true
    }

    open spec fn add_spec(self, rhs: Duration) -> Time {
        Time::of_micros((self@ + rhs@) % u64_range())
    }
}

/// Put back the time by a duration, wrapping around at the ends of the
/// representable range.
impl core::ops::Sub<Duration> for Time {
    type Output = Time;

    fn sub(self, rhs: Duration) -> (r: Time) {
        self.wrapping_sub(rhs)
    }
}

impl vstd::std_specs::ops::SubSpecImpl<Duration> for Time {
    open spec fn obeys_sub_spec() -> bool {
        true
    }

    open spec fn sub_req(self, rhs: Duration) -> bool {
        true
    }

    open spec fn sub_spec(self, rhs: Duration) -> Time {
        Time::of_micros((self@ - rhs@) % u64_range())
    }
}

impl Time {
    /// The timestamp `micros` microseconds after the origin, where that is
    /// in the range of `u64`.
    pub closed spec fn of_micros(micros: int) -> Time {
        Time { micros: micros as u64 }
    }

    /// The timestamp made of a number of microseconds in the range of `u64`
    /// is that number of microseconds after the origin.
    pub broadcast proof fn lemma_of_micros(micros: int)
        requires
            0 <= micros <= u64::MAX,
        ensures
            (#[trigger] Time::of_micros(micros))@ == micros,
    {
    }

    /// Every `Time` holds a value in the range of `u64`.
    pub broadcast proof fn lemma_range(t: Time)
        ensures
            0 <= #[trigger] t@ <= u64::MAX,
    {
    }

    /// Two timestamps are equal exactly when they are the same number of
    /// microseconds away from the origin.
    pub proof fn lemma_view_injective(a: Time, b: Time)
        requires
            a@ == b@,
        ensures
            a == b,
    {
    }

    /// Zero (the origin).
    pub fn zero() -> (t: Time)
        ensures
            t@ == 0,
    {
        Time { micros: 0 }
    }

    /// The largest representable timestamp.
    pub fn max_value() -> (t: Time)
        ensures
            t@ == u64::MAX,
    {
        Time { micros: u64::MAX }
    }

    /// Construct a new `Time` from the specified number of microseconds.
    pub fn from_micros(micros: u64) -> (t: Time)
        ensures
            t@ == micros,
    {
        Time { micros }
    }

    /// Construct a new `Time` from the specified number of milliseconds.
    ///
    /// `millis` must not overflow the representable range of `Time`.
    pub fn from_millis(millis: u64) -> (t: Time)
        requires
            millis * 1000 <= u64::MAX,
        ensures
            t@ == millis * 1000,
    {
        Time { micros: millis * 1000 }
    }

    /// Construct a new `Time` from the specified number of seconds.
    ///
    /// `secs` must not overflow the representable range of `Time`.
    pub fn from_secs(secs: u64) -> (t: Time)
        requires
            secs * 1_000_000 <= u64::MAX,
        ensures
            t@ == secs * 1_000_000,
    {
        Time { micros: secs * 1_000_000 }
    }

    /// Get the total number of whole microseconds contained in the time span
    /// between this `Time` and the origin.
    pub fn as_micros(self) -> (r: u64)
        ensures
            r == self@,
    {
        self.micros
    }

    /// Get the total number of whole milliseconds contained in the time span
    /// between this `Time` and the origin.
    pub fn as_millis(self) -> (r: u64)
        ensures
            r == self@ / 1000,
    {
        self.micros / 1000
    }

    /// Get the total number of whole seconds contained in the time span
    /// between this `Time` and the origin.
    pub fn as_secs(self) -> (r: u64)
        ensures
            r == self@ / 1_000_000,
    {
        self.micros / 1_000_000
    }

    /// Get the duration since the origin as `core::time::Duration`.
    pub fn core_duration_since_origin(self) -> (r: core::time::Duration)
        ensures
            r == core_duration_of_micros(self@ as u64),
    {
        core_duration_from_micros(self.micros)
    }

    /// Get the duration since the specified timestamp as
    /// `core::time::Duration`. Returns `None` if `self` < `reference`.
    pub fn core_duration_since(self, reference: Time) -> (r: Option<core::time::Duration>)
        ensures
            r == (if self@ >= reference@ {
                Some(core_duration_of_micros((self@ - reference@) as u64))
            } else {
                None
            }),
    {
        if self.micros >= reference.micros {
            Some(core_duration_from_micros(self.micros - reference.micros))
        } else {
            None
        }
    }

    /// Get the duration since the specified timestamp as `Duration`. Returns
    /// `None` if the result overflows the representable range of `Duration`.
    pub fn duration_since(self, reference: Time) -> (r: Option<Duration>)
        ensures
            r is Some <==> in_i32(self@ - reference@),
            r is Some ==> r->0@ == self@ - reference@,
    {
        let diff: i128 = self.micros as i128 - reference.micros as i128;
        if diff < i32::MIN as i128 || diff > i32::MAX as i128 {
            None
        } else {
            Some(Duration::from_micros(diff as i32))
        }
    }

    /// Advance the time by `duration` and return the result, wrapping around
    /// at the ends of the representable range.
    pub fn wrapping_add(&self, duration: Duration) -> (r: Time)
        ensures
            r@ == (self@ + duration@) % u64_range(),
    {
        let d: i64 = duration.as_micros() as i64;
        let micros: u64 = self.micros.wrapping_add_signed(d);
        proof {
            Self::lemma_wrap_once(self@ + duration@);
        }
        Time { micros }
    }

    /// Put back the time by `duration` and return the result, wrapping around
    /// at the ends of the representable range.
    pub fn wrapping_sub(&self, duration: Duration) -> (r: Time)
        ensures
            r@ == (self@ - duration@) % u64_range(),
    {
        let d: i64 = duration.as_micros() as i64;
        let micros: u64 = self.micros.wrapping_add_signed(-d);
        proof {
            Self::lemma_wrap_once(self@ - duration@);
        }
        Time { micros }
    }

    /// A value that lies at most one range away from `u64`'s range wraps
    /// around by one range.
    proof fn lemma_wrap_once(x: int)
        requires
            -u64_range() <= x < 2 * u64_range(),
        ensures
            x < 0 ==> x % u64_range() == x + u64_range(),
            0 <= x <= u64::MAX ==> x % u64_range() == x,
            x > u64::MAX ==> x % u64_range() == x - u64_range(),
    {
        let m = u64_range();
        if x < 0 {
            vstd::arithmetic::div_mod::lemma_fundamental_div_mod_converse(x, m, -1, x + m);
        } else if x <= u64::MAX {
            vstd::arithmetic::div_mod::lemma_fundamental_div_mod_converse(x, m, 0, x);
        } else {
            vstd::arithmetic::div_mod::lemma_fundamental_div_mod_converse(x, m, 1, x - m);
        }
    }

    /// Advancing a timestamp by a duration and then putting it back by the
    /// same duration gives back the timestamp, wrapping or not.
    pub proof fn lemma_wrapping_add_sub(t: Time, d: Duration)
        ensures
            (((t@ + d@) % u64_range()) - d@) % u64_range() == t@,
            (((t@ - d@) % u64_range()) + d@) % u64_range() == t@,
    {
        let m = u64_range();
        Duration::lemma_range(d);
        Self::lemma_wrap_once(t@ + d@);
        Self::lemma_wrap_once(t@ - d@);
        let a = (t@ + d@) % m;
        let b = (t@ - d@) % m;
        Self::lemma_wrap_once(a - d@);
        Self::lemma_wrap_once(b + d@);
    }

    /// Where advancing a timestamp by a duration does not leave the
    /// representable range, the duration since the old timestamp is that
    /// duration.
    pub proof fn lemma_wrapping_add_duration_since(t: Time, d: Duration)
        requires
            0 <= t@ + d@ <= u64::MAX,
        ensures
            (t@ + d@) % u64_range() - t@ == d@,
            in_i32((t@ + d@) % u64_range() - t@),
    {
        Duration::lemma_range(d);
        Self::lemma_wrap_once(t@ + d@);
    }

    /// The debug text of the timestamp: the text of the time span since the
    /// origin (see [`duration_text`]).
    pub fn debug_text(self) -> (r: String)
        ensures
            r@ == duration_text(self@ as nat),
    {
        duration_text_of_micros(self.micros)
    }

    /// The whole seconds and the sub-second nanoseconds of the UNIX timestamp
    /// that `self` stands for.
    pub fn timestamp_parts(self) -> (r: (i64, u32))
        ensures
            r.0 == self@ / 1_000_000,
            r.1 == (self@ % 1_000_000) * 1000,
    {
        let secs: u64 = self.micros / 1_000_000;
        let subsec: u64 = self.micros % 1_000_000;
        assert(secs <= 18_446_744_073_709) by {
            assert(self.micros <= u64::MAX);
        }
        (secs as i64, (subsec as u32) * 1000)
    }

    /// Construct a `Time` from the whole seconds and the sub-second
    /// microseconds of a UNIX timestamp. Returns an error if the result
    /// overflows the representable range of `Time`.
    pub fn from_timestamp_parts(secs: i64, subsec_micros: u32) -> (r: Result<Time, TryFromDateTimeError>)
        ensures
            r is Ok <==> time_of_timestamp(secs as int, subsec_micros as int) is Some,
            r is Ok ==> r->Ok_0@ == time_of_timestamp(secs as int, subsec_micros as int)->0,
            r is Err ==> r->Err_0 == TryFromDateTimeError::value_spec(),
    {
        if secs < 0 {
            return Err(TryFromDateTimeError { _private: 0 });
        }
        let secs: u64 = secs as u64;
        match secs.checked_mul(1_000_000) {
            Some(x) => match x.checked_add(subsec_micros as u64) {
                Some(micros) => Ok(Time { micros }),
                None => Err(TryFromDateTimeError { _private: 0 }),
            },
            None => Err(TryFromDateTimeError { _private: 0 }),
        }
    }

    /// The UNIX timestamp made of `timestamp_parts` stands for the same
    /// `Time` again: converting a `Time` to a date-time and back gives back
    /// the `Time`.
    pub proof fn lemma_timestamp_parts_round_trip(t: Time)
        ensures
            ((t@ % 1_000_000) * 1000) < 1_000_000_000,
            time_of_timestamp(t@ / 1_000_000, ((t@ % 1_000_000) * 1000) / 1000) == Some(t@),
    {
        let q = t@ / 1_000_000;
        let r = t@ % 1_000_000;
        vstd::arithmetic::div_mod::lemma_fundamental_div_mod(t@, 1_000_000);
        assert((r * 1000) / 1000 == r);
    }
}

} // verus!
