use super::text::{duration_text, duration_text_of_micros};
use vstd::prelude::*;

verus! {

/// Truncating integer division (rounds toward zero), as Rust's `/` does on
/// signed integers. `d` must not be zero.
pub open spec fn trunc_div(x: int, d: int) -> int {
    if x == 0 {
        0
    } else if x > 0 && d > 0 {
        x / d
    } else if x < 0 && d < 0 {
        (-x) / (-d)
    } else if x < 0 {
        -((-x) / d)
    } else {
        -(x / (-d))
    }
}

/// Whether `x` fits in the range of `i32`.
pub open spec fn in_i32(x: int) -> bool {
    i32::MIN <= x <= i32::MAX
}

/// Represents a signed time span used by the API surface.
///
/// `Duration` is backed by `i32` and can represent the range
/// [-35′47.483648″, +35′47.483647″] with microsecond precision.
#[derive(Clone, Copy, PartialEq, Eq, Structural, PartialOrd, Ord, Hash, Debug)]
pub struct Duration {
    micros: i32,
}

impl View for Duration {
    type V = int;

    /// The number of microseconds of the time span.
    closed spec fn view(&self) -> int {
        self.micros as int
    }
}

impl Default for Duration {
    fn default() -> (d: Self)
        ensures
            d@ == 0,
    {
        Duration { micros: 0 }
    }
}

/// Checked addition: the sum must not overflow.
impl core::ops::Add for Duration {
    type Output = Duration;

    fn add(self, rhs: Duration) -> (r: Duration) {
        Duration { micros: self.micros + rhs.micros }
    }
}

impl vstd::std_specs::ops::AddSpecImpl for Duration {
    open spec fn obeys_add_spec() -> bool {
        true
    }

    open spec fn add_req(self, rhs: Duration) -> bool {
        in_i32(self@ + rhs@)
    }

    open spec fn add_spec(self, rhs: Duration) -> Duration {
        Duration::of_micros(self@ + rhs@)
    }
}

/// Checked subtraction: the difference must not overflow.
impl core::ops::Sub for Duration {
    type Output = Duration;

    fn sub(self, rhs: Duration) -> (r: Duration) {
        Duration { micros: self.micros - rhs.micros }
    }
}

impl vstd::std_specs::ops::SubSpecImpl for Duration {
    open spec fn obeys_sub_spec() -> bool {
        true
    }

    open spec fn sub_req(self, rhs: Duration) -> bool {
        in_i32(self@ - rhs@)
    }

    open spec fn sub_spec(self, rhs: Duration) -> Duration {
        Duration::of_micros(self@ - rhs@)
    }
}

/// Checked multiplication by a scalar: the product must not overflow.
impl core::ops::Mul<i32> for Duration {
    type Output = Duration;

    fn mul(self, rhs: i32) -> (r: Duration) {
        Duration { micros: self.micros * rhs }
    }
}

impl vstd::std_specs::ops::MulSpecImpl<i32> for Duration {
    open spec fn obeys_mul_spec() -> bool {
        true
    }

    open spec fn mul_req(self, rhs: i32) -> bool {
        in_i32(self@ * rhs)
    }

    open spec fn mul_spec(self, rhs: i32) -> Duration {
        Duration::of_micros(self@ * rhs)
    }
}

/// Checked multiplication of a scalar by a duration: the product must not
/// overflow.
impl core::ops::Mul<Duration> for i32 {
    type Output = Duration;

    fn mul(self, rhs: Duration) -> (r: Duration) {
        Duration { micros: rhs.micros * self }
    }
}

impl vstd::std_specs::ops::MulSpecImpl<Duration> for i32 {
    open spec fn obeys_mul_spec() -> bool {
        true
    }

    open spec fn mul_req(self, rhs: Duration) -> bool {
        in_i32(rhs@ * self)
    }

    open spec fn mul_spec(self, rhs: Duration) -> Duration {
        Duration::of_micros(rhs@ * self)
    }
}

/// Checked division by a scalar (rounding toward zero): the divisor must not
/// be zero and the quotient must not overflow.
impl core::ops::Div<i32> for Duration {
    type Output = Duration;

    fn div(self, rhs: i32) -> (r: Duration) {
        let q = self.checked_div(rhs).unwrap();
        proof {
            Duration::lemma_of_micros(trunc_div(self@, rhs as int));
            Duration::lemma_view_injective(q, Duration::of_micros(trunc_div(self@, rhs as int)));
        }
        q
    }
}

impl vstd::std_specs::ops::DivSpecImpl<i32> for Duration {
    open spec fn obeys_div_spec() -> bool {
        true
    }

    open spec fn div_req(self, rhs: i32) -> bool {
        rhs != 0 && in_i32(trunc_div(self@, rhs as int))
    }

    open spec fn div_spec(self, rhs: i32) -> Duration {
        Duration::of_micros(trunc_div(self@, rhs as int))
    }
}

/// The sum of the first `k` durations of `ds`, in microseconds.
pub open spec fn prefix_sum(ds: Seq<Duration>, k: int) -> int
    decreases k,
{
    if k <= 0 {
        0
    } else {
        prefix_sum(ds, k - 1) + ds[k - 1]@
    }
}

/// What `core::time::Duration::from_micros` returns.
pub uninterp spec fn core_duration_of_micros(micros: u64) -> core::time::Duration;

/// Calls `core::time::Duration::from_micros`, which is deterministic and
/// total; the contract claims nothing more of it.
#[verifier::external_body]
pub(crate) fn core_duration_from_micros(micros: u64) -> (r: core::time::Duration)
    ensures
        r == core_duration_of_micros(micros),
{
    core::time::Duration::from_micros(micros)
}

/// Calls `core::time::Duration::as_micros`. The contract claims that it gives
/// back the whole microseconds from which `from_micros` made the duration.
#[verifier::external_body]
fn core_duration_as_micros(value: &core::time::Duration) -> (r: u128)
    ensures
        forall|m: u64| #[trigger] core_duration_of_micros(m) == *value ==> r == m,
{
    value.as_micros()
}

/// What `chrono::TimeDelta::microseconds` returns.
pub uninterp spec fn time_delta_of_micros(micros: i64) -> chrono::TimeDelta;

#[verifier::external_type_specification]
#[verifier::external_body]
pub struct ExTimeDelta(chrono::TimeDelta);

/// Calls `chrono::TimeDelta::microseconds`, which is deterministic and total
/// on `i64`; the contract claims nothing more of it.
#[verifier::external_body]
fn time_delta_microseconds(micros: i64) -> (r: chrono::TimeDelta)
    ensures
        r == time_delta_of_micros(micros),
{
    chrono::TimeDelta::microseconds(micros)
}

/// Calls `chrono::TimeDelta::num_microseconds`. The contract claims that it
/// gives back the microseconds from which `microseconds` made the time delta
/// (no value of `i64` overflows there).
#[verifier::external_body]
fn time_delta_num_microseconds(value: &chrono::TimeDelta) -> (r: Option<i64>)
    ensures
        forall|m: i64| #[trigger] time_delta_of_micros(m) == *value ==> r == Some(m),
{
    value.num_microseconds()
}

/// Error type returned when a checked duration type conversion fails.
#[derive(Debug, Clone, Copy, PartialEq, Eq, Structural)]
pub struct TryFromDurationError {
    _private: u8,
}

impl Duration {
    /// The duration of `micros` microseconds, where that is in the range of
    /// `i32`.
    pub closed spec fn of_micros(micros: int) -> Duration {
        Duration { micros: micros as i32 }
    }

    /// The duration made of a number of microseconds in the range of `i32`
    /// spans that number.
    pub broadcast proof fn lemma_of_micros(micros: int)
        requires
            in_i32(micros),
        ensures
            (#[trigger] Duration::of_micros(micros))@ == micros,
    {
    }

    /// Every `Duration` holds a value in the range of `i32`.
    pub broadcast proof fn lemma_range(d: Duration)
        ensures
            in_i32(#[trigger] d@),
    {
    }

    /// Two durations are equal exactly when they span the same number of
    /// microseconds.
    pub proof fn lemma_view_injective(a: Duration, b: Duration)
        requires
            a@ == b@,
        ensures
            a == b,
    {
    }

    /// An empty interval.
    pub fn zero() -> (d: Duration)
        ensures
            d@ == 0,
    {
        Duration { micros: 0 }
    }

    /// The largest representable positive time span (+35′47.483647″).
    pub fn max_value() -> (d: Duration)
        ensures
            d@ == i32::MAX,
    {
        Duration { micros: i32::MAX }
    }

    /// The largest representable negative time span (-35′47.483648″).
    pub fn min_value() -> (d: Duration)
        ensures
            d@ == i32::MIN,
    {
        Duration { micros: i32::MIN }
    }

    /// Construct a new `Duration` from the specified number of microseconds.
    pub fn from_micros(micros: i32) -> (d: Duration)
        ensures
            d@ == micros,
    {
        Duration { micros }
    }

    /// Construct a new `Duration` from the specified number of milliseconds.
    ///
    /// `millis` must not overflow the representable range of `Duration`.
    pub fn from_millis(millis: i32) -> (d: Duration)
        requires
            in_i32(millis * 1000),
        ensures
            d@ == millis * 1000,
    {
        Duration { micros: millis * 1000 }
    }

    /// Construct a new `Duration` from the specified number of seconds.
    ///
    /// `secs` must not overflow the representable range of `Duration`.
    pub fn from_secs(secs: i32) -> (d: Duration)
        requires
            in_i32(secs * 1_000_000),
        ensures
            d@ == secs * 1_000_000,
    {
        Duration { micros: secs * 1_000_000 }
    }

    /// Get the total number of whole microseconds contained by this `Duration`.
    pub fn as_micros(self) -> (r: i32)
        ensures
            r == self@,
    {
        self.micros
    }

    /// Get the total number of whole milliseconds contained by this `Duration`
    /// (rounded toward zero).
    pub fn as_millis(self) -> (r: i32)
        ensures
            r == trunc_div(self@, 1000),
    {
        if self.micros >= 0 {
            self.micros / 1000
        } else {
            let m: i64 = -(self.micros as i64);
            -((m / 1000) as i32)
        }
    }

    /// Get the total number of whole seconds contained by this `Duration`
    /// (rounded toward zero).
    pub fn as_secs(self) -> (r: i32)
        ensures
            r == trunc_div(self@, 1_000_000),
    {
        if self.micros >= 0 {
            self.micros / 1_000_000
        } else {
            let m: i64 = -(self.micros as i64);
            -((m / 1_000_000) as i32)
        }
    }

    /// Return `true` if and only if `self` is positive.
    pub fn is_positive(self) -> (r: bool)
        ensures
            r == (self@ > 0),
    {
        self.micros > 0
    }

    /// Return `true` if and only if `self` is negative.
    pub fn is_negative(self) -> (r: bool)
        ensures
            r == (self@ < 0),
    {
        self.micros < 0
    }

    /// Multiply `self` by the specified value, returning `None` if the result
    /// overflows.
    pub fn checked_mul(self, other: i32) -> (r: Option<Duration>)
        ensures
            r is Some <==> in_i32(self@ * other),
            r is Some ==> r->0@ == self@ * other,
    {
        if let Some(x) = self.micros.checked_mul(other) {
            Some(Duration { micros: x })
        } else {
            None
        }
    }

    /// Divide `self` by the specified value (rounding toward zero), returning
    /// `None` if the result overflows or `other` is zero.
    pub fn checked_div(self, other: i32) -> (r: Option<Duration>)
        ensures
            r is Some <==> other != 0 && in_i32(trunc_div(self@, other as int)),
            r is Some ==> r->0@ == trunc_div(self@, other as int),
    {
        if let Some(x) = self.micros.checked_div(other) {
            Some(Duration { micros: x })
        } else {
            None
        }
    }

    /// Calculate the absolute value of `self`, returning `None` if
    /// `self` is the smallest representable value.
    pub fn checked_abs(self) -> (r: Option<Duration>)
        ensures
            r is Some <==> self@ != i32::MIN,
            r is Some ==> r->0@ == (if self@ < 0 { -self@ } else { self@ }),
    {
        if self.micros == i32::MIN {
            None
        } else if self.micros < 0 {
            Some(Duration { micros: -self.micros })
        } else {
            Some(self)
        }
    }

    /// Add the specified value to `self`, returning `None` if the result
    /// overflows.
    pub fn checked_add(self, other: Duration) -> (r: Option<Duration>)
        ensures
            r is Some <==> in_i32(self@ + other@),
            r is Some ==> r->0@ == self@ + other@,
    {
        if let Some(x) = self.micros.checked_add(other.micros) {
            Some(Duration { micros: x })
        } else {
            None
        }
    }

    /// Subtract the specified value from `self`, returning `None` if the
    /// result overflows.
    pub fn checked_sub(self, other: Duration) -> (r: Option<Duration>)
        ensures
            r is Some <==> in_i32(self@ - other@),
            r is Some ==> r->0@ == self@ - other@,
    {
        if let Some(x) = self.micros.checked_sub(other.micros) {
            Some(Duration { micros: x })
        } else {
            None
        }
    }

    /// Try to construct a `Duration` from a whole number of microseconds held
    /// in an `i64`. Returns an error if it overflows the representable range.
    pub fn try_from_micros_i64(micros: i64) -> (r: Result<Duration, TryFromDurationError>)
        ensures
            r is Ok <==> in_i32(micros as int),
            r is Ok ==> r->Ok_0@ == micros,
    {
        if micros < i32::MIN as i64 || micros > i32::MAX as i64 {
            Err(TryFromDurationError { _private: 0 })
        } else {
            Ok(Duration { micros: micros as i32 })
        }
    }

    /// Try to construct a `Duration` from a whole number of microseconds held
    /// in a `u128`. Returns an error if it overflows the representable range.
    pub fn try_from_micros_u128(micros: u128) -> (r: Result<Duration, TryFromDurationError>)
        ensures
            r is Ok <==> micros <= i32::MAX,
            r is Ok ==> r->Ok_0@ == micros,
    {
        if micros > i32::MAX as u128 {
            Err(TryFromDurationError { _private: 0 })
        } else {
            Ok(Duration { micros: micros as i32 })
        }
    }

    /// The number of microseconds of a non-negative `Duration` as `u64`, or an
    /// error if `self` represents a negative time span.
    pub fn try_into_micros_u64(self) -> (r: Result<u64, TryFromDurationError>)
        ensures
            r is Ok <==> self@ >= 0,
            r is Ok ==> r->Ok_0 == self@,
    {
        if self.micros < 0 {
            Err(TryFromDurationError { _private: 0 })
        } else {
            Ok(self.micros as u64)
        }
    }

    /// Try to construct a `Duration` from the specified
    /// `core::time::Duration`. Returns an error if it overflows the
    /// representable range of `Duration`. The sub-microsecond part is rounded
    /// by truncating.
    pub fn try_from_core_duration(value: core::time::Duration) -> (r: Result<Duration, TryFromDurationError>)
        ensures
            forall|m: u64|
                #[trigger] core_duration_of_micros(m) == value ==> {
                    &&& (r is Ok <==> m <= i32::MAX)
                    &&& (r is Ok ==> r->Ok_0@ == m)
                },
    {
        let micros = core_duration_as_micros(&value);
        Self::try_from_micros_u128(micros)
    }

    /// Try to construct a `core::time::Duration` from `self`. Returns an
    /// error if `self` represents a negative time span.
    pub fn try_into_core_duration(self) -> (r: Result<core::time::Duration, TryFromDurationError>)
        ensures
            r is Ok <==> self@ >= 0,
            r is Ok ==> r->Ok_0 == core_duration_of_micros(self@ as u64),
    {
        match self.try_into_micros_u64() {
            Ok(micros) => Ok(core_duration_from_micros(micros)),
            Err(e) => Err(e),
        }
    }

    /// Construct a `Duration` from an optional number of microseconds held in
    /// an `i64`. Returns an error if there is none or it overflows the
    /// representable range of `Duration`.
    pub fn try_from_micros_opt(micros: Option<i64>) -> (r: Result<Duration, TryFromDurationError>)
        ensures
            r is Ok <==> (micros is Some && in_i32(micros->0 as int)),
            r is Ok ==> r->Ok_0@ == micros->0,
    {
        match micros {
            Some(m) => Self::try_from_micros_i64(m),
            None => Err(TryFromDurationError { _private: 0 }),
        }
    }

    /// Try to construct a `Duration` from the specified `chrono::TimeDelta`.
    /// Returns an error if it overflows the representable range of
    /// `Duration`. The sub-microsecond part is rounded by truncating.
    pub fn try_from_time_delta(value: chrono::TimeDelta) -> (r: Result<Duration, TryFromDurationError>)
        ensures
            forall|m: i64|
                #[trigger] time_delta_of_micros(m) == value ==> {
                    &&& (r is Ok <==> in_i32(m as int))
                    &&& (r is Ok ==> r->Ok_0@ == m)
                },
    {
        let micros = time_delta_num_microseconds(&value);
        Self::try_from_micros_opt(micros)
    }

    /// Construct a `chrono::TimeDelta` from `self`.
    pub fn into_time_delta(self) -> (r: chrono::TimeDelta)
        ensures
            r == time_delta_of_micros(self@ as i64),
    {
        time_delta_microseconds(self.micros as i64)
    }

    /// Converting a `Duration` to a `chrono::TimeDelta` and back gives back
    /// the `Duration`; so does converting a non-negative one to a
    /// `core::time::Duration` and back.
    pub proof fn lemma_conversion_round_trip(d: Duration)
        ensures
            in_i32((d@ as i64) as int),
            ((d@ as i64) as int) == d@,
            d@ >= 0 ==> ((d@ as u64) as int) == d@ && (d@ as u64) <= i32::MAX,
    {
        Self::lemma_range(d);
    }

    /// The sum of the durations, added from the first to the last; no
    /// partial sum may overflow.
    pub fn sum(durations: &Vec<Duration>) -> (r: Duration)
        requires
            forall|k: int| 0 <= k <= durations@.len() ==> in_i32(#[trigger] prefix_sum(durations@, k)),
        ensures
            r@ == prefix_sum(durations@, durations@.len() as int),
    {
        let mut acc = Duration::zero();
        let mut i: usize = 0;
        while i < durations.len()
            invariant
                i <= durations@.len(),
                acc@ == prefix_sum(durations@, i as int),
                forall|k: int| 0 <= k <= durations@.len() ==> in_i32(#[trigger] prefix_sum(durations@, k)),
            decreases durations@.len() - i,
        {
            assert(in_i32(prefix_sum(durations@, i + 1)));
            acc = acc + durations[i];
            i += 1;
        }
        acc
    }

    /// The debug text of the duration: a minus sign for a negative span,
    /// then the text of its length (see [`duration_text`]).
    pub fn debug_text(self) -> (r: String)
        ensures
            r@ == if self@ < 0 {
                seq!['-'] + duration_text((-self@) as nat)
            } else {
                duration_text(self@ as nat)
            },
    {
        let m: i64 = self.micros as i64;
        if m < 0 {
            let text = duration_text_of_micros((-m) as u64);
            let mut out = String::from_str("-");
            out.append(text.as_str());
            proof {
                reveal_strlit("-");
                assert(out@ =~= seq!['-'] + duration_text((-self@) as nat));
            }
            out
        } else {
            duration_text_of_micros(m as u64)
        }
    }

    /// Adding a duration and then subtracting it gives back the duration
    /// that was added to, whenever the addition does not overflow.
    pub proof fn lemma_add_sub_inverse(a: Duration, b: Duration)
        requires
            in_i32(a@ + b@),
        ensures
            in_i32((a@ + b@) - b@),
            (a@ + b@) - b@ == a@,
    {
        Self::lemma_range(a);
    }
}

} // verus!
