mod duration;
mod text;
mod timestamp;
pub use self::duration::{
    core_duration_of_micros, in_i32, prefix_sum, time_delta_of_micros, trunc_div, Duration,
    TryFromDurationError,
};
pub use self::text::{decimal, digit_char, duration_text, fraction, padded, trimmed};
pub use self::timestamp::{
    time_of_timestamp, u64_range, Time, TryFromDateTimeError,
};
use vstd::prelude::*;

verus! {

} // verus!
