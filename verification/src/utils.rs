//! Utility
mod sort;
mod vec;
mod veclike;
pub use self::sort::{is_sorted_by_key, sort_unstable_by, SortKey};
pub use self::vec::{vec_position, ComptimeVec, MAX_LEN};
pub use self::veclike::VecLike;
