//! Two small, stateless operations on plain values.
//!
//! * [`classifier`] labels an integer by the first of the divisors 4, 3 and 2
//!   that divides it.
//! * [`scanner`] finds where the first word of a text ends: the offset of its
//!   first space byte.
//!
//! Neither operation can fail, and neither reads or writes anything but its
//! argument and its result.

pub mod classifier;
pub mod scanner;

pub use classifier::{classify, Label};
pub use scanner::{first_word, first_word_boundary, SPACE};
