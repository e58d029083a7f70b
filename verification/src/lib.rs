//! Bisection over totally ordered 64-bit domains.
//!
//! A caller hides a value behind a judge that answers, for any candidate,
//! whether the hidden value is less than, equal to or greater than it. The
//! integer search finds the hidden `i64`; the float search reuses it through
//! an order-preserving renumbering of binary64 bit patterns.

pub mod binary64;
pub mod bits;
pub mod float;
pub mod guesser;
pub mod integer;
pub mod probes;

pub use binary64::Binary64;
pub use bits::{to_float_bits, to_index};
pub use float::{guess_float, search_float, search_float_counted};
pub use guesser::{Guesser, Ranked};
pub use integer::{guess_integer, search_integer, search_integer_counted};
