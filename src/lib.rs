//! Conversion of host integers into JSON integer literals under two
//! numeric-safety policies: the full 64-bit window, or the range of integers
//! that an IEEE-754 double holds exactly.
pub mod convert;
pub mod error;
pub mod host;
pub mod number;

pub use convert::{Int53Serializer, IntSerializer, Step, STRICT_INT_MAX, STRICT_INT_MIN};
pub use error::SerializeError;
pub use number::JsonInt;
