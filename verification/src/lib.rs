//! Reading and rendering of `xsd:dateTime` values.
//!
//! A text is read with the canonical ISO 8601 grammar first and, where that
//! grammar rejects it, with a short list of tolerated variants. Whatever offset
//! the text carries, the value that comes out is an instant on the UTC timeline.

pub mod entry;
pub mod error;
pub mod laws;
pub mod lenient;
pub mod strict;
pub mod text;
pub mod value;

pub use entry::consume;
pub use error::{ParseFailure, TimeError};
pub use value::Time;
