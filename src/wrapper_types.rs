//! The public wrapper types that the library uses.
//!
//! Usually they need not be imported, but they have to be public.
pub use crate::error::ErrorHint;
pub use crate::log::LogWarnings;
