//! Helpers for accept loops of network servers: a limit on the number of
//! live connections that never drops an admitted one, and a retry policy
//! that turns a fallible stream of accepted connections into an infallible
//! one.
//!
//! * [`counter`]: the shared counter of live tokens and its limit, with the
//!   rules for admitting, releasing and waking a parked consumer.
//! * [`retry`]: the retry-sleep state machine: transient failures are
//!   dropped, the others pause the stream for a cool-down.
//! * [`log`]: the adapter that hands non-transient failures to a logger.
//! * [`error`]: the classification of accept failures and the operator
//!   hints for the known resource-exhaustion errors.

pub mod counter;
pub mod error;
pub mod log;
pub mod retry;
pub mod wakeup;
pub mod wrapper_types;

pub use error::{error_hint, is_transient_error};

