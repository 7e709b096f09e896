use vstd::prelude::*;

use crate::error::{is_transient_error, is_transient_kind, AcceptError};

verus! {

/// Whether an element that a source produced is a failure worth a warning:
/// one that is not transient.
pub open spec fn is_warning<I>(item: Result<I, AcceptError>) -> bool {
    match item {
        Ok(_) => false,
        Err(e) => !is_transient_kind(e.kind),
    }
}

/// Returns whether the logger of a [`LogWarnings`] adapter is called for
/// `item`: for every non-transient failure, and for nothing else.
pub fn needs_warning<I>(item: &Result<I, AcceptError>) -> (r: bool)
    ensures
        r == is_warning(*item),
{
    match item {
        Ok(_) => false,
        Err(e) => !is_transient_error(e),
    }
}

/// A stream adapter that hands every non-transient failure to a logger and
/// passes every element on unchanged.
#[derive(Debug)]
pub struct LogWarnings<S, F> {
    stream: S,
    logger: F,
}

impl<S, F> LogWarnings<S, F> {
    /// The stream that the adapter pulls from.
    pub closed spec fn stream(&self) -> S {
        self.stream
    }

    /// The callback that receives each non-transient failure.
    pub closed spec fn logger(&self) -> F {
        self.logger
    }

    /// Wraps `stream`, handing its non-transient failures to `f`.
    pub fn new(stream: S, f: F) -> (r: LogWarnings<S, F>)
        ensures
            r.stream() == stream,
            r.logger() == f,
    {
        LogWarnings { stream, logger: f }
    }

    /// Acquires a reference to the underlying stream that this adapter is
    /// pulling from.
    pub fn get_ref(&self) -> (r: &S)
        ensures
            *r == self.stream(),
    {
        &self.stream
    }

    /// Acquires a mutable reference to the underlying stream that this
    /// adapter is pulling from.
    pub fn get_mut(&mut self) -> (r: &mut S)
        ensures
            *r == old(self).stream(),
            final(self).stream() == *final(r),
            final(self).logger() == old(self).logger(),
    {
        &mut self.stream
    }

    /// Acquires a mutable reference to the logger.
    pub fn logger_mut(&mut self) -> (r: &mut F)
        ensures
            *r == old(self).logger(),
            final(self).logger() == *final(r),
            final(self).stream() == old(self).stream(),
    {
        &mut self.logger
    }

    /// Consumes this adapter, returning the underlying stream.
    pub fn into_inner(self) -> (r: S)
        ensures
            r == self.stream(),
    {
        self.stream
    }
}

} // verus!
