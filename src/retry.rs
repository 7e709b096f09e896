use vstd::prelude::*;

use crate::error::{is_transient_error, is_transient_kind, AcceptError};

verus! {

/// What the adapter got when it pulled from its source.
#[derive(Debug)]
pub enum Pulled<T> {
    /// The source produced a value.
    Item(T),
    /// The source reported a failure.
    Failed(AcceptError),
    /// The source has ended.
    Exhausted,
}

/// What the adapter does after a pull.
#[derive(Debug)]
pub enum RetryAction<T> {
    /// Hand the value to the consumer.
    Emit(T),
    /// Drop the failure and pull again at once.
    PullNext,
    /// Start the cool-down timer; pull again only when it has elapsed.
    Sleep,
    /// The stream ends.
    Finish,
}

/// The action that follows a pull.
pub open spec fn action_for<T>(p: Pulled<T>) -> RetryAction<T> {
    match p {
        Pulled::Item(v) => RetryAction::Emit(v),
        Pulled::Failed(e) => if is_transient_kind(e.kind) {
            RetryAction::PullNext
        } else {
            RetryAction::Sleep
        },
        Pulled::Exhausted => RetryAction::Finish,
    }
}

/// The state of the retry-sleep adapter: draining its source, or suspended
/// until the cool-down after a non-transient failure has elapsed.
#[derive(Debug)]
pub struct RetrySleep {
    suspended: bool,
}

impl RetrySleep {
    /// Whether the adapter waits for its cool-down timer.
    pub closed spec fn suspended(&self) -> bool {
        self.suspended
    }

    /// A new adapter, draining its source.
    pub fn new() -> (r: RetrySleep)
        ensures
            !r.suspended(),
    {
        RetrySleep { suspended: false }
    }

    /// Whether the adapter waits for its cool-down timer, and so must not
    /// pull from its source.
    pub fn is_suspended(&self) -> (r: bool)
        ensures
            r == self.suspended(),
    {
        self.suspended
    }

    /// The cool-down has elapsed: the adapter drains its source again.
    pub fn timer_elapsed(&mut self)
        ensures
            !final(self).suspended(),
    {
        self.suspended = false;
    }

    /// The start of a poll of the adapter; `elapsed` tells whether the
    /// cool-down timer has elapsed. Returns whether the adapter may pull from
    /// its source. While it is suspended and the timer has not elapsed it
    /// makes no pull and stays suspended; an elapsed timer ends the
    /// suspension.
    pub fn may_pull(&mut self, elapsed: bool) -> (pull: bool)
        ensures
            pull == (!old(self).suspended() || elapsed),
            final(self).suspended() == !pull,
    {
        if self.suspended && !elapsed {
            false
        } else {
            self.suspended = false;
            true
        }
    }

    /// Decides what follows a pull: a value is emitted, a transient failure
    /// is dropped with no delay, a non-transient one suspends the adapter for
    /// the cool-down, and the end of the source ends the stream.
    pub fn on_pulled<T>(&mut self, p: Pulled<T>) -> (r: RetryAction<T>)
        requires
            !old(self).suspended(),
        ensures
            r == action_for(p),
            final(self).suspended() == (r is Sleep),
    {
        match p {
            Pulled::Item(v) => RetryAction::Emit(v),
            Pulled::Failed(e) => {
                if is_transient_error(&e) {
                    RetryAction::PullNext
                } else {
                    self.suspended = true;
                    RetryAction::Sleep
                }
            },
            Pulled::Exhausted => RetryAction::Finish,
        }
    }
}

/// What a consumer of the adapter observes: a value, or a cool-down pause.
#[derive(Debug, PartialEq, Eq, Structural)]
pub enum Emitted<T> {
    Item(T),
    Cooldown,
}

/// What one element of the source gives the consumer.
pub open spec fn emitted_for<T>(r: Result<T, AcceptError>) -> Seq<Emitted<T>> {
    match r {
        Ok(v) => seq![Emitted::Item(v)],
        Err(e) => if is_transient_kind(e.kind) {
            Seq::empty()
        } else {
            seq![Emitted::Cooldown]
        },
    }
}

/// What the adapter gives its consumer for a finite source, in order.
pub open spec fn retry_trace<T>(source: Seq<Result<T, AcceptError>>) -> Seq<Emitted<T>>
    decreases source.len(),
{
    if source.len() == 0 {
        Seq::empty()
    } else {
        retry_trace(source.drop_last()) + emitted_for(source.last())
    }
}

/// Runs the adapter over a finite source and returns what its consumer
/// observes: the values, in order, with a cool-down before whatever follows
/// each non-transient failure.
pub fn drain<T: Copy>(source: &Vec<Result<T, AcceptError>>) -> (out: Vec<Emitted<T>>)
    ensures
        out@ == retry_trace(source@),
{
    let mut state = RetrySleep::new();
    let mut out: Vec<Emitted<T>> = Vec::new();
    let mut i: usize = 0;
    while i < source.len()
        invariant
            i <= source.len(),
            !state.suspended(),
            out@ == retry_trace(source@.subrange(0, i as int)),
        decreases source.len() - i,
    {
        let pulled = match source[i] {
            Ok(v) => Pulled::Item(v),
            Err(e) => Pulled::Failed(e),
        };
        let ghost prefix = source@.subrange(0, i as int);
        assert(source@.subrange(0, i + 1).drop_last() =~= prefix);
        match state.on_pulled(pulled) {
            RetryAction::Emit(v) => {
                out.push(Emitted::Item(v));
            },
            RetryAction::Sleep => {
                out.push(Emitted::Cooldown);
                state.timer_elapsed();
            },
            _ => {},
        }
        proof {
            assert(out@ =~= retry_trace(prefix) + emitted_for(source@[i as int]));
        }
        i = i + 1;
    }
    assert(source@.subrange(0, source.len() as int) =~= source@);
    out
}

/// What the adapter gives for two sources in a row is what it gives for the
/// first, then what it gives for the second.
pub proof fn lemma_trace_append<T>(a: Seq<Result<T, AcceptError>>, b: Seq<Result<T, AcceptError>>)
    ensures
        retry_trace(a + b) == retry_trace(a) + retry_trace(b),
    decreases b.len(),
{
    if b.len() == 0 {
        assert(a + b =~= a);
        assert(retry_trace(a) + retry_trace(b) =~= retry_trace(a));
    } else {
        assert((a + b).drop_last() =~= a + b.drop_last());
        assert((a + b).last() == b.last());
        lemma_trace_append(a, b.drop_last());
        assert(retry_trace(a + b) =~= retry_trace(a) + retry_trace(b));
    }
}

/// A transient failure anywhere in the source emits nothing and delays
/// nothing: the consumer observes the same as if it were not there.
pub proof fn lemma_transient_is_silent<T>(
    pre: Seq<Result<T, AcceptError>>,
    e: AcceptError,
    post: Seq<Result<T, AcceptError>>,
)
    requires
        is_transient_kind(e.kind),
    ensures
        retry_trace(pre + seq![Err(e)] + post) == retry_trace(pre) + retry_trace(post),
{
    let one = seq![Err::<T, AcceptError>(e)];
    lemma_trace_append(pre + one, post);
    lemma_trace_append(pre, one);
    assert(one.drop_last() =~= Seq::<Result<T, AcceptError>>::empty());
    assert(retry_trace(one.drop_last()) =~= Seq::<Emitted<T>>::empty());
    assert(one.last() == Err::<T, AcceptError>(e));
    assert(retry_trace(one) =~= Seq::<Emitted<T>>::empty());
    assert(retry_trace(pre) + retry_trace(one) =~= retry_trace(pre));
}

/// A non-transient failure followed at once by a value: the value reaches
/// the consumer only after a cool-down.
pub proof fn lemma_cooldown_before_value<T>(
    pre: Seq<Result<T, AcceptError>>,
    e: AcceptError,
    v: T,
    post: Seq<Result<T, AcceptError>>,
)
    requires
        !is_transient_kind(e.kind),
    ensures
        retry_trace(pre + seq![Err(e), Ok(v)] + post) == retry_trace(pre) + seq![
            Emitted::Cooldown,
            Emitted::Item(v),
        ] + retry_trace(post),
{
    let two = seq![Err::<T, AcceptError>(e), Ok(v)];
    lemma_trace_append(pre + two, post);
    lemma_trace_append(pre, two);
    assert(two.drop_last() =~= seq![Err::<T, AcceptError>(e)]);
    assert(two.drop_last().drop_last() =~= Seq::<Result<T, AcceptError>>::empty());
    assert(retry_trace(two.drop_last().drop_last()) =~= Seq::<Emitted<T>>::empty());
    assert(two.drop_last().last() == Err::<T, AcceptError>(e));
    assert(retry_trace(two.drop_last()) =~= seq![Emitted::<T>::Cooldown]);
    assert(two.last() == Ok::<T, AcceptError>(v));
    assert(retry_trace(two) =~= seq![Emitted::Cooldown, Emitted::Item(v)]);
}

} // verus!
