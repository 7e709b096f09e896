use vstd::prelude::*;

verus! {

/// The abstract state of a backpressure pair: how many tokens are alive,
/// the current limit, and whether a consumer is parked waiting for room.
pub ghost struct CounterView {
    pub active: nat,
    pub limit: nat,
    pub parked: bool,
}

impl CounterView {
    /// No consumer stays parked while there is room: a parked waiter is woken
    /// as soon as `active < limit` can hold again.
    /// Both numbers fit in a `usize`.
    pub open spec fn wf(self) -> bool {
        &&& self.parked ==> self.active >= self.limit
        &&& self.active <= usize::MAX
        &&& self.limit <= usize::MAX
    }

    /// Whether the counter lets a new admission through.
    pub open spec fn has_room(self) -> bool {
        self.active < self.limit
    }

    /// The state after a token is created. Creation always succeeds and
    /// never wakes anyone.
    pub open spec fn after_create(self) -> CounterView {
        CounterView { active: self.active + 1, ..self }
    }

    /// Whether releasing a token wakes the parked waiter: the count before
    /// the release equals the limit, so this release makes room.
    pub open spec fn release_wakes(self) -> bool {
        self.parked && self.active == self.limit
    }

    /// The state after a token is released.
    pub open spec fn after_release(self) -> CounterView {
        CounterView {
            active: (self.active - 1) as nat,
            limit: self.limit,
            parked: self.parked && !self.release_wakes(),
        }
    }

    /// Whether replacing the limit wakes the parked waiter: only a raise can.
    pub open spec fn limit_wakes(self, new_limit: nat) -> bool {
        self.parked && self.limit < new_limit
    }

    /// The state after the limit is replaced. No token is revoked.
    pub open spec fn after_set_limit(self, new_limit: nat) -> CounterView {
        CounterView {
            active: self.active,
            limit: new_limit,
            parked: self.parked && !self.limit_wakes(new_limit),
        }
    }

    /// The state after the consumer polls the counter: it stays as it is where
    /// there is room, and the consumer parks where there is none.
    pub open spec fn after_poll(self) -> CounterView {
        if self.has_room() {
            self
        } else {
            CounterView { parked: true, ..self }
        }
    }

    /// The state after the source was pulled, the poll having found room: a
    /// token is minted only where the source yielded an item.
    pub open spec fn after_pass(self, yielded: bool) -> CounterView {
        if yielded {
            self.after_create()
        } else {
            self
        }
    }

    /// One admission through the counter where the source yields an item:
    /// poll, and where there is room, pull the item and mint its token.
    pub open spec fn after_enter(self) -> CounterView {
        if self.has_room() {
            self.after_create()
        } else {
            self.after_poll()
        }
    }

    /// `n` admissions through the counter with no release in between.
    pub open spec fn after_entries(self, n: nat) -> CounterView
        decreases n,
    {
        if n == 0 {
            self
        } else {
            self.after_entries((n - 1) as nat).after_enter()
        }
    }

    /// The state after a run of entries, empty polls and releases. A release when no
    /// token is alive does nothing: only live tokens can be released.
    pub open spec fn after_steps(self, steps: Seq<CounterStep>) -> CounterView
        decreases steps.len(),
    {
        if steps.len() == 0 {
            self
        } else {
            let prev = self.after_steps(steps.drop_last());
            match steps.last() {
                CounterStep::Enter => prev.after_enter(),
                CounterStep::EmptyPoll => prev.after_poll(),
                CounterStep::Release => if prev.active > 0 {
                    prev.after_release()
                } else {
                    prev
                },
            }
        }
    }

    /// `n` token releases in a row.
    pub open spec fn after_releases(self, n: nat) -> CounterView
        decreases n,
    {
        if n == 0 {
            self
        } else {
            self.after_releases((n - 1) as nat).after_release()
        }
    }
}

/// One event on a backpressure pair.
#[derive(Clone, Copy, Debug, PartialEq, Eq, Structural)]
pub enum CounterStep {
    /// The consumer polls; where there is room the source yields an item,
    /// which gets its token.
    Enter,
    /// The consumer polls; where there is room the source yields nothing
    /// (it is pending or has ended), and no token is minted.
    EmptyPoll,
    /// A live token is released.
    Release,
}

/// Whether a counter with `active` live tokens and limit `limit` admits.
pub fn has_room(active: usize, limit: usize) -> (r: bool)
    ensures
        r == (active < limit),
{
    active < limit
}

/// Whether a release that found `old_active` live tokens must wake the
/// parked waiter, the limit being `limit`.
pub fn release_wakes(old_active: usize, limit: usize) -> (r: bool)
    ensures
        r == (old_active == limit),
{
    old_active == limit
}

/// Whether replacing the limit `old_limit` by `new_limit` must wake the
/// parked waiter.
pub fn limit_wakes(old_limit: usize, new_limit: usize) -> (r: bool)
    ensures
        r == (old_limit < new_limit),
{
    old_limit < new_limit
}

/// The shared counter of a backpressure pair, as one owner sees it: the
/// number of live tokens, the limit, and the single slot for a parked
/// consumer.
///
/// This is a sequential model of the pair: the stream adapters run the pair
/// on atomics and a waiter slot shared between tasks, and take from this
/// module only the decisions [`has_room`], [`release_wakes`] and
/// [`limit_wakes`]. The interleavings of those tasks are modelled in
/// [`crate::wakeup`].
#[derive(Debug)]
pub struct Counter {
    active: usize,
    limit: usize,
    parked: bool,
}

impl View for Counter {
    type V = CounterView;

    closed spec fn view(&self) -> CounterView {
        CounterView { active: self.active as nat, limit: self.limit as nat, parked: self.parked }
    }
}

impl Counter {
    /// A pair with no live token and the limit `initial_limit`.
    pub fn new(initial_limit: usize) -> (r: Counter)
        ensures
            r@ == (CounterView { active: 0, limit: initial_limit as nat, parked: false }),
            r@.wf(),
    {
        Counter { active: 0, limit: initial_limit, parked: false }
    }

    /// Creates a token. This always succeeds, whatever the limit.
    pub fn token(&mut self)
        requires
            old(self)@.wf(),
            old(self)@.active < usize::MAX,
        ensures
            final(self)@ == old(self)@.after_create(),
            final(self)@.wf(),
    {
        self.active = self.active + 1;
    }

    /// Releases a token; returns whether the parked waiter was woken.
    pub fn release(&mut self) -> (woke: bool)
        requires
            old(self)@.wf(),
            old(self)@.active > 0,
        ensures
            woke == old(self)@.release_wakes(),
            final(self)@ == old(self)@.after_release(),
            final(self)@.wf(),
    {
        let old_active = self.active;
        self.active = self.active - 1;
        if release_wakes(old_active, self.limit) && self.parked {
            self.parked = false;
            true
        } else {
            false
        }
    }

    /// Replaces the limit; returns whether the parked waiter was woken.
    ///
    /// A raise takes effect at once. A lowering revokes no token: the counter
    /// stays closed until enough tokens are released.
    pub fn set_limit(&mut self, new_limit: usize) -> (woke: bool)
        requires
            old(self)@.wf(),
        ensures
            woke == old(self)@.limit_wakes(new_limit as nat),
            final(self)@ == old(self)@.after_set_limit(new_limit as nat),
            final(self)@.wf(),
    {
        let old_limit = self.limit;
        self.limit = new_limit;
        if limit_wakes(old_limit, new_limit) && self.parked {
            self.parked = false;
            true
        } else {
            false
        }
    }

    /// The number of live tokens.
    pub fn get_active_tokens(&self) -> (r: usize)
        ensures
            r == self@.active,
    {
        self.active
    }

    /// The current limit.
    pub fn limit(&self) -> (r: usize)
        ensures
            r == self@.limit,
    {
        self.limit
    }

    /// Whether a consumer is parked waiting for room.
    pub fn is_parked(&self) -> (r: bool)
        ensures
            r == self@.parked,
    {
        self.parked
    }

    /// Polls for capacity: returns true where there is room; otherwise parks
    /// the consumer and returns false.
    pub fn has_capacity(&mut self) -> (ready: bool)
        requires
            old(self)@.wf(),
        ensures
            ready == old(self)@.has_room(),
            final(self)@ == old(self)@.after_poll(),
            final(self)@.wf(),
    {
        if has_room(self.active, self.limit) {
            true
        } else {
            self.parked = true;
            false
        }
    }

    /// The step of a stream adapter after a poll found room: hands on what
    /// the source yielded, and mints a token only where it yielded an item.
    /// Where the source is pending or has ended, the count is unchanged.
    pub fn pass_item<T>(&mut self, pulled: Option<T>) -> (r: Option<T>)
        requires
            old(self)@.wf(),
            old(self)@.has_room(),
        ensures
            r == pulled,
            final(self)@ == old(self)@.after_pass(pulled is Some),
            final(self)@.wf(),
    {
        if pulled.is_some() {
            self.token();
        }
        pulled
    }
}

/// Where tokens are minted only for items that passed a poll with room,
/// the number of live tokens never exceeds the limit: from a state within
/// the limit, every run of entries, empty polls and releases stays within
/// it.
pub proof fn lemma_counter_bounds_live_tokens(g: CounterView, steps: Seq<CounterStep>)
    requires
        g.wf(),
        g.active <= g.limit,
    ensures
        g.after_steps(steps).active <= g.limit,
        g.after_steps(steps).limit == g.limit,
        g.after_steps(steps).wf(),
    decreases steps.len(),
{
    if steps.len() > 0 {
        lemma_counter_bounds_live_tokens(g, steps.drop_last());
    }
}

/// Entries with no release in between fill the counter up to its limit: `n`
/// entries from `active` live tokens leave `min(active + n, limit)` alive.
pub proof fn lemma_entries_saturate(g: CounterView, n: nat)
    requires
        g.wf(),
        g.active <= g.limit,
    ensures
        g.after_entries(n).active == if g.active + n <= g.limit {
            g.active + n
        } else {
            g.limit
        },
        g.after_entries(n).limit == g.limit,
        g.after_entries(n).wf(),
    decreases n,
{
    if n > 0 {
        lemma_entries_saturate(g, (n - 1) as nat);
    }
}

/// `k` releases of live tokens lower the count by `k` and keep the limit.
pub proof fn lemma_releases_count_down(g: CounterView, k: nat)
    requires
        g.wf(),
        k <= g.active,
    ensures
        g.after_releases(k).active == g.active - k,
        g.after_releases(k).limit == g.limit,
        g.after_releases(k).wf(),
    decreases k,
{
    if k > 0 {
        lemma_releases_count_down(g, (k - 1) as nat);
    }
}

/// Lowering the limit below the number of live tokens revokes none of them,
/// and admission stays closed until releases bring the count under the new
/// limit.
pub proof fn lemma_lowering_keeps_tokens(g: CounterView, new_limit: nat, k: nat)
    requires
        g.wf(),
        new_limit < g.active,
        k <= g.active,
    ensures
        g.after_set_limit(new_limit).active == g.active,
        g.after_set_limit(new_limit).wf(),
        !g.after_set_limit(new_limit).has_room(),
        g.after_set_limit(new_limit).after_releases(k).active == g.active - k,
        g.after_set_limit(new_limit).after_releases(k).has_room() <==> g.active - k < new_limit,
{
    lemma_releases_count_down(g.after_set_limit(new_limit), k);
}

/// Raising the limit while a consumer is parked wakes it, with no token
/// released; it then finds room wherever fewer tokens than the new limit
/// are alive.
pub proof fn lemma_raise_wakes_parked(g: CounterView, new_limit: nat)
    requires
        g.wf(),
        g.parked,
        g.limit < new_limit,
    ensures
        g.limit_wakes(new_limit),
        !g.after_set_limit(new_limit).parked,
        g.after_set_limit(new_limit).active == g.active,
        g.after_set_limit(new_limit).has_room() <==> g.active < new_limit,
{
}

/// Creating a token and releasing it at once leaves the count and the limit
/// as they were, and no consumer parked while there is room.
pub proof fn lemma_token_round_trip(g: CounterView)
    requires
        g.wf(),
    ensures
        g.after_create().after_release().active == g.active,
        g.after_create().after_release().limit == g.limit,
        g.after_create().after_release().wf(),
        g.after_create().after_release().parked ==> g.parked,
{
}

} // verus!
