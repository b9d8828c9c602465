use vstd::prelude::*;

verus! {

/// A single-slot, latest-value channel between tasks.
///
/// A producer overwrites whatever is pending; a consumer may look at the
/// pending value without consuming it and clear the slot once it has acted.
/// Nothing is ever queued: only the most recent value is kept.
pub struct Signal<T> {
    slot: Option<T>,
}

impl<T> Signal<T> {
    /// The value waiting to be consumed, if any.
    pub closed spec fn pending(&self) -> Option<T> {
        self.slot
    }

    /// An empty slot.
    pub fn new() -> (r: Self)
        ensures
            r.pending() is None,
    {
        Signal { slot: None }
    }

    /// Publishes `value`, replacing any value that was not consumed yet.
    pub fn signal(&mut self, value: T)
        ensures
            final(self).pending() == Some(value),
    {
        self.slot = Some(value);
    }

    /// Whether a value is pending.
    pub fn is_signaled(&self) -> (r: bool)
        ensures
            r == self.pending() is Some,
    {
        self.slot.is_some()
    }

    /// The pending value, left in place.
    pub fn peek(&self) -> (r: Option<&T>)
        ensures
            r matches Some(v) ==> self.pending() == Some(*v),
            r is None <==> self.pending() is None,
    {
        self.slot.as_ref()
    }

    /// Clears the slot without handing out its value.
    pub fn reset(&mut self)
        ensures
            final(self).pending() is None,
    {
        self.slot = None;
    }

    /// Hands out the pending value and clears the slot.
    pub fn take(&mut self) -> (r: Option<T>)
        ensures
            r == old(self).pending(),
            final(self).pending() is None,
    {
        self.slot.take()
    }
}

/// What a slot holds after each of `values` was published in turn with
/// [`Signal::signal`], starting from `start`: the first value goes in, then
/// the rest follow it.
pub open spec fn after_signals<T>(start: Option<T>, values: Seq<T>) -> Option<T>
    decreases values.len(),
{
    if values.len() == 0 {
        start
    } else {
        after_signals(Some(values[0]), values.drop_first())
    }
}

/// The most recent value is never lost: after any non-empty run of
/// `signal` calls, the pending value is the last one published, whatever
/// was pending before.
pub proof fn lemma_latest_value_kept<T>(start: Option<T>, values: Seq<T>)
    requires
        values.len() > 0,
    ensures
        after_signals(start, values) == Some(values.last()),
    decreases values.len(),
{
    if values.len() > 1 {
        lemma_latest_value_kept(Some(values[0]), values.drop_first());
        assert(values.drop_first().last() == values.last());
    } else {
        assert(after_signals(Some(values[0]), values.drop_first()) == Some(values[0]));
    }
}

} // verus!
