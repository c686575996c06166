use vstd::prelude::*;

verus! {

/// A single-slot overwrite cell: the most recent value published and not yet
/// taken. Publishing drops any older unread value; there is no queue.
pub struct LatestSlot<T> {
    value: Option<T>,
}

/// What the slot holds after `v` is published into a slot holding `prev`.
pub open spec fn published<T>(prev: Option<T>, v: T) -> Option<T> {
    Some(v)
}

/// What the slot holds after each value of `vs` is published in turn.
pub open spec fn published_all<T>(prev: Option<T>, vs: Seq<T>) -> Option<T>
    decreases vs.len(),
{
    if vs.len() == 0 {
        prev
    } else {
        published(published_all(prev, vs.drop_last()), vs.last())
    }
}

impl<T> View for LatestSlot<T> {
    type V = Option<T>;

    closed spec fn view(&self) -> Option<T> {
        self.value
    }
}

impl<T> LatestSlot<T> {
    /// An empty slot.
    pub fn new() -> (r: Self)
        ensures
            r@ == None::<T>,
    {
        LatestSlot { value: None }
    }

    /// Overwrites the slot with `v`, dropping any unread value.
    pub fn publish(&mut self, v: T)
        ensures
            final(self)@ == published(old(self)@, v),
    {
        self.value = Some(v);
    }

    /// Takes the value out, leaving the slot empty.
    pub fn take(&mut self) -> (r: Option<T>)
        ensures
            r == old(self)@,
            final(self)@ == None::<T>,
    {
        self.value.take()
    }

    /// The value held, left in place.
    pub fn peek(&self) -> (r: Option<&T>)
        ensures
            r is Some <==> self@ is Some,
            r is Some ==> *r->0 == self@->0,
    {
        self.value.as_ref()
    }

    pub fn is_empty(&self) -> (r: bool)
        ensures
            r == (self@ is None),
    {
        self.value.is_none()
    }
}

/// Last write wins: after any non-empty run of publications, the slot holds
/// the most recently published value, whatever it held before, so a `take`
/// never yields an older one.
pub proof fn lemma_latest_wins<T>(prev: Option<T>, vs: Seq<T>)
    requires
        vs.len() > 0,
    ensures
        published_all(prev, vs) == Some(vs.last()),
{
}

} // verus!
