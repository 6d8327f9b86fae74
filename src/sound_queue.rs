use vstd::prelude::*;

verus! {

/// A store of realized audio sources, each reached by the dense handle that
/// `push_sound` returned for it: the first push gets handle 0, the next 1,
/// and so on. Entries are handed out as clones and are only dropped all
/// together, by `clear`.
pub struct SoundQueue<S> {
    sounds: Vec<S>,
}

impl<S> View for SoundQueue<S> {
    type V = Seq<S>;

    /// The sources in the order of their handles.
    closed spec fn view(&self) -> Seq<S> {
        self.sounds@
    }
}

impl<S> SoundQueue<S> {
    /// An empty registry.
    pub fn new() -> (r: SoundQueue<S>)
        ensures
            r@ == Seq::<S>::empty(),
    {
        SoundQueue { sounds: Vec::new() }
    }

    /// The number of handles issued since the registry was made or last cleared.
    pub fn len(&self) -> (r: usize)
        ensures
            r == self@.len(),
    {
        self.sounds.len()
    }
}

/// Stores `v` and returns its handle, the number of sources stored before it.
pub fn push_sound<S>(queue: &mut SoundQueue<S>, v: S) -> (h: usize)
    requires
        old(queue)@.len() < usize::MAX,
    ensures
        h == old(queue)@.len(),
        final(queue)@ == old(queue)@.push(v),
{
    let h = queue.sounds.len();
    queue.sounds.push(v);
    h
}

/// A fresh copy of the source behind handle `idx`; the registry keeps its own.
pub fn clone_sound<S: Clone>(queue: &SoundQueue<S>, idx: usize) -> (r: S)
    requires
        idx < queue@.len(),
    ensures
        cloned(queue@[idx as int], r),
{
    queue.sounds[idx].clone()
}

/// Drops every stored source; all handles issued so far become invalid and
/// the next push gets handle 0 again.
pub fn clear<S>(queue: &mut SoundQueue<S>)
    ensures
        final(queue)@ == Seq::<S>::empty(),
{
    queue.sounds.clear();
}

/// The contents of a registry holding `q` after `push_sound` was called with
/// each of `items`, in order.
pub open spec fn after_pushes<S>(q: Seq<S>, items: Seq<S>) -> Seq<S>
    decreases items.len(),
{
    if items.len() == 0 {
        q
    } else {
        after_pushes(q, items.drop_last()).push(items.last())
    }
}

/// Pushing `items` onto a registry holding `q` appends them in order.
pub proof fn lemma_after_pushes_appends<S>(q: Seq<S>, items: Seq<S>)
    ensures
        after_pushes(q, items) == q + items,
    decreases items.len(),
{
    if items.len() > 0 {
        lemma_after_pushes_appends(q, items.drop_last());
        assert(q + items =~= (q + items.drop_last()).push(items.last()));
    }
}

/// Handles are dense and follow the order of the pushes: on a registry that
/// held `q`, the push of `items[n]` returns handle `q.len() + n` (the length
/// before it), and that handle then reaches `items[n]`, whatever is pushed
/// after it.
pub proof fn lemma_push_handles<S>(q: Seq<S>, items: Seq<S>, n: int)
    requires
        0 <= n < items.len(),
    ensures
        after_pushes(q, items.take(n)).len() == q.len() + n,
        after_pushes(q, items)[q.len() + n] == items[n],
{
    lemma_after_pushes_appends(q, items.take(n));
    lemma_after_pushes_appends(q, items);
}

/// A new or cleared registry (both hold nothing) hands out handles from 0:
/// the Nth push returns N-1 and that handle reaches the Nth source pushed.
pub proof fn lemma_handles_from_empty<S>(items: Seq<S>, n: int)
    requires
        0 <= n < items.len(),
    ensures
        after_pushes(Seq::<S>::empty(), items.take(n)).len() == n,
        after_pushes(Seq::<S>::empty(), items)[n] == items[n],
{
    lemma_push_handles(Seq::<S>::empty(), items, n);
}

} // verus!
