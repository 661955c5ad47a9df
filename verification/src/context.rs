//! Decisions taken while a user interface is displayed: which cursor it is
//! built with, which cache it starts from, and what is left behind for the
//! next frame.

use vstd::prelude::*;
use std::collections::HashMap;
use std::hash::Hash;
use vstd::std_specs::hash::obeys_key_model;
use crate::render::{DidDraw, FrameStep};
use crate::systems::IcedEventQueue;

verus! {

broadcast use vstd::std_specs::hash::group_hash_axioms;

/// The cursor a user interface is built and drawn with.
#[derive(Clone, Copy, Debug, PartialEq, Eq)]
pub enum Cursor<P> {
    /// The cursor is over the interface, at this position.
    Available(P),
    /// There is no cursor over the interface.
    Unavailable,
}

/// The cursor of a frame: the mouse cursor when the window has one,
/// otherwise the touch position when there is one, otherwise none.
pub fn display_cursor<P>(window_cursor: Option<P>, touch: Option<P>) -> (cursor: Cursor<P>)
    ensures
        cursor == match window_cursor {
            Some(position) => Cursor::Available(position),
            None => match touch {
                Some(position) => Cursor::Available(position),
                None => Cursor::Unavailable,
            },
        },
{
    match window_cursor {
        Some(position) => Cursor::Available(position),
        None => match touch {
            Some(position) => Cursor::Available(position),
            None => Cursor::Unavailable,
        },
    }
}

/// The user interface caches, one per message type `K` names. An entry
/// is `None` only while its cache is taken out by a display in progress.
pub struct IcedCache<K, C> {
    cache: HashMap<K, Option<C>>,
}

impl<K, C> View for IcedCache<K, C> {
    type V = Map<K, Option<C>>;

    closed spec fn view(&self) -> Map<K, Option<C>> {
        self.cache@
    }
}

/// Every entry of `caches` holds its cache.
pub open spec fn all_settled<K, C>(caches: Map<K, Option<C>>) -> bool {
    forall|id: K| #[trigger] caches.contains_key(id) ==> caches[id] is Some
}

impl<K, C> IcedCache<K, C> {
    /// No display is in progress: every entry holds its cache.
    pub open spec fn settled(self) -> bool {
        all_settled(self@)
    }
}

impl<K: Copy + Eq + Hash, C> IcedCache<K, C> {
    /// No cache yet.
    pub fn new() -> (cache: Self)
        ensures
            cache@ == Map::<K, Option<C>>::empty(),
    {
        IcedCache { cache: HashMap::new() }
    }

    /// Whether the cache of the message type `id` is taken out by a display
    /// that has not restored it.
    pub fn is_taken(&self, id: &K) -> (taken: bool)
        requires
            obeys_key_model::<K>(),
        ensures
            taken == (self@.contains_key(*id) && self@[*id] is None),
    {
        match self.cache.get(id) {
            Some(entry) => entry.is_none(),
            None => false,
        }
    }

    /// Takes the cache of the message type `id` out for a display: the one
    /// stored, or `fresh` for a type that has none yet. The entry is left
    /// empty until the cache is restored.
    pub fn take(&mut self, id: K, fresh: C) -> (cache: C)
        requires
            obeys_key_model::<K>(),
            old(self)@.contains_key(id) ==> old(self)@[id] is Some,
        ensures
            cache == (if old(self)@.contains_key(id) { old(self)@[id]->Some_0 } else { fresh }),
            final(self)@ == old(self)@.insert(id, None),
    {
        let stored = self.cache.remove(&id);
        self.cache.insert(id, None);
        match stored {
            Some(Some(cache)) => cache,
            _ => fresh,
        }
    }

    /// Stores `cache` as the cache of the message type `id`.
    pub fn restore(&mut self, id: K, cache: C)
        requires
            obeys_key_model::<K>(),
        ensures
            final(self)@ == old(self)@.insert(id, Some(cache)),
    {
        self.cache.insert(id, Some(cache));
    }
}

/// Ends a display: the cache the interface was turned back into is stored
/// for its message type, the frame's events are consumed, and the frame
/// is marked as drawn.
pub fn finish_display<K: Copy + Eq + Hash, C, E>(
    caches: &mut IcedCache<K, C>,
    id: K,
    cache: C,
    events: &mut IcedEventQueue<E>,
    did_draw: &mut DidDraw,
)
    requires
        obeys_key_model::<K>(),
    ensures
        final(caches)@ == old(caches)@.insert(id, Some(cache)),
        final(events).0@ == Seq::<E>::empty(),
        *final(did_draw) == old(did_draw).after(FrameStep::Display),
{
    events.clear();
    caches.restore(id, cache);
    did_draw.mark();
}

/// A display takes a cache out and returns the one the interface was
/// turned back into: when no display was in progress before, none is after,
/// the other message types keep their caches, and the next display of the
/// same message type starts from the returned cache.
pub proof fn lemma_display_returns_cache<K, C>(caches: Map<K, Option<C>>, id: K, cache: C)
    requires
        all_settled(caches),
    ensures
        all_settled(caches.insert(id, None).insert(id, Some(cache))),
        forall|other: K| other != id ==> #[trigger] caches.insert(id, None).insert(id, Some(cache)).contains_key(other)
            == caches.contains_key(other),
        forall|other: K| other != id && caches.contains_key(other) ==> #[trigger] caches.insert(id, None).insert(id, Some(cache))[other]
            == caches[other],
        caches.insert(id, None).insert(id, Some(cache)).contains_key(id),
        caches.insert(id, None).insert(id, Some(cache))[id] == Some(cache),
{
}

} // verus!
