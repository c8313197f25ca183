//! The generational arena behind every resource kind.
//!
//! Slots live in a `slotmap::SlotMap`. Its keys are handled here as their
//! 64-bit form (`KeyData::as_ffi`): generation in the high half, slot index in
//! the low half. A key is live while its slot still holds the value that was
//! inserted under it; once removed, the slot's generation moves on and the
//! key is retired, so it can never reach a later value of that slot.
use vstd::prelude::*;

use slotmap::{DefaultKey, Key, KeyData, SlotMap};

use crate::handle::{is_issued_key, key_generation};
use crate::resource::Resource;

verus! {

/// A `slotmap::SlotMap` of resource records. Verus does not accept the
/// declaration of `SlotMap` itself (its key bound is a trait that Verus cannot
/// see), so the map is held here, out of Verus's sight, and reached only
/// through the functions below.
#[verifier::external_body]
pub struct SlotStore {
    map: SlotMap<DefaultKey, Resource>,
}

/// The values that a slot map holds, by the 64-bit form of their keys.
pub uninterp spec fn slot_values(m: SlotStore) -> Map<u64, Resource>;

/// The keys that a slot map issued and that were removed since: a key whose
/// slot now carries a later generation than the key's own.
pub uninterp spec fn retired_keys(m: SlotStore) -> Set<u64>;

/// Generation that a slot reaches only after about 2^31 reuses; removing a
/// key of this generation wraps the slot's counter back to zero.
pub const LAST_GENERATION: u64 = 0xFFFF_FFFF;

/// Relies on `SlotMap::new`: a new map is empty and has issued no key.
#[verifier::external_body]
fn slots_new() -> (r: SlotStore)
    ensures
        slot_values(r).dom() == Set::<u64>::empty(),
        slot_values(r).dom().finite(),
        retired_keys(r) == Set::<u64>::empty(),
{
    SlotStore { map: SlotMap::new() }
}

/// Relies on `SlotMap::insert`: the value goes into a vacant slot under a
/// key with an odd generation, one more than the slot's last; the map is full
/// (and panics) only when it already holds `u32::MAX - 1` values.
#[verifier::external_body]
fn slots_insert(m: &mut SlotStore, value: Resource) -> (key: u64)
    requires
        slot_values(*old(m)).len() + 2 < u32::MAX,
    ensures
        is_issued_key(key),
        !slot_values(*old(m)).contains_key(key),
        !retired_keys(*old(m)).contains(key),
        slot_values(*final(m)) == slot_values(*old(m)).insert(key, value),
        slot_values(*final(m)).dom().finite(),
        retired_keys(*final(m)) == retired_keys(*old(m)),
{
    m.map.insert(value).data().as_ffi()
}

/// Relies on `SlotMap::remove` and `KeyData::from_ffi`: a live key loses its
/// value and its slot's generation is incremented, which retires the key
/// unless the counter wraps; any other key leaves the map as it was.
#[verifier::external_body]
fn slots_remove(m: &mut SlotStore, key: u64) -> (r: Option<Resource>)
    requires
        is_issued_key(key),
    ensures
        slot_values(*old(m)).contains_key(key) ==> r == Some(slot_values(*old(m))[key]),
        !slot_values(*old(m)).contains_key(key) ==> r is None,
        slot_values(*final(m)) == slot_values(*old(m)).remove(key),
        slot_values(*final(m)).dom().finite(),
        slot_values(*old(m)).contains_key(key) && key_generation(key) < LAST_GENERATION
            ==> retired_keys(*final(m)) == retired_keys(*old(m)).insert(key),
        retired_keys(*final(m)).subset_of(retired_keys(*old(m)).insert(key)),
        !slot_values(*old(m)).contains_key(key) ==> retired_keys(*final(m)) == retired_keys(
            *old(m),
        ),
{
    m.map.remove(KeyData::from_ffi(key).into())
}

/// Relies on `SlotMap::get` and `KeyData::from_ffi`: the value under a live
/// key, nothing for any other key.
#[verifier::external_body]
fn slots_get(m: &SlotStore, key: u64) -> (r: Option<&Resource>)
    requires
        is_issued_key(key),
    ensures
        r is Some <==> slot_values(*m).contains_key(key),
        r is Some ==> *r.unwrap() == slot_values(*m)[key],
{
    m.map.get(KeyData::from_ffi(key).into())
}

/// Relies on `SlotMap::get_mut` and `KeyData::from_ffi`: the value under a
/// live key is replaced in place; any other key leaves the map as it was.
#[verifier::external_body]
fn slots_replace(m: &mut SlotStore, key: u64, value: Resource) -> (r: bool)
    requires
        is_issued_key(key),
    ensures
        r == slot_values(*old(m)).contains_key(key),
        r ==> slot_values(*final(m)) == slot_values(*old(m)).insert(key, value),
        !r ==> slot_values(*final(m)) == slot_values(*old(m)),
        slot_values(*final(m)).dom().finite(),
        retired_keys(*final(m)) == retired_keys(*old(m)),
{
    match m.map.get_mut(KeyData::from_ffi(key).into()) {
        Some(slot) => {
            *slot = value;
            true
        },
        None => false,
    }
}

/// Relies on `SlotMap::len`: the number of values held.
#[verifier::external_body]
fn slots_len(m: &SlotStore) -> (r: usize)
    ensures
        r == slot_values(*m).len(),
{
    m.map.len()
}

/// The value under `key`, if the key is live.
pub open spec fn lookup(m: Map<u64, Resource>, key: u64) -> Option<Resource> {
    if m.contains_key(key) {
        Some(m[key])
    } else {
        None
    }
}

/// `after` is `before` with `value` stored under the fresh key `key`: one
/// that was neither live nor retired in `before`.
pub open spec fn arena_inserted(before: HandleArena, after: HandleArena, key: u64, value: Resource) -> bool {
    &&& is_issued_key(key)
    &&& !before@.contains_key(key)
    &&& !before.retired().contains(key)
    &&& after@ == before@.insert(key, value)
    &&& after.retired() == before.retired()
}

/// `after` is `before` with `key` removed. A live key becomes retired unless
/// its generation was the last one; removing a key that is not live changes
/// nothing.
pub open spec fn arena_removed(before: HandleArena, after: HandleArena, key: u64) -> bool {
    &&& after@ == before@.remove(key)
    &&& before@.contains_key(key) && key_generation(key) < LAST_GENERATION
        ==> after.retired() == before.retired().insert(key)
    &&& after.retired().subset_of(before.retired().insert(key))
    &&& !before@.contains_key(key) ==> after.retired() == before.retired()
}

/// Whether one more value fits in an arena that holds `m`.
pub open spec fn has_room(m: Map<u64, Resource>) -> bool {
    m.len() + 2 < u32::MAX
}

/// Storage for one kind of resource: a generational slot arena.
pub struct HandleArena {
    slots: SlotStore,
}

impl View for HandleArena {
    type V = Map<u64, Resource>;

    closed spec fn view(&self) -> Map<u64, Resource> {
        slot_values(self.slots)
    }
}

impl HandleArena {
    /// The arena holds finitely many values.
    pub open spec fn wf(&self) -> bool {
        self@.dom().finite()
    }

    /// The keys that this arena issued and that were removed since.
    pub closed spec fn retired(self) -> Set<u64> {
        retired_keys(self.slots)
    }

    /// An arena with no live and no retired key.
    pub fn new() -> (r: Self)
        ensures
            r.wf(),
            r@ == Map::<u64, Resource>::empty(),
            r.retired() == Set::<u64>::empty(),
    {
        let slots = slots_new();
        assert(slot_values(slots) =~= Map::<u64, Resource>::empty());
        HandleArena { slots }
    }

    /// The number of live values.
    pub fn len(&self) -> (r: usize)
        ensures
            r == self@.len(),
    {
        slots_len(&self.slots)
    }

    /// Stores `value` and returns its new key, which is neither live nor
    /// retired beforehand.
    pub fn insert(&mut self, value: Resource) -> (key: u64)
        requires
            old(self).wf(),
            has_room(old(self)@),
        ensures
            final(self).wf(),
            arena_inserted(*old(self), *final(self), key, value),
    {
        slots_insert(&mut self.slots, value)
    }

    /// The value under `key`, or `None` if the key is not live.
    pub fn get(&self, key: u64) -> (r: Option<&Resource>)
        requires
            is_issued_key(key),
        ensures
            r is Some <==> self@.contains_key(key),
            r is Some ==> *r.unwrap() == self@[key],
    {
        slots_get(&self.slots, key)
    }

    /// Whether `key` is live.
    pub fn contains(&self, key: u64) -> (r: bool)
        requires
            is_issued_key(key),
        ensures
            r == self@.contains_key(key),
    {
        slots_get(&self.slots, key).is_some()
    }

    /// Takes the value under `key` out of the arena; a key that is not live
    /// changes nothing.
    pub fn remove(&mut self, key: u64) -> (r: Option<Resource>)
        requires
            old(self).wf(),
            is_issued_key(key),
        ensures
            final(self).wf(),
            r == lookup(old(self)@, key),
            arena_removed(*old(self), *final(self), key),
    {
        slots_remove(&mut self.slots, key)
    }

    /// Replaces the value under a live `key`; returns whether it was live.
    pub fn replace(&mut self, key: u64, value: Resource) -> (r: bool)
        requires
            old(self).wf(),
            is_issued_key(key),
        ensures
            final(self).wf(),
            r == old(self)@.contains_key(key),
            r ==> final(self)@ == old(self)@.insert(key, value),
            !r ==> final(self)@ == old(self)@,
            final(self).retired() == old(self).retired(),
    {
        slots_replace(&mut self.slots, key, value)
    }
}

} // verus!
