//! Laws relating the operations of the arena and of the context.
use vstd::prelude::*;

use crate::arena::{arena_inserted, arena_removed, lookup, HandleArena, LAST_GENERATION};
use crate::binding::{fills_layout, resource_live, slot_declared, slot_filled};
use crate::context::{destroyed, RendererContext};
use crate::handle::key_generation;
use crate::resource::{accepts, BindGroupLayoutEntry, Binding, Resource, ResourceKind};

verus! {

/// A key issued by `insert` resolves to the value stored under it.
pub proof fn issued_key_resolves(before: HandleArena, after: HandleArena, key: u64, value: Resource)
    requires
        arena_inserted(before, after, key, value),
    ensures
        lookup(after@, key) == Some(value),
{
}

/// A live key keeps resolving to the same value when another value is
/// inserted.
pub proof fn live_key_survives_insert(
    before: HandleArena,
    after: HandleArena,
    new_key: u64,
    value: Resource,
    key: u64,
)
    requires
        arena_inserted(before, after, new_key, value),
        before@.contains_key(key),
    ensures
        new_key != key,
        lookup(after@, key) == lookup(before@, key),
{
}

/// A key keeps resolving to the same value, or to nothing, when another key
/// is removed.
pub proof fn key_survives_other_removal(
    before: HandleArena,
    after: HandleArena,
    removed: u64,
    key: u64,
)
    requires
        arena_removed(before, after, removed),
        key != removed,
    ensures
        lookup(after@, key) == lookup(before@, key),
{
}

/// A removed key no longer resolves; unless its generation was the slot's
/// last, it is retired.
pub proof fn removed_key_fails(before: HandleArena, after: HandleArena, key: u64)
    requires
        arena_removed(before, after, key),
    ensures
        lookup(after@, key) is None,
        before@.contains_key(key) && key_generation(key) < LAST_GENERATION ==> after.retired().contains(
            key,
        ),
{
}

/// A retired key stays retired and resolves to nothing after an insertion:
/// the insertion issues another key.
pub proof fn retired_key_stays_dead_on_insert(
    before: HandleArena,
    after: HandleArena,
    new_key: u64,
    value: Resource,
    key: u64,
)
    requires
        arena_inserted(before, after, new_key, value),
        before.retired().contains(key),
        !before@.contains_key(key),
    ensures
        new_key != key,
        after.retired().contains(key),
        lookup(after@, key) is None,
{
}

/// A retired key stays retired and resolves to nothing after a removal,
/// unless that removal took a live key of the last generation (which resets
/// its slot's generation counter).
pub proof fn retired_key_stays_dead_on_remove(
    before: HandleArena,
    after: HandleArena,
    removed: u64,
    key: u64,
)
    requires
        arena_removed(before, after, removed),
        before.retired().contains(key),
        !before@.contains_key(key),
        before@.contains_key(removed) ==> key_generation(removed) < LAST_GENERATION,
    ensures
        after.retired().contains(key),
        lookup(after@, key) is None,
{
}

/// Destroying a resource a second time changes nothing.
pub proof fn destroy_twice_is_idempotent(
    a: RendererContext,
    b: RendererContext,
    c: RendererContext,
    kind: ResourceKind,
    key: u64,
)
    requires
        destroyed(a, b, kind, key),
        destroyed(b, c, kind, key),
    ensures
        c.arena(kind)@ == b.arena(kind)@,
        c.arena(kind).retired() == b.arena(kind).retired(),
        c.configured() == b.configured(),
        forall|k: ResourceKind| k != kind ==> #[trigger] c.arena(k) == b.arena(k),
{
    assert(c.arena(kind)@ =~= b.arena(kind)@);
}

/// Bindings that give each slot of a layout with distinct slots, in order, a
/// live resource of an accepted kind fill the layout.
pub proof fn bindings_in_layout_order_fill(
    ctx: RendererContext,
    layout: Seq<BindGroupLayoutEntry>,
    bindings: Seq<Binding>,
)
    requires
        bindings.len() == layout.len(),
        forall|i: int, j: int|
            0 <= i < j < layout.len() ==> #[trigger] layout[i].binding != #[trigger] layout[j].binding,
        forall|i: int|
            0 <= i < layout.len() ==> #[trigger] bindings[i].binding == layout[i].binding && accepts(
                layout[i].ty,
                bindings[i].resource,
            ) && resource_live(ctx, bindings[i].resource),
    ensures
        fills_layout(ctx, layout, bindings),
{
    assert forall|j: int| 0 <= j < bindings.len() implies slot_declared(layout, #[trigger] bindings[j])
        && resource_live(ctx, bindings[j].resource) by {
        assert(layout[j].binding == bindings[j].binding);
    }
    assert forall|i: int| 0 <= i < layout.len() implies slot_filled(
        bindings,
        #[trigger] layout[i].binding,
    ) by {
        assert(bindings[i].binding == layout[i].binding);
    }
}

/// Bindings that leave a declared slot empty do not fill the layout, so
/// building the bind group fails.
pub proof fn missing_slot_does_not_fill(
    ctx: RendererContext,
    layout: Seq<BindGroupLayoutEntry>,
    bindings: Seq<Binding>,
    i: int,
)
    requires
        0 <= i < layout.len(),
        !slot_filled(bindings, layout[i].binding),
    ensures
        !fills_layout(ctx, layout, bindings),
{
}

/// `after` follows `before` by an insertion, or by the removal of a key
/// other than `key`.
pub open spec fn spares(before: HandleArena, after: HandleArena, key: u64) -> bool {
    ||| exists|k: u64, v: Resource| #[trigger] arena_inserted(before, after, k, v)
    ||| exists|k: u64| k != key && #[trigger] arena_removed(before, after, k)
}

/// `after` follows `before` by an insertion, or by a removal that does not
/// take a live key of the last generation.
pub open spec fn keeps_retired(before: HandleArena, after: HandleArena) -> bool {
    ||| exists|k: u64, v: Resource| #[trigger] arena_inserted(before, after, k, v)
    ||| exists|k: u64|
        #[trigger] arena_removed(before, after, k) && (before@.contains_key(k) ==> key_generation(k)
            < LAST_GENERATION)
}

/// A live key resolves to the same value through any run of insertions and
/// removals of other keys: it stays valid until it is removed itself.
pub proof fn live_key_resolves_until_removed(states: Seq<HandleArena>, key: u64)
    requires
        states.len() >= 1,
        states[0]@.contains_key(key),
        forall|i: int| 0 <= i < states.len() - 1 ==> spares(#[trigger] states[i], states[i + 1], key),
    ensures
        forall|i: int|
            0 <= i < states.len() ==> #[trigger] lookup(states[i]@, key) == lookup(states[0]@, key),
    decreases states.len(),
{
    if states.len() > 1 {
        let prefix = states.drop_last();
        assert forall|i: int| 0 <= i < prefix.len() - 1 implies spares(
            #[trigger] prefix[i],
            prefix[i + 1],
            key,
        ) by {
            assert(prefix[i] == states[i] && prefix[i + 1] == states[i + 1]);
        }
        live_key_resolves_until_removed(prefix, key);
        let n = states.len() - 1;
        assert(lookup(states[n - 1]@, key) == lookup(prefix[n - 1]@, key));
        assert(spares(states[n - 1], states[n], key));
        if exists|k: u64, v: Resource| #[trigger] arena_inserted(states[n - 1], states[n], k, v) {
            let (k, v) = choose|k: u64, v: Resource| #[trigger] arena_inserted(states[n - 1], states[n], k, v);
            live_key_survives_insert(states[n - 1], states[n], k, v, key);
        } else {
            let k = choose|k: u64| k != key && #[trigger] arena_removed(states[n - 1], states[n], k);
            key_survives_other_removal(states[n - 1], states[n], k, key);
        }
        assert forall|i: int| 0 <= i < states.len() implies #[trigger] lookup(states[i]@, key)
            == lookup(states[0]@, key) by {
            if i < n {
                assert(prefix[i] == states[i]);
                assert(lookup(prefix[i]@, key) == lookup(prefix[0]@, key));
            }
        }
    }
}

/// A retired key resolves to nothing through any run of insertions and
/// removals, unless one of them removes a live key of the last generation:
/// a removed handle can never reach a value inserted later.
pub proof fn retired_key_never_resolves(states: Seq<HandleArena>, key: u64)
    requires
        states.len() >= 1,
        states[0].retired().contains(key),
        !states[0]@.contains_key(key),
        forall|i: int| 0 <= i < states.len() - 1 ==> keeps_retired(#[trigger] states[i], states[i + 1]),
    ensures
        forall|i: int|
            0 <= i < states.len() ==> #[trigger] states[i].retired().contains(key) && lookup(
                states[i]@,
                key,
            ) is None,
    decreases states.len(),
{
    if states.len() > 1 {
        let prefix = states.drop_last();
        assert forall|i: int| 0 <= i < prefix.len() - 1 implies keeps_retired(
            #[trigger] prefix[i],
            prefix[i + 1],
        ) by {
            assert(prefix[i] == states[i] && prefix[i + 1] == states[i + 1]);
        }
        retired_key_never_resolves(prefix, key);
        let n = states.len() - 1;
        assert(prefix[n - 1] == states[n - 1]);
        assert(states[n - 1].retired().contains(key));
        assert(keeps_retired(states[n - 1], states[n]));
        if exists|k: u64, v: Resource| #[trigger] arena_inserted(states[n - 1], states[n], k, v) {
            let (k, v) = choose|k: u64, v: Resource| #[trigger] arena_inserted(states[n - 1], states[n], k, v);
            retired_key_stays_dead_on_insert(states[n - 1], states[n], k, v, key);
        } else {
            let k = choose|k: u64|
                #[trigger] arena_removed(states[n - 1], states[n], k) && (states[n - 1]@.contains_key(k)
                    ==> key_generation(k) < LAST_GENERATION);
            retired_key_stays_dead_on_remove(states[n - 1], states[n], k, key);
        }
        assert forall|i: int| 0 <= i < states.len() implies #[trigger] states[i].retired().contains(
            key,
        ) && lookup(states[i]@, key) is None by {
            if i < n {
                assert(prefix[i] == states[i]);
            }
        }
    }
}

} // verus!
