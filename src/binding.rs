//! Whether a list of bindings fills a pipeline's bind group layout.
//!
//! A list fills a layout when every binding names a slot that the layout
//! declares with a compatible resource type and points at a live resource,
//! no two bindings name the same slot, and every declared slot is named.
use vstd::prelude::*;

use crate::context::RendererContext;
use crate::resource::{accepts, slot_accepts, BindGroupLayoutEntry, Binding, BindingResource, ResourceKind};

verus! {

/// The resource that a binding points at is live.
pub open spec fn resource_live(ctx: RendererContext, resource: BindingResource) -> bool {
    match resource {
        BindingResource::Texture(t) => ctx.live(ResourceKind::Texture, t.key()),
        BindingResource::Buffer(b) => ctx.live(ResourceKind::Buffer, b.key()),
    }
}

/// The layout declares the binding's slot with a type that accepts its
/// resource.
pub open spec fn slot_declared(layout: Seq<BindGroupLayoutEntry>, b: Binding) -> bool {
    exists|i: int|
        0 <= i < layout.len() && #[trigger] layout[i].binding == b.binding && accepts(
            layout[i].ty,
            b.resource,
        )
}

/// Some binding names `slot`.
pub open spec fn slot_filled(bindings: Seq<Binding>, slot: u32) -> bool {
    exists|j: int| 0 <= j < bindings.len() && #[trigger] bindings[j].binding == slot
}

/// No two bindings name the same slot.
pub open spec fn slots_distinct(bindings: Seq<Binding>) -> bool {
    forall|j: int, k: int|
        0 <= j < k < bindings.len() ==> #[trigger] bindings[j].binding != #[trigger] bindings[k].binding
}

/// `bindings` fills `layout` against the live resources of `ctx`.
pub open spec fn fills_layout(
    ctx: RendererContext,
    layout: Seq<BindGroupLayoutEntry>,
    bindings: Seq<Binding>,
) -> bool {
    &&& forall|j: int|
        0 <= j < bindings.len() ==> slot_declared(layout, #[trigger] bindings[j]) && resource_live(
            ctx,
            bindings[j].resource,
        )
    &&& slots_distinct(bindings)
    &&& forall|i: int| 0 <= i < layout.len() ==> slot_filled(bindings, #[trigger] layout[i].binding)
}

fn declares(layout: &[BindGroupLayoutEntry], b: Binding) -> (r: bool)
    ensures
        r == slot_declared(layout@, b),
{
    let mut i: usize = 0;
    while i < layout.len()
        invariant
            i <= layout@.len(),
            forall|ii: int|
                0 <= ii < i ==> !(#[trigger] layout@[ii].binding == b.binding && accepts(
                    layout@[ii].ty,
                    b.resource,
                )),
        decreases layout@.len() - i,
    {
        if layout[i].binding == b.binding && slot_accepts(layout[i].ty, b.resource) {
            return true;
        }
        i = i + 1;
    }
    false
}

fn names_slot(bindings: &[Binding], end: usize, slot: u32) -> (r: bool)
    requires
        end <= bindings@.len(),
    ensures
        r == slot_filled(bindings@.subrange(0, end as int), slot),
{
    let ghost prefix = bindings@.subrange(0, end as int);
    let mut j: usize = 0;
    while j < end
        invariant
            j <= end <= bindings@.len(),
            prefix == bindings@.subrange(0, end as int),
            forall|jj: int| 0 <= jj < j ==> #[trigger] bindings@[jj].binding != slot,
        decreases end - j,
    {
        if bindings[j].binding == slot {
            assert(prefix[j as int].binding == slot);
            return true;
        }
        j = j + 1;
    }
    assert forall|jj: int| 0 <= jj < prefix.len() implies #[trigger] prefix[jj].binding != slot by {
        assert(prefix[jj] == bindings@[jj]);
    }
    false
}

fn resource_alive(ctx: &RendererContext, resource: BindingResource) -> (r: bool)
    ensures
        r == resource_live(*ctx, resource),
{
    match resource {
        BindingResource::Texture(t) => ctx.contains(ResourceKind::Texture, t.raw()),
        BindingResource::Buffer(b) => ctx.contains(ResourceKind::Buffer, b.raw()),
    }
}

/// Whether `bindings` fills `layout` against the live resources of `ctx`.
pub fn bindings_fill_layout(
    ctx: &RendererContext,
    layout: &[BindGroupLayoutEntry],
    bindings: &[Binding],
) -> (r: bool)
    ensures
        r == fills_layout(*ctx, layout@, bindings@),
{
    let mut j: usize = 0;
    while j < bindings.len()
        invariant
            j <= bindings@.len(),
            forall|jj: int|
                0 <= jj < j ==> slot_declared(layout@, #[trigger] bindings@[jj]) && resource_live(
                    *ctx,
                    bindings@[jj].resource,
                ),
            forall|a: int, b: int|
                0 <= a < b < j ==> #[trigger] bindings@[a].binding != #[trigger] bindings@[b].binding,
        decreases bindings@.len() - j,
    {
        let b = bindings[j];
        if !declares(layout, b) || !resource_alive(ctx, b.resource) {
            return false;
        }
        if names_slot(bindings, j, b.binding) {
            let ghost w = choose|w: int|
                0 <= w < j && #[trigger] bindings@.subrange(0, j as int)[w].binding == b.binding;
            assert(bindings@[w].binding == bindings@[j as int].binding);
            return false;
        }
        assert forall|a: int, c: int|
            0 <= a < c < j + 1 implies #[trigger] bindings@[a].binding
            != #[trigger] bindings@[c].binding by {
            if c == j {
                if bindings@[a].binding == b.binding {
                    assert(bindings@.subrange(0, j as int)[a].binding == b.binding);
                }
            }
        }
        j = j + 1;
    }
    let mut i: usize = 0;
    while i < layout.len()
        invariant
            i <= layout@.len(),
            forall|ii: int| 0 <= ii < i ==> slot_filled(bindings@, #[trigger] layout@[ii].binding),
        decreases layout@.len() - i,
    {
        if !names_slot(bindings, bindings.len(), layout[i].binding) {
            assert(bindings@.subrange(0, bindings@.len() as int) == bindings@);
            return false;
        }
        assert(bindings@.subrange(0, bindings@.len() as int) == bindings@);
        i = i + 1;
    }
    true
}

} // verus!
