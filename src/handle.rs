//! Typed, copyable handles into the resource arenas.
//!
//! A handle carries the 64-bit key that the arena issued for a slot: the slot
//! index in the low 32 bits and the slot's generation in the high 32 bits.
//! Occupied slots always have an odd generation, so every issued key has one.
use vstd::prelude::*;

verus! {

/// Bits of a key above the slot index.
pub const GENERATION_UNIT: u64 = 0x1_0000_0000;

/// The generation recorded in a key.
pub open spec fn key_generation(key: u64) -> int {
    key as int / GENERATION_UNIT as int
}

/// A key as the arena hands it out: its generation is odd.
pub open spec fn is_issued_key(key: u64) -> bool {
    key_generation(key) % 2 == 1
}

/// Handle to a compiled shader module.
#[derive(Clone, Copy, PartialEq, Eq, Structural, Debug, Hash)]
pub struct ShaderHandle {
    key: u64,
}

impl ShaderHandle {
    #[verifier::type_invariant]
    spec fn issued(self) -> bool {
        is_issued_key(self.key)
    }

    /// The arena key that this handle names.
    pub closed spec fn key(self) -> u64 {
        self.key
    }

    pub(crate) fn from_key(key: u64) -> (h: Self)
        requires
            is_issued_key(key),
        ensures
            h.key() == key,
    {
        ShaderHandle { key }
    }

    pub(crate) fn raw(&self) -> (r: u64)
        ensures
            r == self.key(),
            is_issued_key(r),
    {
        proof {
            use_type_invariant(self);
        }
        self.key
    }
}

/// Handle to a render pipeline and its bind group layout.
#[derive(Clone, Copy, PartialEq, Eq, Structural, Debug, Hash)]
pub struct RenderPipelineHandle {
    key: u64,
}

impl RenderPipelineHandle {
    #[verifier::type_invariant]
    spec fn issued(self) -> bool {
        is_issued_key(self.key)
    }

    /// The arena key that this handle names.
    pub closed spec fn key(self) -> u64 {
        self.key
    }

    pub(crate) fn from_key(key: u64) -> (h: Self)
        requires
            is_issued_key(key),
        ensures
            h.key() == key,
    {
        RenderPipelineHandle { key }
    }

    pub(crate) fn raw(&self) -> (r: u64)
        ensures
            r == self.key(),
            is_issued_key(r),
    {
        proof {
            use_type_invariant(self);
        }
        self.key
    }
}

/// Handle to a compute pipeline and its bind group layout.
#[derive(Clone, Copy, PartialEq, Eq, Structural, Debug, Hash)]
pub struct ComputePipelineHandle {
    key: u64,
}

impl ComputePipelineHandle {
    #[verifier::type_invariant]
    spec fn issued(self) -> bool {
        is_issued_key(self.key)
    }

    /// The arena key that this handle names.
    pub closed spec fn key(self) -> u64 {
        self.key
    }

    pub(crate) fn from_key(key: u64) -> (h: Self)
        requires
            is_issued_key(key),
        ensures
            h.key() == key,
    {
        ComputePipelineHandle { key }
    }

    pub(crate) fn raw(&self) -> (r: u64)
        ensures
            r == self.key(),
            is_issued_key(r),
    {
        proof {
            use_type_invariant(self);
        }
        self.key
    }
}

/// Handle to a GPU buffer.
#[derive(Clone, Copy, PartialEq, Eq, Structural, Debug, Hash)]
pub struct BufferHandle {
    key: u64,
}

impl BufferHandle {
    #[verifier::type_invariant]
    spec fn issued(self) -> bool {
        is_issued_key(self.key)
    }

    /// The arena key that this handle names.
    pub closed spec fn key(self) -> u64 {
        self.key
    }

    pub(crate) fn from_key(key: u64) -> (h: Self)
        requires
            is_issued_key(key),
        ensures
            h.key() == key,
    {
        BufferHandle { key }
    }

    pub(crate) fn raw(&self) -> (r: u64)
        ensures
            r == self.key(),
            is_issued_key(r),
    {
        proof {
            use_type_invariant(self);
        }
        self.key
    }
}

/// Handle to a texture and its default view.
#[derive(Clone, Copy, PartialEq, Eq, Structural, Debug, Hash)]
pub struct TextureHandle {
    key: u64,
}

impl TextureHandle {
    #[verifier::type_invariant]
    spec fn issued(self) -> bool {
        is_issued_key(self.key)
    }

    /// The arena key that this handle names.
    pub closed spec fn key(self) -> u64 {
        self.key
    }

    pub(crate) fn from_key(key: u64) -> (h: Self)
        requires
            is_issued_key(key),
        ensures
            h.key() == key,
    {
        TextureHandle { key }
    }

    pub(crate) fn raw(&self) -> (r: u64)
        ensures
            r == self.key(),
            is_issued_key(r),
    {
        proof {
            use_type_invariant(self);
        }
        self.key
    }
}

/// Handle to a bind group built against a pipeline layout.
#[derive(Clone, Copy, PartialEq, Eq, Structural, Debug, Hash)]
pub struct BindGroupHandle {
    key: u64,
}

impl BindGroupHandle {
    #[verifier::type_invariant]
    spec fn issued(self) -> bool {
        is_issued_key(self.key)
    }

    /// The arena key that this handle names.
    pub closed spec fn key(self) -> u64 {
        self.key
    }

    pub(crate) fn from_key(key: u64) -> (h: Self)
        requires
            is_issued_key(key),
        ensures
            h.key() == key,
    {
        BindGroupHandle { key }
    }

    pub(crate) fn raw(&self) -> (r: u64)
        ensures
            r == self.key(),
            is_issued_key(r),
    {
        proof {
            use_type_invariant(self);
        }
        self.key
    }
}

} // verus!
