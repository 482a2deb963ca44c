//! Identities that name who owns an X resource.
//!
//! A namespace is the isolation unit one X client connection is admitted into;
//! an authority-local id is a resource number paired with the generation in
//! which it was allocated. Zero is reserved in both as "none".
use vstd::prelude::*;

verus! {

/// The isolation unit an X client was admitted into.
#[derive(Clone, Copy, Debug, PartialEq, Eq, Hash, PartialOrd, Ord, Structural)]
pub struct NamespaceId {
    pub raw: u64,
}

impl NamespaceId {
    pub open spec fn spec_is_valid(self) -> bool {
        self.raw != 0
    }

    pub fn new(raw: u64) -> (id: Self)
        ensures
            id.raw == raw,
    {
        NamespaceId { raw }
    }

    pub fn raw(self) -> (raw: u64)
        ensures
            raw == self.raw,
    {
        self.raw
    }

    #[verifier::when_used_as_spec(spec_is_valid)]
    pub fn is_valid(self) -> (valid: bool)
        ensures
            valid == self.spec_is_valid(),
    {
        self.raw != 0
    }
}

/// A resource number together with the allocation generation it belongs to.
#[derive(Clone, Copy, Debug, PartialEq, Eq, Hash, PartialOrd, Ord, Structural)]
pub struct AuthorityLocalId {
    pub raw: u64,
    pub generation: u32,
}

impl AuthorityLocalId {
    pub open spec fn spec_is_valid(self) -> bool {
        self.raw != 0 && self.generation != 0
    }

    pub fn none() -> (id: Self)
        ensures
            id.raw == 0,
            id.generation == 0,
    {
        AuthorityLocalId { raw: 0, generation: 0 }
    }

    pub fn new(raw: u64, generation: u32) -> (id: Self)
        ensures
            id.raw == raw,
            id.generation == generation,
    {
        AuthorityLocalId { raw, generation }
    }

    pub fn raw(self) -> (raw: u64)
        ensures
            raw == self.raw,
    {
        self.raw
    }

    #[verifier::when_used_as_spec(spec_is_valid)]
    pub fn is_valid(self) -> (valid: bool)
        ensures
            valid == self.spec_is_valid(),
    {
        self.raw != 0 && self.generation != 0
    }
}

/// The Engine's name for one surface: a slot index and the generation that
/// tells a reused slot from its earlier occupant.
#[derive(Clone, Copy, Debug, PartialEq, Eq, Hash, PartialOrd, Ord, Structural)]
pub struct SurfaceId {
    pub index: u32,
    pub generation: u32,
}

impl SurfaceId {
    pub fn index(self) -> (index: u32)
        ensures
            index == self.index,
    {
        self.index
    }

    pub fn generation(self) -> (generation: u32)
        ensures
            generation == self.generation,
    {
        self.generation
    }
}

/// The identity of one request to the Engine, echoed in its answer.
#[derive(Clone, Copy, Debug, PartialEq, Eq, Hash, PartialOrd, Ord, Structural)]
pub struct TransactionId {
    pub raw: u64,
}

impl TransactionId {
    pub fn from_raw(raw: u64) -> (id: Self)
        ensures
            id.raw == raw,
    {
        TransactionId { raw }
    }

    pub fn raw(self) -> (raw: u64)
        ensures
            raw == self.raw,
    {
        self.raw
    }
}

/// The presentation state window policy asks for, carried to the client
/// unread.
#[derive(Clone, Copy, Debug, PartialEq, Eq, Structural)]
pub struct PolicyPresentationState {
    pub raw: u32,
}

/// The renderer's name for one synchronisation fence a client shared.
#[derive(Clone, Copy, Debug, PartialEq, Eq, Hash, PartialOrd, Ord, Structural)]
pub struct FenceHandle {
    pub raw: u64,
}

impl FenceHandle {
    pub fn from_raw(raw: u64) -> (handle: Self)
        ensures
            handle.raw == raw,
    {
        FenceHandle { raw }
    }

    pub fn raw(self) -> (raw: u64)
        ensures
            raw == self.raw,
    {
        self.raw
    }
}

/// The renderer's name for one client buffer it imported.
#[derive(Clone, Copy, Debug, PartialEq, Eq, Hash, PartialOrd, Ord, Structural)]
pub struct BufferHandle {
    pub raw: u64,
}

impl BufferHandle {
    pub fn from_raw(raw: u64) -> (handle: Self)
        ensures
            handle.raw == raw,
    {
        BufferHandle { raw }
    }

    pub fn raw(self) -> (raw: u64)
        ensures
            raw == self.raw,
    {
        self.raw
    }
}

} // verus!
