//! Identities of nodes, clusters and surfaces.

use vstd::prelude::*;

verus! {

/// A node of the field.
#[derive(Clone, Copy, Debug, PartialEq, Eq, Structural)]
pub struct NodeId {
    pub raw: u64,
}

impl NodeId {
    pub fn new(raw: u64) -> (id: Self)
        ensures
            id.raw == raw,
    {
        NodeId { raw }
    }

    pub fn as_u64(&self) -> (raw: u64)
        ensures
            raw == self.raw,
    {
        self.raw
    }
}

/// A cluster of nodes.
#[derive(Clone, Copy, Debug, PartialEq, Eq, Structural)]
pub struct ClusterId {
    pub raw: u64,
}

impl ClusterId {
    pub fn new(raw: u64) -> (id: Self)
        ensures
            id.raw == raw,
    {
        ClusterId { raw }
    }

    pub fn as_u64(&self) -> (raw: u64)
        ensures
            raw == self.raw,
    {
        self.raw
    }
}

/// A surface of a client.
#[derive(Clone, Copy, Debug, PartialEq, Eq, Structural)]
pub struct SurfaceId {
    pub raw: u64,
}

impl SurfaceId {
    pub fn new(raw: u64) -> (id: Self)
        ensures
            id.raw == raw,
    {
        SurfaceId { raw }
    }
}

} // verus!
