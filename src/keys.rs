use vstd::prelude::*;

use crate::cache::CacheKey;
use crate::handle::Handle;

verus! {

/// The uniform buffer of a node's model matrix.
#[derive(Clone, Copy, Debug, PartialEq, Eq, Structural, Hash)]
pub struct ModelMatrixKey {
    pub model: Handle,
    pub node: Handle,
}

/// The uniform buffer of the view matrix of a node that holds a camera.
#[derive(Clone, Copy, Debug, PartialEq, Eq, Structural, Hash)]
pub struct ViewMatrixKey {
    pub model: Handle,
    pub node: Handle,
}

/// The uniform buffer of a camera's projection matrix.
#[derive(Clone, Copy, Debug, PartialEq, Eq, Structural, Hash)]
pub struct ProjMatrixKey {
    pub model: Handle,
    pub camera: Handle,
}

/// The uniform buffer of a node's normal matrix as seen from a view node.
#[derive(Clone, Copy, Debug, PartialEq, Eq, Structural, Hash)]
pub struct NormalMatrixKey {
    pub model: Handle,
    pub node: Handle,
    pub view: Handle,
}

/// The uniform buffer of a material's color.
#[derive(Clone, Copy, Debug, PartialEq, Eq, Structural, Hash)]
pub struct MaterialKey {
    pub model: Handle,
    pub material: Handle,
}

impl CacheKey for ModelMatrixKey {
    fn same_key(&self, other: &Self) -> (r: bool) {
        *self == *other
    }
}

impl CacheKey for ViewMatrixKey {
    fn same_key(&self, other: &Self) -> (r: bool) {
        *self == *other
    }
}

impl CacheKey for ProjMatrixKey {
    fn same_key(&self, other: &Self) -> (r: bool) {
        *self == *other
    }
}

impl CacheKey for NormalMatrixKey {
    fn same_key(&self, other: &Self) -> (r: bool) {
        *self == *other
    }
}

impl CacheKey for MaterialKey {
    fn same_key(&self, other: &Self) -> (r: bool) {
        *self == *other
    }
}

} // verus!
