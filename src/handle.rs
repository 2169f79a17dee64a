use vstd::prelude::*;

verus! {

/// The id that no entity has.
pub const HANDLE_NONE: u32 = 0xffff_ffff;

/// The index of a scene entity (node, mesh, primitive, material, camera or model).
#[derive(Clone, Copy, Debug, PartialEq, Eq, Structural, Hash)]
pub struct Handle {
    pub id: u32,
}

impl Handle {
    pub fn new(id: u32) -> (r: Handle)
        ensures
            r.id == id,
    {
        Handle { id }
    }

    /// The handle of no entity.
    pub fn none() -> (r: Handle)
        ensures
            r.id == HANDLE_NONE,
    {
        Handle { id: HANDLE_NONE }
    }

    pub open spec fn valid(self) -> bool {
        self.id != HANDLE_NONE
    }

    pub fn is_valid(&self) -> (r: bool)
        ensures
            r == self.valid(),
    {
        self.id != HANDLE_NONE
    }
}

impl Default for Handle {
    fn default() -> (r: Handle)
        ensures
            r.id == HANDLE_NONE,
    {
        Handle::none()
    }
}

} // verus!
