use vstd::prelude::*;

verus! {

/// Index type codes, as the device API numbers them.
pub const INDEX_TYPE_UINT16: i32 = 0;
pub const INDEX_TYPE_UINT32: i32 = 1;
pub const INDEX_TYPE_UINT8: i32 = 1000265000;

/// The size in bytes of one index of a type, or `None` for an unknown code.
pub open spec fn index_size(index_type: i32) -> Option<u32> {
    if index_type == INDEX_TYPE_UINT16 {
        Some(2)
    } else if index_type == INDEX_TYPE_UINT32 {
        Some(4)
    } else if index_type == INDEX_TYPE_UINT8 {
        Some(1)
    } else {
        None
    }
}

pub fn size_of_index(index_type: i32) -> (r: Option<u32>)
    ensures
        r == index_size(index_type),
{
    if index_type == INDEX_TYPE_UINT16 {
        Some(2)
    } else if index_type == INDEX_TYPE_UINT32 {
        Some(4)
    } else if index_type == INDEX_TYPE_UINT8 {
        Some(1)
    } else {
        None
    }
}

/// How a primitive is drawn.
#[derive(Clone, Copy, Debug, PartialEq, Eq, Structural)]
pub enum DrawCall {
    /// Through its index buffer, with this many indices.
    Indexed(u32),
    /// Straight from its vertex buffer, with this many vertices.
    Vertices(u32),
}

/// What the draw pass reads of a primitive's geometry: its vertex count, and
/// the byte size and index type of its index buffer, if it has one.
#[derive(Clone, Copy, Debug, PartialEq, Eq, Structural)]
pub struct PrimitiveGeometry {
    pub vertex_count: u32,
    pub index_bytes: Option<u32>,
    pub index_type: i32,
}

impl PrimitiveGeometry {
    /// A primitive with indices has a known index type.
    pub open spec fn wf(&self) -> bool {
        self.index_bytes.is_some() ==> index_size(self.index_type).is_some()
    }

    pub open spec fn index_count_spec(&self) -> u32 {
        match self.index_bytes {
            Some(bytes) => (bytes / index_size(self.index_type).unwrap()) as u32,
            None => 0,
        }
    }

    /// Geometry without an index buffer.
    pub fn new(vertex_count: u32) -> (r: PrimitiveGeometry)
        ensures
            r.wf(),
            r == (PrimitiveGeometry { vertex_count, index_bytes: None, index_type: INDEX_TYPE_UINT16 }),
    {
        PrimitiveGeometry { vertex_count, index_bytes: None, index_type: INDEX_TYPE_UINT16 }
    }

    /// Gives the primitive an index buffer of `bytes` bytes of `index_type` indices.
    pub fn set_indices(&mut self, bytes: u32, index_type: i32)
        requires
            index_size(index_type).is_some(),
        ensures
            final(self).wf(),
            *final(self) == (PrimitiveGeometry {
                index_bytes: Some(bytes),
                index_type,
                ..*old(self)
            }),
    {
        self.index_bytes = Some(bytes);
        self.index_type = index_type;
    }

    /// The number of indices: the index buffer's size over the size of one
    /// index, or zero without an index buffer.
    pub fn get_index_count(&self) -> (r: u32)
        requires
            self.wf(),
        ensures
            r == self.index_count_spec(),
    {
        match self.index_bytes {
            Some(bytes) => match size_of_index(self.index_type) {
                Some(size) => bytes / size,
                None => 0,
            },
            None => 0,
        }
    }

    /// Indexed where the primitive has an index buffer, else from its vertices.
    pub fn draw_call(&self) -> (r: DrawCall)
        requires
            self.wf(),
        ensures
            r == (if self.index_bytes.is_some() {
                DrawCall::Indexed(self.index_count_spec())
            } else {
                DrawCall::Vertices(self.vertex_count)
            }),
    {
        if self.index_bytes.is_some() {
            DrawCall::Indexed(self.get_index_count())
        } else {
            DrawCall::Vertices(self.vertex_count)
        }
    }
}

} // verus!
