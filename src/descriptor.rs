use vstd::prelude::*;

verus! {

/// Bytes in one vertex component as the GPU stores it (a 32-bit word).
pub const ELEMENT_BYTES: usize = 4;

/// A range handle `(offset, count)` into a buffer shared by many shapes.
///
/// Both numbers are in units of whole entries (vertices or indices); the
/// methods scale them by the number of components per entry (`v_size`) and,
/// for byte ranges, by `ELEMENT_BYTES`.
#[derive(Debug, Clone, Copy, PartialEq, Eq, Structural)]
pub struct ShapeDescriptor {
    pub offset: usize,
    pub count: usize,
}

impl ShapeDescriptor {
    /// First component of the range, `v_size * offset`.
    pub open spec fn start_spec(&self, v_size: usize) -> int {
        v_size * self.offset
    }

    /// One past the last component of the range, `v_size * (offset + count)`.
    pub open spec fn end_spec(&self, v_size: usize) -> int {
        v_size * self.offset + v_size * self.count
    }

    /// Byte offset of the range's first component.
    pub fn offset_bytes(&self, v_size: usize) -> (r: u32)
        requires
            v_size * self.offset * ELEMENT_BYTES <= u32::MAX,
        ensures
            r == v_size * self.offset * ELEMENT_BYTES,
    {
        proof {
            vstd::arithmetic::mul::lemma_mul_nonnegative(v_size as int, self.offset as int);
        }
        (v_size * self.offset * ELEMENT_BYTES) as u32
    }

    /// Byte length of the range.
    pub fn size_bytes(&self, v_size: usize) -> (r: u32)
        requires
            v_size * self.count * ELEMENT_BYTES <= u32::MAX,
        ensures
            r == v_size * self.count * ELEMENT_BYTES,
    {
        proof {
            vstd::arithmetic::mul::lemma_mul_nonnegative(v_size as int, self.count as int);
        }
        (v_size * self.count * ELEMENT_BYTES) as u32
    }

    /// Index of the range's first component.
    pub fn offset_vertex(&self, v_size: usize) -> (r: usize)
        requires
            v_size * self.offset <= usize::MAX,
        ensures
            r == self.start_spec(v_size),
    {
        v_size * self.offset
    }

    /// Number of components in the range.
    pub fn size_vertex(&self, v_size: usize) -> (r: usize)
        requires
            v_size * self.count <= usize::MAX,
        ensures
            r == v_size * self.count,
    {
        v_size * self.count
    }

    /// The components `[v_size * offset, v_size * (offset + count))`.
    pub fn vertex_range(&self, v_size: usize) -> (r: std::ops::Range<usize>)
        requires
            self.end_spec(v_size) <= usize::MAX,
        ensures
            r.start == self.start_spec(v_size),
            r.end == self.end_spec(v_size),
    {
        proof {
            vstd::arithmetic::mul::lemma_mul_nonnegative(v_size as int, self.offset as int);
            vstd::arithmetic::mul::lemma_mul_nonnegative(v_size as int, self.count as int);
        }
        let start = self.offset_vertex(v_size);
        std::ops::Range { start, end: start + self.size_vertex(v_size) }
    }
}

} // verus!
