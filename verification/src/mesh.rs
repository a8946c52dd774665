//! Resource store, mesh half: one-time upload of static draw data.
//!
//! The engine hands the host shell the exact bytes to place in device
//! buffers; what is verified here is the admission rule — vertex data must
//! tile the declared layout, and every index must name a vertex that exists.

use vstd::prelude::*;
use crate::layout::{lemma_packed_size_monotonic, packed_size, VertexAttribute, VertexLayout};

verus! {

/// Why a mesh upload was rejected. Each is a caller contract violation,
/// reported at construction time rather than tolerated during rendering.
#[derive(Clone, Copy, PartialEq, Eq, Structural, Debug)]
pub enum MeshError {
    /// The layout has no attributes or its stride is zero.
    InvalidLayout,
    /// No vertex bytes: a draw call over an empty mesh is an error.
    EmptyVertexData,
    /// The vertex bytes do not divide into whole vertices.
    MisalignedVertexData,
    /// An index list was supplied but holds no indices.
    EmptyIndexData,
    /// An index names a vertex past the end of the vertex data.
    IndexOutOfBounds,
}

/// The device-resident mesh as the engine tracks it: the bytes both buffers
/// were created from, fixed at creation, plus the derived draw extents.
#[derive(Clone, PartialEq, Eq, Debug)]
pub struct MeshBuffers {
    pub layout: VertexLayout,
    pub vertex_bytes: Vec<u8>,
    pub indices: Option<Vec<u16>>,
    pub vertex_count: u64,
}

impl MeshBuffers {
    pub open spec fn wf(self) -> bool {
        &&& self.layout.wf()
        &&& self.layout.stride > 0
        &&& self.vertex_bytes@.len() == self.vertex_count * self.layout.stride
        &&& self.vertex_count > 0
        &&& match self.indices {
            Some(ix) => ix@.len() > 0 && forall|k: int|
                0 <= k < ix@.len() ==> #[trigger] ix@[k] < self.vertex_count,
            None => true,
        }
    }
}

/// The fault, if any, in a requested mesh upload, checked in order: layout,
/// vertex data, index data.
pub open spec fn mesh_fault(
    layout: VertexLayout,
    vertex_bytes: Seq<u8>,
    indices: Option<Seq<u16>>,
) -> Option<MeshError> {
    if !layout.wf() || layout.stride == 0 {
        Some(MeshError::InvalidLayout)
    } else if vertex_bytes.len() == 0 {
        Some(MeshError::EmptyVertexData)
    } else if vertex_bytes.len() as int % (layout.stride as int) != 0 {
        Some(MeshError::MisalignedVertexData)
    } else if indices matches Some(ix) && ix.len() == 0 {
        Some(MeshError::EmptyIndexData)
    } else if indices matches Some(ix) && exists|k: int|
        0 <= k < ix.len() && ix[k] >= vertex_bytes.len() as int / (layout.stride as int) {
        Some(MeshError::IndexOutOfBounds)
    } else {
        None
    }
}

pub open spec fn indices_view(indices: Option<Vec<u16>>) -> Option<Seq<u16>> {
    match indices {
        Some(ix) => Some(ix@),
        None => None,
    }
}

/// Admit a mesh for upload: vertex bytes that tile the layout and, if the
/// mesh is indexed, indices that each name an existing vertex. On success
/// the returned buffers hold exactly the given data; each rejection names
/// the first fault in checking order.
pub fn upload_mesh(layout: VertexLayout, vertex_bytes: Vec<u8>, indices: Option<Vec<u16>>) -> (r:
    Result<MeshBuffers, MeshError>)
    ensures
        match r {
            Ok(m) => {
                &&& mesh_fault(layout, vertex_bytes@, indices_view(indices)) is None
                &&& m.layout == layout
                &&& m.vertex_bytes == vertex_bytes
                &&& m.indices == indices
                &&& m.vertex_count == vertex_bytes@.len() as int / (layout.stride as int)
                &&& m.wf()
            },
            Err(e) => Some(e) == mesh_fault(layout, vertex_bytes@, indices_view(indices)),
        },
{
    if layout.attributes.len() == 0 {
        return Err(MeshError::InvalidLayout);
    }
    if layout.stride == 0 {
        return Err(MeshError::InvalidLayout);
    }
    if !layout_is_packed(&layout) {
        return Err(MeshError::InvalidLayout);
    }
    if vertex_bytes.len() == 0 {
        return Err(MeshError::EmptyVertexData);
    }
    let len = vertex_bytes.len() as u64;
    if len % layout.stride != 0 {
        return Err(MeshError::MisalignedVertexData);
    }
    let vertex_count = len / layout.stride;
    match &indices {
        Some(ix) => {
            if ix.len() == 0 {
                return Err(MeshError::EmptyIndexData);
            }
            let m = ix.len();
            let mut k: usize = 0;
            #[verifier::loop_isolation(false)]
            while k < m
                invariant
                    m == ix@.len(),
                    0 <= k <= m,
                    forall|j: int| 0 <= j < k ==> #[trigger] ix@[j] < vertex_count,
                decreases m - k,
            {
                if ix[k] as u64 >= vertex_count {
                    proof {
                        assert(vertex_count == vertex_bytes@.len() as int / (layout.stride as int));
                        assert(0 <= k < ix@.len() && ix@[k as int] >= vertex_bytes@.len() as int / (
                        layout.stride as int));
                    }
                    return Err(MeshError::IndexOutOfBounds);
                }
                k = k + 1;
            }
            proof {
                assert(indices_view(indices) == Some(ix@));
                assert(forall|j: int| 0 <= j < ix@.len() ==> #[trigger] ix@[j] < vertex_count);
            }
        },
        None => {},
    }
    proof {
        vstd::arithmetic::div_mod::lemma_fundamental_div_mod(len as int, layout.stride as int);
        vstd::arithmetic::mul::lemma_mul_is_commutative(layout.stride as int, vertex_count as int);
        assert(vertex_count == vertex_bytes@.len() as int / (layout.stride as int));
        assert(vertex_count > 0) by {
            if vertex_count == 0 {
                assert(len as int == (layout.stride as int) * 0);
            }
        };
    }
    Ok(MeshBuffers { layout, vertex_bytes, indices, vertex_count })
}

/// Decide at run time whether the layout satisfies its well-formedness spec;
/// the packed shape is checked attribute by attribute.
fn layout_is_packed(layout: &VertexLayout) -> (r: bool)
    ensures
        r <==> layout.wf(),
{
    let n = layout.attributes.len();
    if n == 0 {
        return false;
    }
    let ghost fmts = layout.attributes@.map_values(|a: VertexAttribute| a.format);
    let mut expected_offset: u64 = 0;
    let mut i: usize = 0;
    while i < n
        invariant
            n == layout.attributes@.len(),
            n > 0,
            fmts == layout.attributes@.map_values(|a: VertexAttribute| a.format),
            0 <= i <= n,
            expected_offset == packed_size(fmts, i as int),
            forall|j: int|
                0 <= j < i ==> #[trigger] layout.attributes@[j].offset == packed_size(fmts, j),
            forall|j: int| 0 <= j < i ==> #[trigger] layout.attributes@[j].shader_location == j,
        decreases n - i,
    {
        let a = layout.attributes[i];
        proof {
            assert(fmts[i as int] == a.format);
        }
        if a.offset != expected_offset || (a.shader_location as usize) != i {
            proof {
                if layout.wf() {
                    assert(layout.attributes@[i as int].offset == packed_size(fmts, i as int));
                    assert(layout.attributes@[i as int].shader_location == i as int);
                    assert(false);
                }
            }
            return false;
        }
        let size = a.format.size();
        if expected_offset > u64::MAX - size {
            proof {
                if layout.wf() {
                    lemma_packed_size_monotonic(fmts, i + 1, n as int);
                    assert(packed_size(fmts, i + 1) == expected_offset + a.format.spec_size());
                    assert(false);
                }
            }
            return false;
        }
        expected_offset = expected_offset + size;
        i = i + 1;
    }
    if layout.stride != expected_offset {
        proof {
            if layout.wf() {
                assert(false);
            }
        }
        return false;
    }
    proof {
        assert(layout.wf());
    }
    true
}

} // verus!
