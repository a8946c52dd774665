//! Vertex layout: how raw per-vertex bytes map to shader input attributes.

use vstd::prelude::*;

verus! {

/// The scalar shape of one vertex attribute.
#[derive(Clone, Copy, PartialEq, Eq, Structural, Debug)]
pub enum AttributeFormat {
    Float32x2,
    Float32x3,
}

impl AttributeFormat {
    /// Size of one attribute of this format, in bytes.
    pub open spec fn spec_size(self) -> int {
        match self {
            AttributeFormat::Float32x2 => 8,
            AttributeFormat::Float32x3 => 12,
        }
    }

    pub fn size(&self) -> (s: u64)
        ensures
            s == self.spec_size(),
            8 <= s <= 12,
    {
        match self {
            AttributeFormat::Float32x2 => 8,
            AttributeFormat::Float32x3 => 12,
        }
    }
}

/// One attribute: where it starts in a vertex's bytes and which shader input
/// slot it feeds.
#[derive(Clone, Copy, PartialEq, Eq, Structural, Debug)]
pub struct VertexAttribute {
    pub offset: u64,
    pub shader_location: u32,
    pub format: AttributeFormat,
}

/// A whole vertex's byte-level description: its total stride and its
/// attributes in declaration order.
#[derive(Clone, PartialEq, Eq, Debug)]
pub struct VertexLayout {
    pub stride: u64,
    pub attributes: Vec<VertexAttribute>,
}

/// Total size in bytes of the first `n` attribute formats, packed end to end.
pub open spec fn packed_size(formats: Seq<AttributeFormat>, n: int) -> int
    decreases n,
{
    if n <= 0 {
        0
    } else {
        packed_size(formats, n - 1) + formats[n - 1].spec_size()
    }
}

/// Packed prefixes only grow: a later cut is at least as far in.
pub proof fn lemma_packed_size_monotonic(formats: Seq<AttributeFormat>, i: int, j: int)
    requires
        0 <= i <= j <= formats.len(),
    ensures
        packed_size(formats, i) <= packed_size(formats, j),
    decreases j,
{
    if i < j {
        lemma_packed_size_monotonic(formats, i, j - 1);
    }
}

proof fn lemma_packed_size_bounds(formats: Seq<AttributeFormat>, n: int)
    requires
        0 <= n <= formats.len(),
    ensures
        8 * n <= packed_size(formats, n) <= 12 * n,
    decreases n,
{
    if n > 0 {
        lemma_packed_size_bounds(formats, n - 1);
    }
}

impl VertexLayout {
    /// Attributes tile the stride left to right without gaps or overlaps.
    pub open spec fn wf(self) -> bool {
        &&& self.attributes@.len() > 0
        &&& forall|i: int|
            0 <= i < self.attributes@.len() ==> #[trigger] self.attributes@[i].offset
                == packed_size(self.attributes@.map_values(|a: VertexAttribute| a.format), i)
        &&& forall|i: int|
            0 <= i < self.attributes@.len() ==> #[trigger] self.attributes@[i].shader_location == i
        &&& self.stride == packed_size(
            self.attributes@.map_values(|a: VertexAttribute| a.format),
            self.attributes@.len() as int,
        )
    }
}

/// Build the packed layout for the given attribute formats: the first
/// attribute at offset 0, each later one immediately after its predecessor,
/// shader locations numbered in order, stride equal to the total size.
///
/// Returns `None` exactly when the format list is empty or too long for the
/// shader's 32-bit location numbering.
pub fn packed_layout(formats: &Vec<AttributeFormat>) -> (r: Option<VertexLayout>)
    ensures
        r is Some <==> 0 < formats@.len() <= u32::MAX,
        r matches Some(l) ==> {
            &&& l.wf()
            &&& l.attributes@.len() == formats@.len()
            &&& forall|i: int|
                0 <= i < formats@.len() ==> #[trigger] l.attributes@[i].format == formats@[i]
            &&& l.stride == packed_size(formats@, formats@.len() as int)
        },
{
    let n = formats.len();
    if n == 0 {
        return None;
    }
    if n > u32::MAX as usize {
        return None;
    }
    let mut attributes: Vec<VertexAttribute> = Vec::new();
    let mut offset: u64 = 0;
    let mut i: usize = 0;
    while i < n
        invariant
            n == formats@.len(),
            0 < n <= u32::MAX,
            0 <= i <= n,
            attributes@.len() == i,
            offset == packed_size(formats@, i as int),
            forall|j: int|
                0 <= j < i ==> #[trigger] attributes@[j].offset == packed_size(formats@, j),
            forall|j: int| 0 <= j < i ==> #[trigger] attributes@[j].shader_location == j,
            forall|j: int| 0 <= j < i ==> #[trigger] attributes@[j].format == formats@[j],
        decreases n - i,
    {
        proof {
            lemma_packed_size_bounds(formats@, i as int);
        }
        let format = formats[i];
        attributes.push(VertexAttribute { offset, shader_location: i as u32, format });
        offset = offset + format.size();
        i = i + 1;
    }
    proof {
        assert(attributes@.map_values(|a: VertexAttribute| a.format) =~= formats@);
    }
    Some(VertexLayout { stride: offset, attributes })
}

/// The layout of this engine's textured mesh vertices: a three-float position
/// at offset 0 and a two-float texture coordinate immediately after it.
pub fn position_texcoord_layout() -> (l: VertexLayout)
    ensures
        l.wf(),
        l.stride == 20,
        l.attributes@.len() == 2,
        l.attributes@[0] == (VertexAttribute {
            offset: 0,
            shader_location: 0,
            format: AttributeFormat::Float32x3,
        }),
        l.attributes@[1] == (VertexAttribute {
            offset: 12,
            shader_location: 1,
            format: AttributeFormat::Float32x2,
        }),
{
    let mut formats: Vec<AttributeFormat> = Vec::new();
    formats.push(AttributeFormat::Float32x3);
    formats.push(AttributeFormat::Float32x2);
    let r = packed_layout(&formats);
    match r {
        Some(l) => {
            proof {
                reveal_with_fuel(packed_size, 3);
                assert(formats@[0] == AttributeFormat::Float32x3);
                assert(formats@[1] == AttributeFormat::Float32x2);
                assert(l.attributes@.map_values(|a: VertexAttribute| a.format) =~= formats@);
                assert(packed_size(formats@, 1) == 12);
                assert(packed_size(formats@, 2) == 20);
                assert(l.attributes@[0].offset == 0);
                assert(l.attributes@[1].offset == 12);
                assert(l.attributes@[0].shader_location == 0);
                assert(l.attributes@[1].shader_location == 1);
                assert(l.attributes@[0].format == AttributeFormat::Float32x3);
                assert(l.attributes@[1].format == AttributeFormat::Float32x2);
            }
            l
        },
        None => {
            proof {
                assert(false);
            }
            unreached()
        },
    }
}

} // verus!
