//! Pipeline registry: the compiled shader + fixed-function configurations
//! available for selection, and the rule that cycles the active one.

use vstd::prelude::*;
use vstd::arithmetic::div_mod::{
    lemma_add_mod_noop_right, lemma_mod_add_multiples_vanish, lemma_small_mod,
};
use crate::layout::VertexLayout;
use crate::surface::SurfaceFormat;

verus! {

#[derive(Clone, Copy, PartialEq, Eq, Structural, Debug)]
pub enum PrimitiveTopology {
    PointList,
    LineList,
    TriangleList,
}

#[derive(Clone, Copy, PartialEq, Eq, Structural, Debug)]
pub enum FrontFace {
    Ccw,
    Cw,
}

#[derive(Clone, Copy, PartialEq, Eq, Structural, Debug)]
pub enum CullMode {
    NoCulling,
    CullFront,
    CullBack,
}

#[derive(Clone, Copy, PartialEq, Eq, Structural, Debug)]
pub enum BlendMode {
    Replace,
    AlphaBlend,
}

/// One compiled, immutable pipeline: a shader module (an opaque identifier
/// assigned by the host shell) paired with the fixed-function state this
/// engine renders with.
#[derive(Clone, PartialEq, Eq, Debug)]
pub struct PipelineSpec {
    pub shader_module: u32,
    pub layout: VertexLayout,
    pub output_format: SurfaceFormat,
    pub topology: PrimitiveTopology,
    pub front_face: FrontFace,
    pub cull_mode: CullMode,
    pub blend: BlendMode,
    pub depth_stencil: bool,
    pub sample_count: u32,
}

impl PipelineSpec {
    pub open spec fn wf(self) -> bool {
        self.layout.wf()
    }
}

/// Build one pipeline configuration: triangle-list topology,
/// counter-clockwise front face, back-face culling, opaque (replace)
/// blending, a single color output in the surface's format, no
/// depth/stencil, single-sample.
pub fn build_pipeline(shader_module: u32, layout: VertexLayout, output_format: SurfaceFormat) -> (
    p: PipelineSpec)
    requires
        layout.wf(),
    ensures
        p == (PipelineSpec {
            shader_module,
            layout,
            output_format,
            topology: PrimitiveTopology::TriangleList,
            front_face: FrontFace::Ccw,
            cull_mode: CullMode::CullBack,
            blend: BlendMode::Replace,
            depth_stencil: false,
            sample_count: 1,
        }),
        p.wf(),
{
    PipelineSpec {
        shader_module,
        layout,
        output_format,
        topology: PrimitiveTopology::TriangleList,
        front_face: FrontFace::Ccw,
        cull_mode: CullMode::CullBack,
        blend: BlendMode::Replace,
        depth_stencil: false,
        sample_count: 1,
    }
}

/// The selection rule: the next index, wrapping past the end.
pub open spec fn spec_cycle(len: int, i: int) -> int {
    (i + 1) % len
}

/// `spec_cycle` applied `k` times to `i`.
pub open spec fn iter_cycle(len: int, i: int, k: nat) -> int
    decreases k,
{
    if k == 0 {
        i
    } else {
        spec_cycle(len, iter_cycle(len, i, (k - 1) as nat))
    }
}

/// Advance the active index by one, wrapping past the end of the registry.
///
/// Defined only for a non-empty registry; the result always indexes it.
pub fn cycle(registry_len: usize, current: usize) -> (next: usize)
    requires
        registry_len > 0,
        current < registry_len,
    ensures
        next == spec_cycle(registry_len as int, current as int),
        next < registry_len,
{
    let bumped = current + 1;
    if bumped == registry_len {
        proof {
            lemma_mod_add_multiples_vanish(0, registry_len as int);
            lemma_small_mod(0, registry_len as nat);
        }
        0
    } else {
        proof {
            lemma_small_mod(bumped as nat, registry_len as nat);
        }
        bumped
    }
}

/// Cycling from any in-range index lands in range, and cycling stepwise adds
/// one modulo the registry length.
pub proof fn lemma_iter_cycle_mod(len: int, i: int, k: nat)
    requires
        len > 0,
        0 <= i < len,
    ensures
        iter_cycle(len, i, k) == (i + k) % len,
        0 <= iter_cycle(len, i, k) < len,
    decreases k,
{
    if k == 0 {
        lemma_small_mod(i as nat, len as nat);
    } else {
        lemma_iter_cycle_mod(len, i, (k - 1) as nat);
        lemma_add_mod_noop_right(1, i + k - 1, len);
        assert(iter_cycle(len, i, k) == (1 + (i + k - 1) % len) % len);
    }
}

/// Cycling as many times as the registry is long returns to the index one
/// started from.
pub proof fn lemma_cycle_full_round(len: int, i: int)
    requires
        len > 0,
        0 <= i < len,
    ensures
        iter_cycle(len, i, len as nat) == i,
{
    lemma_iter_cycle_mod(len, i, len as nat);
    lemma_mod_add_multiples_vanish(i, len);
    lemma_small_mod(i as nat, len as nat);
}

/// The ordered list of pipelines with the index of the active one.
#[derive(Clone, PartialEq, Eq, Debug)]
pub struct PipelineRegistry {
    pub pipelines: Vec<PipelineSpec>,
    pub active: usize,
}

impl PipelineRegistry {
    /// A registry is usable only while non-empty with the active index in
    /// range.
    pub open spec fn wf(self) -> bool {
        self.pipelines@.len() > 0 && self.active < self.pipelines@.len()
    }

    /// Assemble the registry. An empty pipeline list is a configuration
    /// error, rejected at startup rather than tolerated during rendering.
    pub fn new(pipelines: Vec<PipelineSpec>) -> (r: Option<PipelineRegistry>)
        ensures
            r is Some <==> pipelines@.len() > 0,
            r matches Some(reg) ==> reg.pipelines == pipelines && reg.active == 0 && reg.wf(),
    {
        if pipelines.len() == 0 {
            None
        } else {
            Some(PipelineRegistry { pipelines, active: 0 })
        }
    }

    /// Make the next pipeline (wrapping) the active one.
    pub fn cycle_active(&mut self)
        requires
            old(self).wf(),
        ensures
            final(self).pipelines == old(self).pipelines,
            final(self).active == spec_cycle(
                old(self).pipelines@.len() as int,
                old(self).active as int,
            ),
            final(self).wf(),
    {
        self.active = cycle(self.pipelines.len(), self.active);
    }
}

} // verus!
