//! Frame engine: per-frame orchestration as an explicit state machine.
//!
//! The host shell owns the actual device, surface and queue; the engine owns
//! the policy. Each frame the shell asks the surface for a target and hands
//! the engine the outcome; the engine decides the phase transition and the
//! action the shell must take, and — on success — the exact command sequence
//! to record. The shell reports back (`finish_frame`, `surface_reapplied`)
//! so the engine's phase always reflects the protocol.

use vstd::prelude::*;
use crate::color::{spec_default_background, default_background, ChannelRatio, ClearColor};
use crate::mesh::MeshBuffers;
use crate::pipeline::{spec_cycle, PipelineRegistry};
use crate::surface::{spec_reconfigure, SurfaceConfig};
use crate::texture::TexturePlan;

verus! {

/// Where the engine stands in the frame protocol.
#[derive(Clone, Copy, PartialEq, Eq, Structural, Debug)]
pub enum EnginePhase {
    /// Surface configured; a frame may be attempted.
    Ready,
    /// A target was acquired; commands are being recorded and submitted.
    Rendering,
    /// The surface was lost; its configuration must be reapplied.
    Reconfiguring,
    /// Unrecoverable failure; the host loop must stop.
    Terminating,
}

/// How acquiring the next presentable target went, as reported by the shell.
#[derive(Clone, Copy, PartialEq, Eq, Structural, Debug)]
pub enum AcquireOutcome {
    /// A target is in hand.
    Acquired,
    /// The surface became invalid and must be reconfigured.
    Lost,
    /// The device is out of memory.
    OutOfMemory,
    /// Some other transient failure; the next cycle retries.
    Transient,
}

/// What the host shell must do after reporting an acquisition outcome.
#[derive(Clone, Copy, PartialEq, Eq, Structural, Debug)]
pub enum FrameAction {
    /// Record the engine's commands, submit them, present the target.
    RecordAndPresent,
    /// Reapply the current surface configuration; no frame this cycle.
    ReapplyConfig,
    /// Stop the host loop; the engine is done.
    Stop,
    /// Skip this frame and retry next cycle.
    SkipFrame,
}

/// One step of recorded work inside a frame's single render pass.
#[derive(Clone, Copy, PartialEq, Eq, Structural, Debug)]
pub enum RenderCommand {
    /// Open the pass, clearing the color target.
    BeginPass { clear: ClearColor },
    /// Bind the pipeline at this index of the registry.
    SetPipeline { index: usize },
    /// Bind the texture's binding set at this group slot.
    SetBindGroup { group: u32 },
    /// Bind the vertex buffer at this slot.
    SetVertexBuffer { slot: u32 },
    /// Bind the index buffer.
    SetIndexBuffer,
    /// One indexed draw covering every index.
    DrawIndexed { index_count: u64 },
    /// One draw covering every vertex.
    Draw { vertex_count: u64 },
    /// Close the pass.
    EndPass,
}

/// The engine: every render resource the session owns, plus the transient
/// frame state (background color, active pipeline, phase, frame counter).
#[derive(Debug)]
pub struct FrameEngine {
    pub config: SurfaceConfig,
    pub registry: PipelineRegistry,
    pub mesh: MeshBuffers,
    pub texture: Option<TexturePlan>,
    pub background: ClearColor,
    pub phase: EnginePhase,
    pub frames_presented: u64,
}

impl FrameEngine {
    pub open spec fn wf(self) -> bool {
        &&& self.config.wf()
        &&& self.registry.wf()
        &&& self.mesh.wf()
        &&& self.background.wf()
        &&& (self.texture matches Some(t) ==> t.wf())
    }

    /// Assemble a session around uploaded resources: phase `Ready`, no frame
    /// presented yet, the default dark-blue background.
    pub fn new(
        config: SurfaceConfig,
        registry: PipelineRegistry,
        mesh: MeshBuffers,
        texture: Option<TexturePlan>,
    ) -> (e: FrameEngine)
        requires
            config.wf(),
            registry.wf(),
            mesh.wf(),
            texture matches Some(t) ==> t.wf(),
        ensures
            e.config == config,
            e.registry == registry,
            e.mesh == mesh,
            e.texture == texture,
            e.background == spec_default_background(),
            e.phase is Ready,
            e.frames_presented == 0,
            e.wf(),
    {
        FrameEngine {
            config,
            registry,
            mesh,
            texture,
            background: default_background(),
            phase: EnginePhase::Ready,
            frames_presented: 0,
        }
    }
}

/// The acquisition step of the frame protocol: from `Ready`, each outcome
/// determines the next phase and the shell's action. Nothing else changes;
/// in particular no outcome advances the frame counter.
pub open spec fn spec_begin_frame(e: FrameEngine, outcome: AcquireOutcome) -> (FrameEngine,
    FrameAction) {
    match outcome {
        AcquireOutcome::Acquired => (
            FrameEngine { phase: EnginePhase::Rendering, ..e },
            FrameAction::RecordAndPresent,
        ),
        AcquireOutcome::Lost => (
            FrameEngine { phase: EnginePhase::Reconfiguring, ..e },
            FrameAction::ReapplyConfig,
        ),
        AcquireOutcome::OutOfMemory => (
            FrameEngine { phase: EnginePhase::Terminating, ..e },
            FrameAction::Stop,
        ),
        AcquireOutcome::Transient => (e, FrameAction::SkipFrame),
    }
}

/// The command sequence of one frame: a single pass that clears to the
/// engine's background, binds the active pipeline, the binding set if a
/// texture is present, and the mesh's buffers, then draws the whole mesh —
/// one indexed draw when the mesh is indexed, one plain draw otherwise.
pub open spec fn spec_commands(e: FrameEngine) -> Seq<RenderCommand> {
    let head = seq![
        RenderCommand::BeginPass { clear: e.background },
        RenderCommand::SetPipeline { index: e.registry.active },
    ];
    let bind = if e.texture is Some {
        seq![RenderCommand::SetBindGroup { group: 0 }]
    } else {
        Seq::<RenderCommand>::empty()
    };
    let draw = match e.mesh.indices {
        Some(ix) => seq![
            RenderCommand::SetIndexBuffer,
            RenderCommand::DrawIndexed { index_count: ix@.len() as u64 },
        ],
        None => seq![RenderCommand::Draw { vertex_count: e.mesh.vertex_count }],
    };
    head + bind + seq![RenderCommand::SetVertexBuffer { slot: 0 }] + draw + seq![
        RenderCommand::EndPass,
    ]
}

impl FrameEngine {
    /// Report an acquisition outcome and learn what to do.
    ///
    /// May only be called with the engine `Ready`: a correct host loop never
    /// attempts another frame after `Stop`, and never skips the follow-up
    /// calls (`finish_frame`, `surface_reapplied`) the other phases demand.
    pub fn begin_frame(&mut self, outcome: AcquireOutcome) -> (action: FrameAction)
        requires
            old(self).wf(),
            old(self).phase is Ready,
        ensures
            (*final(self), action) == spec_begin_frame(*old(self), outcome),
            final(self).wf(),
            final(self).frames_presented == old(self).frames_presented,
            outcome is Acquired ==> final(self).phase is Rendering && action
                is RecordAndPresent,
            outcome is Lost ==> final(self).phase is Reconfiguring && action is ReapplyConfig,
            outcome is OutOfMemory ==> final(self).phase is Terminating && action is Stop,
            outcome is Transient ==> *final(self) == *old(self) && action is SkipFrame,
    {
        match outcome {
            AcquireOutcome::Acquired => {
                self.phase = EnginePhase::Rendering;
                FrameAction::RecordAndPresent
            },
            AcquireOutcome::Lost => {
                self.phase = EnginePhase::Reconfiguring;
                FrameAction::ReapplyConfig
            },
            AcquireOutcome::OutOfMemory => {
                self.phase = EnginePhase::Terminating;
                FrameAction::Stop
            },
            AcquireOutcome::Transient => FrameAction::SkipFrame,
        }
    }

    /// The exact commands the shell records for the frame being rendered.
    pub fn record_commands(&self) -> (cmds: Vec<RenderCommand>)
        requires
            self.wf(),
            self.phase is Rendering,
        ensures
            cmds@ == spec_commands(*self),
    {
        let mut cmds: Vec<RenderCommand> = Vec::new();
        cmds.push(RenderCommand::BeginPass { clear: self.background });
        cmds.push(RenderCommand::SetPipeline { index: self.registry.active });
        if self.texture.is_some() {
            cmds.push(RenderCommand::SetBindGroup { group: 0 });
        }
        cmds.push(RenderCommand::SetVertexBuffer { slot: 0 });
        match &self.mesh.indices {
            Some(ix) => {
                cmds.push(RenderCommand::SetIndexBuffer);
                cmds.push(RenderCommand::DrawIndexed { index_count: ix.len() as u64 });
            },
            None => {
                cmds.push(RenderCommand::Draw { vertex_count: self.mesh.vertex_count });
            },
        }
        cmds.push(RenderCommand::EndPass);
        proof {
            assert(cmds@ =~= spec_commands(*self));
        }
        cmds
    }

    /// The shell submitted and presented the recorded frame: back to
    /// `Ready`, exactly one more frame on the counter.
    pub fn finish_frame(&mut self)
        requires
            old(self).wf(),
            old(self).phase is Rendering,
            old(self).frames_presented < u64::MAX,
        ensures
            *final(self) == (FrameEngine {
                phase: EnginePhase::Ready,
                frames_presented: (old(self).frames_presented + 1) as u64,
                ..*old(self)
            }),
            final(self).wf(),
    {
        self.phase = EnginePhase::Ready;
        self.frames_presented = self.frames_presented + 1;
    }

    /// The shell reapplied the current configuration to the lost surface:
    /// back to `Ready` with nothing else — the frame counter included —
    /// changed.
    pub fn surface_reapplied(&mut self)
        requires
            old(self).wf(),
            old(self).phase is Reconfiguring,
        ensures
            *final(self) == (FrameEngine { phase: EnginePhase::Ready, ..*old(self) }),
            final(self).wf(),
    {
        self.phase = EnginePhase::Ready;
    }

    /// Apply a window size change: the configuration follows the resize
    /// rule, and the shell must reapply it exactly when the size changed.
    pub fn resize(&mut self, width: u32, height: u32) -> (applied: bool)
        requires
            old(self).wf(),
        ensures
            *final(self) == (FrameEngine {
                config: spec_reconfigure(old(self).config, width, height),
                ..*old(self)
            }),
            applied <==> (width > 0 && height > 0),
            (width == 0 || height == 0) ==> *final(self) == *old(self),
            final(self).wf(),
    {
        crate::surface::reconfigure(&mut self.config, width, height)
    }

    /// Make the next pipeline of the registry (wrapping) the active one.
    pub fn next_pipeline(&mut self)
        requires
            old(self).wf(),
        ensures
            *final(self) == (FrameEngine {
                registry: PipelineRegistry {
                    active: final(self).registry.active,
                    ..old(self).registry
                },
                ..*old(self)
            }),
            final(self).registry.active == spec_cycle(
                old(self).registry.pipelines@.len() as int,
                old(self).registry.active as int,
            ),
            final(self).wf(),
    {
        self.registry.cycle_active();
    }

    /// Move the background toward the pointer: red becomes the pointer's x
    /// as a fraction of the window width, green its y as a fraction of the
    /// height, blue and alpha stay. The ratios are taken as they are, not
    /// clamped.
    pub fn pointer_moved(&mut self, x: u64, y: u64)
        requires
            old(self).wf(),
        ensures
            *final(self) == (FrameEngine {
                background: ClearColor {
                    red: ChannelRatio { num: x, den: old(self).config.width as u64 },
                    green: ChannelRatio { num: y, den: old(self).config.height as u64 },
                    blue: old(self).background.blue,
                    alpha: old(self).background.alpha,
                },
                ..*old(self)
            }),
            final(self).wf(),
    {
        let width = self.config.width;
        let height = self.config.height;
        self.background.red = ChannelRatio::new(x, width as u64);
        self.background.green = ChannelRatio::new(y, height as u64);
    }
}

/// The engine was `Ready` with the configuration applied: the step for
/// `Reconfiguring` engines, reapplying that same configuration, then brings
/// it back to exactly the state it was in.
pub open spec fn spec_surface_reapplied(e: FrameEngine) -> FrameEngine {
    FrameEngine { phase: EnginePhase::Ready, ..e }
}

/// A lost acquisition is recovered without raising to the host: from
/// `Ready`, `Lost` parks the engine in `Reconfiguring` with an action other
/// than `Stop`, and reapplying the configuration restores the engine — frame
/// counter included — exactly as it was.
pub proof fn lemma_lost_recovery(e: FrameEngine)
    requires
        e.phase is Ready,
    ensures
        ({
            let (parked, action) = spec_begin_frame(e, AcquireOutcome::Lost);
            &&& parked.phase is Reconfiguring
            &&& action is ReapplyConfig
            &&& action !is Stop
            &&& parked.frames_presented == e.frames_presented
            &&& spec_surface_reapplied(parked) == e
        }),
{
}

/// An out-of-memory acquisition terminates the session: from `Ready` the
/// engine moves to the terminal `Terminating` phase and orders the host loop
/// to stop; no later frame can be begun, since `begin_frame` demands a
/// `Ready` engine.
pub proof fn lemma_out_of_memory_terminates(e: FrameEngine)
    requires
        e.phase is Ready,
    ensures
        ({
            let (dead, action) = spec_begin_frame(e, AcquireOutcome::OutOfMemory);
            &&& dead.phase is Terminating
            &&& action is Stop
            &&& dead.frames_presented == e.frames_presented
        }),
{
}

} // verus!
