//! Interaction bridge: host input events to engine state changes.
//!
//! The host shell translates its windowing events into these plain values
//! and applies each to the engine; the contract here pins exactly how every
//! event mutates the session.

use vstd::prelude::*;
use crate::color::{ChannelRatio, ClearColor};
use crate::engine::FrameEngine;
use crate::pipeline::spec_cycle;
use crate::surface::spec_reconfigure;

verus! {

/// An input event, already reduced to plain values by the host shell.
#[derive(Clone, Copy, PartialEq, Eq, Structural, Debug)]
pub enum HostEvent {
    /// The window's close control was used.
    CloseRequested,
    /// The escape key went down.
    EscapePressed,
    /// The designated pipeline-cycling key went down.
    NextPipelinePressed,
    /// The window's physical size changed (resize or scale change).
    Resized { width: u32, height: u32 },
    /// The pointer moved to this position in window pixels.
    PointerMoved { x: u64, y: u64 },
}

/// What the host loop must do after an event was applied.
#[derive(Clone, Copy, PartialEq, Eq, Structural, Debug)]
pub enum HostDirective {
    /// Keep pumping events.
    Continue,
    /// Reapply the engine's surface configuration, then keep pumping.
    ApplySurfaceConfig,
    /// Tear the session down.
    Exit,
}

/// How each event leaves the engine: close and escape change nothing,
/// cycling advances the active pipeline, a resize follows the resize rule,
/// and a pointer move recolors the background with the unclamped coordinate
/// ratios.
pub open spec fn spec_apply_event(e: FrameEngine, event: HostEvent) -> FrameEngine {
    match event {
        HostEvent::CloseRequested => e,
        HostEvent::EscapePressed => e,
        HostEvent::NextPipelinePressed => FrameEngine {
            registry: crate::pipeline::PipelineRegistry {
                active: spec_cycle(
                    e.registry.pipelines@.len() as int,
                    e.registry.active as int,
                ) as usize,
                ..e.registry
            },
            ..e
        },
        HostEvent::Resized { width, height } => FrameEngine {
            config: spec_reconfigure(e.config, width, height),
            ..e
        },
        HostEvent::PointerMoved { x, y } => FrameEngine {
            background: ClearColor {
                red: ChannelRatio { num: x, den: e.config.width as u64 },
                green: ChannelRatio { num: y, den: e.config.height as u64 },
                blue: e.background.blue,
                alpha: e.background.alpha,
            },
            ..e
        },
    }
}

/// The directive each event earns: exit on close or escape, a configuration
/// reapply after a non-degenerate resize, otherwise carry on.
pub open spec fn spec_event_directive(e: FrameEngine, event: HostEvent) -> HostDirective {
    match event {
        HostEvent::CloseRequested => HostDirective::Exit,
        HostEvent::EscapePressed => HostDirective::Exit,
        HostEvent::NextPipelinePressed => HostDirective::Continue,
        HostEvent::Resized { width, height } => if width > 0 && height > 0 {
            HostDirective::ApplySurfaceConfig
        } else {
            HostDirective::Continue
        },
        HostEvent::PointerMoved { .. } => HostDirective::Continue,
    }
}

/// Apply one input event to the engine and tell the host loop what to do
/// next.
pub fn apply_event(engine: &mut FrameEngine, event: HostEvent) -> (directive: HostDirective)
    requires
        old(engine).wf(),
    ensures
        *final(engine) == spec_apply_event(*old(engine), event),
        directive == spec_event_directive(*old(engine), event),
        final(engine).wf(),
        final(engine).phase == old(engine).phase,
        final(engine).frames_presented == old(engine).frames_presented,
{
    match event {
        HostEvent::CloseRequested => HostDirective::Exit,
        HostEvent::EscapePressed => HostDirective::Exit,
        HostEvent::NextPipelinePressed => {
            engine.next_pipeline();
            HostDirective::Continue
        },
        HostEvent::Resized { width, height } => {
            let applied = engine.resize(width, height);
            if applied {
                HostDirective::ApplySurfaceConfig
            } else {
                HostDirective::Continue
            }
        },
        HostEvent::PointerMoved { x, y } => {
            engine.pointer_moved(x, y);
            HostDirective::Continue
        },
    }
}

} // verus!
