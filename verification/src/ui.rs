//! The decisions of the interactive session: what the render context does
//! with each window event and with the outcome of each frame.
//!
//! The event loop, the window and the surface stay with the caller. It hands
//! each event in as a plain value, carries out the reaction that comes back,
//! and reports how presenting a frame went.

use vstd::prelude::*;
use crate::app::{App, PhysicalSize, RenderTarget, Surface, SurfaceConfiguration};
use crate::pipeline::{Common, Pipeline};

verus! {

/// Why the surface did not hand out its next image.
#[derive(Clone, Copy, Debug, PartialEq, Eq, Structural)]
pub enum SurfaceFailure {
    /// Acquiring the image timed out.
    Timeout,
    /// The surface changed and has to be configured again.
    Outdated,
    /// The swap chain was lost and has to be made again.
    Lost,
    /// No memory is left for a new image.
    OutOfMemory,
}

/// A window event, reduced to what the session decides on.
#[derive(Clone, Copy, Debug, PartialEq, Eq, Structural)]
pub enum WindowEvent {
    RedrawRequested,
    CloseRequested,
    /// A key changed state; `escape` says whether it is the escape key.
    KeyboardInput { pressed: bool, escape: bool },
    Resized(PhysicalSize),
    /// The scale factor changed; `inner_size` is the window's size now.
    ScaleFactorChanged { inner_size: PhysicalSize },
    AboutToWait,
    /// Any other event.
    Other,
}

/// What the caller does next.
#[derive(Clone, Copy, Debug, PartialEq, Eq, Structural)]
pub enum Reaction {
    Nothing,
    /// Upload the uniform block, render one frame to the surface and report
    /// the outcome.
    Draw,
    /// Configure the surface with the context's configuration and upload the
    /// uniform block.
    Reconfigure,
    /// Ask the window for a redraw.
    RequestRedraw,
    /// Leave the event loop.
    Exit,
    /// Log the failure and go on with the next frame.
    Report(SurfaceFailure),
}

/// The context after a resize to `size`: unchanged where the size has a
/// zero.
pub open spec fn resized(app: App, size: PhysicalSize) -> App
    recommends
        app.target is Presentable,
{
    if size.width > 0 && size.height > 0 {
        App {
            target: RenderTarget::Presentable(
                Surface {
                    surface_config: SurfaceConfiguration {
                        format: app.target->Presentable_0.surface_config.format,
                        width: size.width,
                        height: size.height,
                    },
                    surface_size: size,
                },
            ),
            pipeline: Pipeline {
                common: Common { dimensions: [size.height, size.width], ..app.pipeline.common },
                ..app.pipeline
            },
        }
    } else {
        app
    }
}

/// The reaction to a resize to `size`.
pub open spec fn resize_reaction(size: PhysicalSize) -> Reaction {
    if size.width > 0 && size.height > 0 {
        Reaction::Reconfigure
    } else {
        Reaction::Nothing
    }
}

/// The context after `event`.
pub open spec fn after_event(app: App, event: WindowEvent) -> App {
    match event {
        WindowEvent::RedrawRequested => App {
            pipeline: Pipeline { common: app.pipeline.common.advanced(), ..app.pipeline },
            ..app
        },
        WindowEvent::Resized(size) => resized(app, size),
        WindowEvent::ScaleFactorChanged { inner_size } => resized(app, inner_size),
        _ => app,
    }
}

/// The reaction to `event`.
pub open spec fn reaction_to(event: WindowEvent) -> Reaction {
    match event {
        WindowEvent::RedrawRequested => Reaction::Draw,
        WindowEvent::CloseRequested => Reaction::Exit,
        WindowEvent::KeyboardInput { pressed, escape } => if pressed && escape {
            Reaction::Exit
        } else {
            Reaction::Nothing
        },
        WindowEvent::Resized(size) => resize_reaction(size),
        WindowEvent::ScaleFactorChanged { inner_size } => resize_reaction(inner_size),
        WindowEvent::AboutToWait => Reaction::RequestRedraw,
        WindowEvent::Other => Reaction::Nothing,
    }
}

/// The context after a frame went as `outcome` says: a lost surface is
/// recovered by a resize to the size the surface already has.
pub open spec fn after_frame(app: App, outcome: Result<(), SurfaceFailure>) -> App
    recommends
        app.target is Presentable,
{
    match outcome {
        Err(SurfaceFailure::Lost) => resized(app, app.target->Presentable_0.surface_size),
        _ => app,
    }
}

/// The reaction to a frame that went as `outcome` says.
pub open spec fn reaction_to_frame(app: App, outcome: Result<(), SurfaceFailure>) -> Reaction
    recommends
        app.target is Presentable,
{
    match outcome {
        Ok(_) => Reaction::Nothing,
        Err(SurfaceFailure::Lost) => resize_reaction(app.target->Presentable_0.surface_size),
        Err(SurfaceFailure::OutOfMemory) => Reaction::Exit,
        Err(failure) => Reaction::Report(failure),
    }
}

/// Decides on one window event: a redraw advances the animation and asks for
/// a frame, a resize or a new scale factor takes over the window's size,
/// closing the window or pressing escape ends the session.
pub fn on_window_event(app: &mut App, event: WindowEvent) -> (reaction: Reaction)
    requires
        old(app).target is Presentable,
        event is RedrawRequested ==> old(app).pipeline.common.can_advance(),
    ensures
        *final(app) == after_event(*old(app), event),
        reaction == reaction_to(event),
        final(app).target is Presentable,
{
    match event {
        WindowEvent::RedrawRequested => {
            app.update();
            Reaction::Draw
        },
        WindowEvent::CloseRequested => Reaction::Exit,
        WindowEvent::KeyboardInput { pressed, escape } => {
            if pressed && escape {
                Reaction::Exit
            } else {
                Reaction::Nothing
            }
        },
        WindowEvent::Resized(size) => resize_reaction_of(app, size),
        WindowEvent::ScaleFactorChanged { inner_size } => resize_reaction_of(app, inner_size),
        WindowEvent::AboutToWait => Reaction::RequestRedraw,
        WindowEvent::Other => Reaction::Nothing,
    }
}

/// Decides on the outcome of a frame: a lost surface is configured again at
/// its current size, running out of memory ends the session, any other
/// failure is reported and the frame skipped.
pub fn on_frame_outcome(app: &mut App, outcome: Result<(), SurfaceFailure>) -> (reaction:
    Reaction)
    requires
        old(app).target is Presentable,
    ensures
        *final(app) == after_frame(*old(app), outcome),
        reaction == reaction_to_frame(*old(app), outcome),
        final(app).target is Presentable,
{
    match outcome {
        Ok(_) => Reaction::Nothing,
        Err(SurfaceFailure::Lost) => {
            let size = match app.target {
                RenderTarget::Presentable(surface) => surface.surface_size,
                RenderTarget::Offscreen(_) => PhysicalSize { width: 0, height: 0 },
            };
            resize_reaction_of(app, size)
        },
        Err(SurfaceFailure::OutOfMemory) => Reaction::Exit,
        Err(failure) => Reaction::Report(failure),
    }
}

fn resize_reaction_of(app: &mut App, size: PhysicalSize) -> (reaction: Reaction)
    requires
        old(app).target is Presentable,
    ensures
        *final(app) == resized(*old(app), size),
        reaction == resize_reaction(size),
        final(app).target is Presentable,
{
    if app.resize(size) {
        Reaction::Reconfigure
    } else {
        Reaction::Nothing
    }
}

/// A lost surface never ends the session, and where the surface has a size
/// it is configured again with that very size.
pub proof fn lemma_lost_surface_keeps_size(app: App)
    requires
        app.target is Presentable,
        app.target->Presentable_0.surface_config.width
            == app.target->Presentable_0.surface_size.width,
        app.target->Presentable_0.surface_config.height
            == app.target->Presentable_0.surface_size.height,
    ensures
        reaction_to_frame(app, Err(SurfaceFailure::Lost)) != Reaction::Exit,
        after_frame(app, Err(SurfaceFailure::Lost)).target == app.target,
{
}

} // verus!
