//! What to do with a finished mesh, and what the viewer does on each event of its window.
//! The decisions are made here; opening the window, drawing and writing files is left to the
//! caller, which performs each action and reports back what happened.
use vstd::prelude::*;
use crate::objects::{Color, Triangle};

verus! {

/// A triangle mesh: what the viewer draws and the export writes.
#[derive(Clone, Debug, PartialEq, Eq)]
pub struct Mesh {
    pub triangles: Vec<(Triangle, Color)>,
}

/// Something that can be turned into a mesh.
pub trait Model {
    /// The mesh of the model.
    fn instantiate(&self) -> Mesh;
}

/// The arguments of a run.
#[derive(Clone, Debug, PartialEq, Eq)]
pub struct Args {
    /// Where to export the mesh to. Without it the mesh is shown in a window.
    pub export: Option<String>,
}

/// What a run does with its mesh.
#[derive(Clone, Debug, PartialEq, Eq)]
pub enum RunPlan {
    /// Write the mesh to `path` and end.
    Export { mesh: Mesh, path: String },
    /// Open a window and show the mesh until the window is closed.
    View { mesh: Mesh },
}

/// An event of the viewer's window.
#[derive(Clone, Copy, Debug, PartialEq, Eq, Structural)]
pub enum ViewerEvent {
    CloseRequested,
    Resized,
    KeyboardInput,
    CursorMoved,
    MouseInput,
    MouseWheel,
    MainEventsCleared,
    RedrawRequested,
    /// Any other event.
    Other,
}

/// What the viewer does on an event.
#[derive(Clone, Copy, Debug, PartialEq, Eq, Structural)]
pub enum ViewerAction {
    /// Leave the event loop.
    Exit,
    /// Tell the renderer the window's new size.
    Resize,
    /// Hand the key to the input handler.
    HandleKeyboard,
    /// Hand the cursor's position to the input handler, which may turn or move the model.
    HandleCursor,
    /// Hand the mouse button to the input handler.
    HandleMouseButton,
    /// Hand the wheel's movement to the input handler, which may move the camera.
    HandleMouseWheel,
    /// Ask the window to be drawn again.
    RequestRedraw,
    /// Draw the model.
    Draw,
    /// Do nothing.
    Ignore,
}

/// How drawing ended.
#[derive(Clone, Copy, Debug, PartialEq, Eq, Structural)]
pub enum DrawOutcome {
    Drawn,
    /// The surface no longer fits the window, as happens while the window is resized.
    Outdated,
    /// Any other error.
    Failed,
}

/// What the viewer does after drawing.
#[derive(Clone, Copy, Debug, PartialEq, Eq, Structural)]
pub enum AfterDraw {
    /// Go on with the next event.
    Continue,
    /// Print the error and go on: it is not fatal.
    Report,
    /// Stop the program with the error.
    Abort,
}

/// What a run with `args` does with `mesh`.
pub open spec fn plan_for(mesh: Mesh, args: Args) -> RunPlan {
    match args.export {
        Some(path) => RunPlan::Export { mesh, path },
        None => RunPlan::View { mesh },
    }
}

/// What the viewer does on `event`.
pub open spec fn action_for(event: ViewerEvent) -> ViewerAction {
    match event {
        ViewerEvent::CloseRequested => ViewerAction::Exit,
        ViewerEvent::Resized => ViewerAction::Resize,
        ViewerEvent::KeyboardInput => ViewerAction::HandleKeyboard,
        ViewerEvent::CursorMoved => ViewerAction::HandleCursor,
        ViewerEvent::MouseInput => ViewerAction::HandleMouseButton,
        ViewerEvent::MouseWheel => ViewerAction::HandleMouseWheel,
        ViewerEvent::MainEventsCleared => ViewerAction::RequestRedraw,
        ViewerEvent::RedrawRequested => ViewerAction::Draw,
        ViewerEvent::Other => ViewerAction::Ignore,
    }
}

/// Plans the run for `model`: its mesh is exported where `args` names a path, and shown
/// otherwise.
pub fn run_model<M: Model>(model: &M, args: Args) -> (plan: RunPlan)
    ensures
        exists|mesh: Mesh| plan == plan_for(mesh, args),
{
    let mesh = model.instantiate();
    run_mesh(mesh, args)
}

/// Plans the run for `mesh`: it is exported where `args` names a path, and shown otherwise.
pub fn run_mesh(mesh: Mesh, args: Args) -> (plan: RunPlan)
    ensures
        plan == plan_for(mesh, args),
{
    match args.export {
        Some(path) => RunPlan::Export { mesh, path },
        None => RunPlan::View { mesh },
    }
}

/// What the viewer does on `event`.
pub fn on_event(event: ViewerEvent) -> (action: ViewerAction)
    ensures
        action == action_for(event),
{
    match event {
        ViewerEvent::CloseRequested => ViewerAction::Exit,
        ViewerEvent::Resized => ViewerAction::Resize,
        ViewerEvent::KeyboardInput => ViewerAction::HandleKeyboard,
        ViewerEvent::CursorMoved => ViewerAction::HandleCursor,
        ViewerEvent::MouseInput => ViewerAction::HandleMouseButton,
        ViewerEvent::MouseWheel => ViewerAction::HandleMouseWheel,
        ViewerEvent::MainEventsCleared => ViewerAction::RequestRedraw,
        ViewerEvent::RedrawRequested => ViewerAction::Draw,
        ViewerEvent::Other => ViewerAction::Ignore,
    }
}

/// What the viewer does after drawing ended with `outcome`. An outdated surface is reported
/// and the viewer goes on; any other error stops it.
pub fn after_draw(outcome: DrawOutcome) -> (next: AfterDraw)
    ensures
        next == match outcome {
            DrawOutcome::Drawn => AfterDraw::Continue,
            DrawOutcome::Outdated => AfterDraw::Report,
            DrawOutcome::Failed => AfterDraw::Abort,
        },
{
    match outcome {
        DrawOutcome::Drawn => AfterDraw::Continue,
        DrawOutcome::Outdated => AfterDraw::Report,
        DrawOutcome::Failed => AfterDraw::Abort,
    }
}

} // verus!
