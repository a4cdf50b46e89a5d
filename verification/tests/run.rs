use fj_kernel::objects::Triangle;
use fj_kernel::run::{
    after_draw, on_event, run_mesh, run_model, AfterDraw, Args, DrawOutcome, Mesh, Model, RunPlan,
    ViewerAction, ViewerEvent,
};
use fj_math::Point;

struct OneTriangle;

fn one_triangle() -> Mesh {
    let triangle = Triangle {
        a: Point::from([0., 0., 0.]),
        b: Point::from([1., 0., 0.]),
        c: Point::from([0., 1., 0.]),
    };
    Mesh { triangles: vec![(triangle, [255, 0, 0, 255])] }
}

impl Model for OneTriangle {
    fn instantiate(&self) -> Mesh {
        one_triangle()
    }
}

#[test]
fn run_mesh_exports_where_a_path_is_given() {
    let mesh = Mesh { triangles: Vec::new() };
    let plan = run_mesh(mesh.clone(), Args { export: Some(String::from("out.3mf")) });
    assert_eq!(plan, RunPlan::Export { mesh, path: String::from("out.3mf") });
}

#[test]
fn run_mesh_shows_the_mesh_without_a_path() {
    let plan = run_mesh(one_triangle(), Args { export: None });
    assert_eq!(plan, RunPlan::View { mesh: one_triangle() });
}

#[test]
fn run_model_plans_for_the_mesh_of_the_model() {
    let plan = run_model(&OneTriangle, Args { export: None });
    assert_eq!(plan, RunPlan::View { mesh: one_triangle() });

    let plan = run_model(&OneTriangle, Args { export: Some(String::from("a/b.3mf")) });
    assert_eq!(plan, RunPlan::Export { mesh: one_triangle(), path: String::from("a/b.3mf") });
}

#[test]
fn close_request_exits() {
    assert_eq!(on_event(ViewerEvent::CloseRequested), ViewerAction::Exit);
}

#[test]
fn every_event_has_its_action() {
    assert_eq!(on_event(ViewerEvent::Resized), ViewerAction::Resize);
    assert_eq!(on_event(ViewerEvent::KeyboardInput), ViewerAction::HandleKeyboard);
    assert_eq!(on_event(ViewerEvent::CursorMoved), ViewerAction::HandleCursor);
    assert_eq!(on_event(ViewerEvent::MouseInput), ViewerAction::HandleMouseButton);
    assert_eq!(on_event(ViewerEvent::MouseWheel), ViewerAction::HandleMouseWheel);
    assert_eq!(on_event(ViewerEvent::MainEventsCleared), ViewerAction::RequestRedraw);
    assert_eq!(on_event(ViewerEvent::RedrawRequested), ViewerAction::Draw);
    assert_eq!(on_event(ViewerEvent::Other), ViewerAction::Ignore);
}

#[test]
fn an_outdated_surface_is_reported_and_other_errors_stop() {
    assert_eq!(after_draw(DrawOutcome::Drawn), AfterDraw::Continue);
    assert_eq!(after_draw(DrawOutcome::Outdated), AfterDraw::Report);
    assert_eq!(after_draw(DrawOutcome::Failed), AfterDraw::Abort);
}
