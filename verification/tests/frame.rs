use lotus_engine::frame::{
    choose_surface_format, draw_step, frame_plan, prepare, render_error_action, resize_accepted,
    setup_rendering_2d, DrawFacts, DrawSetup, FrameAction, FrameStep, SurfaceError, SurfaceOutcome,
};

fn facts(alive: bool, visible: bool, playing_animation: bool, has_sprite: bool, has_shape: bool, has_text: bool) -> DrawFacts {
    DrawFacts { alive, visible, playing_animation, has_sprite, has_shape, has_text }
}

#[test]
fn draw_step_priorities() {
    assert_eq!(draw_step(facts(false, true, true, true, true, true)), None);
    assert_eq!(draw_step(facts(true, true, true, true, true, true)), Some((DrawSetup::Animation, true)));
    assert_eq!(draw_step(facts(true, false, false, true, true, true)), Some((DrawSetup::Sprite, false)));
    assert_eq!(draw_step(facts(true, true, false, false, true, true)), Some((DrawSetup::Shape, true)));
    assert_eq!(draw_step(facts(true, true, false, false, false, true)), Some((DrawSetup::Text, true)));
    assert_eq!(draw_step(facts(true, true, false, false, false, false)), None);
}

#[test]
fn frame_plan_order() {
    let entities = vec![
        facts(true, true, false, true, false, false),
        facts(false, true, false, true, false, false),
        facts(true, false, false, false, true, false),
        facts(true, true, false, false, false, false),
        facts(true, true, true, true, false, false),
    ];
    assert_eq!(
        frame_plan(true, &entities),
        vec![
            FrameStep::Background,
            FrameStep::Entity(0, DrawSetup::Sprite, true),
            FrameStep::Entity(2, DrawSetup::Shape, false),
            FrameStep::Entity(4, DrawSetup::Animation, true),
        ]
    );
    assert_eq!(frame_plan(false, &Vec::new()), Vec::<FrameStep>::new());
    assert_eq!(frame_plan(false, &entities)[0], FrameStep::Entity(0, DrawSetup::Sprite, true));
}

#[test]
fn setup_choice() {
    assert_eq!(setup_rendering_2d(true, true, true, true), DrawSetup::Sprite);
    assert_eq!(setup_rendering_2d(false, true, true, true), DrawSetup::Animation);
    assert_eq!(setup_rendering_2d(false, false, true, false), DrawSetup::Shape);
    assert_eq!(setup_rendering_2d(false, false, false, true), DrawSetup::Text);
}

#[test]
fn surface_outcomes() {
    assert_eq!(prepare(SurfaceOutcome::Success), FrameAction::Draw);
    assert_eq!(prepare(SurfaceOutcome::Suboptimal), FrameAction::Resize);
    assert_eq!(prepare(SurfaceOutcome::Timeout), FrameAction::Warn);
    assert_eq!(prepare(SurfaceOutcome::Occluded), FrameAction::Warn);
    assert_eq!(prepare(SurfaceOutcome::Outdated), FrameAction::Warn);
    assert_eq!(prepare(SurfaceOutcome::Lost), FrameAction::Exit);
    assert_eq!(prepare(SurfaceOutcome::Validation), FrameAction::Exit);
    assert_eq!(render_error_action(SurfaceError::Lost), FrameAction::Resize);
    assert_eq!(render_error_action(SurfaceError::Outdated), FrameAction::Resize);
    assert_eq!(render_error_action(SurfaceError::OutOfMemory), FrameAction::Exit);
    assert_eq!(render_error_action(SurfaceError::Other), FrameAction::Exit);
    assert_eq!(render_error_action(SurfaceError::Timeout), FrameAction::Warn);
}

#[test]
fn sizes_and_formats() {
    assert!(resize_accepted(800, 600));
    assert!(!resize_accepted(0, 600));
    assert!(!resize_accepted(800, 0));
    assert_eq!(choose_surface_format(&vec![false, true, true]), 1);
    assert_eq!(choose_surface_format(&vec![false, false]), 0);
    assert_eq!(choose_surface_format(&vec![true]), 0);
}
