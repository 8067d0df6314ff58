//! The renderer's decisions for a frame: what each entity is drawn as, the
//! order of the draws, what to do with the outcome of acquiring the surface,
//! which window sizes are taken, and which surface format is used.
use vstd::prelude::*;

verus! {

/// Which setup prepares the draw of an entity.
#[derive(Clone, Copy, Debug, PartialEq, Eq, Structural)]
pub enum DrawSetup {
    Animation,
    Sprite,
    Shape,
    Text,
}

/// What the renderer knows of an entity when it plans a frame.
#[derive(Clone, Copy, Debug, PartialEq, Eq, Structural)]
pub struct DrawFacts {
    pub alive: bool,
    pub visible: bool,
    /// The entity has an animation with something on its playing stack.
    pub playing_animation: bool,
    pub has_sprite: bool,
    pub has_shape: bool,
    pub has_text: bool,
}

/// The setup for an entity and whether it is drawn: dead entities are
/// skipped; a playing animation goes before a sprite, a sprite before a
/// shape, a shape before a text; an entity with none of them is skipped.
/// The setup runs for every live entity that has one; the draw itself only
/// when the entity is visible.
pub open spec fn draw_step_of(f: DrawFacts) -> Option<(DrawSetup, bool)> {
    if !f.alive {
        None
    } else if f.playing_animation {
        Some((DrawSetup::Animation, f.visible))
    } else if f.has_sprite {
        Some((DrawSetup::Sprite, f.visible))
    } else if f.has_shape {
        Some((DrawSetup::Shape, f.visible))
    } else if f.has_text {
        Some((DrawSetup::Text, f.visible))
    } else {
        None
    }
}

/// Decides how one entity takes part in the frame.
pub fn draw_step(f: DrawFacts) -> (r: Option<(DrawSetup, bool)>)
    ensures
        r == draw_step_of(f),
{
    if !f.alive {
        None
    } else if f.playing_animation {
        Some((DrawSetup::Animation, f.visible))
    } else if f.has_sprite {
        Some((DrawSetup::Sprite, f.visible))
    } else if f.has_shape {
        Some((DrawSetup::Shape, f.visible))
    } else if f.has_text {
        Some((DrawSetup::Text, f.visible))
    } else {
        None
    }
}

/// An entity takes part in a frame exactly when it is alive and has something
/// to draw; it is drawn exactly when it is visible; and its setup is the
/// first of animation (when one is playing), sprite, shape and text that it has.
pub proof fn lemma_draw_step_decides(f: DrawFacts)
    ensures
        draw_step_of(f) is None <==> (!f.alive || (!f.playing_animation && !f.has_sprite
            && !f.has_shape && !f.has_text)),
        draw_step_of(f) is Some ==> draw_step_of(f).unwrap().1 == f.visible,
        draw_step_of(f) is Some ==> ((draw_step_of(f).unwrap().0 == DrawSetup::Animation)
            <==> f.playing_animation),
        draw_step_of(f) is Some ==> ((draw_step_of(f).unwrap().0 == DrawSetup::Sprite) <==> (
        !f.playing_animation && f.has_sprite)),
        draw_step_of(f) is Some ==> ((draw_step_of(f).unwrap().0 == DrawSetup::Shape) <==> (
        !f.playing_animation && !f.has_sprite && f.has_shape)),
        draw_step_of(f) is Some ==> ((draw_step_of(f).unwrap().0 == DrawSetup::Text) <==> (
        !f.playing_animation && !f.has_sprite && !f.has_shape && f.has_text)),
{
}

/// One step of a frame.
#[derive(Clone, Copy, Debug, PartialEq, Eq, Structural)]
pub enum FrameStep {
    /// Set up and draw the background image.
    Background,
    /// Set up the entity at this position of the draw order, and draw it if the flag is set.
    Entity(usize, DrawSetup, bool),
}

/// The steps for the entities, in the draw order given.
pub open spec fn entity_steps(entities: Seq<DrawFacts>) -> Seq<FrameStep>
    decreases entities.len(),
{
    if entities.len() == 0 {
        Seq::empty()
    } else {
        let n: int = entities.len() - 1;
        let earlier = entity_steps(entities.take(n));
        match draw_step_of(entities[n]) {
            Some((setup, drawn)) => earlier.push(FrameStep::Entity(n as usize, setup, drawn)),
            None => earlier,
        }
    }
}

/// The steps of a frame: the background first when there is one, then the
/// entities in their draw order.
pub open spec fn frame_plan_of(background: bool, entities: Seq<DrawFacts>) -> Seq<FrameStep> {
    if background {
        seq![FrameStep::Background] + entity_steps(entities)
    } else {
        entity_steps(entities)
    }
}

/// Plans a frame over the entities to render, given in their draw order.
pub fn frame_plan(background: bool, entities: &Vec<DrawFacts>) -> (r: Vec<FrameStep>)
    ensures
        r@ == frame_plan_of(background, entities@),
{
    let mut steps: Vec<FrameStep> = Vec::new();
    if background {
        steps.push(FrameStep::Background);
    }
    let ghost start: Seq<FrameStep> = steps@;
    let mut i: usize = 0;
    while i < entities.len()
        invariant
            i <= entities@.len(),
            start == (if background {
                seq![FrameStep::Background]
            } else {
                Seq::<FrameStep>::empty()
            }),
            steps@ == start + entity_steps(entities@.take(i as int)),
        decreases entities@.len() - i,
    {
        assert(entities@.take(i + 1).take(i as int) =~= entities@.take(i as int));
        assert(entities@.take(i + 1)[i as int] == entities@[i as int]);
        match draw_step(entities[i]) {
            Some((setup, drawn)) => {
                steps.push(FrameStep::Entity(i, setup, drawn));
                assert(steps@ =~= start + entity_steps(entities@.take(i + 1)));
            },
            None => {},
        }
        i = i + 1;
    }
    assert(entities@.take(entities@.len() as int) =~= entities@);
    if !background {
        assert(steps@ =~= entity_steps(entities@));
    }
    steps
}

/// Every entity step of a frame names a live entity, at a valid position,
/// with the setup and draw flag that `draw_step` gives it.
pub proof fn lemma_entity_steps_follow_draw_step(entities: Seq<DrawFacts>, p: int)
    requires
        entities.len() <= usize::MAX,
        0 <= p < entity_steps(entities).len(),
    ensures
        entity_steps(entities)[p] matches FrameStep::Entity(i, setup, drawn) && 0 <= i
            < entities.len() && entities[i as int].alive && draw_step_of(entities[i as int])
            == Some((setup, drawn)),
    decreases entities.len(),
{
    let n: int = entities.len() - 1;
    let front = entities.take(n);
    let earlier = entity_steps(front);
    if p < earlier.len() {
        lemma_entity_steps_follow_draw_step(front, p);
        if let FrameStep::Entity(i, setup, drawn) = earlier[p] {
            assert(front[i as int] == entities[i as int]);
        }
        assert(entity_steps(entities)[p] == earlier[p]);
    } else {
        assert(entities[n].alive);
    }
}

/// No entity is left out of a frame: every live entity with something to draw
/// has a step, with the setup and draw flag that `draw_step` gives it.
pub proof fn lemma_every_drawable_entity_planned(entities: Seq<DrawFacts>, i: int)
    requires
        entities.len() <= usize::MAX,
        0 <= i < entities.len(),
        draw_step_of(entities[i]) is Some,
    ensures
        exists|p: int|
            0 <= p < entity_steps(entities).len() && #[trigger] entity_steps(entities)[p]
                == FrameStep::Entity(
                i as usize,
                draw_step_of(entities[i]).unwrap().0,
                draw_step_of(entities[i]).unwrap().1,
            ),
    decreases entities.len(),
{
    let n: int = entities.len() - 1;
    let front = entities.take(n);
    let earlier = entity_steps(front);
    let all = entity_steps(entities);
    if i == n {
        assert(all[earlier.len() as int] == FrameStep::Entity(
            i as usize,
            draw_step_of(entities[i]).unwrap().0,
            draw_step_of(entities[i]).unwrap().1,
        ));
    } else {
        assert(front[i] == entities[i]);
        lemma_every_drawable_entity_planned(front, i);
        let p: int = choose|p: int|
            0 <= p < earlier.len() && #[trigger] earlier[p] == FrameStep::Entity(
                i as usize,
                draw_step_of(front[i]).unwrap().0,
                draw_step_of(front[i]).unwrap().1,
            );
        assert(all[p] == earlier[p]);
    }
}

/// The entity steps of a frame follow the draw order: their positions strictly increase.
pub proof fn lemma_entity_steps_in_order(entities: Seq<DrawFacts>, p: int, q: int)
    requires
        entities.len() <= usize::MAX,
        0 <= p < q < entity_steps(entities).len(),
    ensures
        entity_steps(entities)[p] matches FrameStep::Entity(i, _, _) && entity_steps(entities)[q]
            matches FrameStep::Entity(j, _, _) && i < j,
    decreases entities.len(),
{
    let n: int = entities.len() - 1;
    let front = entities.take(n);
    let earlier = entity_steps(front);
    lemma_entity_steps_follow_draw_step(entities, p);
    lemma_entity_steps_follow_draw_step(entities, q);
    assert(p < earlier.len());
    assert(entity_steps(entities)[p] == earlier[p]);
    if q < earlier.len() {
        lemma_entity_steps_in_order(front, p, q);
        assert(entity_steps(entities)[q] == earlier[q]);
    } else {
        lemma_entity_steps_follow_draw_step(front, p);
        assert(entity_steps(entities)[q] == FrameStep::Entity(n as usize, draw_step_of(entities[n]).unwrap().0, draw_step_of(entities[n]).unwrap().1));
    }
}

/// A frame draws the background first, and nowhere else.
pub proof fn lemma_background_first(background: bool, entities: Seq<DrawFacts>, p: int)
    requires
        entities.len() <= usize::MAX,
        0 <= p < frame_plan_of(background, entities).len(),
    ensures
        frame_plan_of(background, entities)[p] == FrameStep::Background <==> (background && p == 0),
{
    if background && p > 0 {
        lemma_entity_steps_follow_draw_step(entities, p - 1);
    } else if !background {
        lemma_entity_steps_follow_draw_step(entities, p);
    }
}

/// In a frame, an entity that is not visible is never drawn, and an entity
/// with a playing animation is set up as that animation.
pub proof fn lemma_hidden_entities_never_drawn(background: bool, entities: Seq<DrawFacts>, p: int)
    requires
        entities.len() <= usize::MAX,
        0 <= p < frame_plan_of(background, entities).len(),
    ensures
        frame_plan_of(background, entities)[p] matches FrameStep::Entity(i, setup, drawn) ==> (
        drawn == entities[i as int].visible && ((setup == DrawSetup::Animation)
            <==> entities[i as int].playing_animation)),
{
    let q: int = if background { p - 1 } else { p };
    if q >= 0 {
        lemma_entity_steps_follow_draw_step(entities, q);
        assert(frame_plan_of(background, entities)[p] == entity_steps(entities)[q]);
        if let FrameStep::Entity(i, setup, drawn) = entity_steps(entities)[q] {
            lemma_draw_step_decides(entities[i as int]);
        }
    }
}

/// A sprite is always set up as a sprite; without one, an animation as an
/// animation; without either, a shape as a shape; and only with none of them
/// is a text set up.
pub proof fn lemma_setup_choice(has_sprite: bool, has_animation: bool, has_shape: bool)
    ensures
        has_sprite ==> setup_of(has_sprite, has_animation, has_shape) == DrawSetup::Sprite,
        !has_sprite && has_animation ==> setup_of(has_sprite, has_animation, has_shape)
            == DrawSetup::Animation,
        !has_sprite && !has_animation && has_shape ==> setup_of(has_sprite, has_animation, has_shape)
            == DrawSetup::Shape,
        (setup_of(has_sprite, has_animation, has_shape) == DrawSetup::Text) <==> (!has_sprite
            && !has_animation && !has_shape),
{
}

/// Which setup prepares a 2D draw, given what the caller hands over: a sprite
/// first, then an animation, then a shape, and a text otherwise.
pub open spec fn setup_of(has_sprite: bool, has_animation: bool, has_shape: bool) -> DrawSetup {
    if has_sprite {
        DrawSetup::Sprite
    } else if has_animation {
        DrawSetup::Animation
    } else if has_shape {
        DrawSetup::Shape
    } else {
        DrawSetup::Text
    }
}

/// Decides which setup prepares a 2D draw. A text renderer must be handed
/// over when nothing else is.
pub fn setup_rendering_2d(has_sprite: bool, has_animation: bool, has_shape: bool, has_text: bool) -> (r: DrawSetup)
    requires
        has_sprite || has_animation || has_shape || has_text,
    ensures
        r == setup_of(has_sprite, has_animation, has_shape),
{
    if has_sprite {
        DrawSetup::Sprite
    } else if has_animation {
        DrawSetup::Animation
    } else if has_shape {
        DrawSetup::Shape
    } else {
        DrawSetup::Text
    }
}

/// The outcome of acquiring the surface's current texture.
#[derive(Clone, Copy, Debug, PartialEq, Eq, Structural)]
pub enum SurfaceOutcome {
    Success,
    Suboptimal,
    Timeout,
    Occluded,
    Outdated,
    Lost,
    Validation,
}

/// What the renderer does with a frame.
#[derive(Clone, Copy, Debug, PartialEq, Eq, Structural)]
pub enum FrameAction {
    /// Draw the frame.
    Draw,
    /// Resize to the current size.
    Resize,
    /// Log a warning and skip the frame.
    Warn,
    /// Log an error and leave the event loop.
    Exit,
}

/// A texture in hand is drawn, a suboptimal one leads to a resize, a timeout,
/// occlusion or outdated surface is only warned about, and a lost surface or
/// a validation error ends the application.
pub open spec fn frame_action_of(o: SurfaceOutcome) -> FrameAction {
    match o {
        SurfaceOutcome::Success => FrameAction::Draw,
        SurfaceOutcome::Suboptimal => FrameAction::Resize,
        SurfaceOutcome::Timeout => FrameAction::Warn,
        SurfaceOutcome::Occluded => FrameAction::Warn,
        SurfaceOutcome::Outdated => FrameAction::Warn,
        SurfaceOutcome::Lost => FrameAction::Exit,
        SurfaceOutcome::Validation => FrameAction::Exit,
    }
}

/// Decides what the frame does, given the outcome of acquiring the surface.
pub fn prepare(o: SurfaceOutcome) -> (r: FrameAction)
    ensures
        r == frame_action_of(o),
{
    match o {
        SurfaceOutcome::Success => FrameAction::Draw,
        SurfaceOutcome::Suboptimal => FrameAction::Resize,
        SurfaceOutcome::Timeout | SurfaceOutcome::Occluded | SurfaceOutcome::Outdated => FrameAction::Warn,
        SurfaceOutcome::Lost | SurfaceOutcome::Validation => FrameAction::Exit,
    }
}

/// The errors of a render that acquires the surface and draws.
#[derive(Clone, Copy, Debug, PartialEq, Eq, Structural)]
pub enum SurfaceError {
    Timeout,
    Outdated,
    Lost,
    OutOfMemory,
    Other,
}

/// A lost or outdated surface is resized, running out of memory or any other
/// error ends the application, and a timeout is only warned about.
pub open spec fn render_error_action_of(e: SurfaceError) -> FrameAction {
    match e {
        SurfaceError::Lost => FrameAction::Resize,
        SurfaceError::Outdated => FrameAction::Resize,
        SurfaceError::OutOfMemory => FrameAction::Exit,
        SurfaceError::Other => FrameAction::Exit,
        SurfaceError::Timeout => FrameAction::Warn,
    }
}

/// Decides what follows a failed render of the window on a redraw request.
pub fn render_error_action(e: SurfaceError) -> (r: FrameAction)
    ensures
        r == render_error_action_of(e),
{
    match e {
        SurfaceError::Lost | SurfaceError::Outdated => FrameAction::Resize,
        SurfaceError::OutOfMemory | SurfaceError::Other => FrameAction::Exit,
        SurfaceError::Timeout => FrameAction::Warn,
    }
}

/// Whether the renderer takes a new window size: only one with a non-zero
/// width and height.
pub fn resize_accepted(width: u32, height: u32) -> (r: bool)
    ensures
        r == (width > 0 && height > 0),
{
    width > 0 && height > 0
}

/// The surface format to use: the first sRGB one, or else the first.
pub open spec fn surface_format_index_of(srgb: Seq<bool>) -> int {
    if exists|i: int| 0 <= i < srgb.len() && srgb[i] {
        choose|i: int| 0 <= i < srgb.len() && srgb[i] && forall|j: int| 0 <= j < i ==> !srgb[j]
    } else {
        0
    }
}

/// Picks the surface format among those the surface supports, given for each
/// whether it is sRGB: the first sRGB one, or else the first. The surface
/// must support some format.
pub fn choose_surface_format(srgb: &Vec<bool>) -> (r: usize)
    requires
        srgb@.len() > 0,
    ensures
        r < srgb@.len(),
        r == surface_format_index_of(srgb@),
{
    let mut i: usize = 0;
    while i < srgb.len()
        invariant
            i <= srgb@.len(),
            forall|j: int| 0 <= j < i ==> !srgb@[j],
        decreases srgb@.len() - i,
    {
        if srgb[i] {
            proof {
                let c: int = choose|c: int| 0 <= c < srgb@.len() && srgb@[c] && forall|j: int| 0 <= j < c ==> !srgb@[j];
                assert(0 <= i < srgb@.len() && srgb@[i as int] && forall|j: int| 0 <= j < i ==> !srgb@[j]);
                if c < i {
                    assert(!srgb@[c]);
                } else if c > i {
                    assert(!srgb@[i as int]);
                }
            }
            return i;
        }
        i = i + 1;
    }
    0
}

} // verus!
