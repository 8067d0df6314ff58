//! Sprite sheets: a texture cut into tiles, played as an animation.
use vstd::prelude::*;
use crate::time::{Timer, TimerType, DURATION_MAX_NANOS};

verus! {

/// Where an animation stands.
#[derive(Clone, Copy, Debug, PartialEq, Eq, Structural)]
pub enum AnimationState {
    Stopped,
    Paused,
    Playing,
    Finished,
}

/// Whether an animation starts over after its last tile.
#[derive(Clone, Copy, Debug, PartialEq, Eq, Structural)]
pub enum LoopingState {
    Repeat,
    Once,
}

/// A texture cut into `rows` by `columns` tiles; the animation shows the
/// tiles listed in `indices`, one after another, a tile per tick of `timer`.
pub struct SpriteSheet {
    pub path: String,
    pub timer: Timer,
    pub rows: u32,
    pub columns: u32,
    pub indices: Vec<u32>,
    pub current_index: u32,
    pub animation_state: AnimationState,
    pub looping_state: LoopingState,
}

impl SpriteSheet {
    /// Creates a sprite sheet whose animation is finished and stands at its
    /// first tile; its timer repeats every `time_between_tiles_nanos`.
    pub fn new(
        path: String,
        looping_state: LoopingState,
        time_between_tiles_nanos: u128,
        rows: u32,
        columns: u32,
        indices: Vec<u32>,
    ) -> (r: Self)
        requires
            time_between_tiles_nanos <= DURATION_MAX_NANOS,
        ensures
            r.path@ == path@,
            r.timer.wf(),
            r.timer.timer_type == TimerType::Repeat,
            r.timer.duration_nanos == time_between_tiles_nanos,
            r.timer.elapsed_nanos == 0,
            !r.timer.is_finished,
            r.rows == rows,
            r.columns == columns,
            r.indices@ == indices@,
            r.current_index == 0,
            r.animation_state == AnimationState::Finished,
            r.looping_state == looping_state,
    {
        SpriteSheet {
            path,
            timer: Timer::new(TimerType::Repeat, time_between_tiles_nanos),
            rows,
            columns,
            indices,
            current_index: 0,
            animation_state: AnimationState::Finished,
            looping_state,
        }
    }

    /// The tile of the texture shown now.
    pub fn current_tile(&self) -> (r: u32)
        requires
            self.current_index < self.indices@.len(),
        ensures
            r == self.indices@[self.current_index as int],
    {
        self.indices[self.current_index as usize]
    }

    /// Plays the animation from where it stands, restarting the timer.
    pub fn play(&mut self)
        ensures
            final(self).animation_state == AnimationState::Playing,
            final(self).timer.elapsed_nanos == 0,
            !final(self).timer.is_finished,
            final(self).timer.timer_type == old(self).timer.timer_type,
            final(self).timer.duration_nanos == old(self).timer.duration_nanos,
            final(self).current_index == old(self).current_index,
            final(self).indices@ == old(self).indices@,
            final(self).path@ == old(self).path@,
            final(self).rows == old(self).rows,
            final(self).columns == old(self).columns,
            final(self).looping_state == old(self).looping_state,
    {
        self.animation_state = AnimationState::Playing;
        self.timer.reset();
    }

    /// Stops the animation and brings it back to its first tile.
    pub fn stop(&mut self)
        ensures
            final(self).animation_state == AnimationState::Stopped,
            final(self).current_index == 0,
            final(self).timer == old(self).timer,
            final(self).indices@ == old(self).indices@,
            final(self).path@ == old(self).path@,
            final(self).rows == old(self).rows,
            final(self).columns == old(self).columns,
            final(self).looping_state == old(self).looping_state,
    {
        self.animation_state = AnimationState::Stopped;
        self.current_index = 0;
    }

    /// Pauses the animation if it is playing; otherwise nothing changes.
    pub fn pause(&mut self)
        ensures
            final(self).animation_state == paused_state(old(self).animation_state),
            final(self).current_index == old(self).current_index,
            final(self).timer == old(self).timer,
            final(self).indices@ == old(self).indices@,
            final(self).path@ == old(self).path@,
            final(self).rows == old(self).rows,
            final(self).columns == old(self).columns,
            final(self).looping_state == old(self).looping_state,
    {
        if self.animation_state == AnimationState::Playing {
            self.animation_state = AnimationState::Paused;
        }
    }

    /// Resumes the animation if it is paused; otherwise nothing changes.
    pub fn resume(&mut self)
        ensures
            final(self).animation_state == resumed_state(old(self).animation_state),
            final(self).current_index == old(self).current_index,
            final(self).timer == old(self).timer,
            final(self).indices@ == old(self).indices@,
            final(self).path@ == old(self).path@,
            final(self).rows == old(self).rows,
            final(self).columns == old(self).columns,
            final(self).looping_state == old(self).looping_state,
    {
        if self.animation_state == AnimationState::Paused {
            self.animation_state = AnimationState::Playing;
        }
    }
}

/// The state after a pause: a playing animation pauses, any other keeps its state.
pub open spec fn paused_state(s: AnimationState) -> AnimationState {
    if s == AnimationState::Playing {
        AnimationState::Paused
    } else {
        s
    }
}

/// The state after a resume: a paused animation plays, any other keeps its state.
pub open spec fn resumed_state(s: AnimationState) -> AnimationState {
    if s == AnimationState::Paused {
        AnimationState::Playing
    } else {
        s
    }
}

/// Pausing a playing animation and resuming it brings it back to playing;
/// resuming a paused one and pausing it brings it back to paused.
pub proof fn lemma_pause_resume_inverse(s: AnimationState)
    ensures
        s == AnimationState::Playing ==> resumed_state(paused_state(s)) == s,
        s == AnimationState::Paused ==> paused_state(resumed_state(s)) == s,
{
}

/// Pausing twice is pausing once, and resuming twice is resuming once.
pub proof fn lemma_pause_resume_idempotent(s: AnimationState)
    ensures
        paused_state(paused_state(s)) == paused_state(s),
        resumed_state(resumed_state(s)) == resumed_state(s),
{
}

/// Neither pause nor resume moves a stopped or finished animation.
pub proof fn lemma_pause_resume_keep_stopped(s: AnimationState)
    requires
        s == AnimationState::Stopped || s == AnimationState::Finished,
    ensures
        paused_state(s) == s,
        resumed_state(s) == s,
{
}

} // verus!
