//! The end-of-level sequence: when a level finishes, one randomly chosen
//! transition effect runs (a new cannon appears, with a spawning fade-in);
//! once no spawning animation remains, a fixed delay runs out and the game
//! moves to the upgrade menu.

use vstd::prelude::*;
use crate::rng::rand_below;
use crate::timer::GameTimer;
use crate::timer::MAX_TIME_MS;

verus! {

/// The two phases of the end-of-level sequence.
#[derive(Debug, Clone, Copy, PartialEq, Eq, Default, Structural)]
pub enum LevelEndAnimationState {
    /// Transition-effect animations are still playing.
    #[default]
    Animations,
    /// Everything has played; the post-delay is running.
    PostAnimationsDelay,
}

/// The fixed one-second pause after the animations.
#[derive(Debug, Clone, Copy, PartialEq, Eq, Structural)]
pub struct PostAnimationsDelayTimer(pub GameTimer);

impl PostAnimationsDelayTimer {
    pub open spec fn wf(self) -> bool {
        self.0.wf() && !self.0.repeating
    }

    pub fn new() -> (r: PostAnimationsDelayTimer)
        ensures
            r.0 == (GameTimer { duration_ms: 1000, elapsed_ms: 0, repeating: false }),
            r.wf(),
    {
        PostAnimationsDelayTimer(GameTimer::new(1000, false))
    }
}

/// Entering the end-of-level state always begins with the animation phase.
pub fn reset_animation_state() -> (r: LevelEndAnimationState)
    ensures
        r == LevelEndAnimationState::Animations,
{
    LevelEndAnimationState::Animations
}

/// The animation phase ends exactly when no spawning animation remains.
pub fn check_for_animations_end(active_animations: usize) -> (r: Option<
    LevelEndAnimationState,
>)
    ensures
        r == (if active_animations == 0 {
            Some(LevelEndAnimationState::PostAnimationsDelay)
        } else {
            None::<LevelEndAnimationState>
        }),
{
    if active_animations == 0 {
        Some(LevelEndAnimationState::PostAnimationsDelay)
    } else {
        None
    }
}

/// One tick of the post-animation pause. Exactly on the tick where it runs
/// out, the timer is rearmed for next time and the caller advances to the
/// upgrade menu.
pub fn post_animations_delay(timer: &mut PostAnimationsDelayTimer, delta_ms: u64) -> (advance:
    bool)
    requires
        old(timer).wf(),
        delta_ms <= MAX_TIME_MS,
    ensures
        final(timer).wf(),
        advance == old(timer).0.spec_just_finished(delta_ms),
        final(timer).0 == (if old(timer).0.spec_just_finished(delta_ms) {
            GameTimer { elapsed_ms: 0, ..old(timer).0 }
        } else {
            old(timer).0.spec_after_tick(delta_ms)
        }),
{
    let just_finished = timer.0.tick(delta_ms);
    if just_finished {
        timer.0.reset();
    }
    just_finished
}

/// One registered transition effect, by its registered handle.
#[derive(Debug, Clone, Copy, PartialEq, Eq, Structural)]
pub struct Effect(pub u64);

/// The pool of transition effects to draw from at each level's end.
#[derive(Debug)]
pub struct LevelTransitionEffectsPool {
    effects: Vec<Effect>,
}

impl View for LevelTransitionEffectsPool {
    type V = Seq<Effect>;

    closed spec fn view(&self) -> Seq<Effect> {
        self.effects@
    }
}

impl LevelTransitionEffectsPool {
    pub fn new() -> (r: LevelTransitionEffectsPool)
        ensures
            r@ =~= Seq::<Effect>::empty(),
    {
        LevelTransitionEffectsPool { effects: Vec::new() }
    }

    pub fn add_effect(&mut self, effect: Effect)
        ensures
            final(self)@ == old(self)@.push(effect),
    {
        self.effects.push(effect);
    }

    /// One effect drawn at random; every outcome is a registered effect.
    pub fn get_random(&self) -> (r: Effect)
        requires
            self@.len() >= 1,
        ensures
            exists|i: int| 0 <= i < self@.len() && r == self@[i],
    {
        let i = rand_below(self.effects.len());
        let r = self.effects[i];
        proof {
            assert(r == self@[i as int]);
        }
        r
    }
}

/// Register the two transition effects: a cannon on the right wall, and a
/// stationary cannon in a random corner, by their handles.
pub fn register_effects(
    pool: &mut LevelTransitionEffectsPool,
    cannon_on_the_right: u64,
    random_stationary_cannon: u64,
)
    ensures
        final(pool)@ == old(pool)@.push(Effect(cannon_on_the_right)).push(
            Effect(random_stationary_cannon),
        ),
{
    pool.add_effect(Effect(cannon_on_the_right));
    pool.add_effect(Effect(random_stationary_cannon));
}

/// A fade-in played over a newly spawned entity.
#[derive(Debug, Clone, Copy, PartialEq, Eq, Structural)]
pub struct SpawningAnimation {
    pub animation_timer: GameTimer,
}

impl SpawningAnimation {
    pub open spec fn wf(self) -> bool {
        self.animation_timer.wf() && !self.animation_timer.repeating
    }

    pub fn new(animation_duration_ms: u64) -> (r: SpawningAnimation)
        requires
            1 <= animation_duration_ms <= MAX_TIME_MS,
        ensures
            r.animation_timer == (GameTimer {
                duration_ms: animation_duration_ms,
                elapsed_ms: 0,
                repeating: false,
            }),
            r.wf(),
    {
        SpawningAnimation { animation_timer: GameTimer::new(animation_duration_ms, false) }
    }

    /// One tick of the fade-in: the opacity for this frame (progress before
    /// the tick, in thousandths), and whether the animation is over and the
    /// fade should come off.
    pub fn spawning_animation_behaviour(&mut self, delta_ms: u64) -> (r: (u64, bool))
        requires
            old(self).wf(),
            delta_ms <= MAX_TIME_MS,
        ensures
            final(self).wf(),
            final(self).animation_timer == old(self).animation_timer.spec_after_tick(delta_ms),
            r.0 == old(self).animation_timer.elapsed_ms * 1000 / (
            old(self).animation_timer.duration_ms as int),
            r.0 <= 1000,
            r.1 == final(self).animation_timer.spec_finished(),
    {
        let alpha = self.animation_timer.fraction_permille();
        self.animation_timer.tick(delta_ms);
        let finished = self.animation_timer.finished();
        (alpha, finished)
    }
}

} // verus!
