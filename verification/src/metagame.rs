//! Between-level progression: a fixed sequence of steps — timed combat
//! levels interleaved with upgrade-shop visits — walked one step at a time.
//! Finishing the last step is victory.

use vstd::prelude::*;
use crate::level::CurrentLevelConfig;
use crate::level::LevelConfig;
use crate::state::AppState;

verus! {

/// Marker event: the player asked to start playing.
#[derive(Debug, Clone, Copy, PartialEq, Eq, Structural)]
pub struct StartGameEvent;

/// One step of the progression.
#[derive(Debug, Clone, Copy, PartialEq, Eq, Structural)]
pub enum GameStep {
    Level(LevelConfig),
    UpgradeShop,
}

/// The fixed campaign: three timed levels with two shop visits between them.
pub open spec fn spec_game_steps() -> Seq<GameStep> {
    seq![
        GameStep::Level(LevelConfig { duration_ms: 15000 }),
        GameStep::UpgradeShop,
        GameStep::Level(LevelConfig { duration_ms: 10000 }),
        GameStep::Level(LevelConfig { duration_ms: 10000 }),
        GameStep::UpgradeShop,
        GameStep::Level(LevelConfig { duration_ms: 30000 }),
    ]
}

pub fn game_steps() -> (r: Vec<GameStep>)
    ensures
        r@ == spec_game_steps(),
{
    let mut v: Vec<GameStep> = Vec::new();
    v.push(GameStep::Level(LevelConfig::from_seconds_duration(15)));
    v.push(GameStep::UpgradeShop);
    v.push(GameStep::Level(LevelConfig::from_seconds_duration(10)));
    v.push(GameStep::Level(LevelConfig::from_seconds_duration(10)));
    v.push(GameStep::UpgradeShop);
    v.push(GameStep::Level(LevelConfig::from_seconds_duration(30)));
    proof {
        assert(v@ =~= spec_game_steps());
    }
    v
}

/// Where the player stands in the campaign.
#[derive(Debug)]
pub struct MetagameProgression {
    pub levels: Vec<GameStep>,
    pub current_step_index: usize,
    pub current_level: usize,
}

impl MetagameProgression {
    /// The index always points at a step.
    pub open spec fn wf(self) -> bool {
        self.current_step_index < self.levels@.len()
    }

    pub fn new() -> (r: MetagameProgression)
        ensures
            r.levels@ == spec_game_steps(),
            r.current_step_index == 0,
            r.current_level == 0,
            r.wf(),
    {
        MetagameProgression { levels: game_steps(), current_step_index: 0, current_level: 0 }
    }

    /// The steps, oldest first, for the progression sidebar.
    pub fn iter_levels(&self) -> (r: &Vec<GameStep>)
        ensures
            r@ == self.levels@,
    {
        &self.levels
    }

    /// Enter the current step: a level step loads its configuration, counts
    /// a new level and moves to combat; a shop step moves to the upgrade
    /// menu.
    pub fn start_game(&mut self, current_level_config: &mut CurrentLevelConfig) -> (next:
        AppState)
        requires
            old(self).wf(),
            old(self).current_level < usize::MAX,
        ensures
            final(self).wf(),
            final(self).levels@ == old(self).levels@,
            final(self).current_step_index == old(self).current_step_index,
            match old(self).levels@[old(self).current_step_index as int] {
                GameStep::Level(cfg) => {
                    &&& next is Defending
                    &&& final(current_level_config).0 == cfg
                    &&& final(self).current_level == old(self).current_level + 1
                },
                GameStep::UpgradeShop => {
                    &&& next is LevelTransition
                    &&& *final(current_level_config) == *old(current_level_config)
                    &&& final(self).current_level == old(self).current_level
                },
            },
    {
        match self.levels[self.current_step_index] {
            GameStep::Level(level_config) => {
                current_level_config.0 = level_config;
                self.current_level += 1;
                AppState::Defending
            },
            GameStep::UpgradeShop => AppState::LevelTransition,
        }
    }

    /// Leave the step just finished. On the last step this is victory and
    /// nothing advances; otherwise the index moves on and the new step is
    /// entered as `start_game` would.
    pub fn on_finished_step(&mut self, current_level_config: &mut CurrentLevelConfig) -> (next:
        AppState)
        requires
            old(self).wf(),
            old(self).current_level < usize::MAX,
        ensures
            final(self).wf(),
            final(self).levels@ == old(self).levels@,
            old(self).current_step_index == old(self).levels@.len() - 1 ==> {
                &&& next is Victory
                &&& final(self).current_step_index == old(self).current_step_index
                &&& final(self).current_level == old(self).current_level
                &&& *final(current_level_config) == *old(current_level_config)
            },
            old(self).current_step_index < old(self).levels@.len() - 1 ==> {
                &&& final(self).current_step_index == old(self).current_step_index + 1
                &&& match old(self).levels@[old(self).current_step_index + 1] {
                    GameStep::Level(cfg) => {
                        &&& next is Defending
                        &&& final(current_level_config).0 == cfg
                        &&& final(self).current_level == old(self).current_level + 1
                    },
                    GameStep::UpgradeShop => {
                        &&& next is LevelTransition
                        &&& *final(current_level_config) == *old(current_level_config)
                        &&& final(self).current_level == old(self).current_level
                    },
                }
            },
    {
        if self.current_step_index == self.levels.len() - 1 {
            return AppState::Victory;
        }
        self.current_step_index += 1;
        match self.levels[self.current_step_index] {
            GameStep::Level(level_config) => {
                current_level_config.0 = level_config;
                self.current_level += 1;
                AppState::Defending
            },
            GameStep::UpgradeShop => AppState::LevelTransition,
        }
    }
}

/// A presentation label for one progression step: a level with its ordinal,
/// or the shop.
#[derive(Debug, Clone, Copy, PartialEq, Eq, Structural)]
pub enum StepLabel {
    Level(usize),
    Shop,
}

/// How many level steps a prefix of the campaign holds.
pub open spec fn spec_level_count(steps: Seq<GameStep>) -> int
    decreases steps.len(),
{
    if steps.len() == 0 {
        0
    } else {
        spec_level_count(steps.drop_last()) + (
        if steps.last() is Level {
            1int
        } else {
            0int
        })
    }
}

/// Every level step labelled with its one-based ordinal, shops with `Shop`.
pub open spec fn spec_step_labels(steps: Seq<GameStep>) -> Seq<StepLabel>
    decreases steps.len(),
{
    if steps.len() == 0 {
        Seq::empty()
    } else {
        spec_step_labels(steps.drop_last()).push(
            if steps.last() is Level {
                StepLabel::Level(spec_level_count(steps) as usize)
            } else {
                StepLabel::Shop
            },
        )
    }
}

/// Label each step for the sidebar, numbering the levels from one in order.
pub fn steps_to_strings(steps: &Vec<GameStep>) -> (labels: Vec<StepLabel>)
    requires
        steps@.len() <= usize::MAX,
    ensures
        labels@ == spec_step_labels(steps@),
        labels@.len() == steps@.len(),
    decreases steps@.len(),
{
    let mut labels: Vec<StepLabel> = Vec::new();
    let mut level_index: usize = 0;
    let n = steps.len();
    let mut i: usize = 0;
    while i < n
        invariant
            i <= n,
            n == steps@.len(),
            labels@ == spec_step_labels(steps@.take(i as int)),
            labels@.len() == i,
            level_index == spec_level_count(steps@.take(i as int)),
            level_index <= i,
        decreases n - i,
    {
        proof {
            assert(steps@.take(i + 1).drop_last() == steps@.take(i as int));
            assert(steps@.take(i + 1).last() == steps@[i as int]);
        }
        match steps[i] {
            GameStep::Level(_) => {
                level_index += 1;
                labels.push(StepLabel::Level(level_index));
            },
            GameStep::UpgradeShop => {
                labels.push(StepLabel::Shop);
            },
        }
        i += 1;
    }
    proof {
        assert(steps@.take(n as int) =~= steps@);
    }
    labels
}

/// The tone the sidebar paints one step label with: already passed, the
/// step being played, or still ahead.
#[derive(Debug, Clone, Copy, PartialEq, Eq, Structural)]
pub enum LabelTone {
    Done,
    Current,
    Upcoming,
}

/// Compare a label's position against the current progression step.
pub fn update_text_on_level_transition(label_index: usize, current_step_index: usize) -> (r:
    LabelTone)
    ensures
        label_index < current_step_index ==> r is Done,
        label_index == current_step_index ==> r is Current,
        label_index > current_step_index ==> r is Upcoming,
{
    if label_index < current_step_index {
        LabelTone::Done
    } else if label_index == current_step_index {
        LabelTone::Current
    } else {
        LabelTone::Upcoming
    }
}

} // verus!
