//! The upgrade-selection menu between rounds: three slots drawn at random
//! from the pool (padded with placeholders when the pool runs short), and
//! the confirmation that broadcasts the chosen upgrade and returns to
//! combat.

use vstd::prelude::*;
use crate::index::Index;
use crate::menu::MultiChoiceParent;
use crate::pool::SelectionsPool;
use crate::pool::padded_selection;
use crate::pool::valid_picks;
use crate::state::AppState;
use crate::upgrades::AppliedGlobalUpgrades;
use crate::upgrades::GlobalUpgrade;
use crate::upgrades::ReceiverEntity;
use crate::upgrades::apply_upgrade_to_all;
use crate::upgrades::spec_receive;

verus! {

/// Marker event: the player is done with the upgrade menu.
#[derive(Debug, Clone, Copy, PartialEq, Eq, Structural)]
pub struct FinishedLevelTransitionEvent;

/// One slot of the upgrade menu: a drawn upgrade, or a placeholder.
#[derive(Debug, Clone, Copy)]
pub struct UpgradeOption(pub Option<GlobalUpgrade>);

/// Build the upgrade menu: three slots drawn from the pool without
/// replacement — padded and shuffled as the pool draw specifies — with the
/// first slot selected.
pub fn spawn_level_transition_menu(pool: &SelectionsPool<GlobalUpgrade>) -> (r: (
    MultiChoiceParent,
    Vec<UpgradeOption>,
))
    ensures
        r.0.selected == (Index { limit: 3, index: 0 }),
        r.0.selected.wf(),
        r.1@.len() == 3,
        exists|picks: Seq<int>|
            #[trigger] valid_picks(pool@, picks, 3) && r.1@.map_values(
                |o: UpgradeOption| o.0,
            ).to_multiset() == padded_selection(pool@, picks, 3).to_multiset(),
{
    let drawn = pool.get_multiple_random(3);
    let mut options: Vec<UpgradeOption> = Vec::new();
    let n = drawn.len();
    let mut i: usize = 0;
    while i < n
        invariant
            i <= n,
            n == drawn@.len(),
            options@.len() == i,
            forall|j: int| 0 <= j < i ==> (#[trigger] options@[j]).0 == drawn@[j],
        decreases n - i,
    {
        options.push(UpgradeOption(drawn[i]));
        i += 1;
    }
    proof {
        assert(options@.map_values(|o: UpgradeOption| o.0) =~= drawn@);
    }
    (MultiChoiceParent { selected: Index::new(3, 0) }, options)
}

/// Confirm one slot: a drawn upgrade is broadcast to every matching entity
/// and appended to the applied log; a placeholder changes nothing. Either
/// way the game returns to combat.
pub fn process_upgrade_and_go_to_next_level(
    option: &UpgradeOption,
    entities: &mut Vec<ReceiverEntity>,
    applied: &mut AppliedGlobalUpgrades,
) -> (next: AppState)
    ensures
        next is Defending,
        match option.0 {
            Some(upgrade) => {
                &&& final(applied).applied_upgrades@ == old(applied).applied_upgrades@.push(
                    upgrade,
                )
                &&& final(entities)@.len() == old(entities)@.len()
                &&& forall|j: int|
                    0 <= j < old(entities)@.len() ==> (#[trigger] final(entities)@[j])@
                        == spec_receive(old(entities)@[j]@, upgrade)
            },
            None => {
                &&& final(applied).applied_upgrades@ == old(applied).applied_upgrades@
                &&& final(entities)@.len() == old(entities)@.len()
                &&& forall|j: int|
                    0 <= j < old(entities)@.len() ==> (#[trigger] final(entities)@[j])@ == old(
                        entities,
                    )@[j]@
            },
        },
{
    match &option.0 {
        Some(upgrade) => {
            apply_upgrade_to_all(*upgrade, entities, applied);
        },
        None => {},
    }
    AppState::Defending
}

} // verus!
