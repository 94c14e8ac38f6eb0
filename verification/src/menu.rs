//! The selectable-menu machinery: a stack tracking which menu has input
//! focus, a cyclic selection over a menu's children, and the action menu
//! whose attack entry starts combat.

use vstd::prelude::*;
use crate::index::Index;
use crate::state::GameSignal;

verus! {

/// The stack of menus; the top one receives input.
#[derive(Debug)]
pub struct MenuStack {
    menus: Vec<u64>,
}

impl View for MenuStack {
    type V = Seq<u64>;

    closed spec fn view(&self) -> Seq<u64> {
        self.menus@
    }
}

impl MenuStack {
    pub fn new() -> (r: MenuStack)
        ensures
            r@ =~= Seq::<u64>::empty(),
    {
        MenuStack { menus: Vec::new() }
    }

    /// The menu currently holding focus, if any.
    pub fn get_current_menu(&self) -> (r: Option<u64>)
        ensures
            r == (if self@.len() == 0 {
                None::<u64>
            } else {
                Some(self@.last())
            }),
    {
        if self.menus.len() == 0 {
            None
        } else {
            Some(self.menus[self.menus.len() - 1])
        }
    }

    /// Give a newly shown menu the focus.
    pub fn push_menu(&mut self, new_menu: u64)
        ensures
            final(self)@ == old(self)@.push(new_menu),
    {
        self.menus.push(new_menu);
    }

    /// Take a hidden menu off the stack. The menu being removed must be the
    /// one on top; the entry underneath it, if any, is removed with it.
    pub fn pop_menu(&mut self, menu: u64)
        requires
            old(self)@.len() >= 1,
            old(self)@.last() == menu,
        ensures
            final(self)@ == (if old(self)@.len() >= 2 {
                old(self)@.take(old(self)@.len() - 2)
            } else {
                Seq::<u64>::empty()
            }),
    {
        let _top = self.menus.pop();
        if self.menus.len() > 0 {
            let _ = self.menus.pop();
        }
        proof {
            if old(self)@.len() >= 2 {
                assert(self@ =~= old(self)@.take(old(self)@.len() - 2));
            } else {
                assert(self@ =~= Seq::<u64>::empty());
            }
        }
    }
}

/// The parent of a menu's selectable children, tracking which is selected.
#[derive(Debug, Clone, Copy, PartialEq, Eq, Structural)]
pub struct MultiChoiceParent {
    pub selected: Index,
}

/// One selectable child: what to run when confirmed, and how to highlight
/// and unhighlight it, by registered handles.
#[derive(Debug, Clone, Copy, PartialEq, Eq, Structural)]
pub struct MultiChoiceButton {
    pub on_selected: Option<u64>,
    pub activate: u64,
    pub deactivate: u64,
}

/// The selected child among a menu's children.
pub fn get_selected_child(parent: &MultiChoiceParent, children: &Vec<u64>) -> (r: u64)
    requires
        parent.selected.index < children@.len(),
    ensures
        r == children@[parent.selected.index as int],
{
    children[parent.selected.index]
}

/// Move the selection by `change` slots, wrapping. Returns the child index
/// to unhighlight (the old selection) and the one to highlight (the new).
pub fn change_selection(parent: &mut MultiChoiceParent, change: i8) -> (r: (usize, usize))
    requires
        old(parent).selected.wf(),
        old(parent).selected.limit <= usize::MAX - 128,
        change != i8::MIN,
    ensures
        final(parent).selected.wf(),
        final(parent).selected.limit == old(parent).selected.limit,
        r.0 == old(parent).selected.index,
        r.1 == final(parent).selected.index,
        final(parent).selected.index == (old(parent).selected.index + change) % (
        old(parent).selected.limit as int),
{
    let deactivated = parent.selected.index;
    parent.selected.add(change);
    let activated = parent.selected.index;
    (deactivated, activated)
}

/// The selection step the arrow keys ask for: right steps forward, left
/// steps back, right wins when both are pressed in the same tick.
pub fn select_action(right_pressed: bool, left_pressed: bool) -> (r: Option<i8>)
    ensures
        r == (if right_pressed {
            Some(1i8)
        } else if left_pressed {
            Some(-1i8)
        } else {
            None::<i8>
        }),
{
    if right_pressed {
        Some(1)
    } else if left_pressed {
        Some(-1)
    } else {
        None
    }
}

/// Confirming the selection runs the selected button's handler, when it has
/// one.
pub fn activate_action(buttons: &Vec<MultiChoiceButton>, selected: usize) -> (r: Option<u64>)
    requires
        selected < buttons@.len(),
    ensures
        r == buttons@[selected as int].on_selected,
{
    buttons[selected].on_selected
}

/// When a menu appears, its selected child is highlighted and every other
/// child unhighlighted: entry `i` of the result says whether child `i` is
/// highlighted.
pub fn on_menu_spawned(child_count: usize, selected: usize) -> (r: Vec<bool>)
    ensures
        r@.len() == child_count,
        forall|i: int| 0 <= i < child_count ==> r@[i] == (i == selected),
{
    let mut r: Vec<bool> = Vec::new();
    let mut i: usize = 0;
    while i < child_count
        invariant
            i <= child_count,
            r@.len() == i,
            forall|j: int| 0 <= j < i ==> r@[j] == (j == selected),
        decreases child_count - i,
    {
        r.push(i == selected);
        i += 1;
    }
    r
}

/// The action menu's entries.
#[derive(Debug, Clone, Copy, PartialEq, Eq, Structural)]
pub enum Buttons {
    ATTACK,
    ACT,
    ITEMS,
    RUN,
}

/// The action menu as spawned: its four entries in order, with the first
/// selected.
pub fn spawn_menu_ui() -> (r: (MultiChoiceParent, Vec<Buttons>))
    ensures
        r.0.selected == (Index { limit: 4, index: 0 }),
        r.0.selected.wf(),
        r.1@ =~= seq![Buttons::ATTACK, Buttons::ACT, Buttons::ITEMS, Buttons::RUN],
{
    let mut items: Vec<Buttons> = Vec::new();
    items.push(Buttons::ATTACK);
    items.push(Buttons::ACT);
    items.push(Buttons::ITEMS);
    items.push(Buttons::RUN);
    (MultiChoiceParent { selected: Index::new(4, 0) }, items)
}

/// What confirming one action-menu entry does: only the attack entry does
/// anything, and it starts combat.
pub fn button_signal(button: Buttons) -> (r: Option<GameSignal>)
    ensures
        r == (match button {
            Buttons::ATTACK => Some(GameSignal::StartSelected),
            _ => None::<GameSignal>,
        }),
{
    match button {
        Buttons::ATTACK => Some(GameSignal::StartSelected),
        _ => None,
    }
}

} // verus!
