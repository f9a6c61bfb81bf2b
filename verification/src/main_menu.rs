//! The main menu's state machine, kept as plain values: which screen is
//! showing, which entry is selected, and what a chosen entry asks the
//! embedder to do. Reading keys and painting the menu stay with the embedder.

use vstd::prelude::*;

verus! {

/// Which menu screen is showing.
#[derive(Clone, Copy, PartialEq, Eq, Structural, Debug)]
pub enum MenuState {
    Main,
    TreeSelection,
    Parameters,
    Settings,
    Help,
    Hidden,
}

/// What a chosen menu entry asks the embedder to do.
#[derive(Clone, Copy, PartialEq, Eq, Structural, Debug)]
pub enum MenuAction {
    ShowTreeSelection,
    ShowParameters,
    EditLSystem,
    ReloadLSystem,
    Exit,
}

/// The entry above `selected`, wrapping from the first to the last of
/// `item_count` entries.
pub fn select_previous(selected: usize, item_count: usize) -> (r: usize)
    requires
        item_count > 0,
    ensures
        r == if selected > 0 {
            (selected - 1) as int
        } else {
            item_count - 1
        },
{
    if selected > 0 {
        selected - 1
    } else {
        item_count - 1
    }
}

/// The entry below `selected`, wrapping from the last of `item_count`
/// entries to the first.
pub fn select_next(selected: usize, item_count: usize) -> (r: usize)
    requires
        item_count > 0,
    ensures
        r == (selected as int % item_count as int + 1) % item_count as int,
{
    (selected % item_count + 1) % item_count
}

/// What choosing entry `selected` on the main screen does: the first four
/// entries and the sixth yield an action, the fifth opens the help screen,
/// anything else is ignored.
pub fn execute_selected_item(selected: usize, state: MenuState) -> (r: (
    MenuState,
    Option<MenuAction>,
))
    ensures
        r == if selected == 0 {
            (state, Some(MenuAction::ShowTreeSelection))
        } else if selected == 1 {
            (state, Some(MenuAction::ShowParameters))
        } else if selected == 2 {
            (state, Some(MenuAction::EditLSystem))
        } else if selected == 3 {
            (state, Some(MenuAction::ReloadLSystem))
        } else if selected == 4 {
            (MenuState::Help, None::<MenuAction>)
        } else if selected == 5 {
            (state, Some(MenuAction::Exit))
        } else {
            (state, None::<MenuAction>)
        },
{
    if selected == 0 {
        (state, Some(MenuAction::ShowTreeSelection))
    } else if selected == 1 {
        (state, Some(MenuAction::ShowParameters))
    } else if selected == 2 {
        (state, Some(MenuAction::EditLSystem))
    } else if selected == 3 {
        (state, Some(MenuAction::ReloadLSystem))
    } else if selected == 4 {
        (MenuState::Help, None)
    } else if selected == 5 {
        (state, Some(MenuAction::Exit))
    } else {
        (state, None)
    }
}

} // verus!
