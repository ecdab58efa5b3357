//! Replacing the game by its update: the world is saved first.
use vstd::prelude::*;
use crate::menu::{MenuState, Screen};
use crate::network::SessionEndReason;
use crate::text::concat2;

verus! {

/// What a frame does for the update.
pub enum UpdateStep {
    /// No update is being applied.
    Nothing,
    /// The session ends for the given reason, and its world is saved.
    EndSession(SessionEndReason),
    /// A world is still being saved.
    Wait,
    Fail { reason: String },
    /// The updater starts with what was staged.
    StartUpdater,
}

/// What is known in a frame.
#[derive(Clone, Copy, Debug, PartialEq, Eq, Structural)]
pub struct UpdateInputs {
    pub applying: bool,
    pub has_session: bool,
    pub saves_finished: bool,
    pub staged: bool,
}

/// The menu after a session was ended for an update.
pub open spec fn back_at_menu(menu: MenuState) -> MenuState {
    MenuState {
        screen: Screen::MainMenu,
        pause_open: false,
        pause_options_open: false,
        inventory_open: false,
        chat_open: false,
        chat_focus_pending: false,
        ..menu
    }
}

/// Runs a frame of applying an update. The updater never starts while a session runs
/// or a world is still being saved.
pub fn apply_update(menu: &mut MenuState, inputs: UpdateInputs) -> (r: UpdateStep)
    ensures
        if !inputs.applying {
            r is Nothing
        } else if inputs.has_session {
            r == UpdateStep::EndSession(SessionEndReason::UserQuit)
        } else if !inputs.saves_finished {
            r is Wait
        } else if !inputs.staged {
            r matches UpdateStep::Fail { reason } && reason@ == "no staged update to apply"@
        } else {
            r is StartUpdater
        },
        r is StartUpdater ==> !inputs.has_session && inputs.saves_finished && inputs.staged,
        *final(menu) == if inputs.applying && inputs.has_session {
            back_at_menu(*old(menu))
        } else {
            *old(menu)
        },
{
    if !inputs.applying {
        return UpdateStep::Nothing;
    }
    if inputs.has_session {
        menu.screen = Screen::MainMenu;
        menu.pause_open = false;
        menu.pause_options_open = false;
        menu.inventory_open = false;
        menu.chat_open = false;
        menu.chat_focus_pending = false;
        return UpdateStep::EndSession(SessionEndReason::UserQuit);
    }
    if !inputs.saves_finished {
        return UpdateStep::Wait;
    }
    if !inputs.staged {
        return UpdateStep::Fail { reason: "no staged update to apply".to_owned() };
    }
    UpdateStep::StartUpdater
}

/// How starting the updater ended: with the game, or with an error to show.
pub enum UpdaterOutcome {
    Exit,
    Fail { reason: String },
}

/// Decides what follows from starting the updater.
pub fn updater_started(result: Result<(), String>) -> (r: UpdaterOutcome)
    ensures
        match result {
            Ok(_) => r is Exit,
            Err(error) => r matches UpdaterOutcome::Fail { reason } && reason@
                == "could not start updater: "@ + error@,
        },
{
    match result {
        Ok(_) => UpdaterOutcome::Exit,
        Err(error) => UpdaterOutcome::Fail {
            reason: concat2("could not start updater: ", error.as_str()),
        },
    }
}

/// Ending a session for an update leads to the main menu with every panel of the game
/// shut, and leaves the notices and the splash as they are.
pub proof fn update_leads_to_the_main_menu(menu: MenuState)
    ensures
        ({
            let after = back_at_menu(menu);
            &&& after.screen == Screen::MainMenu
            &&& !after.pause_open && !after.pause_options_open
            &&& !after.inventory_open
            &&& !after.chat_open && !after.chat_focus_pending
            &&& after.notice == menu.notice
            &&& after.status == menu.status
            &&& after.loading_splash == menu.loading_splash
            &&& back_at_menu(after) == after
        }),
{
}

} // verus!
