//! Dialogs that ask before something is deleted, and dialogs that only tell.
use vstd::prelude::*;
use crate::menu::MenuState;
use crate::text::{concat2, opt_text};

verus! {

/// What a dialog asks for.
#[derive(Clone, Copy, Debug, PartialEq, Eq, Structural)]
pub enum ConfirmationAction {
    DeleteWorld { world_id: u128 },
}

/// A dialog that asks before it acts.
#[derive(Clone, Copy, Debug, PartialEq, Eq, Structural)]
pub struct ConfirmationDialog {
    pub action: ConfirmationAction,
    /// Whether the dialog fades out.
    pub closing: bool,
    /// Whether the last choice was to go ahead.
    pub confirmed: bool,
}

/// The buttons of a dialog.
#[derive(Clone, Copy, Debug, PartialEq, Eq, Structural)]
pub enum ConfirmationChoice {
    Confirm,
    Cancel,
}

/// What a frame of a dialog reports.
#[derive(Clone, Copy, Debug, PartialEq, Eq)]
pub struct ModalOutput {
    pub choice: Option<ConfirmationChoice>,
    pub finished_closing: bool,
}

/// The dialog after a choice.
pub open spec fn chosen(
    dialog: ConfirmationDialog,
    choice: Option<ConfirmationChoice>,
) -> ConfirmationDialog {
    match choice {
        Some(button) => ConfirmationDialog {
            closing: true,
            confirmed: button == ConfirmationChoice::Confirm,
            ..dialog
        },
        None => dialog,
    }
}

/// Runs a frame of a dialog that asks. A choice starts to fade it out; once it is
/// gone, what was confirmed is handed back.
pub fn confirmation_frame(
    dialog: &mut Option<ConfirmationDialog>,
    output: ModalOutput,
) -> (r: Option<ConfirmationAction>)
    ensures
        match *old(dialog) {
            None => r is None && *final(dialog) is None,
            Some(open) => {
                let next = chosen(open, output.choice);
                &&& *final(dialog) == if output.finished_closing {
                    None
                } else {
                    Some(next)
                }
                &&& r == if output.finished_closing && next.confirmed {
                    Some(next.action)
                } else {
                    None
                }
            },
        },
        r is Some ==> output.finished_closing && *final(dialog) is None && *old(dialog) is Some
            && r == Some(old(dialog)->0.action),
        output.choice == Some(ConfirmationChoice::Cancel) ==> r is None,
        output.finished_closing && output.choice == Some(ConfirmationChoice::Confirm) && *old(
            dialog,
        ) is Some ==> r == Some(old(dialog)->0.action),
        !output.finished_closing ==> (*final(dialog) is Some <==> *old(dialog) is Some),
{
    let open = match *dialog {
        Some(open) => open,
        None => {
            return None;
        },
    };
    let next = match output.choice {
        Some(button) => ConfirmationDialog {
            action: open.action,
            closing: true,
            confirmed: button == ConfirmationChoice::Confirm,
        },
        None => open,
    };
    if !output.finished_closing {
        *dialog = Some(next);
        return None;
    }
    *dialog = None;
    if next.confirmed {
        Some(next.action)
    } else {
        None
    }
}

/// Runs a frame of a dialog that only tells: any choice starts to fade it out,
/// and it is gone once faded. Tells whether it is closing, and whether it stays.
pub fn notice_frame(closing: bool, output: ModalOutput) -> (r: (bool, bool))
    ensures
        r.0 == (closing || output.choice is Some),
        r.1 == !output.finished_closing,
{
    (closing || output.choice.is_some(), !output.finished_closing)
}

/// What happens once the store has done what was confirmed: the deletion is
/// reported and the list of worlds read anew, or the error is shown. Tells
/// whether to report and read anew.
pub fn apply_confirmation_action(menu: &mut MenuState, outcome: Result<(), String>) -> (r: bool)
    ensures
        r == (outcome is Ok),
        opt_text(final(menu).status) == match outcome {
            Ok(_) => opt_text(old(menu).status),
            Err(error) => Some("delete failed: "@ + error@),
        },
        *final(menu) == (MenuState { status: final(menu).status, ..*old(menu) }),
{
    match outcome {
        Ok(_) => true,
        Err(error) => {
            menu.status = Some(concat2("delete failed: ", error.as_str()));
            false
        },
    }
}

/// Cancelling never acts: whatever was chosen before, a dialog whose last choice
/// was to cancel hands nothing back when it is gone.
pub proof fn cancelled_dialog_does_nothing(dialog: ConfirmationDialog, output: ModalOutput)
    requires
        output.choice == Some(ConfirmationChoice::Cancel),
    ensures
        !chosen(dialog, output.choice).confirmed,
        chosen(dialog, output.choice).closing,
        chosen(dialog, output.choice).action == dialog.action,
{
}

/// Going ahead is remembered, the last choice counts, and without a choice the dialog
/// stays as it is.
pub proof fn last_choice_counts(
    dialog: ConfirmationDialog,
    first: Option<ConfirmationChoice>,
    last: ConfirmationChoice,
)
    ensures
        chosen(dialog, None) == dialog,
        chosen(chosen(dialog, first), Some(last)) == chosen(dialog, Some(last)),
        chosen(dialog, Some(last)).confirmed <==> last == ConfirmationChoice::Confirm,
        chosen(dialog, Some(last)).closing,
        chosen(dialog, first).action == dialog.action,
{
}

} // verus!
