//! The furnace panel: what it shows and what it asks the server for.
use vstd::prelude::*;
use crate::crafting::details::ButtonKind;
use crate::inventory::panel::{INVENTORY_COLUMNS, INVENTORY_SLOT_COUNT};
use crate::inventory::slot::{InventoryUiState, UnifiedSlotRef};
use crate::menu::MenuState;

verus! {

/// The width of the panel: the bag grid and the frame margins, in pixels.
pub const PANEL_WIDTH: u32 = 786;

/// What the server is asked for. A slot is named as it stands on the screen.
#[derive(Clone, Copy, Debug, PartialEq, Eq, Structural)]
pub enum FurnaceCommand {
    SetActive { active: bool },
    Close,
    QuickTransfer { from: UnifiedSlotRef },
}

/// What was clicked on the panel.
#[derive(Clone, Copy, Debug, PartialEq, Eq, Structural)]
pub struct FurnaceClicks {
    pub backdrop: bool,
    pub toggle: bool,
    pub close: bool,
}

/// What a frame of the panel does.
pub struct FurnaceFrame {
    /// Whether the panel is drawn, and counts as a surface to drop stacks on.
    pub drawn: bool,
    pub commands: Vec<FurnaceCommand>,
}

/// The commands of the clicks on the drawn panel, and of the stack that was handed
/// over with shift.
pub open spec fn panel_commands(
    active: bool,
    clicks: FurnaceClicks,
    transfer: Option<UnifiedSlotRef>,
) -> Seq<FurnaceCommand> {
    (if clicks.toggle {
        seq![FurnaceCommand::SetActive { active: !active }]
    } else {
        Seq::empty()
    }) + (if clicks.close {
        seq![FurnaceCommand::Close]
    } else {
        Seq::empty()
    }) + (match transfer {
        Some(from) => seq![FurnaceCommand::QuickTransfer { from }],
        None => Seq::empty(),
    })
}

/// Runs a frame of the panel. `open` tells whether the opened furnace burns; the
/// panel is there while a furnace is open and the game is not paused. A click
/// beside the panel closes it and does nothing else.
pub fn furnace_frame(
    menu: &MenuState,
    inventory_ui: &mut InventoryUiState,
    open: Option<bool>,
    clicks: FurnaceClicks,
) -> (r: FurnaceFrame)
    ensures
        match open {
            Some(active) if !menu.pause_open => if clicks.backdrop {
                &&& !r.drawn
                &&& r.commands@ == seq![FurnaceCommand::Close]
                &&& *final(inventory_ui) == *old(inventory_ui)
            } else {
                &&& r.drawn
                &&& r.commands@ == panel_commands(
                    active,
                    clicks,
                    old(inventory_ui).pending_quick_transfer,
                )
                &&& *final(inventory_ui) == (InventoryUiState {
                    pending_quick_transfer: None,
                    ..*old(inventory_ui)
                })
            },
            _ => !r.drawn && r.commands@.len() == 0 && *final(inventory_ui) == *old(inventory_ui),
        },
        r.drawn <==> open is Some && !menu.pause_open && !clicks.backdrop,
        r.commands@.len() > 0 ==> open is Some && !menu.pause_open,
        clicks.backdrop && open is Some && !menu.pause_open ==> r.commands@.len() == 1
            && r.commands@[0] == FurnaceCommand::Close,
        r.drawn ==> final(inventory_ui).pending_quick_transfer is None,
        final(inventory_ui).drag == old(inventory_ui).drag,
{
    let mut commands: Vec<FurnaceCommand> = Vec::new();
    if menu.pause_open {
        return FurnaceFrame { drawn: false, commands };
    }
    let active = match open {
        Some(active) => active,
        None => {
            return FurnaceFrame { drawn: false, commands };
        },
    };
    if clicks.backdrop {
        commands.push(FurnaceCommand::Close);
        proof {
            assert(commands@ =~= seq![FurnaceCommand::Close]);
        }
        return FurnaceFrame { drawn: false, commands };
    }
    if clicks.toggle {
        commands.push(FurnaceCommand::SetActive { active: !active });
    }
    if clicks.close {
        commands.push(FurnaceCommand::Close);
    }
    let pending = inventory_ui.pending_quick_transfer.take();
    if let Some(from) = pending {
        commands.push(FurnaceCommand::QuickTransfer { from });
    }
    proof {
        assert(commands@ =~= panel_commands(active, clicks, pending));
    }
    FurnaceFrame { drawn: true, commands }
}

/// The label and the kind of the switch.
pub fn toggle_button(active: bool) -> (r: (String, ButtonKind))
    ensures
        r.0@ == if active {
            "Turn off"@
        } else {
            "Turn on"@
        },
        r.1 == if active {
            ButtonKind::Danger
        } else {
            ButtonKind::Primary
        },
{
    if active {
        ("Turn off".to_owned(), ButtonKind::Danger)
    } else {
        ("Turn on".to_owned(), ButtonKind::Primary)
    }
}

/// The first slot of each row of the bag, and the one behind its last.
pub fn inventory_rows() -> (r: Vec<(usize, usize)>)
    ensures
        r@ == Seq::new(
            5,
            |row: int| ((12 * row) as usize, (12 * row + 12) as usize),
        ),
{
    let mut rows: Vec<(usize, usize)> = Vec::new();
    let mut start: usize = 0;
    while start < INVENTORY_SLOT_COUNT
        invariant
            start <= INVENTORY_SLOT_COUNT,
            start == 12 * rows@.len(),
            forall|k: int|
                0 <= k < rows@.len() ==> #[trigger] rows@[k] == (
                    (12 * k) as usize,
                    (12 * k + 12) as usize,
                ),
        decreases INVENTORY_SLOT_COUNT - start,
    {
        let end: usize = if start + INVENTORY_COLUMNS < INVENTORY_SLOT_COUNT {
            start + INVENTORY_COLUMNS
        } else {
            INVENTORY_SLOT_COUNT
        };
        rows.push((start, end));
        start = end;
    }
    proof {
        assert(rows@ =~= Seq::new(5, |row: int| ((12 * row) as usize, (12 * row + 12) as usize)));
    }
    rows
}

/// The filled part of a progress bar, in thousandths; an empty bar has none.
pub fn bar_fill(fraction: i64) -> (r: Option<u32>)
    ensures
        r == if fraction <= 0 {
            None
        } else if fraction >= 1000 {
            Some(1000u32)
        } else {
            Some(fraction as u32)
        },
{
    if fraction <= 0 {
        None
    } else if fraction >= 1000 {
        Some(1000)
    } else {
        Some(fraction as u32)
    }
}

/// The switch asks for the other state, the close button closes, and a stack handed over
/// goes over; nothing is asked for that was not clicked, and nothing twice.
pub proof fn each_click_has_its_command(
    active: bool,
    clicks: FurnaceClicks,
    transfer: Option<UnifiedSlotRef>,
    wanted: bool,
    from: UnifiedSlotRef,
)
    ensures
        ({
            let commands = panel_commands(active, clicks, transfer);
            &&& commands.contains(FurnaceCommand::SetActive { active: wanted }) <==> clicks.toggle
                && wanted == !active
            &&& commands.contains(FurnaceCommand::Close) <==> clicks.close
            &&& commands.contains(FurnaceCommand::QuickTransfer { from }) <==> transfer == Some(
                from,
            )
            &&& commands.len() == (if clicks.toggle {
                1int
            } else {
                0
            }) + (if clicks.close {
                1int
            } else {
                0
            }) + (if transfer is Some {
                1int
            } else {
                0
            })
        }),
{
    let commands = panel_commands(active, clicks, transfer);
    let toggled: int = if clicks.toggle {
        1
    } else {
        0
    };
    let closed: int = toggled + if clicks.close {
        1int
    } else {
        0
    };
    if clicks.toggle {
        assert(commands[0] == (FurnaceCommand::SetActive { active: !active }));
    }
    if clicks.close {
        assert(commands[toggled] == FurnaceCommand::Close);
    }
    if let Some(slot) = transfer {
        assert(commands[closed] == (FurnaceCommand::QuickTransfer { from: slot }));
    }
}

} // verus!
