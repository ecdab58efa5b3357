//! Which screen and which panels are up.
use vstd::prelude::*;
use crate::text::concat5;

verus! {

/// The screens of the client.
#[derive(Clone, Copy, Debug, PartialEq, Eq, Structural)]
pub enum Screen {
    MainMenu,
    Worlds,
    Multiplayer,
    Options,
    InGame,
}

/// A dialog that tells why the player is back at the main menu.
pub enum NoticeDialog {
    Disconnected { reason: String },
    AuthRejected { reason: String },
    VersionMismatch { client_version: String, server_version: String },
}

/// What a notice holds.
pub enum Notice {
    Disconnected { reason: Seq<char> },
    AuthRejected { reason: Seq<char> },
    VersionMismatch { client_version: Seq<char>, server_version: Seq<char> },
}

impl NoticeDialog {
    pub open spec fn notice(self) -> Notice {
        match self {
            NoticeDialog::Disconnected { reason } => Notice::Disconnected { reason: reason@ },
            NoticeDialog::AuthRejected { reason } => Notice::AuthRejected { reason: reason@ },
            NoticeDialog::VersionMismatch { client_version, server_version } => {
                Notice::VersionMismatch {
                    client_version: client_version@,
                    server_version: server_version@,
                }
            },
        }
    }

    /// The heading of the dialog.
    pub fn title(&self) -> (r: String)
        ensures
            r@ == match self.notice() {
                Notice::Disconnected { .. } => "Disconnected"@,
                Notice::AuthRejected { .. } => "Couldn't join server"@,
                Notice::VersionMismatch { .. } => "Version mismatch"@,
            },
    {
        match self {
            NoticeDialog::Disconnected { .. } => "Disconnected".to_owned(),
            NoticeDialog::AuthRejected { .. } => "Couldn't join server".to_owned(),
            NoticeDialog::VersionMismatch { .. } => "Version mismatch".to_owned(),
        }
    }

    /// The text of the dialog: the reason that the server gave, or both versions.
    pub fn body(&self) -> (r: String)
        ensures
            r@ == match self.notice() {
                Notice::Disconnected { reason } => reason,
                Notice::AuthRejected { reason } => reason,
                Notice::VersionMismatch { client_version, server_version } => {
                    "Client version "@ + client_version + ", server version "@ + server_version
                        + "."@
                },
            },
    {
        match self {
            NoticeDialog::Disconnected { reason } => reason.clone(),
            NoticeDialog::AuthRejected { reason } => reason.clone(),
            NoticeDialog::VersionMismatch { client_version, server_version } => concat5(
                "Client version ",
                client_version.as_str(),
                ", server version ",
                server_version.as_str(),
                ".",
            ),
        }
    }
}

/// The death screen. Times are in microseconds.
pub struct DeathSplash {
    pub killer_name: Option<String>,
    pub elapsed: u64,
    pub closing_elapsed: Option<u64>,
}

impl DeathSplash {
    /// A death screen that was just raised.
    pub fn new(killer_name: Option<String>) -> (r: Self)
        ensures
            r.killer_name == killer_name,
            r.elapsed == 0,
            r.closing_elapsed is None,
    {
        DeathSplash { killer_name, elapsed: 0, closing_elapsed: None }
    }

    /// Starts to fade the screen out; a fade that runs already goes on.
    pub fn begin_closing(&mut self)
        ensures
            final(self).killer_name == old(self).killer_name,
            final(self).elapsed == old(self).elapsed,
            final(self).closing_elapsed == match old(self).closing_elapsed {
                Some(t) => Some(t),
                None => Some(0u64),
            },
    {
        if self.closing_elapsed.is_none() {
            self.closing_elapsed = Some(0);
        }
    }
}

/// Which screen and which panels are up.
pub struct MenuState {
    pub screen: Screen,
    pub pause_open: bool,
    pub pause_options_open: bool,
    pub inventory_open: bool,
    pub crafting_open: bool,
    pub furnace_open: bool,
    pub loot_bag_open: bool,
    pub workbench_open: bool,
    pub chat_open: bool,
    pub chat_focus_pending: bool,
    pub world_map_open: bool,
    pub loading_splash: bool,
    pub direct_connect: bool,
    pub quit_requested: bool,
    /// A map marker whose deletion was confirmed.
    pub world_map_delete_pending: Option<u64>,
    pub notice: Option<NoticeDialog>,
    pub death_splash: Option<DeathSplash>,
    pub status: Option<String>,
}

impl MenuState {
    /// The state at start: the main menu behind the loading splash.
    pub fn new() -> (r: Self)
        ensures
            r == (MenuState {
                screen: Screen::MainMenu,
                pause_open: false,
                pause_options_open: false,
                inventory_open: false,
                crafting_open: false,
                furnace_open: false,
                loot_bag_open: false,
                workbench_open: false,
                chat_open: false,
                chat_focus_pending: false,
                world_map_open: false,
                loading_splash: true,
                direct_connect: false,
                quit_requested: false,
                world_map_delete_pending: None,
                notice: None,
                death_splash: None,
                status: None,
            }),
    {
        MenuState {
            screen: Screen::MainMenu,
            pause_open: false,
            pause_options_open: false,
            inventory_open: false,
            crafting_open: false,
            furnace_open: false,
            loot_bag_open: false,
            workbench_open: false,
            chat_open: false,
            chat_focus_pending: false,
            world_map_open: false,
            loading_splash: true,
            direct_connect: false,
            quit_requested: false,
            world_map_delete_pending: None,
            notice: None,
            death_splash: None,
            status: None,
        }
    }

    /// Whether a panel is up over the world that takes the player's input.
    pub open spec fn covers_world(self) -> bool {
        self.pause_open || self.inventory_open || self.crafting_open || self.furnace_open
            || self.loot_bag_open || self.chat_open || self.death_splash is Some
    }

    /// Whether a panel is up over the world that takes the player's input.
    pub fn world_covered(&self) -> (r: bool)
        ensures
            r == self.covers_world(),
    {
        self.pause_open || self.inventory_open || self.crafting_open || self.furnace_open
            || self.loot_bag_open || self.chat_open || self.death_splash.is_some()
    }
}

/// Each panel covers the world by itself, and without any of them, and without the
/// death screen, it lies open. The map and the workbench do not cover it.
pub proof fn every_panel_covers_the_world(menu: MenuState)
    ensures
        menu.pause_open ==> menu.covers_world(),
        menu.inventory_open ==> menu.covers_world(),
        menu.crafting_open ==> menu.covers_world(),
        menu.furnace_open ==> menu.covers_world(),
        menu.loot_bag_open ==> menu.covers_world(),
        menu.chat_open ==> menu.covers_world(),
        menu.death_splash is Some ==> menu.covers_world(),
        !menu.pause_open && !menu.inventory_open && !menu.crafting_open && !menu.furnace_open
            && !menu.loot_bag_open && !menu.chat_open && menu.death_splash is None
            ==> !menu.covers_world(),
{
}

/// A notice tells what its dialog holds, each kind in its own words.
pub proof fn notices_hold_what_was_told(reason: String, client: String, server: String)
    ensures
        (NoticeDialog::Disconnected { reason }).notice() == (Notice::Disconnected {
            reason: reason@,
        }),
        (NoticeDialog::AuthRejected { reason }).notice() == (Notice::AuthRejected {
            reason: reason@,
        }),
        (NoticeDialog::VersionMismatch {
            client_version: client,
            server_version: server,
        }).notice() == (Notice::VersionMismatch {
            client_version: client@,
            server_version: server@,
        }),
{
}

} // verus!
