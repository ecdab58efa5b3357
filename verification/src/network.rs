//! The network tick: what each server message does to the client, the ping
//! probe, and the way back to the main menu.
use vstd::prelude::*;
use crate::items::ToolKind;
use crate::menu::{DeathSplash, MenuState, Notice, NoticeDialog, Screen};
use crate::text::{concat2, opt_text};

verus! {

/// How often the round trip is probed, in microseconds.
pub const PING_INTERVAL: u64 = 1_000_000;

/// What a resource node is hit on.
#[derive(Clone, Copy, Debug, PartialEq, Eq, Structural)]
pub enum ResourceImpactKind {
    Tree,
    CoalOre,
    IronOre,
    SulfurOre,
    StoneVein,
    Branches,
    SurfaceStone,
    HayGrass,
}

/// What an impact sounds like.
#[derive(Clone, Copy, Debug, PartialEq, Eq, Structural)]
pub enum SurfaceMaterial {
    Wood,
    Coal,
    Iron,
    Sulfur,
    Stone,
    Dirt,
}

/// A position as it came over the wire: the bits of three 32-bit floats.
#[derive(Clone, Copy, Debug, PartialEq, Eq, Structural)]
pub struct WirePosition {
    pub x: u32,
    pub y: u32,
    pub z: u32,
}

/// What an impact looks like.
#[derive(Clone, Copy, Debug, PartialEq, Eq, Structural)]
pub enum ImpactEffect {
    FleshHit,
    Resource(ResourceImpactKind),
}

/// An impact that somebody else caused.
#[derive(Clone, Copy, Debug, PartialEq, Eq, Structural)]
pub struct RemoteImpactEvent {
    pub anchor: WirePosition,
    pub tool: ToolKind,
    pub surface: SurfaceMaterial,
    pub effect: ImpactEffect,
    pub seed: u32,
    pub is_player_hit: bool,
}

/// The tool and the surface that go with a resource impact: the server asks for
/// an axe on trees, a pickaxe on ores and bare hands on what lies about, so the
/// kind alone tells.
pub open spec fn impact_pair(kind: ResourceImpactKind) -> (ToolKind, SurfaceMaterial) {
    match kind {
        ResourceImpactKind::Tree => (ToolKind::Axe, SurfaceMaterial::Wood),
        ResourceImpactKind::CoalOre => (ToolKind::Pickaxe, SurfaceMaterial::Coal),
        ResourceImpactKind::IronOre => (ToolKind::Pickaxe, SurfaceMaterial::Iron),
        ResourceImpactKind::SulfurOre => (ToolKind::Pickaxe, SurfaceMaterial::Sulfur),
        ResourceImpactKind::StoneVein => (ToolKind::Pickaxe, SurfaceMaterial::Stone),
        ResourceImpactKind::Branches => (ToolKind::Hands, SurfaceMaterial::Wood),
        ResourceImpactKind::SurfaceStone => (ToolKind::Hands, SurfaceMaterial::Stone),
        ResourceImpactKind::HayGrass => (ToolKind::Hands, SurfaceMaterial::Dirt),
    }
}

/// The tool and the surface that go with a resource impact.
pub fn remote_impact_tool_and_surface(kind: ResourceImpactKind) -> (r: (ToolKind, SurfaceMaterial))
    ensures
        r == impact_pair(kind),
{
    match kind {
        ResourceImpactKind::Tree => (ToolKind::Axe, SurfaceMaterial::Wood),
        ResourceImpactKind::CoalOre => (ToolKind::Pickaxe, SurfaceMaterial::Coal),
        ResourceImpactKind::IronOre => (ToolKind::Pickaxe, SurfaceMaterial::Iron),
        ResourceImpactKind::SulfurOre => (ToolKind::Pickaxe, SurfaceMaterial::Sulfur),
        ResourceImpactKind::StoneVein => (ToolKind::Pickaxe, SurfaceMaterial::Stone),
        ResourceImpactKind::Branches => (ToolKind::Hands, SurfaceMaterial::Wood),
        ResourceImpactKind::SurfaceStone => (ToolKind::Hands, SurfaceMaterial::Stone),
        ResourceImpactKind::HayGrass => (ToolKind::Hands, SurfaceMaterial::Dirt),
    }
}

/// Two to the 32.
pub const WORD: u64 = 0x1_0000_0000;

/// The seed of an effect at a position: a weighted sum of the coordinate bits,
/// in 32-bit arithmetic.
pub open spec fn seed_of(position: WirePosition) -> int {
    (position.x * 0x9E3779B1 + position.y * 0x85EBCA77 + position.z * 0xC2B2AE3D) % (WORD as int)
}

/// The seed of an effect at a position.
pub fn position_seed(position: WirePosition) -> (r: u32)
    ensures
        r == seed_of(position),
{
    let x: u64 = ((position.x as u64) * 0x9E3779B1) % WORD;
    let y: u64 = ((position.y as u64) * 0x85EBCA77) % WORD;
    let z: u64 = ((position.z as u64) * 0xC2B2AE3D) % WORD;
    let sum: u64 = (x + y + z) % WORD;
    proof {
        let a = position.x * 0x9E3779B1int;
        let b = position.y * 0x85EBCA77int;
        let c = position.z * 0xC2B2AE3Dint;
        let w = WORD as int;
        vstd::arithmetic::div_mod::lemma_add_mod_noop(a, b, w);
        vstd::arithmetic::div_mod::lemma_add_mod_noop(a % w + b % w, c, w);
        vstd::arithmetic::div_mod::lemma_add_mod_noop(a + b, c, w);
        vstd::arithmetic::div_mod::lemma_mod_twice(a % w + b % w, w);
        vstd::arithmetic::div_mod::lemma_mod_twice(c, w);
        vstd::arithmetic::div_mod::lemma_add_mod_noop(a % w + b % w, c % w, w);
    }
    sum as u32
}

/// The impact event of a resource hit.
pub open spec fn resource_impact(
    position: WirePosition,
    kind: ResourceImpactKind,
) -> RemoteImpactEvent {
    RemoteImpactEvent {
        anchor: position,
        tool: impact_pair(kind).0,
        surface: impact_pair(kind).1,
        effect: ImpactEffect::Resource(kind),
        seed: seed_of(position) as u32,
        is_player_hit: false,
    }
}

/// Builds the impact event of a resource hit.
pub fn remote_impact_event(position: WirePosition, kind: ResourceImpactKind) -> (r:
    RemoteImpactEvent)
    ensures
        r == resource_impact(position, kind),
        r.seed == seed_of(position),
{
    let (tool, surface) = remote_impact_tool_and_surface(kind);
    RemoteImpactEvent {
        anchor: position,
        tool,
        surface,
        effect: ImpactEffect::Resource(kind),
        seed: position_seed(position),
        is_player_hit: false,
    }
}

/// The impact event of a hit on a player.
pub open spec fn player_impact(position: WirePosition, tool: ToolKind) -> RemoteImpactEvent {
    RemoteImpactEvent {
        anchor: position,
        tool,
        surface: SurfaceMaterial::Wood,
        effect: ImpactEffect::FleshHit,
        seed: seed_of(position) as u32,
        is_player_hit: true,
    }
}

/// A message of the server, as far as the client acts on it here.
pub enum ServerMessage {
    Kicked { reason: String },
    AuthRejected { reason: String },
    VersionMismatch { server_version: String },
    ItemMerged,
    Toast,
    ResourceImpact { position: WirePosition, kind: ResourceImpactKind },
    PlayerKilled { killer_name: Option<String> },
    /// A correction of a player's state; `alive` tells whether health is left.
    Correction { client_id: u64, alive: bool },
    PlayerImpact {
        attacker: u64,
        target: u64,
        position: WirePosition,
        attacker_position: WirePosition,
        tool: ToolKind,
        damage_dealt: u32,
    },
    Voice,
    Pong { client_time_ms: u32 },
    Other,
}

/// Why a session ended.
#[derive(Clone, Copy, Debug, PartialEq, Eq, Structural)]
pub enum SessionEndReason {
    Kick,
    Disconnect,
    UserQuit,
}

/// Whose hit a floating number tells of.
#[derive(Clone, Copy, Debug, PartialEq, Eq, Structural)]
pub enum FloatingDamageRole {
    Dealt,
    Taken,
}

/// What the client does in reply to a message, in order.
#[derive(Clone, Copy, Debug, PartialEq, Eq, Structural)]
pub enum NetworkAction {
    RecordSessionEnd(SessionEndReason),
    /// Hands the message on to the client's own state.
    ApplyMessage,
    StopSession,
    ShutDownInBackground,
    ClearToasts,
    PlayHoverSound,
    ShowToast,
    ShowImpact(RemoteImpactEvent),
    KickCamera(ToolKind),
    PointAtAttacker(WirePosition),
    ShowDamage { anchor: WirePosition, value: u32, role: FloatingDamageRole },
    PlayVoice,
    SetLocalPing(u16),
}

/// Who the local player is in a hit: the target sees the camera kick, the arrow
/// towards the attacker and a red number, the attacker nothing more than what
/// was predicted, and everyone else an orange number.
pub open spec fn impact_actions(
    local: Option<u64>,
    attacker: u64,
    target: u64,
    position: WirePosition,
    attacker_position: WirePosition,
    tool: ToolKind,
    damage: u32,
) -> Seq<NetworkAction> {
    let shown = seq![NetworkAction::ShowImpact(player_impact(position, tool))];
    if local == Some(target) {
        shown + seq![
            NetworkAction::KickCamera(tool),
            NetworkAction::PointAtAttacker(attacker_position),
            NetworkAction::ShowDamage {
                anchor: position,
                value: damage,
                role: FloatingDamageRole::Taken,
            },
        ]
    } else if local == Some(attacker) {
        shown
    } else {
        shown + seq![
            NetworkAction::ShowDamage {
                anchor: position,
                value: damage,
                role: FloatingDamageRole::Dealt,
            },
        ]
    }
}

/// The round trip time that a reply to a probe tells, in milliseconds and at
/// most what 16 bits can hold.
pub open spec fn round_trip(now_ms: u32, sent_ms: u32) -> int {
    if now_ms < sent_ms {
        0
    } else if now_ms - sent_ms > 65535 {
        65535
    } else {
        now_ms - sent_ms
    }
}

/// Computes the round trip time.
pub fn measure_round_trip(now_ms: u32, sent_ms: u32) -> (r: u16)
    ensures
        r == round_trip(now_ms, sent_ms),
{
    let elapsed: u32 = now_ms.saturating_sub(sent_ms);
    if elapsed > 65535 {
        65535
    } else {
        elapsed as u16
    }
}

/// What the client does in reply to a message.
pub open spec fn message_actions(
    message: ServerMessage,
    local: Option<u64>,
    now_ms: u32,
) -> Seq<NetworkAction> {
    match message {
        ServerMessage::Kicked { .. } => seq![
            NetworkAction::RecordSessionEnd(SessionEndReason::Kick),
            NetworkAction::ApplyMessage,
            NetworkAction::StopSession,
            NetworkAction::ClearToasts,
        ],
        ServerMessage::AuthRejected { .. } => seq![
            NetworkAction::RecordSessionEnd(SessionEndReason::Disconnect),
            NetworkAction::ApplyMessage,
            NetworkAction::ShutDownInBackground,
            NetworkAction::ClearToasts,
        ],
        ServerMessage::VersionMismatch { .. } => seq![
            NetworkAction::RecordSessionEnd(SessionEndReason::Disconnect),
            NetworkAction::ApplyMessage,
            NetworkAction::ShutDownInBackground,
            NetworkAction::ClearToasts,
        ],
        ServerMessage::ItemMerged => seq![
            NetworkAction::PlayHoverSound,
            NetworkAction::ApplyMessage,
        ],
        ServerMessage::Toast => seq![NetworkAction::ShowToast, NetworkAction::ApplyMessage],
        ServerMessage::ResourceImpact { position, kind } => seq![
            NetworkAction::ShowImpact(resource_impact(position, kind)),
            NetworkAction::ApplyMessage,
        ],
        ServerMessage::PlayerImpact {
            attacker,
            target,
            position,
            attacker_position,
            tool,
            damage_dealt,
        } => impact_actions(
            local,
            attacker,
            target,
            position,
            attacker_position,
            tool,
            damage_dealt,
        ).push(NetworkAction::ApplyMessage),
        ServerMessage::Voice => seq![NetworkAction::PlayVoice, NetworkAction::ApplyMessage],
        ServerMessage::Pong { client_time_ms } => seq![
            NetworkAction::SetLocalPing(round_trip(now_ms, client_time_ms) as u16),
            NetworkAction::ApplyMessage,
        ],
        _ => seq![NetworkAction::ApplyMessage],
    }
}

/// The menu after a kick: the main menu with a notice, the in-game panels shut.
pub open spec fn kicked_menu(old: MenuState, new: MenuState, reason: Seq<char>) -> bool {
    &&& new == (MenuState {
        screen: Screen::MainMenu,
        pause_open: false,
        pause_options_open: false,
        inventory_open: false,
        chat_open: false,
        chat_focus_pending: false,
        notice: new.notice,
        ..old
    })
    &&& new.notice matches Some(dialog) && dialog.notice() == Notice::Disconnected { reason }
}

/// The menu after a refused join: as after a kick, and the loading splash and
/// the connect dialog are gone too.
pub open spec fn refused_menu(old: MenuState, new: MenuState, notice: Notice) -> bool {
    &&& new == (MenuState {
        screen: Screen::MainMenu,
        loading_splash: false,
        direct_connect: false,
        pause_open: false,
        pause_options_open: false,
        inventory_open: false,
        chat_open: false,
        chat_focus_pending: false,
        notice: new.notice,
        ..old
    })
    &&& new.notice matches Some(dialog) && dialog.notice() == notice
}

/// The menu after the local player was killed: the death screen is the only
/// panel left.
pub open spec fn killed_menu(old: MenuState, new: MenuState, killer: Option<Seq<char>>) -> bool {
    &&& new == (MenuState {
        pause_open: false,
        inventory_open: false,
        crafting_open: false,
        furnace_open: false,
        chat_open: false,
        death_splash: new.death_splash,
        ..old
    })
    &&& new.death_splash matches Some(splash) && {
        &&& opt_text(splash.killer_name) == killer
        &&& splash.elapsed == 0
        &&& splash.closing_elapsed is None
    }
}

/// The menu after a correction of the local player that is alive: a death
/// screen starts to fade.
pub open spec fn respawned_menu(old: MenuState, new: MenuState) -> bool {
    &&& new == (MenuState { death_splash: new.death_splash, ..old })
    &&& match old.death_splash {
        Some(splash) => new.death_splash matches Some(fading) && {
            &&& fading.killer_name == splash.killer_name
            &&& fading.elapsed == splash.elapsed
            &&& fading.closing_elapsed == match splash.closing_elapsed {
                Some(t) => Some(t),
                None => Some(0u64),
            }
        },
        None => new.death_splash is None,
    }
}

/// How a message changes the menu.
pub open spec fn menu_after(
    old: MenuState,
    new: MenuState,
    message: ServerMessage,
    local: Option<u64>,
    client_version: Seq<char>,
) -> bool {
    match message {
        ServerMessage::Kicked { reason } => kicked_menu(old, new, reason@),
        ServerMessage::AuthRejected { reason } => refused_menu(
            old,
            new,
            Notice::AuthRejected { reason: reason@ },
        ),
        ServerMessage::VersionMismatch { server_version } => refused_menu(
            old,
            new,
            Notice::VersionMismatch { client_version, server_version: server_version@ },
        ),
        ServerMessage::PlayerKilled { killer_name } => killed_menu(
            old,
            new,
            opt_text(killer_name),
        ),
        ServerMessage::Correction { client_id, alive } => if local == Some(client_id) && alive {
            respawned_menu(old, new)
        } else {
            new == old
        },
        _ => new == old,
    }
}

/// Puts up the notice of a kick.
pub fn show_kick_notice(menu: &mut MenuState, reason: String)
    ensures
        kicked_menu(*old(menu), *final(menu), reason@),
{
    menu.notice = Some(NoticeDialog::Disconnected { reason });
    menu.screen = Screen::MainMenu;
    menu.pause_open = false;
    menu.pause_options_open = false;
    menu.inventory_open = false;
    menu.chat_open = false;
    menu.chat_focus_pending = false;
}

/// Goes back to the main menu with a notice after a refused join.
pub fn return_to_menu_with_notice(menu: &mut MenuState, notice: NoticeDialog)
    ensures
        refused_menu(*old(menu), *final(menu), notice.notice()),
{
    menu.notice = Some(notice);
    menu.screen = Screen::MainMenu;
    menu.loading_splash = false;
    menu.direct_connect = false;
    menu.pause_open = false;
    menu.pause_options_open = false;
    menu.inventory_open = false;
    menu.chat_open = false;
    menu.chat_focus_pending = false;
}

/// Puts up the notice of a refused handshake.
pub fn show_auth_rejected_notice(menu: &mut MenuState, reason: String)
    ensures
        refused_menu(*old(menu), *final(menu), Notice::AuthRejected { reason: reason@ }),
{
    return_to_menu_with_notice(menu, NoticeDialog::AuthRejected { reason });
}

/// Puts up the notice of a version mismatch, with both versions.
pub fn show_version_mismatch_notice(
    menu: &mut MenuState,
    client_version: &str,
    server_version: String,
)
    ensures
        refused_menu(
            *old(menu),
            *final(menu),
            Notice::VersionMismatch {
                client_version: client_version@,
                server_version: server_version@,
            },
        ),
{
    let notice = NoticeDialog::VersionMismatch {
        client_version: client_version.to_owned(),
        server_version,
    };
    return_to_menu_with_notice(menu, notice);
}

/// Whether the network is ticked: in the game, paused or not, and nowhere else.
pub fn network_tick_allowed(menu: &MenuState) -> (r: bool)
    ensures
        r == (menu.screen == Screen::InGame),
{
    menu.screen == Screen::InGame
}

fn player_impact_actions(
    local: Option<u64>,
    attacker: u64,
    target: u64,
    position: WirePosition,
    attacker_position: WirePosition,
    tool: ToolKind,
    damage: u32,
) -> (r: Vec<NetworkAction>)
    ensures
        r@ == impact_actions(
            local,
            attacker,
            target,
            position,
            attacker_position,
            tool,
            damage,
        ),
{
    let shown = RemoteImpactEvent {
        anchor: position,
        tool,
        surface: SurfaceMaterial::Wood,
        effect: ImpactEffect::FleshHit,
        seed: position_seed(position),
        is_player_hit: true,
    };
    let mut actions: Vec<NetworkAction> = Vec::new();
    actions.push(NetworkAction::ShowImpact(shown));
    let (is_target, is_attacker): (bool, bool) = match local {
        Some(id) => (id == target, id == attacker),
        None => (false, false),
    };
    if is_target {
        actions.push(NetworkAction::KickCamera(tool));
        actions.push(NetworkAction::PointAtAttacker(attacker_position));
        actions.push(
            NetworkAction::ShowDamage {
                anchor: position,
                value: damage,
                role: FloatingDamageRole::Taken,
            },
        );
    } else if !is_attacker {
        actions.push(
            NetworkAction::ShowDamage {
                anchor: position,
                value: damage,
                role: FloatingDamageRole::Dealt,
            },
        );
    }
    proof {
        assert(actions@ =~= impact_actions(
            local,
            attacker,
            target,
            position,
            attacker_position,
            tool,
            damage,
        ));
    }
    actions
}

fn apply_only() -> (r: Vec<NetworkAction>)
    ensures
        r@ == seq![NetworkAction::ApplyMessage],
{
    vec![NetworkAction::ApplyMessage]
}

fn act_and_apply(action: NetworkAction) -> (r: Vec<NetworkAction>)
    ensures
        r@ == seq![action, NetworkAction::ApplyMessage],
{
    vec![action, NetworkAction::ApplyMessage]
}

fn end_session(reason: SessionEndReason, teardown: NetworkAction) -> (r: Vec<NetworkAction>)
    ensures
        r@ == seq![
            NetworkAction::RecordSessionEnd(reason),
            NetworkAction::ApplyMessage,
            teardown,
            NetworkAction::ClearToasts,
        ],
{
    vec![
        NetworkAction::RecordSessionEnd(reason),
        NetworkAction::ApplyMessage,
        teardown,
        NetworkAction::ClearToasts,
    ]
}

fn raise_death_splash(menu: &mut MenuState, killer_name: &Option<String>)
    ensures
        killed_menu(*old(menu), *final(menu), opt_text(*killer_name)),
{
    let name: Option<String> = match killer_name {
        Some(name) => Some(name.clone()),
        None => None,
    };
    menu.death_splash = Some(DeathSplash::new(name));
    menu.pause_open = false;
    menu.inventory_open = false;
    menu.crafting_open = false;
    menu.furnace_open = false;
    menu.chat_open = false;
}

fn fade_death_splash(menu: &mut MenuState)
    ensures
        respawned_menu(*old(menu), *final(menu)),
{
    if let Some(mut splash) = menu.death_splash.take() {
        splash.begin_closing();
        menu.death_splash = Some(splash);
    }
}

/// Handles one message: changes the menu and tells what else to do, in order.
pub fn handle_message(
    menu: &mut MenuState,
    message: &ServerMessage,
    local: Option<u64>,
    now_ms: u32,
    client_version: &str,
) -> (r: Vec<NetworkAction>)
    ensures
        r@ == message_actions(*message, local, now_ms),
        menu_after(*old(menu), *final(menu), *message, local, client_version@),
        message matches ServerMessage::PlayerImpact { target, attacker_position, .. } ==> (local
            == Some(*target) ==> r@.contains(NetworkAction::PointAtAttacker(*attacker_position))),
        forall|p: WirePosition| #[trigger]
            r@.contains(NetworkAction::PointAtAttacker(p)) ==> (
            message matches ServerMessage::PlayerImpact { target, attacker_position, .. } && local
                == Some(*target) && p == *attacker_position),
        final(menu).screen != old(menu).screen ==> message is Kicked || message is AuthRejected
            || message is VersionMismatch,
{
    proof {
        assert forall|p: WirePosition| #[trigger]
            message_actions(*message, local, now_ms).contains(
                NetworkAction::PointAtAttacker(p),
            ) == (message matches ServerMessage::PlayerImpact { target, attacker_position, .. }
            && local == Some(*target) && p == *attacker_position) by {
            target_is_pointed_at_the_attacker(*message, local, now_ms, p);
        }
        if let ServerMessage::PlayerImpact { attacker_position, .. } = message {
            target_is_pointed_at_the_attacker(*message, local, now_ms, *attacker_position);
        }
    }
    match message {
        ServerMessage::Kicked { reason } => {
            show_kick_notice(menu, reason.clone());
            end_session(SessionEndReason::Kick, NetworkAction::StopSession)
        },
        ServerMessage::AuthRejected { reason } => {
            show_auth_rejected_notice(menu, reason.clone());
            end_session(SessionEndReason::Disconnect, NetworkAction::ShutDownInBackground)
        },
        ServerMessage::VersionMismatch { server_version } => {
            show_version_mismatch_notice(menu, client_version, server_version.clone());
            end_session(SessionEndReason::Disconnect, NetworkAction::ShutDownInBackground)
        },
        ServerMessage::ItemMerged => act_and_apply(NetworkAction::PlayHoverSound),
        ServerMessage::Toast => act_and_apply(NetworkAction::ShowToast),
        ServerMessage::ResourceImpact { position, kind } => act_and_apply(NetworkAction::ShowImpact(remote_impact_event(*position, *kind))),
        ServerMessage::PlayerKilled { killer_name } => {
            raise_death_splash(menu, killer_name);
            apply_only()
        },
        ServerMessage::Correction { client_id, alive } => {
            let is_local: bool = match local {
                Some(id) => id == *client_id,
                None => false,
            };
            if is_local && *alive {
                fade_death_splash(menu);
            }
            apply_only()
        },
        ServerMessage::PlayerImpact {
            attacker,
            target,
            position,
            attacker_position,
            tool,
            damage_dealt,
        } => {
            let mut actions = player_impact_actions(
                local,
                *attacker,
                *target,
                *position,
                *attacker_position,
                *tool,
                *damage_dealt,
            );
            actions.push(NetworkAction::ApplyMessage);
            actions
        },
        ServerMessage::Voice => act_and_apply(NetworkAction::PlayVoice),
        ServerMessage::Pong { client_time_ms } => act_and_apply(NetworkAction::SetLocalPing(measure_round_trip(now_ms, *client_time_ms))),
        ServerMessage::Other => apply_only(),
    }
}

/// A probe of the round trip.
#[derive(Clone, Copy, Debug, PartialEq, Eq, Structural)]
pub struct PingProbe {
    pub client_time_ms: u32,
    pub rtt_ms: u16,
}

/// What a tick starts with.
#[derive(Clone, Copy, Debug, PartialEq, Eq)]
pub struct TickStart {
    /// Whether the clock, the probe and the session run at all.
    pub allowed: bool,
    pub probe: Option<PingProbe>,
}

/// Starts a network tick: outside the game nothing runs; in the game the time
/// since the last probe grows, and once it reaches the interval it starts over
/// and a connected client sends a probe with the last measured latency.
pub fn begin_tick(
    menu: &MenuState,
    since_probe: &mut u64,
    delta: u64,
    connected: bool,
    now_ms: u32,
    local_ping_ms: u16,
) -> (r: TickStart)
    requires
        *old(since_probe) + delta <= u64::MAX,
    ensures
        r.allowed == (menu.screen == Screen::InGame),
        *final(since_probe) == if !r.allowed {
            *old(since_probe) as int
        } else if *old(since_probe) + delta >= PING_INTERVAL {
            0
        } else {
            *old(since_probe) + delta
        },
        r.probe == if r.allowed && connected && *old(since_probe) + delta >= PING_INTERVAL {
            Some(PingProbe { client_time_ms: now_ms, rtt_ms: local_ping_ms })
        } else {
            None
        },
        r.probe matches Some(probe) ==> connected && probe.client_time_ms == now_ms
            && probe.rtt_ms == local_ping_ms && *final(since_probe) == 0,
        !r.allowed ==> r.probe is None && *final(since_probe) == *old(since_probe),
        r.allowed ==> *final(since_probe) < 1_000_000,
{
    if !network_tick_allowed(menu) {
        return TickStart { allowed: false, probe: None };
    }
    *since_probe = *since_probe + delta;
    let mut probe: Option<PingProbe> = None;
    if *since_probe >= PING_INTERVAL {
        *since_probe = 0;
        if connected {
            probe = Some(PingProbe { client_time_ms: now_ms, rtt_ms: local_ping_ms });
        }
    }
    TickStart { allowed: true, probe }
}

/// What ticking the session gave.
pub enum TickOutcome {
    NoSession,
    Failed { error: String },
    Messages(Vec<ServerMessage>),
}

/// The messages of an outcome.
pub open spec fn outcome_messages(outcome: TickOutcome) -> Seq<ServerMessage> {
    match outcome {
        TickOutcome::Messages(messages) => messages@,
        _ => Seq::empty(),
    }
}

/// The messages of a tick, and how many of them are handled.
pub struct TickRun {
    pub messages: Vec<ServerMessage>,
    pub next: usize,
}

/// What a tick does beyond the messages, and the messages still to handle.
pub struct TickReport {
    /// The text of an error, for the log and a toast.
    pub error: Option<String>,
    /// Whether the connection was silent.
    pub silent: bool,
    pub run: TickRun,
}

/// Finishes a network tick: a failed session is reported, a tick without messages
/// counts as silence, and the messages are lined up to be handled in order.
pub fn finish_tick(outcome: TickOutcome) -> (r: TickReport)
    ensures
        opt_text(r.error) == match outcome {
            TickOutcome::Failed { error } => Some("network error: "@ + error@),
            _ => None,
        },
        r.silent == (outcome_messages(outcome).len() == 0),
        r.run.messages@ == outcome_messages(outcome),
        r.run.next == 0,
{
    match outcome {
        TickOutcome::NoSession => TickReport {
            error: None,
            silent: true,
            run: TickRun { messages: Vec::new(), next: 0 },
        },
        TickOutcome::Failed { error } => TickReport {
            error: Some(concat2("network error: ", error.as_str())),
            silent: true,
            run: TickRun { messages: Vec::new(), next: 0 },
        },
        TickOutcome::Messages(messages) => TickReport {
            error: None,
            silent: messages.len() == 0,
            run: TickRun { messages, next: 0 },
        },
    }
}

/// One step through the messages: the next one is handled for the player that is
/// local by then, and behind the last one nothing happens.
pub open spec fn next_handled(
    old_run: TickRun,
    new_run: TickRun,
    old_menu: MenuState,
    new_menu: MenuState,
    actions: Option<Seq<NetworkAction>>,
    local: Option<u64>,
    now_ms: u32,
    client_version: Seq<char>,
) -> bool {
    if old_run.next < old_run.messages@.len() {
        let message = old_run.messages@[old_run.next as int];
        &&& actions == Some(message_actions(message, local, now_ms))
        &&& menu_after(old_menu, new_menu, message, local, client_version)
        &&& new_run.messages == old_run.messages
        &&& new_run.next == old_run.next + 1
    } else {
        actions is None && new_menu == old_menu && new_run == old_run
    }
}

/// Handles the next message of a tick, also behind one that ends the session.
/// Applying a message can make another player the local one, so who is local is
/// asked anew for each message.
pub fn handle_next(
    menu: &mut MenuState,
    run: &mut TickRun,
    local: Option<u64>,
    now_ms: u32,
    client_version: &str,
) -> (r: Option<Vec<NetworkAction>>)
    ensures
        next_handled(
            *old(run),
            *final(run),
            *old(menu),
            *final(menu),
            match r {
                Some(actions) => Some(actions@),
                None => None,
            },
            local,
            now_ms,
            client_version@,
        ),
{
    if run.next >= run.messages.len() {
        return None;
    }
    let actions = handle_message(menu, &run.messages[run.next], local, now_ms, client_version);
    run.next = run.next + 1;
    Some(actions)
}

/// Reports finished shutdowns: the status line tells the last failure, if any.
pub fn shutdown_status(menu: &mut MenuState, failures: &Vec<Option<String>>)
    ensures
        *final(menu) == (MenuState { status: final(menu).status, ..*old(menu) }),
        opt_text(final(menu).status) == match last_failure(failures@) {
            Some(error) => Some("save/shutdown error: "@ + error),
            None => opt_text(old(menu).status),
        },
{
    let mut told: Option<String> = None;
    let mut i: usize = 0;
    proof {
        assert(failures@.take(0) =~= Seq::<Option<String>>::empty());
    }
    while i < failures.len()
        invariant
            i <= failures.len(),
            opt_text(told) == match last_failure(failures@.take(i as int)) {
                Some(error) => Some("save/shutdown error: "@ + error),
                None => None,
            },
        decreases failures.len() - i,
    {
        proof {
            assert(failures@.take(i + 1).drop_last() =~= failures@.take(i as int));
            assert(failures@.take(i + 1).last() == failures@[i as int]);
        }
        if let Some(error) = &failures[i] {
            told = Some(concat2("save/shutdown error: ", error.as_str()));
        }
        i = i + 1;
    }
    proof {
        assert(failures@.take(i as int) =~= failures@);
    }
    if let Some(text) = told {
        menu.status = Some(text);
    }
}

/// The last failure of a list of results.
pub open spec fn last_failure(failures: Seq<Option<String>>) -> Option<Seq<char>>
    decreases failures.len(),
{
    if failures.len() == 0 {
        None
    } else {
        match failures.last() {
            Some(error) => Some(error@),
            None => last_failure(failures.drop_last()),
        }
    }
}

/// A message that ends the session always leads to the main menu with a notice,
/// whatever was open, and wipes the toasts.
pub proof fn ending_messages_lead_to_the_main_menu(
    old: MenuState,
    new: MenuState,
    message: ServerMessage,
    local: Option<u64>,
    now_ms: u32,
    client_version: Seq<char>,
)
    requires
        menu_after(old, new, message, local, client_version),
        message is Kicked || message is AuthRejected || message is VersionMismatch,
    ensures
        new.screen == Screen::MainMenu,
        new.notice is Some,
        !new.pause_open,
        !new.inventory_open,
        !new.chat_open,
        !new.chat_focus_pending,
        message_actions(message, local, now_ms).last() == NetworkAction::ClearToasts,
{
}

/// Every message reaches the client's own state exactly once.
pub proof fn every_message_is_applied_once(
    message: ServerMessage,
    local: Option<u64>,
    now_ms: u32,
)
    ensures
        message_actions(message, local, now_ms).filter(
            |a: NetworkAction| a == NetworkAction::ApplyMessage,
        ).len() == 1,
{
    reveal_with_fuel(Seq::filter, 6);
    let actions = message_actions(message, local, now_ms);
    let applied = |a: NetworkAction| a == NetworkAction::ApplyMessage;
    assert(actions.len() <= 5);
    if actions.len() == 1 {
        assert(actions.drop_last() =~= Seq::empty());
    } else if actions.len() == 2 {
        assert(actions.drop_last().drop_last() =~= Seq::empty());
    } else if actions.len() == 3 {
        assert(actions.drop_last().drop_last().drop_last() =~= Seq::empty());
    } else if actions.len() == 4 {
        assert(actions.drop_last().drop_last().drop_last().drop_last() =~= Seq::empty());
    } else {
        assert(actions.drop_last().drop_last().drop_last().drop_last().drop_last()
            =~= Seq::empty());
    }
}

/// Stepping through a tick handles every message once and in order, each for the
/// player that is local when its turn comes, and then does nothing more.
pub proof fn every_message_is_handled_in_turn(
    runs: Seq<TickRun>,
    menus: Seq<MenuState>,
    actions: Seq<Option<Seq<NetworkAction>>>,
    locals: Seq<Option<u64>>,
    now_ms: u32,
    client_version: Seq<char>,
    k: int,
)
    requires
        runs.len() == locals.len() + 1,
        menus.len() == locals.len() + 1,
        actions.len() == locals.len(),
        runs[0].next == 0,
        forall|i: int|
            #![trigger locals[i]]
            0 <= i < locals.len() ==> next_handled(
                runs[i],
                runs[i + 1],
                menus[i],
                menus[i + 1],
                actions[i],
                locals[i],
                now_ms,
                client_version,
            ),
        0 <= k < locals.len(),
    ensures
        ({
            let messages = runs[0].messages@;
            if k < messages.len() {
                &&& runs[k].next == k
                &&& actions[k] == Some(message_actions(messages[k], locals[k], now_ms))
                &&& menu_after(menus[k], menus[k + 1], messages[k], locals[k], client_version)
            } else {
                actions[k] is None && menus[k + 1] == menus[k]
            }
        }),
{
    turns_are_counted(runs, menus, actions, locals, now_ms, client_version, k);
    assert(locals[k] == locals[k]);
}

proof fn turns_are_counted(
    runs: Seq<TickRun>,
    menus: Seq<MenuState>,
    actions: Seq<Option<Seq<NetworkAction>>>,
    locals: Seq<Option<u64>>,
    now_ms: u32,
    client_version: Seq<char>,
    k: int,
)
    requires
        runs.len() == locals.len() + 1,
        menus.len() == locals.len() + 1,
        actions.len() == locals.len(),
        runs[0].next == 0,
        forall|i: int|
            #![trigger locals[i]]
            0 <= i < locals.len() ==> next_handled(
                runs[i],
                runs[i + 1],
                menus[i],
                menus[i + 1],
                actions[i],
                locals[i],
                now_ms,
                client_version,
            ),
        0 <= k <= locals.len(),
    ensures
        runs[k].messages == runs[0].messages,
        runs[k].next == if k <= runs[0].messages@.len() {
            k
        } else {
            runs[0].messages@.len() as int
        },
    decreases k,
{
    if k > 0 {
        turns_are_counted(runs, menus, actions, locals, now_ms, client_version, k - 1);
        assert(locals[k - 1] == locals[k - 1]);
    }
}

/// Only the target of a hit has its camera kicked.
pub proof fn only_the_target_is_kicked(
    local: Option<u64>,
    attacker: u64,
    target: u64,
    position: WirePosition,
    attacker_position: WirePosition,
    tool: ToolKind,
    damage: u32,
)
    ensures
        impact_actions(
            local,
            attacker,
            target,
            position,
            attacker_position,
            tool,
            damage,
        ).contains(NetworkAction::KickCamera(tool)) <==> local == Some(target),
{
    let actions = impact_actions(
        local,
        attacker,
        target,
        position,
        attacker_position,
        tool,
        damage,
    );
    if local == Some(target) {
        assert(actions[1] == NetworkAction::KickCamera(tool));
    }
}

/// The target of a hit, and nobody else, is pointed at the attacker: at the place that
/// the message gives for the attacker.
pub proof fn target_is_pointed_at_the_attacker(
    message: ServerMessage,
    local: Option<u64>,
    now_ms: u32,
    p: WirePosition,
)
    ensures
        message_actions(message, local, now_ms).contains(NetworkAction::PointAtAttacker(p)) <==> (
        message matches ServerMessage::PlayerImpact { target, attacker_position, .. } && local
            == Some(target) && p == attacker_position),
{
    let actions = message_actions(message, local, now_ms);
    if let ServerMessage::PlayerImpact { target, attacker_position, .. } = message {
        if local == Some(target) {
            assert(actions[2] == NetworkAction::PointAtAttacker(attacker_position));
        }
    }
}

/// A hit is told as a number where it happened and as large as it was: as taken to its
/// target, as dealt to whoever looks on, and to its attacker not at all.
pub proof fn hits_are_told_by_the_onlooker(
    message: ServerMessage,
    local: Option<u64>,
    now_ms: u32,
    anchor: WirePosition,
    value: u32,
    role: FloatingDamageRole,
)
    ensures
        message_actions(message, local, now_ms).contains(
            NetworkAction::ShowDamage { anchor, value, role },
        ) <==> (message matches ServerMessage::PlayerImpact {
            attacker,
            target,
            position,
            damage_dealt,
            ..
        } && anchor == position && value == damage_dealt && (if local == Some(target) {
            role == FloatingDamageRole::Taken
        } else {
            local != Some(attacker) && role == FloatingDamageRole::Dealt
        })),
{
    let actions = message_actions(message, local, now_ms);
    if let ServerMessage::PlayerImpact { attacker, target, position, damage_dealt, .. } = message {
        if local == Some(target) {
            assert(actions[3] == (NetworkAction::ShowDamage {
                anchor: position,
                value: damage_dealt,
                role: FloatingDamageRole::Taken,
            }));
        } else if local != Some(attacker) {
            assert(actions[1] == (NetworkAction::ShowDamage {
                anchor: position,
                value: damage_dealt,
                role: FloatingDamageRole::Dealt,
            }));
        }
    }
}

/// Every impact is shown where it happened: on a player as a hit of flesh with the tool
/// that struck, on a resource as one of its kind.
pub proof fn impacts_are_shown_where_they_happen(
    message: ServerMessage,
    local: Option<u64>,
    now_ms: u32,
    shown: RemoteImpactEvent,
)
    ensures
        message_actions(message, local, now_ms).contains(NetworkAction::ShowImpact(shown)) ==> {
            &&& message matches ServerMessage::PlayerImpact { position, tool, .. } ==> {
                &&& shown.anchor == position
                &&& shown.tool == tool
                &&& shown.effect == ImpactEffect::FleshHit
                &&& shown.is_player_hit
            }
            &&& message matches ServerMessage::ResourceImpact { position, kind } ==> {
                &&& shown.anchor == position
                &&& shown.effect == ImpactEffect::Resource(kind)
                &&& shown.tool == impact_pair(kind).0
                &&& shown.surface == impact_pair(kind).1
                &&& !shown.is_player_hit
            }
            &&& message is PlayerImpact || message is ResourceImpact
            &&& shown.seed == seed_of(shown.anchor) as u32
        },
        message is PlayerImpact || message is ResourceImpact ==> message_actions(
            message,
            local,
            now_ms,
        )[0] is ShowImpact,
{
}

/// Trees are struck with the axe, ores and veins with the pickaxe, and what lies about
/// is taken by hand; each sounds like what it is made of.
pub proof fn each_resource_has_its_tool(kind: ResourceImpactKind)
    ensures
        impact_pair(kind).0 == ToolKind::Axe <==> kind == ResourceImpactKind::Tree,
        impact_pair(kind).0 == ToolKind::Hands <==> kind == ResourceImpactKind::Branches || kind
            == ResourceImpactKind::SurfaceStone || kind == ResourceImpactKind::HayGrass,
        impact_pair(kind).0 == ToolKind::Pickaxe <==> kind == ResourceImpactKind::CoalOre || kind
            == ResourceImpactKind::IronOre || kind == ResourceImpactKind::SulfurOre || kind
            == ResourceImpactKind::StoneVein,
        impact_pair(kind).1 == SurfaceMaterial::Wood <==> kind == ResourceImpactKind::Tree || kind
            == ResourceImpactKind::Branches,
        impact_pair(kind).1 == SurfaceMaterial::Stone <==> kind == ResourceImpactKind::StoneVein
            || kind == ResourceImpactKind::SurfaceStone,
        impact_pair(kind).1 == SurfaceMaterial::Coal <==> kind == ResourceImpactKind::CoalOre,
        impact_pair(kind).1 == SurfaceMaterial::Iron <==> kind == ResourceImpactKind::IronOre,
        impact_pair(kind).1 == SurfaceMaterial::Sulfur <==> kind == ResourceImpactKind::SulfurOre,
        impact_pair(kind).1 == SurfaceMaterial::Dirt <==> kind == ResourceImpactKind::HayGrass,
{
}

/// Only the target has its camera kicked, by the tool that struck.
pub proof fn camera_is_kicked_by_the_tool(
    message: ServerMessage,
    local: Option<u64>,
    now_ms: u32,
    kick: ToolKind,
)
    ensures
        message_actions(message, local, now_ms).contains(NetworkAction::KickCamera(kick)) <==> (
        message matches ServerMessage::PlayerImpact { target, tool, .. } && local == Some(target)
            && kick == tool),
{
    let actions = message_actions(message, local, now_ms);
    if let ServerMessage::PlayerImpact { target, tool, .. } = message {
        if local == Some(target) {
            assert(actions[1] == NetworkAction::KickCamera(tool));
        }
    }
}

/// What else a message sets off, message by message.
pub proof fn messages_set_off_their_own_actions(
    message: ServerMessage,
    local: Option<u64>,
    now_ms: u32,
)
    ensures
        ({
            let actions = message_actions(message, local, now_ms);
            let refused = message is AuthRejected || message is VersionMismatch;
            &&& actions.contains(NetworkAction::StopSession) <==> message is Kicked
            &&& actions.contains(NetworkAction::ShutDownInBackground) <==> refused
            &&& actions.contains(NetworkAction::ClearToasts) <==> message is Kicked || refused
            &&& actions.contains(NetworkAction::RecordSessionEnd(SessionEndReason::Kick))
                <==> message is Kicked
            &&& actions.contains(NetworkAction::RecordSessionEnd(SessionEndReason::Disconnect))
                <==> refused
            &&& !actions.contains(NetworkAction::RecordSessionEnd(SessionEndReason::UserQuit))
            &&& actions.contains(NetworkAction::PlayHoverSound) <==> message is ItemMerged
            &&& actions.contains(NetworkAction::ShowToast) <==> message is Toast
            &&& actions.contains(NetworkAction::PlayVoice) <==> message is Voice
            &&& message is Kicked || refused ==> actions[0] is RecordSessionEnd && actions[1]
                == NetworkAction::ApplyMessage
            &&& !(message is Kicked) && !refused ==> actions.last() == NetworkAction::ApplyMessage
        }),
{
    let actions = message_actions(message, local, now_ms);
    match message {
        ServerMessage::Kicked { .. } => {
            assert(actions[2] == NetworkAction::StopSession);
            assert(actions[3] == NetworkAction::ClearToasts);
            assert(actions[0] == NetworkAction::RecordSessionEnd(SessionEndReason::Kick));
        },
        ServerMessage::AuthRejected { .. } => {
            assert(actions[2] == NetworkAction::ShutDownInBackground);
            assert(actions[3] == NetworkAction::ClearToasts);
            assert(actions[0] == NetworkAction::RecordSessionEnd(SessionEndReason::Disconnect));
        },
        ServerMessage::VersionMismatch { .. } => {
            assert(actions[2] == NetworkAction::ShutDownInBackground);
            assert(actions[3] == NetworkAction::ClearToasts);
            assert(actions[0] == NetworkAction::RecordSessionEnd(SessionEndReason::Disconnect));
        },
        ServerMessage::ItemMerged => {
            assert(actions[0] == NetworkAction::PlayHoverSound);
        },
        ServerMessage::Toast => {
            assert(actions[0] == NetworkAction::ShowToast);
        },
        ServerMessage::Voice => {
            assert(actions[0] == NetworkAction::PlayVoice);
        },
        _ => {},
    }
}

/// A reply to a probe sets the ping to the time that has passed since, which grows with
/// the clock; a clock that ran backwards counts as no time, and a longer time than 16
/// bits can hold as the longest that they can.
pub proof fn ping_is_the_time_that_passed(sent_ms: u32, now_ms: u32, ping: u16)
    ensures
        message_actions(ServerMessage::Pong { client_time_ms: sent_ms }, None, now_ms).contains(
            NetworkAction::SetLocalPing(ping),
        ) <==> {
            ||| sent_ms <= now_ms <= sent_ms + 65535 && ping == now_ms - sent_ms
            ||| now_ms < sent_ms && ping == 0
            ||| now_ms > sent_ms + 65535 && ping == 65535
        },
{
    let actions = message_actions(ServerMessage::Pong { client_time_ms: sent_ms }, None, now_ms);
    assert(actions[0] == NetworkAction::SetLocalPing(round_trip(now_ms, sent_ms) as u16));
}

/// What each message leaves of the menu: a kick or a refusal tells its reason and shuts
/// the panels, a refusal also takes down the splash and the connect dialog, a death
/// shuts the panels and puts up its own screen, and everything else stays.
pub proof fn messages_leave_the_rest_of_the_menu(
    old: MenuState,
    new: MenuState,
    message: ServerMessage,
    local: Option<u64>,
    client_version: Seq<char>,
)
    requires
        menu_after(old, new, message, local, client_version),
    ensures
        ({
            let refused = message is AuthRejected || message is VersionMismatch;
            let ends = message is Kicked || refused;
            &&& message matches ServerMessage::Kicked { reason } ==> new.notice->0.notice()
                == (Notice::Disconnected { reason: reason@ })
            &&& message matches ServerMessage::AuthRejected { reason } ==> new.notice->0.notice()
                == (Notice::AuthRejected { reason: reason@ })
            &&& message matches ServerMessage::VersionMismatch { server_version }
                ==> new.notice->0.notice() == (Notice::VersionMismatch {
                client_version,
                server_version: server_version@,
            })
            &&& refused ==> !new.loading_splash && !new.direct_connect
            &&& !refused ==> new.loading_splash == old.loading_splash && new.direct_connect
                == old.direct_connect
            &&& ends ==> !new.pause_options_open && new.death_splash == old.death_splash
                && new.crafting_open == old.crafting_open && new.furnace_open == old.furnace_open
            &&& !ends ==> new.screen == old.screen && new.notice == old.notice
                && new.pause_options_open == old.pause_options_open && new.chat_focus_pending
                == old.chat_focus_pending
            &&& message matches ServerMessage::PlayerKilled { killer_name } ==> {
                &&& !new.pause_open && !new.inventory_open && !new.crafting_open
                &&& !new.furnace_open && !new.chat_open
                &&& new.death_splash is Some
                &&& opt_text(new.death_splash->0.killer_name) == opt_text(killer_name)
                &&& new.death_splash->0.elapsed == 0
                &&& new.death_splash->0.closing_elapsed is None
            }
            &&& !ends && !(message is PlayerKilled) ==> new.pause_open == old.pause_open
                && new.inventory_open == old.inventory_open && new.crafting_open
                == old.crafting_open && new.furnace_open == old.furnace_open && new.chat_open
                == old.chat_open
            &&& !(message is PlayerKilled) && !(message is Correction) ==> new.death_splash
                == old.death_splash
            &&& message matches ServerMessage::Correction { client_id, alive } ==> {
                &&& old.death_splash is Some <==> new.death_splash is Some
                &&& local != Some(client_id) || !alive ==> new == old
                &&& local == Some(client_id) && alive && old.death_splash is Some
                    ==> new.death_splash->0.closing_elapsed is Some
            }
            &&& new.status == old.status
        }),
{
}

/// The failure that is told is one of the list, and no other comes behind it.
pub proof fn last_failure_is_the_last(failures: Seq<Option<String>>, k: int)
    requires
        0 <= k < failures.len(),
        failures[k] is Some,
        forall|i: int| k < i < failures.len() ==> (#[trigger] failures[i]) is None,
    ensures
        last_failure(failures) == Some(failures[k]->0@),
    decreases failures.len(),
{
    if k < failures.len() - 1 {
        let rest = failures.drop_last();
        assert(failures[failures.len() - 1] is None);
        assert(rest[k] == failures[k]);
        assert forall|i: int| k < i < rest.len() implies (#[trigger] rest[i]) is None by {
            assert(rest[i] == failures[i]);
        }
        last_failure_is_the_last(rest, k);
    }
}

/// Where nothing failed no failure is told.
pub proof fn no_failure_is_told_where_none_is(failures: Seq<Option<String>>)
    requires
        forall|i: int| 0 <= i < failures.len() ==> (#[trigger] failures[i]) is None,
    ensures
        last_failure(failures) is None,
    decreases failures.len(),
{
    if failures.len() > 0 {
        let rest = failures.drop_last();
        assert(failures[failures.len() - 1] is None);
        assert forall|i: int| 0 <= i < rest.len() implies (#[trigger] rest[i]) is None by {
            assert(rest[i] == failures[i]);
        }
        no_failure_is_told_where_none_is(rest);
    }
}

/// The seed of an effect hangs on each coordinate: moving along one axis by so much
/// turns the seed by that much of the axis's weight.
pub proof fn seed_hangs_on_every_coordinate(p: WirePosition, q: WirePosition)
    ensures
        (seed_of(p) - seed_of(q) - 0x9E3779B1 * (p.x - q.x) - 0x85EBCA77 * (p.y - q.y) - 0xC2B2AE3D
            * (p.z - q.z)) % (WORD as int) == 0,
        0 <= seed_of(p) < WORD,
{
    let w = WORD as int;
    let a = p.x * 0x9E3779B1 + p.y * 0x85EBCA77 + p.z * 0xC2B2AE3D;
    let b = q.x * 0x9E3779B1 + q.y * 0x85EBCA77 + q.z * 0xC2B2AE3D;
    let d = seed_of(p) - seed_of(q) - (a - b);
    vstd::arithmetic::div_mod::lemma_fundamental_div_mod(a, w);
    vstd::arithmetic::div_mod::lemma_fundamental_div_mod(b, w);
    assert(d == w * (b / w - a / w)) by (nonlinear_arith)
        requires
            d == seed_of(p) - seed_of(q) - (a - b),
            a == w * (a / w) + seed_of(p),
            b == w * (b / w) + seed_of(q),
    ;
    vstd::arithmetic::div_mod::lemma_mod_multiples_basic(b / w - a / w, w);
    assert(w * (b / w - a / w) == (b / w - a / w) * w) by (nonlinear_arith);
}

} // verus!
