//! What a frame of the interface draws: the sign-in gate, the screen that is up,
//! what lies over it, and whether a joined world can be shown.
use vstd::prelude::*;
use crate::menu::Screen;

verus! {

/// The layers over every screen, from the bottom up.
#[derive(Clone, Copy, Debug, PartialEq, Eq, Structural)]
pub enum GlobalLayer {
    UpdatePill,
    UpdateModal,
    CurrentChangelog,
    Confirmation,
    Notice,
    LoadingSplash,
}

/// Where the sign-in stands.
#[derive(Clone, Copy, Debug, PartialEq, Eq, Structural)]
pub enum SignInGate {
    Authenticated,
    /// Signing in, or waiting for it.
    InFlight,
    LoggedOut,
}

/// What a frame begins with.
#[derive(Clone, Copy, Debug, PartialEq, Eq, Structural)]
pub enum FrameStart {
    /// Not signed in: nothing but the login is drawn.
    Login,
    /// Not signed in, and nothing to sign in with.
    Blank,
    /// The screen that is up.
    Show(Screen),
}

/// The menu backdrop is revealed once the sign-in has settled.
pub fn reveal_allowed(gate: SignInGate) -> (r: bool)
    ensures
        r == (gate != SignInGate::InFlight),
{
    match gate {
        SignInGate::InFlight => false,
        _ => true,
    }
}

/// What a frame begins with.
pub open spec fn start_of(gate: SignInGate, login_available: bool, screen: Screen) -> FrameStart {
    if gate == SignInGate::Authenticated {
        FrameStart::Show(screen)
    } else if login_available {
        FrameStart::Login
    } else {
        FrameStart::Blank
    }
}

/// Decides what a frame begins with.
pub fn frame_start(gate: SignInGate, login_available: bool, screen: Screen) -> (r: FrameStart)
    ensures
        r == start_of(gate, login_available, screen),
{
    match gate {
        SignInGate::Authenticated => FrameStart::Show(screen),
        _ => if login_available {
            FrameStart::Login
        } else {
            FrameStart::Blank
        },
    }
}

/// The layers over a screen, from the bottom up.
pub open spec fn layers_over(screen: Screen) -> Seq<GlobalLayer> {
    (if screen == Screen::InGame {
        Seq::empty()
    } else {
        seq![GlobalLayer::UpdatePill]
    }) + seq![
        GlobalLayer::UpdateModal,
        GlobalLayer::CurrentChangelog,
        GlobalLayer::Confirmation,
        GlobalLayer::Notice,
        GlobalLayer::LoadingSplash,
    ]
}

/// Lists the layers over the screen that is up once its own part was drawn. The
/// update pill rides every screen but the game.
pub fn global_layers(screen: Screen) -> (r: Vec<GlobalLayer>)
    ensures
        r@ == layers_over(screen),
{
    let mut layers: Vec<GlobalLayer> = Vec::new();
    match screen {
        Screen::InGame => {},
        _ => {
            layers.push(GlobalLayer::UpdatePill);
        },
    }
    layers.push(GlobalLayer::UpdateModal);
    layers.push(GlobalLayer::CurrentChangelog);
    layers.push(GlobalLayer::Confirmation);
    layers.push(GlobalLayer::Notice);
    layers.push(GlobalLayer::LoadingSplash);
    proof {
        assert(layers@ =~= layers_over(screen));
    }
    layers
}

/// What is known of a world that is being joined.
#[derive(Clone, Copy, Debug, PartialEq, Eq)]
pub struct WorldEntry {
    /// Whether the server gave this client an id.
    pub has_client_id: bool,
    pub has_world: bool,
    pub has_local_player: bool,
    /// The version of the world that the scene shows.
    pub scene_version: Option<u64>,
    pub world_version: u64,
    pub nodes_caught_up: bool,
    pub deployables_caught_up: bool,
    pub dropped_items_caught_up: bool,
    pub grass_off: bool,
    pub grass_caught_up: bool,
    /// Whether the first stream of entities went quiet; unknown without a clock.
    pub stream_settled: Option<bool>,
}

impl WorldEntry {
    /// Every queue of the first fill is drained; grass that is switched off never
    /// fills one.
    pub open spec fn drained(self) -> bool {
        &&& self.nodes_caught_up
        &&& self.deployables_caught_up
        &&& self.dropped_items_caught_up
        &&& (self.grass_off || self.grass_caught_up)
    }

    /// The first stream went quiet, as far as a clock can tell.
    pub open spec fn settled(self) -> bool {
        self.stream_settled != Some(false)
    }

    /// The world can be shown and played.
    pub open spec fn ready(self) -> bool {
        &&& self.has_client_id
        &&& self.has_world
        &&& self.has_local_player
        &&& self.scene_version == Some(self.world_version)
        &&& self.drained()
        &&& self.settled()
    }
}

/// Whether every queue of the first fill is drained.
pub fn entity_spawn_queues_drained(entry: &WorldEntry) -> (r: bool)
    ensures
        r == entry.drained(),
{
    let grass_ready: bool = entry.grass_off || entry.grass_caught_up;
    entry.nodes_caught_up && entry.deployables_caught_up && entry.dropped_items_caught_up
        && grass_ready
}

/// Whether the first stream of entities went quiet.
pub fn initial_stream_settled(entry: &WorldEntry) -> (r: bool)
    ensures
        r == entry.settled(),
{
    match entry.stream_settled {
        Some(settled) => settled,
        None => true,
    }
}

/// Whether the joined world can be shown and played.
pub fn world_ready_for_play(entry: &WorldEntry) -> (r: bool)
    ensures
        r == entry.ready(),
{
    let scene_applied: bool = match entry.scene_version {
        Some(version) => version == entry.world_version,
        None => false,
    };
    entry.has_client_id && entry.has_world && entry.has_local_player && scene_applied
        && entity_spawn_queues_drained(entry) && initial_stream_settled(entry)
}

/// The entities that still wait to be spawned, as the loading splash counts them.
pub fn entity_spawn_backlog(nodes: usize, deployables: usize) -> (r: usize)
    requires
        nodes + deployables <= usize::MAX,
    ensures
        r == nodes + deployables,
{
    nodes + deployables
}

/// What the loading splash covers.
#[derive(Clone, Copy, Debug, PartialEq, Eq, Structural)]
pub enum LoadingSplashKind {
    Authenticating,
    JoiningServer,
    EnteringWorld,
}

/// Whether a splash waits for a world that is not ready.
pub open spec fn waits_for_world(splash: LoadingSplashKind, ready: bool) -> bool {
    splash != LoadingSplashKind::Authenticating && !ready
}

/// Decides whether to log what a waiting splash still waits for: about once per
/// second while it waits. Times are in microseconds.
pub fn splash_log_due(
    waited: &mut u64,
    delta: u64,
    splash: Option<LoadingSplashKind>,
    world_ready: bool,
) -> (r: bool)
    requires
        *old(waited) + delta <= u64::MAX,
    ensures
        match splash {
            None => !r && *final(waited) == *old(waited),
            Some(kind) => if waits_for_world(kind, world_ready) {
                &&& r == (*old(waited) + delta >= 1_000_000)
                &&& *final(waited) == if r {
                    0
                } else {
                    *old(waited) + delta
                }
            } else {
                !r && *final(waited) == 0
            },
        },
{
    let kind = match splash {
        Some(kind) => kind,
        None => {
            return false;
        },
    };
    let world_entry: bool = match kind {
        LoadingSplashKind::JoiningServer | LoadingSplashKind::EnteringWorld => true,
        LoadingSplashKind::Authenticating => false,
    };
    if world_entry && !world_ready {
        *waited = *waited + delta;
        if *waited >= 1_000_000 {
            *waited = 0;
            return true;
        }
    } else {
        *waited = 0;
    }
    false
}

/// The zoom for a chosen scale, in thousandths: a number within bounds, and one to
/// one where the setting is no number.
pub fn ui_zoom_factor(scale: Option<i64>, least: i64, most: i64) -> (r: i64)
    requires
        least <= most,
    ensures
        r == match scale {
            Some(value) => if value < least {
                least
            } else if value > most {
                most
            } else {
                value
            },
            None => 1000i64,
        },
{
    match scale {
        Some(value) => if value < least {
            least
        } else if value > most {
            most
        } else {
            value
        },
        None => 1000,
    }
}

/// The zoom to set; none where it is set already.
pub fn zoom_change(current: i64, target: i64) -> (r: Option<i64>)
    ensures
        r == if current != target {
            Some(target)
        } else {
            None
        },
{
    if current != target {
        Some(target)
    } else {
        None
    }
}

/// Nobody sees a screen before signing in, and the loading splash lies over
/// everything else.
pub proof fn sign_in_gates_every_screen(gate: SignInGate, login_available: bool, screen: Screen)
    ensures
        start_of(gate, login_available, screen) is Show ==> gate == SignInGate::Authenticated,
        layers_over(screen).last() == GlobalLayer::LoadingSplash,
{
}

/// A world is never shown while a queue of its first fill still runs.
pub proof fn ready_world_is_complete(entry: WorldEntry)
    requires
        entry.ready(),
    ensures
        entry.drained(),
        entry.scene_version == Some(entry.world_version),
        entry.stream_settled != Some(false),
{
}

/// Signed in, the screen that is up is shown; otherwise the login where there is one,
/// and nothing where there is none.
pub proof fn signed_in_players_see_their_screen(
    gate: SignInGate,
    login_available: bool,
    screen: Screen,
)
    ensures
        gate == SignInGate::Authenticated ==> start_of(gate, login_available, screen)
            == FrameStart::Show(screen),
        gate != SignInGate::Authenticated && login_available ==> start_of(
            gate,
            login_available,
            screen,
        ) == FrameStart::Login,
        gate != SignInGate::Authenticated && !login_available ==> start_of(
            gate,
            login_available,
            screen,
        ) == FrameStart::Blank,
{
}

/// The update pill rides every screen but the game and lies under everything else; the
/// other layers are the same over every screen.
pub proof fn pill_rides_every_screen_but_the_game(screen: Screen, other: Screen)
    ensures
        layers_over(screen).contains(GlobalLayer::UpdatePill) <==> screen != Screen::InGame,
        screen != Screen::InGame ==> layers_over(screen)[0] == GlobalLayer::UpdatePill,
        screen != Screen::InGame ==> layers_over(screen).skip(1) == layers_over(Screen::InGame),
        layers_over(screen).contains(GlobalLayer::UpdateModal),
        layers_over(screen).contains(GlobalLayer::CurrentChangelog),
        layers_over(screen).contains(GlobalLayer::Confirmation),
        layers_over(screen).contains(GlobalLayer::Notice),
        layers_over(Screen::InGame).len() == 5,
{
    let layers = layers_over(screen);
    let first: int = if screen == Screen::InGame {
        0
    } else {
        1
    };
    if screen != Screen::InGame {
        assert(layers[0] == GlobalLayer::UpdatePill);
        assert(layers.skip(1) =~= layers_over(Screen::InGame));
    }
    assert(layers[first] == GlobalLayer::UpdateModal);
    assert(layers[first + 1] == GlobalLayer::CurrentChangelog);
    assert(layers[first + 2] == GlobalLayer::Confirmation);
    assert(layers[first + 3] == GlobalLayer::Notice);
}

/// A world is ready as soon as nothing it waits for is missing: the client's id, the
/// world, the player, the scene of this very version, every queue, and the quiet of the
/// stream; grass that is off and a stream without a clock are not waited for.
pub proof fn world_is_ready_once_nothing_is_missing(entry: WorldEntry)
    ensures
        entry.ready() <==> {
            &&& entry.has_client_id
            &&& entry.has_world
            &&& entry.has_local_player
            &&& entry.scene_version is Some && entry.scene_version->0 == entry.world_version
            &&& entry.nodes_caught_up
            &&& entry.deployables_caught_up
            &&& entry.dropped_items_caught_up
            &&& entry.grass_off || entry.grass_caught_up
            &&& entry.stream_settled is None || entry.stream_settled->0
        },
{
}

/// A splash over the sign-in never waits for a world, and the others do until it is
/// ready.
pub proof fn splashes_wait_for_the_world(ready: bool)
    ensures
        !waits_for_world(LoadingSplashKind::Authenticating, ready),
        waits_for_world(LoadingSplashKind::JoiningServer, ready) == !ready,
        waits_for_world(LoadingSplashKind::EnteringWorld, ready) == !ready,
{
}

} // verus!
