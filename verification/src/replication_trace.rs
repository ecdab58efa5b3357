//! The replication trace: one log line for every replicated component that
//! arrives or really changes, with what it was before.
use std::collections::HashMap;
use vstd::prelude::*;
use crate::items::{ItemStack, occupied, occupied_slots};
use crate::text::{bool_text, bool_word, concat2, decimal, digits, texts};

verus! {

broadcast use vstd::std_specs::hash::group_hash_axioms;

/// Whether a replicated component is new to the client, was touched since the
/// last frame, or neither.
#[derive(Clone, Copy, Debug, PartialEq, Eq, Structural)]
pub enum Change {
    Added,
    Changed,
    Same,
}

/// The traced components.
#[derive(Clone, Copy, Debug, PartialEq, Eq, Structural)]
pub enum Component {
    NodeStorage,
    DeployableHealth,
    DeployableActive,
    DeployableLabel,
    DeployableStability,
    DeployableAuth,
    PlayerPose,
    PlayerHealth,
    PlayerInventory,
    PlayerInputAck,
    PlayerArmor,
    PlayerLifecycle,
    PlayerSleeping,
    PlayerHeldItem,
    PlayerAction,
    LootBagContents,
    LootBagTransform,
    DroppedTransform,
    DroppedStack,
}

/// A component value as it is compared and printed.
pub enum TraceValue {
    Number(u64),
    Flag(bool),
    Text(String),
}

/// What a traced value holds.
pub enum Traced {
    Number(nat),
    Flag(bool),
    Text(Seq<char>),
}

impl TraceValue {
    pub open spec fn traced(self) -> Traced {
        match self {
            TraceValue::Number(n) => Traced::Number(n as nat),
            TraceValue::Flag(b) => Traced::Flag(b),
            TraceValue::Text(t) => Traced::Text(t@),
        }
    }

    fn same(&self, other: &TraceValue) -> (r: bool)
        ensures
            r == (self.traced() == other.traced()),
    {
        match self {
            TraceValue::Number(a) => match other {
                TraceValue::Number(b) => *a == *b,
                _ => false,
            },
            TraceValue::Flag(a) => match other {
                TraceValue::Flag(b) => *a == *b,
                _ => false,
            },
            TraceValue::Text(a) => match other {
                TraceValue::Text(b) => *a == *b,
                _ => false,
            },
        }
    }

    fn copy(&self) -> (r: TraceValue)
        ensures
            r == *self,
    {
        match self {
            TraceValue::Number(n) => TraceValue::Number(*n),
            TraceValue::Flag(b) => TraceValue::Flag(*b),
            TraceValue::Text(t) => TraceValue::Text(t.clone()),
        }
    }

    fn print(&self) -> (r: String)
        ensures
            r@ == printed(self.traced()),
    {
        match self {
            TraceValue::Number(n) => decimal(*n),
            TraceValue::Flag(b) => bool_word(*b),
            TraceValue::Text(t) => t.clone(),
        }
    }
}

/// How a value reads in the log.
pub open spec fn printed(value: Traced) -> Seq<char> {
    match value {
        Traced::Number(n) => digits(n),
        Traced::Flag(b) => bool_text(b),
        Traced::Text(t) => t,
    }
}

/// The start of a line for a component that is new to the client.
pub open spec fn spawn_head(component: Component) -> Seq<char> {
    match component {
        Component::NodeStorage => "client: ResourceNodeStorage SPAWN  id="@,
        Component::DeployableHealth => "client: DeployableHealth   SPAWN  id="@,
        Component::DeployableActive => "client: DeployableActive   SPAWN  id="@,
        Component::DeployableLabel => "client: DeployableLabel    SPAWN  id="@,
        Component::DeployableStability => "client: DeployableStability SPAWN  id="@,
        Component::DeployableAuth => "client: DeployableAuth      SPAWN  id="@,
        Component::PlayerPose => "client: PlayerPose         SPAWN  client="@,
        Component::PlayerHealth => "client: PlayerHealth       SPAWN  client="@,
        Component::PlayerInventory => "client: PlayerInventory    SPAWN  client="@,
        Component::PlayerInputAck => "client: PlayerInputAck     SPAWN  client="@,
        Component::PlayerArmor => "client: PlayerArmor        SPAWN  client="@,
        Component::PlayerLifecycle => "client: PlayerLifecycle    SPAWN  client="@,
        Component::PlayerSleeping => "client: PlayerSleeping     SPAWN  client="@,
        Component::PlayerHeldItem => "client: PlayerHeldItem     SPAWN  client="@,
        Component::PlayerAction => "client: PlayerAction       SPAWN  client="@,
        Component::LootBagContents => "client: LootBagContents    SPAWN  id="@,
        Component::LootBagTransform => "client: LootBagTransform     SPAWN  id="@,
        Component::DroppedTransform => "client: DroppedItemTransform SPAWN id="@,
        Component::DroppedStack => ""@,
    }
}

fn spawn_head_text(component: Component) -> (r: String)
    ensures
        r@ == spawn_head(component),
{
    match component {
        Component::NodeStorage => "client: ResourceNodeStorage SPAWN  id=".to_owned(),
        Component::DeployableHealth => "client: DeployableHealth   SPAWN  id=".to_owned(),
        Component::DeployableActive => "client: DeployableActive   SPAWN  id=".to_owned(),
        Component::DeployableLabel => "client: DeployableLabel    SPAWN  id=".to_owned(),
        Component::DeployableStability => "client: DeployableStability SPAWN  id=".to_owned(),
        Component::DeployableAuth => "client: DeployableAuth      SPAWN  id=".to_owned(),
        Component::PlayerPose => "client: PlayerPose         SPAWN  client=".to_owned(),
        Component::PlayerHealth => "client: PlayerHealth       SPAWN  client=".to_owned(),
        Component::PlayerInventory => "client: PlayerInventory    SPAWN  client=".to_owned(),
        Component::PlayerInputAck => "client: PlayerInputAck     SPAWN  client=".to_owned(),
        Component::PlayerArmor => "client: PlayerArmor        SPAWN  client=".to_owned(),
        Component::PlayerLifecycle => "client: PlayerLifecycle    SPAWN  client=".to_owned(),
        Component::PlayerSleeping => "client: PlayerSleeping     SPAWN  client=".to_owned(),
        Component::PlayerHeldItem => "client: PlayerHeldItem     SPAWN  client=".to_owned(),
        Component::PlayerAction => "client: PlayerAction       SPAWN  client=".to_owned(),
        Component::LootBagContents => "client: LootBagContents    SPAWN  id=".to_owned(),
        Component::LootBagTransform => "client: LootBagTransform     SPAWN  id=".to_owned(),
        Component::DroppedTransform => "client: DroppedItemTransform SPAWN id=".to_owned(),
        Component::DroppedStack => "".to_owned(),
    }
}

/// The start of a line for a component that was touched.
pub open spec fn recv_head(component: Component) -> Seq<char> {
    match component {
        Component::NodeStorage => "client: ResourceNodeStorage RECV   id="@,
        Component::DeployableHealth => "client: DeployableHealth   RECV   id="@,
        Component::DeployableActive => "client: DeployableActive   RECV   id="@,
        Component::DeployableLabel => "client: DeployableLabel    RECV   id="@,
        Component::DeployableStability => "client: DeployableStability RECV   id="@,
        Component::DeployableAuth => "client: DeployableAuth      RECV   id="@,
        Component::PlayerPose => "client: PlayerPose         RECV   client="@,
        Component::PlayerHealth => "client: PlayerHealth       RECV   client="@,
        Component::PlayerInventory => "client: PlayerInventory    RECV   client="@,
        Component::PlayerInputAck => "client: PlayerInputAck     RECV   client="@,
        Component::PlayerArmor => "client: PlayerArmor        RECV   client="@,
        Component::PlayerLifecycle => "client: PlayerLifecycle    RECV   client="@,
        Component::PlayerSleeping => "client: PlayerSleeping     RECV   client="@,
        Component::PlayerHeldItem => "client: PlayerHeldItem     RECV   client="@,
        Component::PlayerAction => "client: PlayerAction       RECV   client="@,
        Component::LootBagContents => "client: LootBagContents    RECV   id="@,
        Component::LootBagTransform => "client: LootBagTransform     RECV   id="@,
        Component::DroppedTransform => "client: DroppedItemTransform RECV  id="@,
        Component::DroppedStack => "client: DroppedItem          RECV   id="@,
    }
}

fn recv_head_text(component: Component) -> (r: String)
    ensures
        r@ == recv_head(component),
{
    match component {
        Component::NodeStorage => "client: ResourceNodeStorage RECV   id=".to_owned(),
        Component::DeployableHealth => "client: DeployableHealth   RECV   id=".to_owned(),
        Component::DeployableActive => "client: DeployableActive   RECV   id=".to_owned(),
        Component::DeployableLabel => "client: DeployableLabel    RECV   id=".to_owned(),
        Component::DeployableStability => "client: DeployableStability RECV   id=".to_owned(),
        Component::DeployableAuth => "client: DeployableAuth      RECV   id=".to_owned(),
        Component::PlayerPose => "client: PlayerPose         RECV   client=".to_owned(),
        Component::PlayerHealth => "client: PlayerHealth       RECV   client=".to_owned(),
        Component::PlayerInventory => "client: PlayerInventory    RECV   client=".to_owned(),
        Component::PlayerInputAck => "client: PlayerInputAck     RECV   client=".to_owned(),
        Component::PlayerArmor => "client: PlayerArmor        RECV   client=".to_owned(),
        Component::PlayerLifecycle => "client: PlayerLifecycle    RECV   client=".to_owned(),
        Component::PlayerSleeping => "client: PlayerSleeping     RECV   client=".to_owned(),
        Component::PlayerHeldItem => "client: PlayerHeldItem     RECV   client=".to_owned(),
        Component::PlayerAction => "client: PlayerAction       RECV   client=".to_owned(),
        Component::LootBagContents => "client: LootBagContents    RECV   id=".to_owned(),
        Component::LootBagTransform => "client: LootBagTransform     RECV   id=".to_owned(),
        Component::DroppedTransform => "client: DroppedItemTransform RECV  id=".to_owned(),
        Component::DroppedStack => "client: DroppedItem          RECV   id=".to_owned(),
    }
}

/// The name of the printed value.
pub open spec fn value_field(component: Component) -> Seq<char> {
    match component {
        Component::NodeStorage => " qty="@,
        Component::DeployableHealth => " hp="@,
        Component::DeployableActive => " active="@,
        Component::DeployableLabel => " label="@,
        Component::DeployableStability => " pct="@,
        Component::DeployableAuth => " n="@,
        Component::PlayerPose => " pos="@,
        Component::PlayerHealth => " hp="@,
        Component::PlayerInventory => " occupied="@,
        Component::PlayerInputAck => " last_input="@,
        Component::PlayerArmor => " armor="@,
        Component::PlayerLifecycle => " state="@,
        Component::PlayerSleeping => " sleeping="@,
        Component::PlayerHeldItem => " held="@,
        Component::PlayerAction => " seq="@,
        Component::LootBagContents => " occupied="@,
        Component::LootBagTransform => " pos="@,
        Component::DroppedTransform => " pos="@,
        Component::DroppedStack => " qty="@,
    }
}

fn value_field_text(component: Component) -> (r: String)
    ensures
        r@ == value_field(component),
{
    match component {
        Component::NodeStorage => " qty=".to_owned(),
        Component::DeployableHealth => " hp=".to_owned(),
        Component::DeployableActive => " active=".to_owned(),
        Component::DeployableLabel => " label=".to_owned(),
        Component::DeployableStability => " pct=".to_owned(),
        Component::DeployableAuth => " n=".to_owned(),
        Component::PlayerPose => " pos=".to_owned(),
        Component::PlayerHealth => " hp=".to_owned(),
        Component::PlayerInventory => " occupied=".to_owned(),
        Component::PlayerInputAck => " last_input=".to_owned(),
        Component::PlayerArmor => " armor=".to_owned(),
        Component::PlayerLifecycle => " state=".to_owned(),
        Component::PlayerSleeping => " sleeping=".to_owned(),
        Component::PlayerHeldItem => " held=".to_owned(),
        Component::PlayerAction => " seq=".to_owned(),
        Component::LootBagContents => " occupied=".to_owned(),
        Component::LootBagTransform => " pos=".to_owned(),
        Component::DroppedTransform => " pos=".to_owned(),
        Component::DroppedStack => " qty=".to_owned(),
    }
}

/// What stands in front of the old value in a line about a change.
pub open spec fn change_field(component: Component) -> Seq<char> {
    match component {
        Component::PlayerAction => " seq "@,
        Component::DroppedStack => " qty "@,
        _ => " "@,
    }
}

/// Whether the last value is remembered, so that a change is told as
/// `before -> after`.
pub open spec fn is_kept(component: Component) -> bool {
    match component {
        Component::PlayerPose => false,
        Component::PlayerHealth => false,
        Component::PlayerInventory => false,
        Component::PlayerInputAck => false,
        Component::LootBagTransform => false,
        Component::DroppedTransform => false,
        _ => true,
    }
}

fn keeps(component: Component) -> (r: bool)
    ensures
        r == is_kept(component),
{
    match component {
        Component::PlayerPose => false,
        Component::PlayerHealth => false,
        Component::PlayerInventory => false,
        Component::PlayerInputAck => false,
        Component::LootBagTransform => false,
        Component::DroppedTransform => false,
        _ => true,
    }
}

/// Whether a touch that leaves the value as it was goes unlogged.
pub open spec fn is_gated(component: Component) -> bool {
    match component {
        Component::DeployableLabel => true,
        Component::DeployableStability => true,
        Component::DeployableAuth => true,
        Component::PlayerHeldItem => true,
        Component::PlayerAction => true,
        Component::DroppedStack => true,
        _ => false,
    }
}

fn gates(component: Component) -> (r: bool)
    ensures
        r == is_gated(component),
{
    match component {
        Component::DeployableLabel => true,
        Component::DeployableStability => true,
        Component::DeployableAuth => true,
        Component::PlayerHeldItem => true,
        Component::PlayerAction => true,
        Component::DroppedStack => true,
        _ => false,
    }
}

/// What counts as the value of an owner that was never seen.
pub open spec fn unseen(component: Component) -> Traced {
    match component {
        Component::DeployableActive => Traced::Flag(false),
        Component::PlayerSleeping => Traced::Flag(false),
        Component::DeployableLabel => Traced::Text("None"@),
        Component::PlayerHeldItem => Traced::Text("None"@),
        Component::DeployableAuth => Traced::Text("[]"@),
        Component::PlayerLifecycle => Traced::Text("Alive"@),
        _ => Traced::Number(0),
    }
}

fn unseen_value(component: Component) -> (r: TraceValue)
    ensures
        r.traced() == unseen(component),
{
    match component {
        Component::DeployableActive => TraceValue::Flag(false),
        Component::PlayerSleeping => TraceValue::Flag(false),
        Component::DeployableLabel => TraceValue::Text("None".to_owned()),
        Component::PlayerHeldItem => TraceValue::Text("None".to_owned()),
        Component::DeployableAuth => TraceValue::Text("[]".to_owned()),
        Component::PlayerLifecycle => TraceValue::Text("Alive".to_owned()),
        _ => TraceValue::Number(0),
    }
}

/// One component of one entity in one frame.
pub struct TraceRow {
    pub component: Component,
    pub owner: u64,
    pub entity: String,
    pub change: Change,
    pub value: TraceValue,
    /// What is printed for a new component where that is not the value itself.
    pub spawn_text: Option<String>,
    /// What stands at the end of a line.
    pub tail: String,
}

/// What a row holds.
pub struct Sighting {
    pub component: Component,
    pub owner: u64,
    pub entity: Seq<char>,
    pub change: Change,
    pub value: Traced,
    pub spawn_text: Option<Seq<char>>,
    pub tail: Seq<char>,
}

impl TraceRow {
    pub open spec fn sighting(self) -> Sighting {
        Sighting {
            component: self.component,
            owner: self.owner,
            entity: self.entity@,
            change: self.change,
            value: self.value.traced(),
            spawn_text: crate::text::opt_text(self.spawn_text),
            tail: self.tail@,
        }
    }
}

/// The line for a component that is new to the client.
pub open spec fn spawn_line(row: Sighting) -> Seq<char> {
    spawn_head(row.component) + digits(row.owner as nat) + " entity="@ + row.entity + value_field(
        row.component,
    ) + match row.spawn_text {
        Some(text) => text,
        None => printed(row.value),
    } + row.tail
}

/// The line for a component whose old values are not kept.
pub open spec fn touch_line(row: Sighting) -> Seq<char> {
    recv_head(row.component) + digits(row.owner as nat) + " entity="@ + row.entity + value_field(
        row.component,
    ) + printed(row.value) + row.tail
}

/// The line for a component that changed from `before`.
pub open spec fn change_line(row: Sighting, before: Traced) -> Seq<char> {
    recv_head(row.component) + digits(row.owner as nat) + " entity="@ + row.entity + change_field(
        row.component,
    ) + printed(before) + " -> "@ + printed(row.value) + row.tail
}

/// The value last seen of an owner.
pub open spec fn last_seen(seen: Map<u64, TraceValue>, component: Component, owner: u64) -> Traced {
    if seen.dom().contains(owner) {
        seen[owner].traced()
    } else {
        unseen(component)
    }
}

/// The line that a row is logged with, if any.
pub open spec fn row_line(seen: Map<u64, TraceValue>, row: Sighting) -> Option<Seq<char>> {
    line_for(last_seen(seen, row.component, row.owner), row)
}

/// The line that a row is logged with where its owner last had the value
/// `before`.
pub open spec fn line_for(before: Traced, row: Sighting) -> Option<Seq<char>> {
    match row.change {
        Change::Same => None,
        Change::Added => if row.component == Component::DroppedStack {
            None
        } else {
            Some(spawn_line(row))
        },
        Change::Changed => if !is_kept(row.component) {
            Some(touch_line(row))
        } else if is_gated(row.component) && before == row.value {
            None
        } else {
            Some(change_line(row, before))
        },
    }
}

/// Whether a row's value is remembered.
pub open spec fn row_is_stored(row: Sighting) -> bool {
    is_kept(row.component) && row.change != Change::Same
}

/// What was last seen of every component, by owner.
pub struct ReplicationTraceState {
    pub node_qty: HashMap<u64, TraceValue>,
    pub deployable_health: HashMap<u64, TraceValue>,
    pub deployable_active: HashMap<u64, TraceValue>,
    pub deployable_label: HashMap<u64, TraceValue>,
    pub deployable_stability: HashMap<u64, TraceValue>,
    pub deployable_auth: HashMap<u64, TraceValue>,
    pub player_armor: HashMap<u64, TraceValue>,
    pub player_lifecycle: HashMap<u64, TraceValue>,
    pub player_sleeping: HashMap<u64, TraceValue>,
    pub player_held: HashMap<u64, TraceValue>,
    pub player_action_seq: HashMap<u64, TraceValue>,
    pub loot_bag_occupied: HashMap<u64, TraceValue>,
    pub dropped_item_qty: HashMap<u64, TraceValue>,
}

impl ReplicationTraceState {
    /// What was last seen of a component.
    pub open spec fn seen(self, component: Component) -> Map<u64, TraceValue> {
        match component {
            Component::NodeStorage => self.node_qty@,
            Component::DeployableHealth => self.deployable_health@,
            Component::DeployableActive => self.deployable_active@,
            Component::DeployableLabel => self.deployable_label@,
            Component::DeployableStability => self.deployable_stability@,
            Component::DeployableAuth => self.deployable_auth@,
            Component::PlayerArmor => self.player_armor@,
            Component::PlayerLifecycle => self.player_lifecycle@,
            Component::PlayerSleeping => self.player_sleeping@,
            Component::PlayerHeldItem => self.player_held@,
            Component::PlayerAction => self.player_action_seq@,
            Component::LootBagContents => self.loot_bag_occupied@,
            Component::DroppedStack => self.dropped_item_qty@,
            _ => Map::empty(),
        }
    }

    /// A trace that has seen nothing.
    pub fn new() -> (r: Self)
        ensures
            forall|component: Component| #[trigger]
                r.seen(component) == Map::<u64, TraceValue>::empty(),
    {
        ReplicationTraceState {
            node_qty: HashMap::new(),
            deployable_health: HashMap::new(),
            deployable_active: HashMap::new(),
            deployable_label: HashMap::new(),
            deployable_stability: HashMap::new(),
            deployable_auth: HashMap::new(),
            player_armor: HashMap::new(),
            player_lifecycle: HashMap::new(),
            player_sleeping: HashMap::new(),
            player_held: HashMap::new(),
            player_action_seq: HashMap::new(),
            loot_bag_occupied: HashMap::new(),
            dropped_item_qty: HashMap::new(),
        }
    }
}

fn write_line(head: String, row: &TraceRow) -> (r: String)
    ensures
        r@ == head@ + digits(row.owner as nat) + " entity="@ + row.entity@,
{
    let owner = decimal(row.owner);
    let mut line = head;
    line.append(owner.as_str());
    line.append(" entity=");
    line.append(row.entity.as_str());
    line
}

fn observe(seen: &mut HashMap<u64, TraceValue>, row: &TraceRow) -> (r: Option<String>)
    ensures
        crate::text::opt_text(r) == row_line(old(seen)@, row.sighting()),
        final(seen)@ == if row_is_stored(row.sighting()) && (row_line(
            old(seen)@,
            row.sighting(),
        ) is Some || row.change == Change::Added) {
            old(seen)@.insert(row.owner, row.value)
        } else {
            old(seen)@
        },
{
    match row.change {
        Change::Same => None,
        Change::Added => {
            if keeps(row.component) {
                seen.insert(row.owner, row.value.copy());
            }
            if row.component == Component::DroppedStack {
                None
            } else {
                let mut line = write_line(spawn_head_text(row.component), row);
                let field = value_field_text(row.component);
                line.append(field.as_str());
                let text: String = match &row.spawn_text {
                    Some(text) => text.clone(),
                    None => row.value.print(),
                };
                line.append(text.as_str());
                line.append(row.tail.as_str());
                Some(line)
            }
        },
        Change::Changed => {
            if !keeps(row.component) {
                let mut line = write_line(recv_head_text(row.component), row);
                let field = value_field_text(row.component);
                line.append(field.as_str());
                let text = row.value.print();
                line.append(text.as_str());
                line.append(row.tail.as_str());
                Some(line)
            } else {
                let before: TraceValue = match seen.get(&row.owner) {
                    Some(value) => value.copy(),
                    None => unseen_value(row.component),
                };
                if gates(row.component) && before.same(&row.value) {
                    None
                } else {
                    let mut line = write_line(recv_head_text(row.component), row);
                    let field: String = match row.component {
                        Component::PlayerAction => " seq ".to_owned(),
                        Component::DroppedStack => " qty ".to_owned(),
                        _ => " ".to_owned(),
                    };
                    line.append(field.as_str());
                    let was = before.print();
                    line.append(was.as_str());
                    line.append(" -> ");
                    let is = row.value.print();
                    line.append(is.as_str());
                    line.append(row.tail.as_str());
                    seen.insert(row.owner, row.value.copy());
                    Some(line)
                }
            }
        },
    }
}

/// Logs one row and remembers its value. Only the memory of the row's own
/// component and owner can change.
pub fn trace_row(state: &mut ReplicationTraceState, row: &TraceRow) -> (r: Option<String>)
    ensures
        crate::text::opt_text(r) == row_line(
            old(state).seen(row.component),
            row.sighting(),
        ),
        is_kept(row.component) ==> final(state).seen(row.component) == if row_is_stored(
            row.sighting(),
        ) && (r is Some || row.change == Change::Added) {
            old(state).seen(row.component).insert(row.owner, row.value)
        } else {
            old(state).seen(row.component)
        },
        forall|other: Component|
            other != row.component || !is_kept(other) ==> #[trigger] final(state).seen(other)
                == old(state).seen(other),
        row.change == Change::Same ==> r is None && final(state).seen(row.component) == old(
            state,
        ).seen(row.component),
        row.change == Change::Added ==> (r is None <==> row.component == Component::DroppedStack),
{
    match row.component {
        Component::NodeStorage => observe(&mut state.node_qty, row),
        Component::DeployableHealth => observe(&mut state.deployable_health, row),
        Component::DeployableActive => observe(&mut state.deployable_active, row),
        Component::DeployableLabel => observe(&mut state.deployable_label, row),
        Component::DeployableStability => observe(&mut state.deployable_stability, row),
        Component::DeployableAuth => observe(&mut state.deployable_auth, row),
        Component::PlayerArmor => observe(&mut state.player_armor, row),
        Component::PlayerLifecycle => observe(&mut state.player_lifecycle, row),
        Component::PlayerSleeping => observe(&mut state.player_sleeping, row),
        Component::PlayerHeldItem => observe(&mut state.player_held, row),
        Component::PlayerAction => observe(&mut state.player_action_seq, row),
        Component::LootBagContents => observe(&mut state.loot_bag_occupied, row),
        Component::DroppedStack => observe(&mut state.dropped_item_qty, row),
        _ => {
            let mut nothing: HashMap<u64, TraceValue> = HashMap::new();
            observe(&mut nothing, row)
        },
    }
}

/// What is remembered: the value last seen per component and owner.
pub open spec fn memory(state: ReplicationTraceState) -> Map<(Component, u64), Traced> {
    Map::new(
        |key: (Component, u64)| is_kept(key.0) && state.seen(key.0).dom().contains(key.1),
        |key: (Component, u64)| state.seen(key.0)[key.1].traced(),
    )
}

/// The value that a memory holds for the owner of a row.
pub open spec fn remembered(memory: Map<(Component, u64), Traced>, row: Sighting) -> Traced {
    if memory.dom().contains((row.component, row.owner)) {
        memory[(row.component, row.owner)]
    } else {
        unseen(row.component)
    }
}

/// A memory after a row: a new component is remembered, and a touched one where
/// it was logged.
pub open spec fn memory_after(memory: Map<(Component, u64), Traced>, row: Sighting) -> Map<
    (Component, u64),
    Traced,
> {
    if row_is_stored(row) && (row.change == Change::Added || line_for(
        remembered(memory, row),
        row,
    ) is Some) {
        memory.insert((row.component, row.owner), row.value)
    } else {
        memory
    }
}

/// A memory after a number of rows.
pub open spec fn memory_after_all(
    memory: Map<(Component, u64), Traced>,
    rows: Seq<Sighting>,
) -> Map<(Component, u64), Traced>
    decreases rows.len(),
{
    if rows.len() == 0 {
        memory
    } else {
        memory_after(memory_after_all(memory, rows.drop_last()), rows.last())
    }
}

/// The log of a number of rows.
pub open spec fn log_of(memory: Map<(Component, u64), Traced>, rows: Seq<Sighting>) -> Seq<
    Seq<char>,
>
    decreases rows.len(),
{
    if rows.len() == 0 {
        Seq::empty()
    } else {
        let before = memory_after_all(memory, rows.drop_last());
        let log = log_of(memory, rows.drop_last());
        match line_for(remembered(before, rows.last()), rows.last()) {
            Some(line) => log.push(line),
            None => log,
        }
    }
}

/// What the rows of a list hold.
pub open spec fn sightings(rows: Seq<TraceRow>) -> Seq<Sighting> {
    rows.map_values(|row: TraceRow| row.sighting())
}

proof fn log_splits(
    memory: Map<(Component, u64), Traced>,
    first: Seq<Sighting>,
    second: Seq<Sighting>,
)
    ensures
        memory_after_all(memory, first + second) == memory_after_all(
            memory_after_all(memory, first),
            second,
        ),
        log_of(memory, first + second) == log_of(memory, first) + log_of(
            memory_after_all(memory, first),
            second,
        ),
    decreases second.len(),
{
    if second.len() == 0 {
        assert(first + second =~= first);
        assert(log_of(memory, first) + log_of(memory_after_all(memory, first), second) =~= log_of(
            memory,
            first,
        ));
    } else {
        assert((first + second).drop_last() =~= first + second.drop_last());
        assert((first + second).last() == second.last());
        log_splits(memory, first, second.drop_last());
        let middle = memory_after_all(memory, first);
        let row = second.last();
        let before = memory_after_all(middle, second.drop_last());
        let shorter = log_of(memory, first) + log_of(middle, second.drop_last());
        match line_for(remembered(before, row), row) {
            Some(line) => {
                assert(shorter.push(line) =~= log_of(memory, first) + log_of(
                    middle,
                    second.drop_last(),
                ).push(line));
            },
            None => {},
        }
    }
}

/// Logs a number of rows behind the lines written so far.
fn log_rows(state: &mut ReplicationTraceState, rows: &Vec<TraceRow>, lines: &mut Vec<String>)
    ensures
        memory(*final(state)) == memory_after_all(memory(*old(state)), sightings(rows@)),
        texts(final(lines)@) == texts(old(lines)@) + log_of(
            memory(*old(state)),
            sightings(rows@),
        ),
{
    let ghost start = memory(*state);
    let ghost written = texts(lines@);
    let mut i: usize = 0;
    proof {
        assert(sightings(rows@.take(0)) =~= Seq::<Sighting>::empty());
        assert(written + log_of(start, Seq::empty()) =~= written);
    }
    while i < rows.len()
        invariant
            i <= rows.len(),
            memory(*state) == memory_after_all(start, sightings(rows@.take(i as int))),
            texts(lines@) == written + log_of(start, sightings(rows@.take(i as int))),
        decreases rows.len() - i,
    {
        let ghost done = sightings(rows@.take(i as int));
        let ghost before = *state;
        let ghost lines_before = lines@;
        let row = &rows[i];
        let ghost next = sightings(rows@.take(i + 1));
        proof {
            assert(next.drop_last() =~= done);
            assert(next.last() == row.sighting());
        }
        let line = trace_row(state, row);
        let ghost line_text = crate::text::opt_text(line);
        proof {
            let key = (row.component, row.owner);
            assert(remembered(memory(before), row.sighting()) == last_seen(
                before.seen(row.component),
                row.component,
                row.owner,
            ) || !is_kept(row.component));
            assert(line_text == line_for(remembered(memory(before), row.sighting()), row.sighting()));
            let expected = memory_after(memory(before), row.sighting());
            assert forall|k: (Component, u64)| #[trigger]
                memory(*state).dom().contains(k) == expected.dom().contains(k) by {
                if k.0 != row.component {
                    assert(state.seen(k.0) == before.seen(k.0));
                }
            }
            assert forall|k: (Component, u64)|
                memory(*state).dom().contains(k) implies #[trigger] memory(*state)[k]
                == expected[k] by {
                if k.0 != row.component {
                    assert(state.seen(k.0) == before.seen(k.0));
                }
            }
            assert(memory(*state) =~= expected);
        }
        if let Some(line) = line {
            lines.push(line);
            proof {
                assert(texts(lines@) =~= texts(lines_before).push(line@));
                assert(texts(lines@) =~= written + log_of(start, next));
            }
        }
        i = i + 1;
    }
    proof {
        assert(rows@.take(i as int) =~= rows@);
    }
}

/// A resource node in one frame, with what each of its materials has left.
pub struct NodeSighting {
    pub id: u64,
    pub entity: String,
    pub change: Change,
    pub quantities: Vec<u16>,
}

/// A placed structure in one frame. The label and the list of authorised
/// accounts come with the way they are printed.
pub struct DeployableSighting {
    pub id: u64,
    pub entity: String,
    pub health: (Change, u32),
    pub active: (Change, bool),
    pub label: (Change, String),
    pub stability: (Change, u8),
    pub auth: (Change, String),
    pub auth_count: u64,
}

/// A player's inventory in one frame.
pub struct InventorySighting {
    pub client_id: u64,
    pub entity: String,
    pub change: Change,
    pub inventory_slots: Vec<Option<ItemStack>>,
    pub actionbar_slots: Vec<Option<ItemStack>>,
}

/// A player in one frame, with the components that are replicated of it. The
/// position, the health, the lifecycle, the held item and the tool of a swing come
/// with the way they are printed.
pub struct PlayerSighting {
    pub client_id: u64,
    pub entity: String,
    pub pose: Option<(Change, String)>,
    pub health: Option<(Change, String)>,
    /// The last input that was acknowledged.
    pub input_ack: Option<(Change, u64)>,
    pub armor: Option<(Change, u8)>,
    pub lifecycle: Option<(Change, String)>,
    pub sleeping: Option<(Change, bool)>,
    pub held: Option<(Change, String)>,
    /// The number of the last swing and its tool.
    pub action: Option<(Change, u32, String)>,
}

/// A loot bag in one frame.
pub struct BagSighting {
    pub id: u64,
    pub entity: String,
    pub change: Change,
    pub slots: Vec<Option<ItemStack>>,
}

/// Where a loot bag lies in one frame, as it is printed.
pub struct BagTransformSighting {
    pub id: u64,
    pub entity: String,
    pub change: Change,
    pub position: String,
}

/// A dropped item in one frame: its transform and its stack change apart.
pub struct DropSighting {
    pub id: u64,
    pub entity: String,
    pub transform: Change,
    pub position: String,
    pub stack: Change,
    pub quantity: u16,
}

/// Everything replicated in one frame.
pub struct ReplicationFrame {
    pub nodes: Vec<NodeSighting>,
    pub deployables: Vec<DeployableSighting>,
    pub players: Vec<PlayerSighting>,
    pub inventories: Vec<InventorySighting>,
    pub bags: Vec<BagSighting>,
    pub bag_transforms: Vec<BagTransformSighting>,
    pub drops: Vec<DropSighting>,
}

/// What a node has left of all its materials.
pub open spec fn total_of(quantities: Seq<u16>) -> nat
    decreases quantities.len(),
{
    if quantities.len() == 0 {
        0
    } else {
        total_of(quantities.drop_last()) + quantities.last() as nat
    }
}

proof fn total_of_prefix(quantities: Seq<u16>, n: int)
    requires
        0 <= n <= quantities.len(),
    ensures
        total_of(quantities.take(n)) <= total_of(quantities),
    decreases quantities.len() - n,
{
    if n < quantities.len() {
        total_of_prefix(quantities, n + 1);
        assert(quantities.take(n + 1).drop_last() =~= quantities.take(n));
    } else {
        assert(quantities.take(n) =~= quantities);
    }
}

fn node_total(quantities: &Vec<u16>) -> (r: u64)
    requires
        total_of(quantities@) <= 65535,
    ensures
        r == total_of(quantities@),
{
    let mut total: u64 = 0;
    let mut i: usize = 0;
    proof {
        assert(quantities@.take(0) =~= Seq::<u16>::empty());
    }
    while i < quantities.len()
        invariant
            i <= quantities.len(),
            total == total_of(quantities@.take(i as int)),
            total_of(quantities@) <= 65535,
        decreases quantities.len() - i,
    {
        proof {
            total_of_prefix(quantities@, i + 1);
            assert(quantities@.take(i + 1).drop_last() =~= quantities@.take(i as int));
        }
        total = total + quantities[i] as u64;
        i = i + 1;
    }
    proof {
        assert(quantities@.take(i as int) =~= quantities@);
    }
    total
}

/// A row without a text of its own for new components and without a tail.
pub open spec fn plain_row(
    component: Component,
    owner: u64,
    entity: Seq<char>,
    change: Change,
    value: Traced,
) -> Sighting {
    Sighting { component, owner, entity, change, value, spawn_text: None, tail: Seq::empty() }
}

fn plain(component: Component, owner: u64, entity: &String, change: Change, value: TraceValue) -> (r:
    TraceRow)
    ensures
        r.sighting() == plain_row(component, owner, entity@, change, value.traced()),
{
    let row = TraceRow {
        component,
        owner,
        entity: entity.clone(),
        change,
        value,
        spawn_text: None,
        tail: String::new(),
    };
    proof {
        assert(row.tail@ =~= Seq::<char>::empty());
    }
    row
}

/// The row of a node.
pub open spec fn node_row(node: NodeSighting) -> Seq<Sighting> {
    seq![
        plain_row(
            Component::NodeStorage,
            node.id,
            node.entity@,
            node.change,
            Traced::Number(total_of(node.quantities@)),
        ),
    ]
}

/// The five rows of a structure.
pub open spec fn deployable_rows(seen: DeployableSighting) -> Seq<Sighting> {
    seq![
        plain_row(
            Component::DeployableHealth,
            seen.id,
            seen.entity@,
            seen.health.0,
            Traced::Number(seen.health.1 as nat),
        ),
        plain_row(
            Component::DeployableActive,
            seen.id,
            seen.entity@,
            seen.active.0,
            Traced::Flag(seen.active.1),
        ),
        plain_row(
            Component::DeployableLabel,
            seen.id,
            seen.entity@,
            seen.label.0,
            Traced::Text(seen.label.1@),
        ),
        plain_row(
            Component::DeployableStability,
            seen.id,
            seen.entity@,
            seen.stability.0,
            Traced::Number(seen.stability.1 as nat),
        ),
        Sighting {
            component: Component::DeployableAuth,
            owner: seen.id,
            entity: seen.entity@,
            change: seen.auth.0,
            value: Traced::Text(seen.auth.1@),
            spawn_text: Some(digits(seen.auth_count as nat)),
            tail: Seq::empty(),
        },
    ]
}

/// The two groups of slots together can be counted.
pub open spec fn slots_fit(seen: InventorySighting) -> bool {
    seen.inventory_slots@.len() + seen.actionbar_slots@.len() <= usize::MAX
}

/// The row of an inventory: how many slots are taken.
pub open spec fn inventory_row(seen: InventorySighting) -> Seq<Sighting> {
    seq![
        plain_row(
            Component::PlayerInventory,
            seen.client_id,
            seen.entity@,
            seen.change,
            Traced::Number(
                occupied(seen.inventory_slots@) + occupied(seen.actionbar_slots@),
            ),
        ),
    ]
}

/// The row of a loot bag: how many slots are taken.
pub open spec fn bag_row(seen: BagSighting) -> Seq<Sighting> {
    seq![
        plain_row(
            Component::LootBagContents,
            seen.id,
            seen.entity@,
            seen.change,
            Traced::Number(occupied(seen.slots@)),
        ),
    ]
}

/// The rows of a dropped item: its transform; its quantity, remembered without
/// a line when the transform is new; and the quantity again where the stack was
/// touched.
pub open spec fn drop_rows(seen: DropSighting) -> Seq<Sighting> {
    let quantity = Traced::Number(seen.quantity as nat);
    seq![
        plain_row(
            Component::DroppedTransform,
            seen.id,
            seen.entity@,
            seen.transform,
            Traced::Text(seen.position@),
        ),
        plain_row(
            Component::DroppedStack,
            seen.id,
            seen.entity@,
            if seen.transform == Change::Added {
                Change::Added
            } else {
                Change::Same
            },
            quantity,
        ),
        plain_row(
            Component::DroppedStack,
            seen.id,
            seen.entity@,
            if seen.stack == Change::Changed {
                Change::Changed
            } else {
                Change::Same
            },
            quantity,
        ),
    ]
}

/// The row of one component of a player; none where it is not replicated.
pub open spec fn player_row(seen: PlayerSighting, component: Component) -> Option<Sighting> {
    let row = |change: Change, value: Traced|
        Some(plain_row(component, seen.client_id, seen.entity@, change, value));
    match component {
        Component::PlayerPose => match seen.pose {
            Some((change, position)) => row(change, Traced::Text(position@)),
            None => None,
        },
        Component::PlayerHealth => match seen.health {
            Some((change, health)) => row(change, Traced::Text(health@)),
            None => None,
        },
        Component::PlayerInputAck => match seen.input_ack {
            Some((change, input)) => row(change, Traced::Number(input as nat)),
            None => None,
        },
        Component::PlayerArmor => match seen.armor {
            Some((change, armor)) => row(change, Traced::Number(armor as nat)),
            None => None,
        },
        Component::PlayerLifecycle => match seen.lifecycle {
            Some((change, lifecycle)) => row(change, Traced::Text(lifecycle@)),
            None => None,
        },
        Component::PlayerSleeping => match seen.sleeping {
            Some((change, sleeping)) => row(change, Traced::Flag(sleeping)),
            None => None,
        },
        Component::PlayerHeldItem => match seen.held {
            Some((change, held)) => row(change, Traced::Text(held@)),
            None => None,
        },
        Component::PlayerAction => match seen.action {
            Some((change, seq, tool)) => Some(
                Sighting {
                    component,
                    owner: seen.client_id,
                    entity: seen.entity@,
                    change,
                    value: Traced::Number(seq as nat),
                    spawn_text: None,
                    tail: " tool="@ + tool@,
                },
            ),
            None => None,
        },
        _ => None,
    }
}

/// The rows of one component, player by player.
pub open spec fn rows_of_group(players: Seq<PlayerSighting>, component: Component) -> Seq<Sighting>
    decreases players.len(),
{
    if players.len() == 0 {
        Seq::empty()
    } else {
        let rest = rows_of_group(players.drop_last(), component);
        match player_row(players.last(), component) {
            Some(row) => rest.push(row),
            None => rest,
        }
    }
}

/// The rows of the poses.
pub open spec fn pose_rows(players: Seq<PlayerSighting>) -> Seq<Sighting> {
    rows_of_group(players, Component::PlayerPose)
}

/// The rows of the health values.
pub open spec fn health_rows(players: Seq<PlayerSighting>) -> Seq<Sighting> {
    rows_of_group(players, Component::PlayerHealth)
}

/// The rows of the input acknowledgements.
pub open spec fn ack_rows(players: Seq<PlayerSighting>) -> Seq<Sighting> {
    rows_of_group(players, Component::PlayerInputAck)
}

/// The rows of the armour.
pub open spec fn armor_rows(players: Seq<PlayerSighting>) -> Seq<Sighting> {
    rows_of_group(players, Component::PlayerArmor)
}

/// The rows of the lifecycles.
pub open spec fn lifecycle_rows(players: Seq<PlayerSighting>) -> Seq<Sighting> {
    rows_of_group(players, Component::PlayerLifecycle)
}

/// The rows of the sleep.
pub open spec fn sleep_rows(players: Seq<PlayerSighting>) -> Seq<Sighting> {
    rows_of_group(players, Component::PlayerSleeping)
}

/// The rows of the held items.
pub open spec fn held_rows(players: Seq<PlayerSighting>) -> Seq<Sighting> {
    rows_of_group(players, Component::PlayerHeldItem)
}

/// The rows of the swings.
pub open spec fn action_rows(players: Seq<PlayerSighting>) -> Seq<Sighting> {
    rows_of_group(players, Component::PlayerAction)
}

/// The rows of where the loot bags lie.
pub open spec fn bag_transform_rows(list: Seq<BagTransformSighting>) -> Seq<Sighting> {
    list.map_values(
        |seen: BagTransformSighting|
            plain_row(
                Component::LootBagTransform,
                seen.id,
                seen.entity@,
                seen.change,
                Traced::Text(seen.position@),
            ),
    )
}

/// The rows of all nodes.
pub open spec fn all_node_rows(nodes: Seq<NodeSighting>) -> Seq<Sighting>
    decreases nodes.len(),
{
    if nodes.len() == 0 {
        Seq::empty()
    } else {
        all_node_rows(nodes.drop_last()) + node_row(nodes.last())
    }
}

/// The rows of all structures.
pub open spec fn all_deployable_rows(list: Seq<DeployableSighting>) -> Seq<Sighting>
    decreases list.len(),
{
    if list.len() == 0 {
        Seq::empty()
    } else {
        all_deployable_rows(list.drop_last()) + deployable_rows(list.last())
    }
}

/// The rows of all inventories.
pub open spec fn all_inventory_rows(list: Seq<InventorySighting>) -> Seq<Sighting>
    decreases list.len(),
{
    if list.len() == 0 {
        Seq::empty()
    } else {
        all_inventory_rows(list.drop_last()) + inventory_row(list.last())
    }
}

/// The rows of all loot bags.
pub open spec fn all_bag_rows(list: Seq<BagSighting>) -> Seq<Sighting>
    decreases list.len(),
{
    if list.len() == 0 {
        Seq::empty()
    } else {
        all_bag_rows(list.drop_last()) + bag_row(list.last())
    }
}

/// The rows of all dropped items.
pub open spec fn all_drop_rows(list: Seq<DropSighting>) -> Seq<Sighting>
    decreases list.len(),
{
    if list.len() == 0 {
        Seq::empty()
    } else {
        all_drop_rows(list.drop_last()) + drop_rows(list.last())
    }
}

/// The rows of a frame, in the order in which they are logged.
pub open spec fn frame_rows(frame: ReplicationFrame) -> Seq<Sighting> {
    all_node_rows(frame.nodes@) + all_deployable_rows(frame.deployables@) + (pose_rows(
        frame.players@,
    ) + health_rows(frame.players@)) + all_inventory_rows(frame.inventories@) + (ack_rows(
        frame.players@,
    ) + armor_rows(frame.players@) + lifecycle_rows(frame.players@) + sleep_rows(
        frame.players@,
    ) + held_rows(frame.players@) + action_rows(frame.players@)) + all_bag_rows(frame.bags@)
        + bag_transform_rows(frame.bag_transforms@) + all_drop_rows(frame.drops@)
}

proof fn push_sighting(rows: Seq<TraceRow>, row: TraceRow)
    ensures
        sightings(rows.push(row)) == sightings(rows).push(row.sighting()),
{
    assert(sightings(rows.push(row)) =~= sightings(rows).push(row.sighting()));
}

fn collect_nodes(list: &Vec<NodeSighting>) -> (r: Vec<TraceRow>)
    requires
        forall|i: int| 0 <= i < list@.len() ==> total_of((#[trigger] list@[i]).quantities@)
            <= 65535,
    ensures
        sightings(r@) == all_node_rows(list@),
{
    let mut rows: Vec<TraceRow> = Vec::new();
    let mut i: usize = 0;
    proof {
        assert(list@.take(0) =~= Seq::<NodeSighting>::empty());
        assert(sightings(rows@) =~= Seq::<Sighting>::empty());
    }
    while i < list.len()
        invariant
            i <= list.len(),
            sightings(rows@) == all_node_rows(list@.take(i as int)),
            forall|k: int| 0 <= k < list@.len() ==> total_of((#[trigger] list@[k]).quantities@)
                <= 65535,
        decreases list.len() - i,
    {
        let node = &list[i];
        let ghost before = sightings(rows@);
        let total = node_total(&node.quantities);
        let row = plain(
            Component::NodeStorage,
            node.id,
            &node.entity,
            node.change,
            TraceValue::Number(total),
        );
        proof {
            push_sighting(rows@, row);
            assert(list@.take(i + 1).drop_last() =~= list@.take(i as int));
            assert(list@.take(i + 1).last() == *node);
            assert(before.push(row.sighting()) =~= before + node_row(*node));
        }
        rows.push(row);
        i = i + 1;
    }
    proof {
        assert(list@.take(i as int) =~= list@);
    }
    rows
}

fn collect_deployables(list: &Vec<DeployableSighting>) -> (r: Vec<TraceRow>)
    ensures
        sightings(r@) == all_deployable_rows(list@),
{
    let mut rows: Vec<TraceRow> = Vec::new();
    let mut i: usize = 0;
    proof {
        assert(list@.take(0) =~= Seq::<DeployableSighting>::empty());
        assert(sightings(rows@) =~= Seq::<Sighting>::empty());
    }
    while i < list.len()
        invariant
            i <= list.len(),
            sightings(rows@) == all_deployable_rows(list@.take(i as int)),
        decreases list.len() - i,
    {
        let seen = &list[i];
        let ghost before = sightings(rows@);
        let health = plain(
            Component::DeployableHealth,
            seen.id,
            &seen.entity,
            seen.health.0,
            TraceValue::Number(seen.health.1 as u64),
        );
        let active = plain(
            Component::DeployableActive,
            seen.id,
            &seen.entity,
            seen.active.0,
            TraceValue::Flag(seen.active.1),
        );
        let label = plain(
            Component::DeployableLabel,
            seen.id,
            &seen.entity,
            seen.label.0,
            TraceValue::Text(seen.label.1.clone()),
        );
        let stability = plain(
            Component::DeployableStability,
            seen.id,
            &seen.entity,
            seen.stability.0,
            TraceValue::Number(seen.stability.1 as u64),
        );
        let auth = TraceRow {
            component: Component::DeployableAuth,
            owner: seen.id,
            entity: seen.entity.clone(),
            change: seen.auth.0,
            value: TraceValue::Text(seen.auth.1.clone()),
            spawn_text: Some(decimal(seen.auth_count)),
            tail: String::new(),
        };
        proof {
            assert(auth.tail@ =~= Seq::<char>::empty());
            push_sighting(rows@, health);
            push_sighting(rows@.push(health), active);
            push_sighting(rows@.push(health).push(active), label);
            push_sighting(rows@.push(health).push(active).push(label), stability);
            push_sighting(rows@.push(health).push(active).push(label).push(stability), auth);
            assert(list@.take(i + 1).drop_last() =~= list@.take(i as int));
            assert(list@.take(i + 1).last() == *seen);
            assert(before.push(health.sighting()).push(active.sighting()).push(
                label.sighting(),
            ).push(stability.sighting()).push(auth.sighting()) =~= before + deployable_rows(*seen));
        }
        rows.push(health);
        rows.push(active);
        rows.push(label);
        rows.push(stability);
        rows.push(auth);
        i = i + 1;
    }
    proof {
        assert(list@.take(i as int) =~= list@);
    }
    rows
}

fn collect_inventories(list: &Vec<InventorySighting>) -> (r: Vec<TraceRow>)
    requires
        forall|i: int| 0 <= i < list@.len() ==> slots_fit(#[trigger] list@[i]),
    ensures
        sightings(r@) == all_inventory_rows(list@),
{
    let mut rows: Vec<TraceRow> = Vec::new();
    let mut i: usize = 0;
    proof {
        assert(list@.take(0) =~= Seq::<InventorySighting>::empty());
        assert(sightings(rows@) =~= Seq::<Sighting>::empty());
    }
    while i < list.len()
        invariant
            i <= list.len(),
            sightings(rows@) == all_inventory_rows(list@.take(i as int)),
            forall|k: int| 0 <= k < list@.len() ==> slots_fit(#[trigger] list@[k]),
        decreases list.len() - i,
    {
        let seen = &list[i];
        let ghost before = sightings(rows@);
        let bag: u64 = occupied_slots(&seen.inventory_slots) as u64;
        let bar: u64 = occupied_slots(&seen.actionbar_slots) as u64;
        let row = plain(
            Component::PlayerInventory,
            seen.client_id,
            &seen.entity,
            seen.change,
            TraceValue::Number(bag + bar),
        );
        proof {
            push_sighting(rows@, row);
            assert(list@.take(i + 1).drop_last() =~= list@.take(i as int));
            assert(list@.take(i + 1).last() == *seen);
            assert(before.push(row.sighting()) =~= before + inventory_row(*seen));
        }
        rows.push(row);
        i = i + 1;
    }
    proof {
        assert(list@.take(i as int) =~= list@);
    }
    rows
}

fn collect_bags(list: &Vec<BagSighting>) -> (r: Vec<TraceRow>)
    ensures
        sightings(r@) == all_bag_rows(list@),
{
    let mut rows: Vec<TraceRow> = Vec::new();
    let mut i: usize = 0;
    proof {
        assert(list@.take(0) =~= Seq::<BagSighting>::empty());
        assert(sightings(rows@) =~= Seq::<Sighting>::empty());
    }
    while i < list.len()
        invariant
            i <= list.len(),
            sightings(rows@) == all_bag_rows(list@.take(i as int)),
        decreases list.len() - i,
    {
        let seen = &list[i];
        let ghost before = sightings(rows@);
        let row = plain(
            Component::LootBagContents,
            seen.id,
            &seen.entity,
            seen.change,
            TraceValue::Number(occupied_slots(&seen.slots) as u64),
        );
        proof {
            push_sighting(rows@, row);
            assert(list@.take(i + 1).drop_last() =~= list@.take(i as int));
            assert(list@.take(i + 1).last() == *seen);
            assert(before.push(row.sighting()) =~= before + bag_row(*seen));
        }
        rows.push(row);
        i = i + 1;
    }
    proof {
        assert(list@.take(i as int) =~= list@);
    }
    rows
}

fn collect_drops(list: &Vec<DropSighting>) -> (r: Vec<TraceRow>)
    ensures
        sightings(r@) == all_drop_rows(list@),
{
    let mut rows: Vec<TraceRow> = Vec::new();
    let mut i: usize = 0;
    proof {
        assert(list@.take(0) =~= Seq::<DropSighting>::empty());
        assert(sightings(rows@) =~= Seq::<Sighting>::empty());
    }
    while i < list.len()
        invariant
            i <= list.len(),
            sightings(rows@) == all_drop_rows(list@.take(i as int)),
        decreases list.len() - i,
    {
        let seen = &list[i];
        let ghost before = sightings(rows@);
        let transform = plain(
            Component::DroppedTransform,
            seen.id,
            &seen.entity,
            seen.transform,
            TraceValue::Text(seen.position.clone()),
        );
        let first = plain(
            Component::DroppedStack,
            seen.id,
            &seen.entity,
            if seen.transform == Change::Added {
                Change::Added
            } else {
                Change::Same
            },
            TraceValue::Number(seen.quantity as u64),
        );
        let again = plain(
            Component::DroppedStack,
            seen.id,
            &seen.entity,
            if seen.stack == Change::Changed {
                Change::Changed
            } else {
                Change::Same
            },
            TraceValue::Number(seen.quantity as u64),
        );
        proof {
            push_sighting(rows@, transform);
            push_sighting(rows@.push(transform), first);
            push_sighting(rows@.push(transform).push(first), again);
            assert(list@.take(i + 1).drop_last() =~= list@.take(i as int));
            assert(list@.take(i + 1).last() == *seen);
            assert(before.push(transform.sighting()).push(first.sighting()).push(
                again.sighting(),
            ) =~= before + drop_rows(*seen));
        }
        rows.push(transform);
        rows.push(first);
        rows.push(again);
        i = i + 1;
    }
    proof {
        assert(list@.take(i as int) =~= list@);
    }
    rows
}

fn row_of_player(seen: &PlayerSighting, component: Component) -> (r: Option<TraceRow>)
    ensures
        match r {
            Some(row) => player_row(*seen, component) == Some(row.sighting()),
            None => player_row(*seen, component) is None,
        },
{
    let found: Option<(Change, TraceValue)> = match component {
        Component::PlayerPose => match &seen.pose {
            Some((change, position)) => Some((*change, TraceValue::Text(position.clone()))),
            None => None,
        },
        Component::PlayerHealth => match &seen.health {
            Some((change, health)) => Some((*change, TraceValue::Text(health.clone()))),
            None => None,
        },
        Component::PlayerInputAck => match &seen.input_ack {
            Some((change, input)) => Some((*change, TraceValue::Number(*input))),
            None => None,
        },
        Component::PlayerArmor => match &seen.armor {
            Some((change, armor)) => Some((*change, TraceValue::Number(*armor as u64))),
            None => None,
        },
        Component::PlayerLifecycle => match &seen.lifecycle {
            Some((change, lifecycle)) => Some((*change, TraceValue::Text(lifecycle.clone()))),
            None => None,
        },
        Component::PlayerSleeping => match &seen.sleeping {
            Some((change, sleeping)) => Some((*change, TraceValue::Flag(*sleeping))),
            None => None,
        },
        Component::PlayerHeldItem => match &seen.held {
            Some((change, held)) => Some((*change, TraceValue::Text(held.clone()))),
            None => None,
        },
        Component::PlayerAction => match &seen.action {
            Some((change, seq, tool)) => {
                let mut row = plain(
                    component,
                    seen.client_id,
                    &seen.entity,
                    *change,
                    TraceValue::Number(*seq as u64),
                );
                row.tail = concat2(" tool=", tool.as_str());
                return Some(row);
            },
            None => None,
        },
        _ => None,
    };
    match found {
        Some((change, value)) => Some(
            plain(component, seen.client_id, &seen.entity, change, value),
        ),
        None => None,
    }
}

fn collect_group(players: &Vec<PlayerSighting>, component: Component, rows: &mut Vec<TraceRow>)
    ensures
        sightings(final(rows)@) == sightings(old(rows)@) + rows_of_group(players@, component),
{
    let ghost start = sightings(rows@);
    let mut i: usize = 0;
    proof {
        assert(players@.take(0) =~= Seq::<PlayerSighting>::empty());
        assert(start + Seq::<Sighting>::empty() =~= start);
    }
    while i < players.len()
        invariant
            i <= players.len(),
            sightings(rows@) == start + rows_of_group(players@.take(i as int), component),
        decreases players.len() - i,
    {
        let seen = &players[i];
        let ghost done = rows_of_group(players@.take(i as int), component);
        proof {
            assert(players@.take(i + 1).drop_last() =~= players@.take(i as int));
            assert(players@.take(i + 1).last() == *seen);
        }
        if let Some(row) = row_of_player(seen, component) {
            proof {
                push_sighting(rows@, row);
                assert((start + done).push(row.sighting()) =~= start + done.push(row.sighting()));
            }
            rows.push(row);
        }
        i = i + 1;
    }
    proof {
        assert(players@.take(i as int) =~= players@);
    }
}

/// Lists where the players are and how they are: all poses, then all health values.
pub fn body_rows(players: &Vec<PlayerSighting>) -> (r: Vec<TraceRow>)
    ensures
        sightings(r@) == pose_rows(players@) + health_rows(players@),
{
    let mut rows: Vec<TraceRow> = Vec::new();
    proof {
        assert(sightings(rows@) + pose_rows(players@) =~= pose_rows(players@));
    }
    collect_group(players, Component::PlayerPose, &mut rows);
    collect_group(players, Component::PlayerHealth, &mut rows);
    rows
}

/// Lists what else is replicated of the players, one component after the other. The
/// rows of the swings end with the tool.
pub fn player_rows(players: &Vec<PlayerSighting>) -> (r: Vec<TraceRow>)
    ensures
        sightings(r@) == ack_rows(players@) + armor_rows(players@) + lifecycle_rows(players@)
            + sleep_rows(players@) + held_rows(players@) + action_rows(players@),
{
    let mut rows: Vec<TraceRow> = Vec::new();
    proof {
        assert(sightings(rows@) + ack_rows(players@) =~= ack_rows(players@));
    }
    collect_group(players, Component::PlayerInputAck, &mut rows);
    collect_group(players, Component::PlayerArmor, &mut rows);
    collect_group(players, Component::PlayerLifecycle, &mut rows);
    collect_group(players, Component::PlayerSleeping, &mut rows);
    collect_group(players, Component::PlayerHeldItem, &mut rows);
    collect_group(players, Component::PlayerAction, &mut rows);
    rows
}

/// Lists where the loot bags lie.
pub fn transform_rows(list: &Vec<BagTransformSighting>) -> (r: Vec<TraceRow>)
    ensures
        sightings(r@) == bag_transform_rows(list@),
{
    let mut rows: Vec<TraceRow> = Vec::new();
    let mut i: usize = 0;
    while i < list.len()
        invariant
            i <= list.len(),
            sightings(rows@) == bag_transform_rows(list@).take(i as int),
        decreases list.len() - i,
    {
        let seen = &list[i];
        let row = plain(
            Component::LootBagTransform,
            seen.id,
            &seen.entity,
            seen.change,
            TraceValue::Text(seen.position.clone()),
        );
        proof {
            push_sighting(rows@, row);
            assert(bag_transform_rows(list@)[i as int] == row.sighting());
            assert(bag_transform_rows(list@).take(i as int).push(row.sighting())
                =~= bag_transform_rows(list@).take(i + 1));
        }
        rows.push(row);
        i = i + 1;
    }
    proof {
        assert(bag_transform_rows(list@).take(i as int) =~= bag_transform_rows(list@));
    }
    rows
}

/// Logs everything replicated in a frame: the lines of its rows in order, with
/// every value remembered for the frames to come. What a node has left has to
/// fit in 16 bits, and an inventory's slots must be countable.
pub fn log_replicated_storage_changes(
    state: &mut ReplicationTraceState,
    frame: &ReplicationFrame,
) -> (r: Vec<String>)
    requires
        forall|i: int|
            0 <= i < frame.nodes@.len() ==> total_of((#[trigger] frame.nodes@[i]).quantities@)
                <= 65535,
        forall|i: int|
            0 <= i < frame.inventories@.len() ==> slots_fit(#[trigger] frame.inventories@[i]),
    ensures
        texts(r@) == log_of(memory(*old(state)), frame_rows(*frame)),
        memory(*final(state)) == memory_after_all(memory(*old(state)), frame_rows(*frame)),
{
    let ghost start = memory(*state);
    let mut lines: Vec<String> = Vec::new();
    proof {
        assert(texts(lines@) =~= Seq::<Seq<char>>::empty());
    }
    let nodes = collect_nodes(&frame.nodes);
    log_rows(state, &nodes, &mut lines);
    let ghost a = all_node_rows(frame.nodes@);
    proof {
        assert(texts(lines@) =~= log_of(start, a));
    }
    let deployables = collect_deployables(&frame.deployables);
    log_rows(state, &deployables, &mut lines);
    let ghost b = a + all_deployable_rows(frame.deployables@);
    proof {
        log_splits(start, a, all_deployable_rows(frame.deployables@));
    }
    let bodies = body_rows(&frame.players);
    log_rows(state, &bodies, &mut lines);
    let ghost c = b + sightings(bodies@);
    proof {
        log_splits(start, b, sightings(bodies@));
    }
    let inventories = collect_inventories(&frame.inventories);
    log_rows(state, &inventories, &mut lines);
    let ghost d = c + all_inventory_rows(frame.inventories@);
    proof {
        log_splits(start, c, all_inventory_rows(frame.inventories@));
    }
    let players = player_rows(&frame.players);
    log_rows(state, &players, &mut lines);
    let ghost e = d + sightings(players@);
    proof {
        log_splits(start, d, sightings(players@));
    }
    let bags = collect_bags(&frame.bags);
    log_rows(state, &bags, &mut lines);
    let ghost f = e + all_bag_rows(frame.bags@);
    proof {
        log_splits(start, e, all_bag_rows(frame.bags@));
    }
    let transforms = transform_rows(&frame.bag_transforms);
    log_rows(state, &transforms, &mut lines);
    let ghost g = f + sightings(transforms@);
    proof {
        log_splits(start, f, sightings(transforms@));
    }
    let drops = collect_drops(&frame.drops);
    log_rows(state, &drops, &mut lines);
    proof {
        log_splits(start, g, all_drop_rows(frame.drops@));
    }
    lines
}

/// A touch that leaves a gated value as it was is never logged: sending the
/// same value twice in a row logs the second one not at all.
pub proof fn repeated_value_is_not_logged(
    memory: Map<(Component, u64), Traced>,
    first: Sighting,
    second: Sighting,
)
    requires
        is_gated(first.component),
        first.change != Change::Same,
        second.component == first.component,
        second.owner == first.owner,
        second.value == first.value,
        second.change == Change::Changed,
    ensures
        line_for(remembered(memory_after(memory, first), second), second) is None,
        memory_after(memory_after(memory, first), second) == memory_after(memory, first),
{
    assert(memory_after(memory_after(memory, first), second) =~= memory_after(memory, first));
}

/// A change is told with the value that was last logged or remembered: after a
/// row, the next change of the same component names that row's value as the
/// old one.
pub proof fn change_names_the_last_value(
    memory: Map<(Component, u64), Traced>,
    first: Sighting,
    second: Sighting,
)
    requires
        is_kept(first.component),
        first.change != Change::Same,
        second.component == first.component,
        second.owner == first.owner,
        second.value != first.value,
        second.change == Change::Changed,
    ensures
        line_for(remembered(memory_after(memory, first), second), second) == Some(
            change_line(second, first.value),
        ),
{
}

/// Rows of one owner or component never touch what is remembered of others.
pub proof fn memories_are_separate(
    memory: Map<(Component, u64), Traced>,
    row: Sighting,
    other: Sighting,
)
    requires
        other.component != row.component || other.owner != row.owner,
    ensures
        remembered(memory_after(memory, row), other) == remembered(memory, other),
{
}

/// What is kept of whom: poses, health values, inventories, acknowledgements and the
/// places of bags and dropped items are told as they come, and of everything else the
/// last value is remembered. Only what is remembered can be held back.
pub proof fn kept_and_held_back_components(component: Component)
    ensures
        !is_kept(component) <==> component == Component::PlayerPose || component
            == Component::PlayerHealth || component == Component::PlayerInventory || component
            == Component::PlayerInputAck || component == Component::LootBagTransform || component
            == Component::DroppedTransform,
        is_gated(component) <==> component == Component::DeployableLabel || component
            == Component::DeployableStability || component == Component::DeployableAuth
            || component == Component::PlayerHeldItem || component == Component::PlayerAction
            || component == Component::DroppedStack,
        is_gated(component) ==> is_kept(component),
{
}

/// Whoever was never seen counts as switched off and awake, without a label, an item or
/// an authorised account, as alive, and as having nothing of what is counted.
pub proof fn unseen_owners_count_as_blank(component: Component)
    ensures
        printed(unseen(component)) == if component == Component::DeployableActive || component
            == Component::PlayerSleeping {
            "false"@
        } else if component == Component::DeployableLabel || component
            == Component::PlayerHeldItem {
            "None"@
        } else if component == Component::DeployableAuth {
            "[]"@
        } else if component == Component::PlayerLifecycle {
            "Alive"@
        } else {
            digits(0)
        },
        remembered(Map::empty(), blank(component)) == unseen(component),
{
}

/// A touch of a component of nobody in particular.
pub open spec fn blank(component: Component) -> Sighting {
    plain_row(component, 0, Seq::empty(), Change::Changed, unseen(component))
}

/// What did not change is neither logged nor remembered; what is new is remembered and,
/// but for a dropped stack, logged; a touch of what is not kept is logged every time.
pub proof fn every_change_is_logged_its_way(
    memory: Map<(Component, u64), Traced>,
    row: Sighting,
)
    ensures
        row.change == Change::Same ==> line_for(remembered(memory, row), row) is None
            && memory_after(memory, row) == memory,
        row.change == Change::Added ==> (line_for(remembered(memory, row), row) is None
            <==> row.component == Component::DroppedStack),
        row.change == Change::Added && is_kept(row.component) ==> remembered(
            memory_after(memory, row),
            row,
        ) == row.value,
        row.change == Change::Changed && !is_kept(row.component) ==> line_for(
            remembered(memory, row),
            row,
        ) is Some && memory_after(memory, row) == memory,
        row.change == Change::Changed && remembered(memory, row) != row.value ==> line_for(
            remembered(memory, row),
            row,
        ) is Some,
        row.change == Change::Changed && is_kept(row.component) && !is_gated(row.component)
            ==> line_for(remembered(memory, row), row) is Some,
        row.change == Change::Changed && is_kept(row.component) ==> remembered(
            memory_after(memory, row),
            row,
        ) == row.value,
{
}

/// Every line names its owner and its entity, and ends with the value it tells of and
/// whatever stands behind that: the given text or the value of a new component, the
/// value of a touched one, and of a changed one the old value and the new.
pub proof fn lines_name_owner_entity_and_value(row: Sighting, before: Traced)
    ensures
        (spawn_head(row.component) + digits(row.owner as nat) + " entity="@
            + row.entity).is_prefix_of(spawn_line(row)),
        (recv_head(row.component) + digits(row.owner as nat) + " entity="@
            + row.entity).is_prefix_of(touch_line(row)),
        (recv_head(row.component) + digits(row.owner as nat) + " entity="@
            + row.entity).is_prefix_of(change_line(row, before)),
        (if row.spawn_text is Some {
            row.spawn_text->0
        } else {
            printed(row.value)
        } + row.tail).is_suffix_of(spawn_line(row)),
        (printed(row.value) + row.tail).is_suffix_of(touch_line(row)),
        (printed(before) + " -> "@ + printed(row.value) + row.tail).is_suffix_of(
            change_line(row, before),
        ),
{
    let own = digits(row.owner as nat) + " entity="@ + row.entity;
    let shown = if row.spawn_text is Some {
        row.spawn_text->0
    } else {
        printed(row.value)
    };
    let spawn = spawn_line(row);
    let touch = touch_line(row);
    let change = change_line(row, before);
    let spawn_end = shown + row.tail;
    let touch_end = printed(row.value) + row.tail;
    let change_end = printed(before) + " -> "@ + printed(row.value) + row.tail;
    let spawn_start = spawn_head(row.component) + digits(row.owner as nat) + " entity="@
        + row.entity;
    let recv_start = recv_head(row.component) + digits(row.owner as nat) + " entity="@ + row.entity;
    assert(spawn =~= spawn_start + value_field(row.component) + spawn_end);
    assert(touch =~= recv_start + value_field(row.component) + touch_end);
    assert(change =~= recv_start + change_field(row.component) + change_end);
    assert(spawn.subrange(spawn.len() - spawn_end.len(), spawn.len() as int) =~= spawn_end);
    assert(touch.subrange(touch.len() - touch_end.len(), touch.len() as int) =~= touch_end);
    assert(change.subrange(change.len() - change_end.len(), change.len() as int) =~= change_end);
}

/// Every material of a node counts: exchanging what is left of one changes the total by
/// just that.
pub proof fn every_material_counts(quantities: Seq<u16>, i: int, left: u16)
    requires
        0 <= i < quantities.len(),
    ensures
        total_of(quantities.update(i, left)) == total_of(quantities) - quantities[i] + left,
        total_of(Seq::<u16>::empty()) == 0,
        quantities.len() == 1 ==> total_of(quantities) == quantities[0],
    decreases quantities.len(),
{
    let changed = quantities.update(i, left);
    if i == quantities.len() - 1 {
        assert(changed.drop_last() =~= quantities.drop_last());
        if quantities.len() == 1 {
            assert(quantities.drop_last() =~= Seq::<u16>::empty());
        }
    } else {
        assert(changed.drop_last() =~= quantities.drop_last().update(i, left));
        assert(changed.last() == quantities.last());
        every_material_counts(quantities.drop_last(), i, left);
    }
}

/// The row of the node at a place stands at that place, and tells what is left of all
/// its materials.
pub proof fn every_node_has_its_row(nodes: Seq<NodeSighting>, k: int)
    requires
        0 <= k < nodes.len(),
    ensures
        ({
            let rows = all_node_rows(nodes);
            &&& rows.len() == nodes.len()
            &&& rows[k].component == Component::NodeStorage
            &&& rows[k].owner == nodes[k].id
            &&& rows[k].entity == nodes[k].entity@
            &&& rows[k].change == nodes[k].change
            &&& rows[k].value == Traced::Number(total_of(nodes[k].quantities@))
            &&& rows[k].spawn_text is None
            &&& rows[k].tail.len() == 0
        }),
    decreases nodes.len(),
{
    let shorter = nodes.drop_last();
    let rest = all_node_rows(shorter);
    if nodes.len() > 1 {
        every_node_has_its_row(
            nodes.drop_last(),
            if k < nodes.len() - 1 {
                k
            } else {
                0
            },
        );
    }
    if k < nodes.len() - 1 {
        assert(shorter[k] == nodes[k]);
        assert(all_node_rows(nodes)[k] == rest[k]);
    }
}

/// Each structure has five rows: health, whether it is active, its label, its stability
/// and its authorised accounts, each with its own change and value. New accounts are
/// told by their number.
pub proof fn every_structure_has_its_rows(list: Seq<DeployableSighting>, k: int)
    requires
        0 <= k < list.len(),
    ensures
        ({
            let rows = all_deployable_rows(list);
            let seen = list[k];
            &&& rows.len() == 5 * list.len()
            &&& forall|j: int|
                5 * k <= j < 5 * k + 5 ==> (#[trigger] rows[j]).owner == seen.id && rows[j].entity
                    == seen.entity@ && rows[j].tail.len() == 0
            &&& rows[5 * k].component == Component::DeployableHealth
            &&& rows[5 * k].change == seen.health.0
            &&& rows[5 * k].value == Traced::Number(seen.health.1 as nat)
            &&& rows[5 * k + 1].component == Component::DeployableActive
            &&& rows[5 * k + 1].change == seen.active.0
            &&& rows[5 * k + 1].value == Traced::Flag(seen.active.1)
            &&& rows[5 * k + 2].component == Component::DeployableLabel
            &&& rows[5 * k + 2].change == seen.label.0
            &&& rows[5 * k + 2].value == Traced::Text(seen.label.1@)
            &&& rows[5 * k + 3].component == Component::DeployableStability
            &&& rows[5 * k + 3].change == seen.stability.0
            &&& rows[5 * k + 3].value == Traced::Number(seen.stability.1 as nat)
            &&& rows[5 * k + 4].component == Component::DeployableAuth
            &&& rows[5 * k + 4].change == seen.auth.0
            &&& rows[5 * k + 4].value == Traced::Text(seen.auth.1@)
            &&& rows[5 * k + 4].spawn_text == Some(digits(seen.auth_count as nat))
        }),
    decreases list.len(),
{
    let shorter = list.drop_last();
    let rest = all_deployable_rows(shorter);
    let rows = all_deployable_rows(list);
    if list.len() > 1 {
        every_structure_has_its_rows(
            shorter,
            if k < list.len() - 1 {
                k
            } else {
                0
            },
        );
    }
    if k < list.len() - 1 {
        assert(shorter[k] == list[k]);
        assert forall|j: int| 5 * k <= j < 5 * k + 5 implies (#[trigger] rows[j]).owner
            == list[k].id && rows[j].entity == list[k].entity@ && rows[j].tail.len() == 0 by {
            assert(rows[j] == rest[j]);
        }
        assert(rows[5 * k] == rest[5 * k]);
        assert(rows[5 * k + 1] == rest[5 * k + 1]);
        assert(rows[5 * k + 2] == rest[5 * k + 2]);
        assert(rows[5 * k + 3] == rest[5 * k + 3]);
        assert(rows[5 * k + 4] == rest[5 * k + 4]);
    }
}

/// The row of an inventory tells how many slots of the bag and the actionbar are taken.
pub proof fn every_inventory_has_its_row(list: Seq<InventorySighting>, k: int)
    requires
        0 <= k < list.len(),
    ensures
        ({
            let rows = all_inventory_rows(list);
            &&& rows.len() == list.len()
            &&& rows[k].component == Component::PlayerInventory
            &&& rows[k].owner == list[k].client_id
            &&& rows[k].entity == list[k].entity@
            &&& rows[k].change == list[k].change
            &&& rows[k].value == Traced::Number(
                occupied(list[k].actionbar_slots@) + occupied(list[k].inventory_slots@),
            )
        }),
    decreases list.len(),
{
    let shorter = list.drop_last();
    let rest = all_inventory_rows(shorter);
    if list.len() > 1 {
        every_inventory_has_its_row(
            list.drop_last(),
            if k < list.len() - 1 {
                k
            } else {
                0
            },
        );
    }
    if k < list.len() - 1 {
        assert(shorter[k] == list[k]);
        assert(all_inventory_rows(list)[k] == rest[k]);
    }
}

/// The row of a loot bag tells how many of its slots are taken, and the row of its
/// place where it lies.
pub proof fn every_bag_has_its_rows(
    list: Seq<BagSighting>,
    places: Seq<BagTransformSighting>,
    k: int,
    m: int,
)
    requires
        0 <= k < list.len(),
        0 <= m < places.len(),
    ensures
        ({
            let rows = all_bag_rows(list);
            &&& rows.len() == list.len()
            &&& rows[k].component == Component::LootBagContents
            &&& rows[k].owner == list[k].id
            &&& rows[k].entity == list[k].entity@
            &&& rows[k].change == list[k].change
            &&& rows[k].value == Traced::Number(occupied(list[k].slots@))
        }),
        ({
            let rows = bag_transform_rows(places);
            &&& rows.len() == places.len()
            &&& rows[m].component == Component::LootBagTransform
            &&& rows[m].owner == places[m].id
            &&& rows[m].entity == places[m].entity@
            &&& rows[m].change == places[m].change
            &&& rows[m].value == Traced::Text(places[m].position@)
        }),
    decreases list.len(),
{
    let shorter = list.drop_last();
    let rest = all_bag_rows(shorter);
    if list.len() > 1 {
        every_bag_has_its_rows(
            list.drop_last(),
            places,
            if k < list.len() - 1 {
                k
            } else {
                0
            },
            m,
        );
    }
    if k < list.len() - 1 {
        assert(shorter[k] == list[k]);
        assert(all_bag_rows(list)[k] == rest[k]);
    }
}

/// A dropped item that comes into view is told once, by its place, and its quantity is
/// remembered for later; a touched stack is told where its quantity is another.
pub proof fn dropped_items_are_told_once(
    memory: Map<(Component, u64), Traced>,
    seen: DropSighting,
)
    requires
        seen.transform == Change::Added,
        seen.stack != Change::Same,
    ensures
        log_of(memory, drop_rows(seen)).len() == 1,
        remembered(
            memory_after_all(memory, drop_rows(seen)),
            plain_row(
                Component::DroppedStack,
                seen.id,
                seen.entity@,
                Change::Changed,
                Traced::Number(0),
            ),
        ) == Traced::Number(seen.quantity as nat),
{
    let rows = drop_rows(seen);
    reveal_with_fuel(log_of, 4);
    reveal_with_fuel(memory_after_all, 4);
    assert(rows.drop_last().drop_last().drop_last() =~= Seq::<Sighting>::empty());
    assert(rows.drop_last().drop_last().last() == rows[0]);
    assert(rows.drop_last().last() == rows[1]);
    assert(rows.last() == rows[2]);
}

/// A dropped item in view whose stack is touched has the new quantity told with the old
/// one, unless it is the same.
pub proof fn touched_stacks_are_told_by_quantity(
    memory: Map<(Component, u64), Traced>,
    seen: DropSighting,
    before: nat,
)
    requires
        seen.transform == Change::Same,
        seen.stack == Change::Changed,
        memory.dom().contains((Component::DroppedStack, seen.id)),
        memory[(Component::DroppedStack, seen.id)] == Traced::Number(before),
    ensures
        before == seen.quantity ==> log_of(memory, drop_rows(seen)).len() == 0,
        before != seen.quantity ==> log_of(memory, drop_rows(seen)) == seq![
            recv_head(Component::DroppedStack) + digits(seen.id as nat) + " entity="@
                + seen.entity@ + " qty "@ + digits(before) + " -> "@ + digits(
                seen.quantity as nat,
            ) + Seq::<char>::empty(),
        ],
{
    let rows = drop_rows(seen);
    reveal_with_fuel(log_of, 4);
    reveal_with_fuel(memory_after_all, 4);
    assert(rows.drop_last().drop_last().drop_last() =~= Seq::<Sighting>::empty());
    assert(rows.drop_last().drop_last().last() == rows[0]);
    assert(rows.drop_last().last() == rows[1]);
    assert(rows.last() == rows[2]);
    let start = memory_after_all(memory, rows.drop_last());
    assert(start == memory);
}

/// Each replicated component of a player has a row with its own change and value, and
/// what is not replicated has none.
pub proof fn players_have_the_rows_of_their_components(seen: PlayerSighting)
    ensures
        forall|component: Component|
            (#[trigger] player_row(seen, component)) matches Some(row) ==> {
                &&& row.component == component
                &&& row.owner == seen.client_id
                &&& row.entity == seen.entity@
                &&& row.spawn_text is None
            },
        player_row(seen, Component::PlayerPose) is Some <==> seen.pose is Some,
        seen.pose matches Some((change, text)) ==> player_row(
            seen,
            Component::PlayerPose,
        )->0.change == change && player_row(seen, Component::PlayerPose)->0.value == Traced::Text(
            text@,
        ),
        player_row(seen, Component::PlayerHealth) is Some <==> seen.health is Some,
        seen.health matches Some((change, text)) ==> player_row(
            seen,
            Component::PlayerHealth,
        )->0.change == change && player_row(seen, Component::PlayerHealth)->0.value
            == Traced::Text(text@),
        player_row(seen, Component::PlayerInputAck) is Some <==> seen.input_ack is Some,
        seen.input_ack matches Some((change, n)) ==> player_row(
            seen,
            Component::PlayerInputAck,
        )->0.change == change && player_row(seen, Component::PlayerInputAck)->0.value
            == Traced::Number(n as nat),
        player_row(seen, Component::PlayerArmor) is Some <==> seen.armor is Some,
        seen.armor matches Some((change, n)) ==> player_row(
            seen,
            Component::PlayerArmor,
        )->0.change == change && player_row(seen, Component::PlayerArmor)->0.value
            == Traced::Number(n as nat),
        player_row(seen, Component::PlayerLifecycle) is Some <==> seen.lifecycle is Some,
        seen.lifecycle matches Some((change, text)) ==> player_row(
            seen,
            Component::PlayerLifecycle,
        )->0.change == change && player_row(seen, Component::PlayerLifecycle)->0.value
            == Traced::Text(text@),
        player_row(seen, Component::PlayerSleeping) is Some <==> seen.sleeping is Some,
        seen.sleeping matches Some((change, flag)) ==> player_row(
            seen,
            Component::PlayerSleeping,
        )->0.change == change && player_row(seen, Component::PlayerSleeping)->0.value
            == Traced::Flag(flag),
        player_row(seen, Component::PlayerHeldItem) is Some <==> seen.held is Some,
        seen.held matches Some((change, text)) ==> player_row(
            seen,
            Component::PlayerHeldItem,
        )->0.change == change && player_row(seen, Component::PlayerHeldItem)->0.value
            == Traced::Text(text@),
        player_row(seen, Component::PlayerAction) is Some <==> seen.action is Some,
        seen.action matches Some((change, n, tool)) ==> {
            let row = player_row(seen, Component::PlayerAction)->0;
            row.change == change && row.value == Traced::Number(n as nat) && row.tail
                == " tool="@ + tool@
        },
{
}

/// The rows of a component come player by player: one more player adds the row of its
/// component behind the others, or nothing where it has none.
pub proof fn group_rows_come_player_by_player(
    players: Seq<PlayerSighting>,
    next: PlayerSighting,
    component: Component,
)
    ensures
        rows_of_group(players.push(next), component) == match player_row(next, component) {
            Some(row) => rows_of_group(players, component).push(row),
            None => rows_of_group(players, component),
        },
        rows_of_group(Seq::empty(), component).len() == 0,
{
    assert(players.push(next).drop_last() =~= players);
}

/// The place of a component in the log of a frame.
pub open spec fn log_place(component: Component) -> int {
    match component {
        Component::NodeStorage => 0,
        Component::DeployableHealth => 1,
        Component::DeployableActive => 1,
        Component::DeployableLabel => 1,
        Component::DeployableStability => 1,
        Component::DeployableAuth => 1,
        Component::PlayerPose => 2,
        Component::PlayerHealth => 3,
        Component::PlayerInventory => 4,
        Component::PlayerInputAck => 5,
        Component::PlayerArmor => 6,
        Component::PlayerLifecycle => 7,
        Component::PlayerSleeping => 8,
        Component::PlayerHeldItem => 9,
        Component::PlayerAction => 10,
        Component::LootBagContents => 11,
        Component::LootBagTransform => 12,
        Component::DroppedTransform => 13,
        Component::DroppedStack => 13,
    }
}

/// All rows have the given place in the log.
pub open spec fn all_at_place(rows: Seq<Sighting>, place: int) -> bool {
    forall|i: int| 0 <= i < rows.len() ==> log_place((#[trigger] rows[i]).component) == place
}

/// No row stands behind one of a later place, and none is of a place past the last.
pub open spec fn in_log_order(rows: Seq<Sighting>, last: int) -> bool {
    &&& forall|i: int|
        0 <= i < rows.len() ==> log_place((#[trigger] rows[i]).component) <= last
    &&& forall|i: int, j: int|
        0 <= i <= j < rows.len() ==> log_place((#[trigger] rows[i]).component) <= log_place(
            (#[trigger] rows[j]).component,
        )
}

proof fn order_goes_on(rows: Seq<Sighting>, more: Seq<Sighting>, last: int, place: int)
    requires
        in_log_order(rows, last),
        all_at_place(more, place),
        last < place,
    ensures
        in_log_order(rows + more, place),
{
    let all = rows + more;
    assert forall|i: int| 0 <= i < all.len() implies log_place((#[trigger] all[i]).component)
        <= place by {
        if i < rows.len() {
            assert(all[i] == rows[i]);
        } else {
            assert(all[i] == more[i - rows.len()]);
        }
    }
    assert forall|i: int, j: int| 0 <= i <= j < all.len() implies log_place(
        (#[trigger] all[i]).component,
    ) <= log_place((#[trigger] all[j]).component) by {
        if j < rows.len() {
            assert(all[i] == rows[i] && all[j] == rows[j]);
        } else {
            assert(all[j] == more[j - rows.len()]);
            if i >= rows.len() {
                assert(all[i] == more[i - rows.len()]);
            }
        }
    }
}

proof fn group_is_at_its_place(players: Seq<PlayerSighting>, component: Component)
    ensures
        all_at_place(rows_of_group(players, component), log_place(component)),
    decreases players.len(),
{
    if players.len() > 0 {
        group_is_at_its_place(players.drop_last(), component);
        players_have_the_rows_of_their_components(players.last());
    }
}

proof fn nodes_are_at_their_place(nodes: Seq<NodeSighting>)
    ensures
        all_at_place(all_node_rows(nodes), 0),
    decreases nodes.len(),
{
    if nodes.len() > 0 {
        nodes_are_at_their_place(nodes.drop_last());
    }
}

proof fn structures_are_at_their_place(list: Seq<DeployableSighting>)
    ensures
        all_at_place(all_deployable_rows(list), 1),
    decreases list.len(),
{
    if list.len() > 0 {
        structures_are_at_their_place(list.drop_last());
    }
}

proof fn inventories_are_at_their_place(list: Seq<InventorySighting>)
    ensures
        all_at_place(all_inventory_rows(list), 4),
    decreases list.len(),
{
    if list.len() > 0 {
        inventories_are_at_their_place(list.drop_last());
    }
}

proof fn bags_are_at_their_place(list: Seq<BagSighting>)
    ensures
        all_at_place(all_bag_rows(list), 11),
    decreases list.len(),
{
    if list.len() > 0 {
        bags_are_at_their_place(list.drop_last());
    }
}

proof fn drops_are_at_their_place(list: Seq<DropSighting>)
    ensures
        all_at_place(all_drop_rows(list), 13),
    decreases list.len(),
{
    if list.len() > 0 {
        drops_are_at_their_place(list.drop_last());
    }
}

/// A frame is logged kind by kind: nodes, structures, poses, health values, inventories,
/// what else is replicated of the players component by component, loot bags, their
/// places, and dropped items.
pub proof fn frames_are_logged_kind_by_kind(frame: ReplicationFrame)
    ensures
        in_log_order(frame_rows(frame), 13),
{
    let players = frame.players@;
    nodes_are_at_their_place(frame.nodes@);
    structures_are_at_their_place(frame.deployables@);
    inventories_are_at_their_place(frame.inventories@);
    bags_are_at_their_place(frame.bags@);
    drops_are_at_their_place(frame.drops@);
    group_is_at_its_place(players, Component::PlayerPose);
    group_is_at_its_place(players, Component::PlayerHealth);
    group_is_at_its_place(players, Component::PlayerInputAck);
    group_is_at_its_place(players, Component::PlayerArmor);
    group_is_at_its_place(players, Component::PlayerLifecycle);
    group_is_at_its_place(players, Component::PlayerSleeping);
    group_is_at_its_place(players, Component::PlayerHeldItem);
    group_is_at_its_place(players, Component::PlayerAction);
    assert(all_at_place(bag_transform_rows(frame.bag_transforms@), 12));
    let a = all_node_rows(frame.nodes@);
    let b = a + all_deployable_rows(frame.deployables@);
    let c = b + pose_rows(players);
    let d = c + health_rows(players);
    let e = d + all_inventory_rows(frame.inventories@);
    let f = e + ack_rows(players);
    let g = f + armor_rows(players);
    let h = g + lifecycle_rows(players);
    let k = h + sleep_rows(players);
    let l = k + held_rows(players);
    let m = l + action_rows(players);
    let n = m + all_bag_rows(frame.bags@);
    let o = n + bag_transform_rows(frame.bag_transforms@);
    let p = o + all_drop_rows(frame.drops@);
    assert(in_log_order(a, 0));
    order_goes_on(a, all_deployable_rows(frame.deployables@), 0, 1);
    order_goes_on(b, pose_rows(players), 1, 2);
    order_goes_on(c, health_rows(players), 2, 3);
    order_goes_on(d, all_inventory_rows(frame.inventories@), 3, 4);
    order_goes_on(e, ack_rows(players), 4, 5);
    order_goes_on(f, armor_rows(players), 5, 6);
    order_goes_on(g, lifecycle_rows(players), 6, 7);
    order_goes_on(h, sleep_rows(players), 7, 8);
    order_goes_on(k, held_rows(players), 8, 9);
    order_goes_on(l, action_rows(players), 9, 10);
    order_goes_on(m, all_bag_rows(frame.bags@), 10, 11);
    order_goes_on(n, bag_transform_rows(frame.bag_transforms@), 11, 12);
    order_goes_on(o, all_drop_rows(frame.drops@), 12, 13);
    assert(frame_rows(frame) =~= p);
}

/// No part of a frame is left out: its rows are as many as the rows of its parts.
pub proof fn no_part_of_a_frame_is_left_out(frame: ReplicationFrame)
    ensures
        frame_rows(frame).len() == all_node_rows(frame.nodes@).len() + all_deployable_rows(
            frame.deployables@,
        ).len() + all_inventory_rows(frame.inventories@).len() + all_bag_rows(
            frame.bags@,
        ).len() + frame.bag_transforms@.len() + all_drop_rows(frame.drops@).len() + rows_of_group(
            frame.players@,
            Component::PlayerPose,
        ).len() + rows_of_group(frame.players@, Component::PlayerHealth).len() + rows_of_group(
            frame.players@,
            Component::PlayerInputAck,
        ).len() + rows_of_group(frame.players@, Component::PlayerArmor).len() + rows_of_group(
            frame.players@,
            Component::PlayerLifecycle,
        ).len() + rows_of_group(frame.players@, Component::PlayerSleeping).len() + rows_of_group(
            frame.players@,
            Component::PlayerHeldItem,
        ).len() + rows_of_group(frame.players@, Component::PlayerAction).len(),
{
}

/// A frame in two parts is logged like the parts one after the other, and what the
/// first part taught the second part knows.
pub proof fn parts_of_a_frame_are_logged_in_turn(
    memory: Map<(Component, u64), Traced>,
    first: Seq<Sighting>,
    second: Seq<Sighting>,
)
    ensures
        log_of(memory, first + second) == log_of(memory, first) + log_of(
            memory_after_all(memory, first),
            second,
        ),
        memory_after_all(memory, first + second) == memory_after_all(
            memory_after_all(memory, first),
            second,
        ),
{
    log_splits(memory, first, second);
}

/// A row is seen with everything it holds.
pub proof fn rows_are_seen_as_they_are(row: TraceRow)
    ensures
        ({
            let seen = row.sighting();
            &&& seen.component == row.component
            &&& seen.owner == row.owner
            &&& seen.entity == row.entity@
            &&& seen.change == row.change
            &&& seen.value == row.value.traced()
            &&& seen.tail == row.tail@
            &&& row.spawn_text is None <==> seen.spawn_text is None
            &&& row.spawn_text matches Some(text) ==> seen.spawn_text == Some(text@)
        }),
{
}

/// Numbers, flags and texts read as themselves, and no two kinds are the same value.
pub proof fn values_read_as_themselves(n: u64, b: bool, t: String)
    ensures
        TraceValue::Number(n).traced() == Traced::Number(n as nat),
        TraceValue::Flag(b).traced() == Traced::Flag(b),
        TraceValue::Text(t).traced() == Traced::Text(t@),
        printed(Traced::Number(n as nat)) == digits(n as nat),
        printed(Traced::Text(t@)) == t@,
        b ==> printed(Traced::Flag(b)) == "true"@,
        !b ==> printed(Traced::Flag(b)) == "false"@,
{
}

} // verus!
