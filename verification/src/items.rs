//! Items, stacks, slots and the player's inventory.
use vstd::prelude::*;
use crate::text::same_text;

verus! {

/// The placeholder colour of an item.
#[derive(Clone, Copy, Debug, PartialEq, Eq, Structural)]
pub struct ItemTint {
    pub r: u8,
    pub g: u8,
    pub b: u8,
}

/// What a placed structure is. Furnaces and workbenches come in tiers.
#[derive(Clone, Copy, Debug, PartialEq, Eq, Structural)]
pub enum DeployableKind {
    Furnace { tier: u8 },
    Workbench { tier: u8 },
    Building,
    Door,
    SleepingBag,
    StorageBox,
    RuinCache,
    Torch,
    ToolCupboard,
    Explosive,
}

/// What hand a resource needs.
#[derive(Clone, Copy, Debug, PartialEq, Eq, Structural)]
pub enum ToolKind {
    Hands,
    Axe,
    Pickaxe,
}

/// The four worn slots, from the top of the body down.
#[derive(Clone, Copy, Debug, PartialEq, Eq, Structural)]
pub enum EquipmentSlot {
    Head,
    Chest,
    Legs,
    Feet,
}

impl EquipmentSlot {
    pub open spec fn position(self) -> int {
        match self {
            EquipmentSlot::Head => 0,
            EquipmentSlot::Chest => 1,
            EquipmentSlot::Legs => 2,
            EquipmentSlot::Feet => 3,
        }
    }

    pub open spec fn label_text(self) -> Seq<char> {
        match self {
            EquipmentSlot::Head => "Head"@,
            EquipmentSlot::Chest => "Chest"@,
            EquipmentSlot::Legs => "Legs"@,
            EquipmentSlot::Feet => "Feet"@,
        }
    }

    /// The position of the slot among the worn slots.
    pub fn index(self) -> (r: usize)
        ensures
            r == self.position(),
    {
        match self {
            EquipmentSlot::Head => 0,
            EquipmentSlot::Chest => 1,
            EquipmentSlot::Legs => 2,
            EquipmentSlot::Feet => 3,
        }
    }

    /// The name that an empty slot shows.
    pub fn label(self) -> (r: String)
        ensures
            r@ == self.label_text(),
    {
        match self {
            EquipmentSlot::Head => "Head".to_owned(),
            EquipmentSlot::Chest => "Chest".to_owned(),
            EquipmentSlot::Legs => "Legs".to_owned(),
            EquipmentSlot::Feet => "Feet".to_owned(),
        }
    }
}

/// What a gathering tool does.
pub struct ToolProfile {
    pub kind_label: String,
    pub tier: u8,
    pub gather_amount: u16,
    pub max_durability: Option<u16>,
}

/// What a worn piece protects from, in percent per kind of damage.
#[derive(Clone, Copy, Debug, PartialEq, Eq)]
pub struct ArmorProfile {
    pub slot: EquipmentSlot,
    pub melee_protection_pct: u8,
    pub projectile_protection_pct: u8,
    pub blast_protection_pct: u8,
    pub max_durability: Option<u16>,
}

/// What placing an item puts into the world. Lengths are in millimetres.
pub struct DeployableProfile {
    pub kind: DeployableKind,
    pub label: String,
    pub station_radius: u32,
    pub collider_half_height: u32,
}

/// How an explosive is delivered.
#[derive(Clone, Copy, Debug, PartialEq, Eq, Structural)]
pub enum ExplosiveDelivery {
    Thrown,
    Placed,
}

/// What is seen in a hand. Two meshes move with what their owner does.
#[derive(Clone, Copy, Debug, PartialEq, Eq, Structural)]
pub enum HeldMesh {
    WoodenBow,
    Bandage,
    Other { index: u16 },
}

/// One row of the item registry.
pub struct ItemDefinition {
    pub id: String,
    pub name: String,
    pub description: String,
    pub stack_size: u16,
    pub tint: ItemTint,
    pub equipable: bool,
    pub held_mesh: HeldMesh,
    pub tool: Option<ToolProfile>,
    pub deployable: Option<DeployableProfile>,
    pub armor: Option<ArmorProfile>,
    /// The item that a ranged weapon shoots.
    pub ammo_item: Option<String>,
    pub explosive: Option<ExplosiveDelivery>,
    pub consumable: bool,
}

/// The row of `items` with the given id; the first of them where several have it.
pub open spec fn item_of(items: Seq<ItemDefinition>, id: Seq<char>) -> Option<ItemDefinition>
    decreases items.len(),
{
    if items.len() == 0 {
        None
    } else if items[0].id@ == id {
        Some(items[0])
    } else {
        item_of(items.drop_first(), id)
    }
}

/// Looks an item up in the registry.
pub fn item_definition<'a>(items: &'a Vec<ItemDefinition>, id: &str) -> (r: Option<
    &'a ItemDefinition,
>)
    ensures
        r is Some <==> item_of(items@, id@) is Some,
        r is Some ==> *r->0 == item_of(items@, id@)->0,
{
    let mut i: usize = 0;
    proof {
        assert(items@.skip(0) =~= items@);
    }
    while i < items.len()
        invariant
            i <= items.len(),
            item_of(items@, id@) == item_of(items@.skip(i as int), id@),
        decreases items.len() - i,
    {
        proof {
            assert(items@.skip(i as int)[0] == items@[i as int]);
            assert(items@.skip(i as int).drop_first() =~= items@.skip(i + 1));
        }
        if same_text(items[i].id.as_str(), id) {
            return Some(&items[i]);
        }
        i = i + 1;
    }
    None
}

/// The name an item goes by: its registry name, or its id where it has none.
pub open spec fn name_of(items: Seq<ItemDefinition>, id: Seq<char>) -> Seq<char> {
    match item_of(items, id) {
        Some(definition) => definition.name@,
        None => id,
    }
}

/// The display name of an item.
pub fn display_name(items: &Vec<ItemDefinition>, id: &str) -> (r: String)
    ensures
        r@ == name_of(items@, id@),
{
    match item_definition(items, id) {
        Some(definition) => definition.name.clone(),
        None => id.to_owned(),
    }
}

/// A number of equal items in one slot; tools and worn pieces carry their wear.
pub struct ItemStack {
    pub item_id: String,
    pub quantity: u16,
    pub durability: Option<u16>,
}

impl Clone for ItemStack {
    fn clone(&self) -> (r: Self)
        ensures
            r == *self,
    {
        ItemStack {
            item_id: self.item_id.clone(),
            quantity: self.quantity,
            durability: self.durability,
        }
    }
}

/// The three groups of slots that a player carries.
#[derive(Clone, Copy, Debug, PartialEq, Eq, Structural)]
pub enum ItemContainer {
    Inventory,
    Actionbar,
    Equipment,
}

/// One slot of the player.
#[derive(Clone, Copy, Debug, PartialEq, Eq, Structural)]
pub struct ItemContainerSlot {
    pub container: ItemContainer,
    pub slot: usize,
}

impl ItemContainerSlot {
    /// A slot of the bag.
    pub fn inventory(slot: usize) -> (r: Self)
        ensures
            r == (ItemContainerSlot { container: ItemContainer::Inventory, slot }),
    {
        ItemContainerSlot { container: ItemContainer::Inventory, slot }
    }

    /// A slot of the actionbar.
    pub fn actionbar(slot: usize) -> (r: Self)
        ensures
            r == (ItemContainerSlot { container: ItemContainer::Actionbar, slot }),
    {
        ItemContainerSlot { container: ItemContainer::Actionbar, slot }
    }

    /// A worn slot.
    pub fn equipment(slot: EquipmentSlot) -> (r: Self)
        ensures
            r.container == ItemContainer::Equipment,
            r.slot == slot.position(),
    {
        ItemContainerSlot { container: ItemContainer::Equipment, slot: slot.index() }
    }
}

/// What a player carries.
pub struct PlayerInventoryState {
    pub inventory_slots: Vec<Option<ItemStack>>,
    pub actionbar_slots: Vec<Option<ItemStack>>,
    pub equipment_slots: Vec<Option<ItemStack>>,
    pub active_actionbar_slot: usize,
}

/// What stands at position `i` of a group of slots: nothing behind its end.
pub open spec fn stack_at(slots: Seq<Option<ItemStack>>, i: int) -> Option<ItemStack> {
    if 0 <= i < slots.len() {
        slots[i]
    } else {
        None
    }
}

impl PlayerInventoryState {
    /// The slots of one group.
    pub open spec fn group(self, container: ItemContainer) -> Seq<Option<ItemStack>> {
        match container {
            ItemContainer::Inventory => self.inventory_slots@,
            ItemContainer::Actionbar => self.actionbar_slots@,
            ItemContainer::Equipment => self.equipment_slots@,
        }
    }

    /// What a slot holds.
    pub open spec fn stack_in(self, slot: ItemContainerSlot) -> Option<ItemStack> {
        stack_at(self.group(slot.container), slot.slot as int)
    }

    /// What the player holds in hand.
    pub open spec fn active_stack(self) -> Option<ItemStack> {
        stack_at(self.actionbar_slots@, self.active_actionbar_slot as int)
    }

    /// The slots that count as carried material: the bag, then the actionbar.
    pub open spec fn carried(self) -> Seq<Option<ItemStack>> {
        self.inventory_slots@ + self.actionbar_slots@
    }

    /// The stack that the player holds in hand.
    pub fn active_actionbar_stack(&self) -> (r: Option<&ItemStack>)
        ensures
            r is Some <==> self.active_stack() is Some,
            r is Some ==> *r->0 == self.active_stack()->0,
    {
        read_slot(&self.actionbar_slots, self.active_actionbar_slot)
    }
}

/// Reads one slot of a group.
pub fn read_slot(slots: &Vec<Option<ItemStack>>, i: usize) -> (r: Option<&ItemStack>)
    ensures
        r is Some <==> stack_at(slots@, i as int) is Some,
        r is Some ==> *r->0 == stack_at(slots@, i as int)->0,
{
    if i < slots.len() {
        slots[i].as_ref()
    } else {
        None
    }
}

/// Reads one slot of the player; a slot that does not exist is empty.
pub fn slot_stack(inventory: &PlayerInventoryState, slot: ItemContainerSlot) -> (r: Option<
    &ItemStack,
>)
    ensures
        r is Some <==> inventory.stack_in(slot) is Some,
        r is Some ==> *r->0 == inventory.stack_in(slot)->0,
{
    match slot.container {
        ItemContainer::Inventory => read_slot(&inventory.inventory_slots, slot.slot),
        ItemContainer::Actionbar => read_slot(&inventory.actionbar_slots, slot.slot),
        ItemContainer::Equipment => read_slot(&inventory.equipment_slots, slot.slot),
    }
}

/// How many items with the given id lie in the slots.
pub open spec fn amount(slots: Seq<Option<ItemStack>>, id: Seq<char>) -> nat
    decreases slots.len(),
{
    if slots.len() == 0 {
        0
    } else {
        amount(slots.drop_last(), id) + match slots.last() {
            Some(stack) => if stack.item_id@ == id {
                stack.quantity as nat
            } else {
                0
            },
            None => 0,
        }
    }
}

/// The amounts of two groups of slots add up.
pub proof fn amount_of_both(a: Seq<Option<ItemStack>>, b: Seq<Option<ItemStack>>, id: Seq<char>)
    ensures
        amount(a + b, id) == amount(a, id) + amount(b, id),
    decreases b.len(),
{
    if b.len() == 0 {
        assert(a + b =~= a);
    } else {
        assert((a + b).drop_last() =~= a + b.drop_last());
        amount_of_both(a, b.drop_last(), id);
    }
}

/// Counts the items with the given id, up to what 32 bits can hold.
fn count_slots(slots: &Vec<Option<ItemStack>>, id: &str, start: u32) -> (r: u32)
    ensures
        r == if start + amount(slots@, id@) > u32::MAX {
            u32::MAX as int
        } else {
            start + amount(slots@, id@)
        },
{
    let mut total: u32 = start;
    let mut i: usize = 0;
    while i < slots.len()
        invariant
            i <= slots.len(),
            total == if start + amount(slots@.take(i as int), id@) > u32::MAX {
                u32::MAX as int
            } else {
                start + amount(slots@.take(i as int), id@)
            },
        decreases slots.len() - i,
    {
        proof {
            assert(slots@.take(i + 1).drop_last() =~= slots@.take(i as int));
            assert(slots@.take(i + 1).last() == slots@[i as int]);
        }
        if let Some(stack) = &slots[i] {
            if same_text(stack.item_id.as_str(), id) {
                total = total.saturating_add(stack.quantity as u32);
            }
        }
        i = i + 1;
    }
    proof {
        assert(slots@.take(i as int) =~= slots@);
    }
    total
}

/// How many items with the given id a player carries in the bag and the
/// actionbar.
pub open spec fn carried_amount(inventory: PlayerInventoryState, id: Seq<char>) -> nat {
    amount(inventory.carried(), id)
}

/// How many items with the given id the player carries in the bag and the
/// actionbar, up to what 16 bits can hold.
pub fn count_in_inventory(inventory: &PlayerInventoryState, item_id: &str) -> (r: u16)
    ensures
        r == if carried_amount(*inventory, item_id@) > 65535 {
            65535
        } else {
            carried_amount(*inventory, item_id@) as int
        },
{
    proof {
        amount_of_both(inventory.inventory_slots@, inventory.actionbar_slots@, item_id@);
    }
    let bag = count_slots(&inventory.inventory_slots, item_id, 0);
    let total = count_slots(&inventory.actionbar_slots, item_id, bag);
    if total > 65535 {
        65535
    } else {
        total as u16
    }
}

/// How many items with the given id the player carries, up to what 32 bits can
/// hold.
pub fn count_items_in_inventory(inventory: &PlayerInventoryState, item_id: &str) -> (r: u32)
    ensures
        r == if carried_amount(*inventory, item_id@) > u32::MAX {
            u32::MAX as int
        } else {
            carried_amount(*inventory, item_id@) as int
        },
{
    proof {
        amount_of_both(inventory.inventory_slots@, inventory.actionbar_slots@, item_id@);
    }
    let bag = count_slots(&inventory.inventory_slots, item_id, 0);
    count_slots(&inventory.actionbar_slots, item_id, bag)
}

/// How many slots hold something.
pub open spec fn occupied(slots: Seq<Option<ItemStack>>) -> nat
    decreases slots.len(),
{
    if slots.len() == 0 {
        0
    } else {
        occupied(slots.drop_last()) + if slots.last() is Some {
            1nat
        } else {
            0
        }
    }
}

/// Counts the slots that hold something.
pub fn occupied_slots(slots: &Vec<Option<ItemStack>>) -> (r: usize)
    ensures
        r == occupied(slots@),
        r <= slots.len(),
{
    let mut total: usize = 0;
    let mut i: usize = 0;
    while i < slots.len()
        invariant
            i <= slots.len(),
            total <= i,
            total == occupied(slots@.take(i as int)),
        decreases slots.len() - i,
    {
        proof {
            assert(slots@.take(i + 1).drop_last() =~= slots@.take(i as int));
            assert(slots@.take(i + 1).last() == slots@[i as int]);
        }
        if slots[i].is_some() {
            total = total + 1;
        }
        i = i + 1;
    }
    proof {
        assert(slots@.take(i as int) =~= slots@);
    }
    total
}

/// A point of the world, in millimetres.
#[derive(Clone, Copy, Debug, PartialEq, Eq, Structural)]
pub struct Vec3Net {
    pub x: i32,
    pub y: i32,
    pub z: i32,
}

/// Whether `b` lies at most `range` millimetres from `a`, height aside.
pub open spec fn within_range(a: Vec3Net, b: Vec3Net, range: int) -> bool {
    (a.x - b.x) * (a.x - b.x) + (a.z - b.z) * (a.z - b.z) <= range * range
}

impl Vec3Net {
    /// Whether `other` lies at most `range` away, height aside.
    pub fn within_horizontal_range(self, other: Vec3Net, range: u32) -> (r: bool)
        ensures
            r == within_range(self, other, range as int),
    {
        let dx: i128 = self.x as i128 - other.x as i128;
        let dz: i128 = self.z as i128 - other.z as i128;
        let reach: i128 = range as i128;
        proof {
            let limit: int = 0x1_0000_0000;
            assert(dx * dx <= limit * limit) by (nonlinear_arith)
                requires
                    -limit <= dx <= limit,
                    limit == 0x1_0000_0000,
            ;
            assert(dz * dz <= limit * limit) by (nonlinear_arith)
                requires
                    -limit <= dz <= limit,
                    limit == 0x1_0000_0000,
            ;
            assert(reach * reach <= limit * limit) by (nonlinear_arith)
                requires
                    0 <= reach <= limit,
                    limit == 0x1_0000_0000,
            ;
            assert(dx * dx >= 0) by (nonlinear_arith);
            assert(dz * dz >= 0) by (nonlinear_arith);
            assert(reach * reach >= 0) by (nonlinear_arith);
            assert(limit * limit == 0x1_0000_0000_0000_0000) by (nonlinear_arith)
                requires
                    limit == 0x1_0000_0000,
            ;
        }
        dx * dx + dz * dz <= reach * reach
    }
}

/// The registry answers with a row of the asked id that no other of that id stands
/// before, and with none only where there is none.
pub proof fn first_row_of_the_id_is_found(items: Seq<ItemDefinition>, id: Seq<char>, k: int)
    requires
        0 <= k < items.len(),
        items[k].id@ == id,
        forall|i: int| 0 <= i < k ==> (#[trigger] items[i]).id@ != id,
    ensures
        item_of(items, id) == Some(items[k]),
        name_of(items, id) == items[k].name@,
    decreases k,
{
    if k > 0 {
        assert(items[0].id@ != id);
        let rest = items.drop_first();
        assert(rest[k - 1] == items[k]);
        assert forall|i: int| 0 <= i < k - 1 implies (#[trigger] rest[i]).id@ != id by {
            assert(rest[i] == items[i + 1]);
        }
        first_row_of_the_id_is_found(rest, id, k - 1);
    }
}

/// An id that no row has is answered with nothing, and is its own name.
pub proof fn unknown_id_is_its_own_name(items: Seq<ItemDefinition>, id: Seq<char>)
    requires
        forall|i: int| 0 <= i < items.len() ==> (#[trigger] items[i]).id@ != id,
    ensures
        item_of(items, id) is None,
        name_of(items, id) == id,
    decreases items.len(),
{
    if items.len() > 0 {
        assert(items[0].id@ != id);
        let rest = items.drop_first();
        assert forall|i: int| 0 <= i < rest.len() implies (#[trigger] rest[i]).id@ != id by {
            assert(rest[i] == items[i + 1]);
        }
        unknown_id_is_its_own_name(rest, id);
    }
}

/// Exchanging what one slot holds changes the amount by exactly the items of the
/// asked id that went and came, wherever the slot stands.
pub proof fn every_slot_counts(
    slots: Seq<Option<ItemStack>>,
    i: int,
    stack: Option<ItemStack>,
    id: Seq<char>,
)
    requires
        0 <= i < slots.len(),
    ensures
        ({
            let went: int = if slots[i] is Some && slots[i]->0.item_id@ == id {
                slots[i]->0.quantity as int
            } else {
                0
            };
            let came: int = if stack is Some && stack->0.item_id@ == id {
                stack->0.quantity as int
            } else {
                0
            };
            amount(slots.update(i, stack), id) == amount(slots, id) - went + came
        }),
    decreases slots.len(),
{
    let changed = slots.update(i, stack);
    if i == slots.len() - 1 {
        assert(changed.drop_last() =~= slots.drop_last());
    } else {
        assert(changed.drop_last() =~= slots.drop_last().update(i, stack));
        assert(changed.last() == slots.last());
        every_slot_counts(slots.drop_last(), i, stack, id);
    }
}

/// Empty slots hold nothing of anything.
pub proof fn empty_slots_hold_nothing(slots: Seq<Option<ItemStack>>, id: Seq<char>)
    requires
        forall|i: int| 0 <= i < slots.len() ==> (#[trigger] slots[i]) is None,
    ensures
        amount(slots, id) == 0,
        occupied(slots) == 0,
    decreases slots.len(),
{
    if slots.len() > 0 {
        let rest = slots.drop_last();
        assert(slots[slots.len() - 1] is None);
        assert forall|i: int| 0 <= i < rest.len() implies (#[trigger] rest[i]) is None by {
            assert(rest[i] == slots[i]);
        }
        empty_slots_hold_nothing(rest, id);
    }
}

/// What a player carries lies in the bag and the actionbar together, and what is worn
/// does not count.
pub proof fn bag_and_actionbar_are_carried(
    inventory: PlayerInventoryState,
    dressed: PlayerInventoryState,
    id: Seq<char>,
)
    requires
        dressed.inventory_slots == inventory.inventory_slots,
        dressed.actionbar_slots == inventory.actionbar_slots,
    ensures
        carried_amount(inventory, id) == amount(inventory.inventory_slots@, id) + amount(
            inventory.actionbar_slots@,
            id,
        ),
        carried_amount(dressed, id) == carried_amount(inventory, id),
{
    amount_of_both(inventory.inventory_slots@, inventory.actionbar_slots@, id);
}

/// Filling an empty slot takes up one slot more, and emptying a filled one frees it.
pub proof fn every_filled_slot_is_occupied(
    slots: Seq<Option<ItemStack>>,
    i: int,
    stack: ItemStack,
)
    requires
        0 <= i < slots.len(),
    ensures
        slots[i] is None ==> occupied(slots.update(i, Some(stack))) == occupied(slots) + 1,
        slots[i] is Some ==> occupied(slots.update(i, Some(stack))) == occupied(slots),
        slots[i] is Some ==> occupied(slots.update(i, None)) == occupied(slots) - 1,
    decreases slots.len(),
{
    let filled = slots.update(i, Some(stack));
    let freed = slots.update(i, None);
    if i == slots.len() - 1 {
        assert(filled.drop_last() =~= slots.drop_last());
        assert(freed.drop_last() =~= slots.drop_last());
    } else {
        assert(filled.drop_last() =~= slots.drop_last().update(i, Some(stack)));
        assert(freed.drop_last() =~= slots.drop_last().update(i, None));
        every_filled_slot_is_occupied(slots.drop_last(), i, stack);
    }
}

/// Each container has slots of its own: what a slot holds is what stands there in the
/// bag, on the actionbar or on the body, and nothing where there is no such slot. In
/// hand is what the active slot of the actionbar holds.
pub proof fn slots_are_read_from_their_container(inventory: PlayerInventoryState, slot: usize)
    ensures
        forall|container: ItemContainer|
            ({
                let held = #[trigger] inventory.stack_in(ItemContainerSlot { container, slot });
                let row = if container == ItemContainer::Inventory {
                    inventory.inventory_slots@
                } else if container == ItemContainer::Actionbar {
                    inventory.actionbar_slots@
                } else {
                    inventory.equipment_slots@
                };
                if slot < row.len() {
                    held == row[slot as int]
                } else {
                    held is None
                }
            }),
        inventory.active_actionbar_slot < inventory.actionbar_slots@.len()
            ==> inventory.active_stack() == inventory.actionbar_slots@[
            inventory.active_actionbar_slot as int],
        inventory.active_actionbar_slot >= inventory.actionbar_slots@.len()
            ==> inventory.active_stack() is None,
{
}

/// A place is within reach of another however high either lies, whichever of the two
/// is asked from, and of itself always; a longer reach reaches no less; along one axis
/// the reach is the plain distance.
pub proof fn reach_is_a_level_distance(a: Vec3Net, b: Vec3Net, high: Vec3Net, near: int, far: int)
    requires
        high.x == b.x,
        high.z == b.z,
        0 <= near <= far,
    ensures
        within_range(a, b, near) == within_range(b, a, near),
        within_range(a, b, near) == within_range(a, high, near),
        within_range(a, a, near),
        within_range(a, b, near) ==> within_range(a, b, far),
        a.z == b.z ==> (within_range(a, b, near) <==> -near <= a.x - b.x <= near),
        a.x == b.x ==> (within_range(a, b, near) <==> -near <= a.z - b.z <= near),
{
    let dx = a.x - b.x;
    let dz = a.z - b.z;
    assert((b.x - a.x) * (b.x - a.x) == dx * dx && (b.z - a.z) * (b.z - a.z) == dz * dz)
        by (nonlinear_arith)
        requires
            dx == a.x - b.x,
            dz == a.z - b.z,
    ;
    assert(near * near <= far * far && 0 <= near * near) by (nonlinear_arith)
        requires
            0 <= near <= far,
    ;
    assert(dz == 0 ==> dz * dz == 0) by (nonlinear_arith);
    assert(dx == 0 ==> dx * dx == 0) by (nonlinear_arith);
    assert(dx * dx <= near * near <==> -near <= dx <= near) by (nonlinear_arith)
        requires
            0 <= near,
    ;
    assert(dz * dz <= near * near <==> -near <= dz <= near) by (nonlinear_arith)
        requires
            0 <= near,
    ;
}

/// The worn slots stand apart, from the head down.
pub proof fn worn_slots_stand_apart(a: EquipmentSlot, b: EquipmentSlot)
    ensures
        a.position() == b.position() ==> a == b,
        0 <= a.position() < 4,
        EquipmentSlot::Head.position() < EquipmentSlot::Chest.position()
            < EquipmentSlot::Legs.position() < EquipmentSlot::Feet.position(),
{
}

} // verus!
