//! The worn set: its protection, and the column that shows it.
use vstd::prelude::*;
use crate::inventory::slot::SLOT_SIZE;
use crate::items::{
    EquipmentSlot, ItemContainer, ItemContainerSlot, ItemDefinition, ItemStack,
    PlayerInventoryState, first_row_of_the_id_is_found, item_definition, item_of, slot_stack,
};
use crate::text::{decimal, digits, opt_text};

verus! {

/// The size of the character preview, in pixels.
pub const PREVIEW_WIDTH: u32 = 150;

pub const PREVIEW_HEIGHT: u32 = 320;

/// The gap between the slots and the preview.
pub const PREVIEW_GAP: u32 = 10;

/// The width of the column: a slot, the gap and the preview.
pub const PAPERDOLL_COLUMN_WIDTH: u32 = SLOT_SIZE + PREVIEW_GAP + PREVIEW_WIDTH;

/// The gap between the column and the bag.
pub const PAPERDOLL_COLUMN_GAP: u32 = 16;

/// Protection in percent per kind of damage.
#[derive(Clone, Copy, Debug, PartialEq, Eq, Structural)]
pub struct ArmorProtection {
    pub melee: u8,
    pub projectile: u8,
    pub blast: u8,
}

/// The sum of two percentages, up to what eight bits can hold.
pub open spec fn capped_sum(a: int, b: int) -> int {
    if a + b > 255 {
        255
    } else {
        a + b
    }
}

/// What one slot adds to the protection.
pub open spec fn slot_protection(items: Seq<ItemDefinition>, slot: Option<ItemStack>) -> (
    int,
    int,
    int,
) {
    match slot {
        Some(stack) => match item_of(items, stack.item_id@) {
            Some(definition) => match definition.armor {
                Some(armor) => (
                    armor.melee_protection_pct as int,
                    armor.projectile_protection_pct as int,
                    armor.blast_protection_pct as int,
                ),
                None => (0, 0, 0),
            },
            None => (0, 0, 0),
        },
        None => (0, 0, 0),
    }
}

/// What a row of slots adds up to, kind by kind.
pub open spec fn total_protection(items: Seq<ItemDefinition>, slots: Seq<Option<ItemStack>>) -> (
    int,
    int,
    int,
)
    decreases slots.len(),
{
    if slots.len() == 0 {
        (0, 0, 0)
    } else {
        let rest = total_protection(items, slots.drop_last());
        let last = slot_protection(items, slots.last());
        (capped_sum(rest.0, last.0), capped_sum(rest.1, last.1), capped_sum(rest.2, last.2))
    }
}

/// A protection as three numbers.
pub open spec fn as_numbers(protection: ArmorProtection) -> (int, int, int) {
    (protection.melee as int, protection.projectile as int, protection.blast as int)
}

/// Adds up what the worn pieces protect from.
pub fn equipped_protection(items: &Vec<ItemDefinition>, slots: &Vec<Option<ItemStack>>) -> (r:
    ArmorProtection)
    ensures
        as_numbers(r) == total_protection(items@, slots@),
{
    let mut total = ArmorProtection { melee: 0, projectile: 0, blast: 0 };
    let mut i: usize = 0;
    while i < slots.len()
        invariant
            i <= slots.len(),
            as_numbers(total) == total_protection(items@, slots@.take(i as int)),
        decreases slots.len() - i,
    {
        proof {
            assert(slots@.take(i + 1).drop_last() =~= slots@.take(i as int));
            assert(slots@.take(i + 1).last() == slots@[i as int]);
        }
        if let Some(stack) = &slots[i] {
            if let Some(definition) = item_definition(items, stack.item_id.as_str()) {
                if let Some(armor) = &definition.armor {
                    total = ArmorProtection {
                        melee: total.melee.saturating_add(armor.melee_protection_pct),
                        projectile: total.projectile.saturating_add(
                            armor.projectile_protection_pct,
                        ),
                        blast: total.blast.saturating_add(armor.blast_protection_pct),
                    };
                }
            }
        }
        i = i + 1;
    }
    proof {
        assert(slots@.take(i as int) =~= slots@);
    }
    total
}

/// The protection that the summary shows: that of the worn slots, and none
/// while the inventory is unknown.
pub fn summary_protection(
    items: &Vec<ItemDefinition>,
    inventory: Option<&PlayerInventoryState>,
) -> (r: ArmorProtection)
    ensures
        as_numbers(r) == match inventory {
            Some(carried) => total_protection(items@, carried.equipment_slots@),
            None => (0int, 0int, 0int),
        },
{
    match inventory {
        Some(carried) => equipped_protection(items, &carried.equipment_slots),
        None => ArmorProtection { melee: 0, projectile: 0, blast: 0 },
    }
}

/// Taking a piece off never adds protection.
pub proof fn fewer_pieces_protect_no_better(
    items: Seq<ItemDefinition>,
    slots: Seq<Option<ItemStack>>,
    i: int,
)
    requires
        0 <= i < slots.len(),
    ensures
        ({
            let bare = total_protection(items, slots.update(i, None));
            let worn = total_protection(items, slots);
            bare.0 <= worn.0 && bare.1 <= worn.1 && bare.2 <= worn.2
        }),
    decreases slots.len(),
{
    let fewer = slots.update(i, None);
    if i == slots.len() - 1 {
        assert(fewer.drop_last() =~= slots.drop_last());
        protection_is_not_negative(items, slots.drop_last());
    } else {
        assert(fewer.drop_last() =~= slots.drop_last().update(i, None));
        assert(fewer.last() == slots.last());
        fewer_pieces_protect_no_better(items, slots.drop_last(), i);
    }
}

proof fn protection_is_not_negative(items: Seq<ItemDefinition>, slots: Seq<Option<ItemStack>>)
    ensures
        ({
            let total = total_protection(items, slots);
            &&& 0 <= total.0 <= 255
            &&& 0 <= total.1 <= 255
            &&& 0 <= total.2 <= 255
        }),
    decreases slots.len(),
{
    if slots.len() > 0 {
        protection_is_not_negative(items, slots.drop_last());
    }
}

/// One row of the summary; a zero is dimmed.
pub struct ProtectionRow {
    pub text: String,
    pub dimmed: bool,
}

/// Writes one row of the summary.
pub fn protection_row(label: &str, value: u8) -> (r: ProtectionRow)
    ensures
        r.text@ == label@ + " "@ + digits(value as nat) + "%"@,
        r.dimmed == (value == 0),
{
    let number = decimal(value as u64);
    let mut text = label.to_owned();
    text.append(" ");
    text.append(number.as_str());
    text.append("%");
    ProtectionRow { text, dimmed: value == 0 }
}

/// What an empty worn slot reads: the name of the slot. A filled one reads
/// nothing.
pub fn worn_slot_label(inventory: Option<&PlayerInventoryState>, slot: EquipmentSlot) -> (r: Option<
    String,
>)
    ensures
        opt_text(r) == ({
            let place = ItemContainerSlot {
                container: ItemContainer::Equipment,
                slot: slot.position() as usize,
            };
            if (inventory matches Some(carried) && carried.stack_in(place) is Some) {
                None
            } else {
                Some(slot.label_text())
            }
        }),
{
    let place = ItemContainerSlot::equipment(slot);
    let worn: bool = match inventory {
        Some(carried) => slot_stack(carried, place).is_some(),
        None => false,
    };
    if worn {
        None
    } else {
        Some(slot.label())
    }
}

/// Every worn piece counts with its own protection, kind by kind and wherever it is
/// worn, up to what eight bits can hold.
pub proof fn every_worn_piece_protects(
    items: Seq<ItemDefinition>,
    slots: Seq<Option<ItemStack>>,
    i: int,
)
    requires
        0 <= i < slots.len(),
    ensures
        ({
            let bare = total_protection(items, slots.update(i, None));
            let worn = total_protection(items, slots);
            let piece = slot_protection(items, slots[i]);
            &&& worn.0 == if bare.0 + piece.0 > 255 {
                255
            } else {
                bare.0 + piece.0
            }
            &&& worn.1 == if bare.1 + piece.1 > 255 {
                255
            } else {
                bare.1 + piece.1
            }
            &&& worn.2 == if bare.2 + piece.2 > 255 {
                255
            } else {
                bare.2 + piece.2
            }
        }),
    decreases slots.len(),
{
    let fewer = slots.update(i, None);
    protection_is_not_negative(items, slots.drop_last());
    protection_is_not_negative(items, fewer.drop_last());
    if i == slots.len() - 1 {
        assert(fewer.drop_last() =~= slots.drop_last());
    } else {
        assert(fewer.drop_last() =~= slots.drop_last().update(i, None));
        assert(fewer.last() == slots.last());
        assert(slots.drop_last()[i] == slots[i]);
        every_worn_piece_protects(items, slots.drop_last(), i);
    }
}

/// A piece protects as its armor says, and an empty slot or what is no armor not at all.
pub proof fn armor_protects_as_it_says(items: Seq<ItemDefinition>, stack: ItemStack, k: int)
    requires
        0 <= k < items.len(),
        items[k].id@ == stack.item_id@,
        forall|i: int| 0 <= i < k ==> (#[trigger] items[i]).id@ != stack.item_id@,
    ensures
        items[k].armor matches Some(armor) ==> {
            let piece = slot_protection(items, Some(stack));
            &&& piece.0 == armor.melee_protection_pct
            &&& piece.1 == armor.projectile_protection_pct
            &&& piece.2 == armor.blast_protection_pct
        },
        items[k].armor is None ==> slot_protection(items, Some(stack)) == (0int, 0int, 0int),
        slot_protection(items, None) == (0int, 0int, 0int),
        total_protection(items, Seq::empty()) == (0int, 0int, 0int),
{
    first_row_of_the_id_is_found(items, stack.item_id@, k);
}

} // verus!
