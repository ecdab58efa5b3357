//! Which cue the interface plays for what happened.
use vstd::prelude::*;
use crate::text::same_text;

verus! {

/// The cues of the interface.
#[derive(Clone, Copy, Debug, PartialEq, Eq, Structural)]
pub enum SoundId {
    UiButtonClick,
    UiButtonHover,
    InventoryPickup,
    InventoryDrop,
    InventoryMove,
    PickupSticks,
    PickupStones,
}

/// What a button reports.
#[derive(Clone, Copy, Debug, PartialEq, Eq, Structural)]
pub enum ButtonSound {
    Click,
    Hover,
}

/// The cue of a button event.
pub open spec fn button_cue(sound: ButtonSound) -> SoundId {
    match sound {
        ButtonSound::Click => SoundId::UiButtonClick,
        ButtonSound::Hover => SoundId::UiButtonHover,
    }
}

/// Picks the cue of a button event.
pub fn button_sound_id(sound: ButtonSound) -> (r: SoundId)
    ensures
        r == button_cue(sound),
{
    match sound {
        ButtonSound::Click => SoundId::UiButtonClick,
        ButtonSound::Hover => SoundId::UiButtonHover,
    }
}

/// The button events of a frame, in the order in which they came.
pub struct ButtonSoundRequests {
    pub queue: Vec<ButtonSound>,
}

impl ButtonSoundRequests {
    /// An empty queue.
    pub fn new() -> (r: Self)
        ensures
            r.queue@.len() == 0,
    {
        ButtonSoundRequests { queue: Vec::new() }
    }

    /// Queues the sound of something that the pointer passes over.
    pub fn push_hover(&mut self)
        ensures
            final(self).queue@ == old(self).queue@.push(ButtonSound::Hover),
    {
        self.queue.push(ButtonSound::Hover);
    }

    /// Empties the queue and hands out the cues, in order.
    pub fn drain(&mut self) -> (r: Vec<SoundId>)
        ensures
            final(self).queue@.len() == 0,
            r@ == old(self).queue@.map_values(|sound: ButtonSound| button_cue(sound)),
    {
        let mut cues: Vec<SoundId> = Vec::new();
        let ghost queue = self.queue@;
        let mut i: usize = 0;
        while i < self.queue.len()
            invariant
                i <= self.queue.len(),
                self.queue@ == queue,
                cues@ == queue.take(i as int).map_values(|sound: ButtonSound| button_cue(sound)),
            decreases self.queue.len() - i,
        {
            cues.push(button_sound_id(self.queue[i]));
            i = i + 1;
            proof {
                assert(cues@ =~= queue.take(i as int).map_values(
                    |sound: ButtonSound| button_cue(sound),
                ));
            }
        }
        proof {
            assert(queue.take(i as int) =~= queue);
        }
        self.queue = Vec::new();
        cues
    }
}

/// What happened to the bag.
pub enum InventorySoundEvent {
    Pickup { item_id: Option<String> },
    Drop,
    Move,
}

/// The items whose pickup has a sound of its own.
pub struct PickupMaterials {
    pub wood: String,
    pub stone: String,
    pub coal: String,
    pub iron_ore: String,
    pub sulfur_ore: String,
}

/// The cue of a pickup: sticks rattle, stones and ores clack, and everything else
/// rustles. Wood comes first where ids coincide.
pub open spec fn pickup_cue(materials: PickupMaterials, item_id: Option<Seq<char>>) -> SoundId {
    match item_id {
        Some(id) => if id == materials.wood@ {
            SoundId::PickupSticks
        } else if id == materials.stone@ || id == materials.coal@ || id == materials.iron_ore@ || id
            == materials.sulfur_ore@ {
            SoundId::PickupStones
        } else {
            SoundId::InventoryPickup
        },
        None => SoundId::InventoryPickup,
    }
}

/// Picks the cue of a pickup.
pub fn pickup_sound_for(materials: &PickupMaterials, item_id: Option<&String>) -> (r: SoundId)
    ensures
        r == pickup_cue(
            *materials,
            match item_id {
                Some(id) => Some(id@),
                None => None,
            },
        ),
{
    match item_id {
        Some(id) => if same_text(id.as_str(), materials.wood.as_str()) {
            SoundId::PickupSticks
        } else if same_text(id.as_str(), materials.stone.as_str()) || same_text(
            id.as_str(),
            materials.coal.as_str(),
        ) || same_text(id.as_str(), materials.iron_ore.as_str()) || same_text(
            id.as_str(),
            materials.sulfur_ore.as_str(),
        ) {
            SoundId::PickupStones
        } else {
            SoundId::InventoryPickup
        },
        None => SoundId::InventoryPickup,
    }
}

/// The cue of what happened to the bag.
pub open spec fn inventory_cue(materials: PickupMaterials, event: InventorySoundEvent) -> SoundId {
    match event {
        InventorySoundEvent::Pickup { item_id } => pickup_cue(
            materials,
            match item_id {
                Some(id) => Some(id@),
                None => None,
            },
        ),
        InventorySoundEvent::Drop => SoundId::InventoryDrop,
        InventorySoundEvent::Move => SoundId::InventoryMove,
    }
}

/// Picks the cue of what happened to the bag.
pub fn inventory_sound_id(materials: &PickupMaterials, event: &InventorySoundEvent) -> (r: SoundId)
    ensures
        r == inventory_cue(*materials, *event),
{
    match event {
        InventorySoundEvent::Pickup { item_id } => pickup_sound_for(materials, item_id.as_ref()),
        InventorySoundEvent::Drop => SoundId::InventoryDrop,
        InventorySoundEvent::Move => SoundId::InventoryMove,
    }
}

/// What happened to the bag in a frame, in the order in which it came.
pub struct InventorySoundRequests {
    pub queue: Vec<InventorySoundEvent>,
}

impl InventorySoundRequests {
    /// An empty queue.
    pub fn new() -> (r: Self)
        ensures
            r.queue@.len() == 0,
    {
        InventorySoundRequests { queue: Vec::new() }
    }

    /// Queues the sound of what happened.
    pub fn push(&mut self, event: InventorySoundEvent)
        ensures
            final(self).queue@ == old(self).queue@.push(event),
    {
        self.queue.push(event);
    }

    /// Empties the queue and hands out the cues, in order.
    pub fn drain(&mut self, materials: &PickupMaterials) -> (r: Vec<SoundId>)
        ensures
            final(self).queue@.len() == 0,
            r@ == old(self).queue@.map_values(
                |event: InventorySoundEvent| inventory_cue(*materials, event),
            ),
    {
        let mut cues: Vec<SoundId> = Vec::new();
        let ghost queue = self.queue@;
        let mut i: usize = 0;
        while i < self.queue.len()
            invariant
                i <= self.queue.len(),
                self.queue@ == queue,
                cues@ == queue.take(i as int).map_values(
                    |event: InventorySoundEvent| inventory_cue(*materials, event),
                ),
            decreases self.queue.len() - i,
        {
            cues.push(inventory_sound_id(materials, &self.queue[i]));
            i = i + 1;
            proof {
                assert(cues@ =~= queue.take(i as int).map_values(
                    |event: InventorySoundEvent| inventory_cue(*materials, event),
                ));
            }
        }
        proof {
            assert(queue.take(i as int) =~= queue);
        }
        self.queue = Vec::new();
        cues
    }
}

/// Every event has a cue of its own: clicks and passes differ, and so do drops, moves
/// and pickups.
pub proof fn every_event_has_its_own_cue(a: ButtonSound, b: ButtonSound, materials: PickupMaterials)
    ensures
        button_cue(a) == button_cue(b) ==> a == b,
        button_cue(ButtonSound::Click) == SoundId::UiButtonClick,
        inventory_cue(materials, InventorySoundEvent::Drop) == SoundId::InventoryDrop,
        inventory_cue(materials, InventorySoundEvent::Move) == SoundId::InventoryMove,
        forall|item_id: Option<String>|
            ({
                let cue = #[trigger] inventory_cue(
                    materials,
                    InventorySoundEvent::Pickup { item_id },
                );
                cue == SoundId::PickupSticks || cue == SoundId::PickupStones || cue
                    == SoundId::InventoryPickup
            }),
{
}

/// Sticks rattle, stones, coal and ores clack, and everything else, what is not known
/// too, rustles.
pub proof fn materials_sound_like_themselves(materials: PickupMaterials, id: Seq<char>)
    ensures
        pickup_cue(materials, None) == SoundId::InventoryPickup,
        pickup_cue(materials, Some(id)) == SoundId::PickupSticks <==> id == materials.wood@,
        id != materials.wood@ ==> (pickup_cue(materials, Some(id)) == SoundId::PickupStones
            <==> seq![
            materials.stone@,
            materials.coal@,
            materials.iron_ore@,
            materials.sulfur_ore@,
        ].contains(id)),
{
    let stony = seq![
        materials.stone@,
        materials.coal@,
        materials.iron_ore@,
        materials.sulfur_ore@,
    ];
    assert(stony[0] == materials.stone@);
    assert(stony[1] == materials.coal@);
    assert(stony[2] == materials.iron_ore@);
    assert(stony[3] == materials.sulfur_ore@);
}

} // verus!
