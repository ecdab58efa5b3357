//! The item grants of admins.
use vstd::prelude::*;
use crate::items::{DeployableKind, ItemDefinition};
use crate::text::{concat2, decimal, digits, opt_text, same_text};

verus! {

/// The columns of the grid of grants.
pub const GRID_COLUMNS: usize = 14;

/// The amounts that a left and a right click grant: piles of what is stacked in
/// bulk, handfuls of what is stacked, and one of what is not.
pub fn grant_amounts(definition: &ItemDefinition) -> (r: (u32, u32))
    ensures
        r == if definition.stack_size <= 1 {
            (1u32, 1u32)
        } else if definition.stack_size <= 99 {
            (1u32, 10u32)
        } else {
            (100u32, 250u32)
        },
{
    if definition.stack_size <= 1 {
        (1, 1)
    } else if definition.stack_size <= 99 {
        (1, 10)
    } else {
        (100, 250)
    }
}

/// Whether an item can be granted: building pieces and the chest of the ruins
/// are placed by the world, never carried.
pub open spec fn is_grantable(definition: ItemDefinition, ruin_cache_id: Seq<char>) -> bool {
    &&& !(definition.deployable matches Some(profile) && profile.kind == DeployableKind::Building)
    &&& definition.id@ != ruin_cache_id
}

/// The items that can be granted, in the order of the registry.
pub fn grantable_items<'a>(items: &'a Vec<ItemDefinition>, ruin_cache_id: &str) -> (r: Vec<
    &'a ItemDefinition,
>)
    ensures
        r@.map_values(|d: &ItemDefinition| *d) == items@.filter(
            |d: ItemDefinition| is_grantable(d, ruin_cache_id@),
        ),
{
    let mut found: Vec<&'a ItemDefinition> = Vec::new();
    let ghost wanted = |d: ItemDefinition| is_grantable(d, ruin_cache_id@);
    let ghost plain = |d: &ItemDefinition| *d;
    proof {
        reveal(Seq::filter);
        assert(items@.take(0).filter(wanted) =~= Seq::empty());
        assert(found@.map_values(plain) =~= items@.take(0).filter(wanted));
    }
    let mut i: usize = 0;
    while i < items.len()
        invariant
            i <= items.len(),
            wanted == (|d: ItemDefinition| is_grantable(d, ruin_cache_id@)),
            plain == (|d: &ItemDefinition| *d),
            found@.map_values(plain) == items@.take(i as int).filter(wanted),
        decreases items.len() - i,
    {
        let building: bool = match &items[i].deployable {
            Some(profile) => profile.kind == DeployableKind::Building,
            None => false,
        };
        let ghost before = found@;
        let kept: bool = !building && !same_text(items[i].id.as_str(), ruin_cache_id);
        if kept {
            found.push(&items[i]);
        }
        proof {
            reveal(Seq::filter);
            assert(items@.take(i + 1).drop_last() =~= items@.take(i as int));
            assert(items@.take(i + 1).last() == items@[i as int]);
            assert(wanted(items@[i as int]) == kept);
            if kept {
                assert(found@.map_values(plain) =~= before.map_values(plain).push(
                    items@[i as int],
                ));
            }
        }
        i = i + 1;
    }
    proof {
        assert(items@.take(i as int) =~= items@);
    }
    found
}

/// The line that tells what the clicks grant.
pub fn grant_hint(definition: &ItemDefinition) -> (r: String)
    ensures
        r@ == if definition.stack_size <= 1 {
            "Click: +"@ + digits(1)
        } else if definition.stack_size <= 99 {
            "Left click: +"@ + digits(1) + "    Right click: +"@ + digits(10)
        } else {
            "Left click: +"@ + digits(100) + "    Right click: +"@ + digits(250)
        },
{
    let (left, right) = grant_amounts(definition);
    let left_text = decimal(left as u64);
    if left == right {
        concat2("Click: +", left_text.as_str())
    } else {
        let right_text = decimal(right as u64);
        let mut text = concat2("Left click: +", left_text.as_str());
        text.append("    Right click: +");
        text.append(right_text.as_str());
        text
    }
}

/// A click on an item of the grid.
#[derive(Clone, Copy, Debug, PartialEq, Eq, Structural)]
pub struct GrantClicks {
    pub primary: bool,
    pub secondary: bool,
}

/// The amounts that the clicks of a frame grant, the left click before the
/// right one.
pub fn clicked_amounts(definition: &ItemDefinition, clicks: GrantClicks) -> (r: Vec<u32>)
    ensures
        r@ == ({
            let (left, right) = if definition.stack_size <= 1 {
                (1u32, 1u32)
            } else if definition.stack_size <= 99 {
                (1u32, 10u32)
            } else {
                (100u32, 250u32)
            };
            (if clicks.primary {
                seq![left]
            } else {
                Seq::empty()
            }) + (if clicks.secondary {
                seq![right]
            } else {
                Seq::empty()
            })
        }),
{
    let (left, right) = grant_amounts(definition);
    let mut amounts: Vec<u32> = Vec::new();
    if clicks.primary {
        amounts.push(left);
    }
    if clicks.secondary {
        amounts.push(right);
    }
    proof {
        assert(amounts@ =~= (if clicks.primary {
            seq![left]
        } else {
            Seq::empty()
        }) + (if clicks.secondary {
            seq![right]
        } else {
            Seq::empty()
        }));
    }
    amounts
}

/// The command that grants an item, as it is typed into the chat.
pub fn grant(item_id: &str, amount: u32) -> (r: String)
    ensures
        r@ == "give "@ + item_id@ + " "@ + digits(amount as nat),
{
    let number = decimal(amount as u64);
    let mut text = concat2("give ", item_id);
    text.append(" ");
    text.append(number.as_str());
    text
}

/// How sending a command ended.
pub enum SendOutcome {
    Sent,
    Failed { error: String },
    NotConnected,
}

/// What is shown of a grant that could not be sent.
pub fn grant_failure(outcome: &SendOutcome) -> (r: Option<String>)
    ensures
        opt_text(r) == match outcome {
            SendOutcome::Sent => None,
            SendOutcome::Failed { error } => Some("give failed: "@ + error@),
            SendOutcome::NotConnected => Some("give failed: not connected"@),
        },
{
    match outcome {
        SendOutcome::Sent => None,
        SendOutcome::Failed { error } => Some(concat2("give failed: ", error.as_str())),
        SendOutcome::NotConnected => Some("give failed: not connected".to_owned()),
    }
}

/// Everything can be granted but building pieces and the chest of the ruins, and
/// neither name nor stack size matters.
pub proof fn only_what_the_world_places_is_left_out(
    definition: ItemDefinition,
    ruin_cache_id: Seq<char>,
)
    ensures
        is_grantable(definition, ruin_cache_id) <==> definition.id@ != ruin_cache_id && (
        definition.deployable is None || definition.deployable->0.kind != DeployableKind::Building),
{
}

} // verus!
