//! Recipes, and how many of one the player can afford.
use vstd::prelude::*;
use crate::items::{
    ItemDefinition, PlayerInventoryState, carried_amount, count_in_inventory, display_name,
    first_row_of_the_id_is_found, name_of,
};
use crate::text::same_text;

verus! {

/// The largest batch that one command may ask for.
pub const MAX_CRAFT_BATCH_SIZE: u16 = 100;

/// A group of recipes, by its position in the list of groups.
#[derive(Clone, Copy, Debug, PartialEq, Eq, Structural)]
pub struct RecipeCategory {
    pub index: u8,
}

/// What must stand nearby for a recipe.
#[derive(Clone, Copy, Debug, PartialEq, Eq, Structural)]
pub enum RecipeStation {
    Hand,
    Workbench { min_tier: u8 },
}

/// One material of a recipe.
pub struct CraftingInput {
    pub item_id: String,
    pub quantity: u16,
}

/// One recipe. The crafting time is in milliseconds.
pub struct RecipeDefinition {
    pub id: String,
    pub name: String,
    pub description: String,
    pub category: RecipeCategory,
    pub tier: u8,
    pub station: RecipeStation,
    pub inputs: Vec<CraftingInput>,
    pub output_item: String,
    pub output_quantity: u16,
    pub craft_millis: u32,
}

/// The tables that the game ships: items, recipes, the names of the recipe
/// groups, and the recipes that the tutorial asks for.
pub struct Registry {
    pub items: Vec<ItemDefinition>,
    pub recipes: Vec<RecipeDefinition>,
    pub category_labels: Vec<String>,
    pub tutorial_recipes: Vec<String>,
}

/// The recipe with the given id; the first of them where several have it.
pub open spec fn recipe_of(recipes: Seq<RecipeDefinition>, id: Seq<char>) -> Option<
    RecipeDefinition,
>
    decreases recipes.len(),
{
    if recipes.len() == 0 {
        None
    } else if recipes[0].id@ == id {
        Some(recipes[0])
    } else {
        recipe_of(recipes.drop_first(), id)
    }
}

/// Looks a recipe up.
pub fn recipe_definition<'a>(recipes: &'a Vec<RecipeDefinition>, id: &str) -> (r: Option<
    &'a RecipeDefinition,
>)
    ensures
        r is Some <==> recipe_of(recipes@, id@) is Some,
        r is Some ==> *r->0 == recipe_of(recipes@, id@)->0,
{
    let mut i: usize = 0;
    proof {
        assert(recipes@.skip(0) =~= recipes@);
    }
    while i < recipes.len()
        invariant
            i <= recipes.len(),
            recipe_of(recipes@, id@) == recipe_of(recipes@.skip(i as int), id@),
        decreases recipes.len() - i,
    {
        proof {
            assert(recipes@.skip(i as int)[0] == recipes@[i as int]);
            assert(recipes@.skip(i as int).drop_first() =~= recipes@.skip(i + 1));
        }
        if same_text(recipes[i].id.as_str(), id) {
            return Some(&recipes[i]);
        }
        i = i + 1;
    }
    None
}

/// The name of what a recipe makes.
pub open spec fn output_name(items: Seq<ItemDefinition>, recipe: RecipeDefinition) -> Seq<char> {
    name_of(items, recipe.output_item@)
}

/// The display name of what a recipe makes.
pub fn output_display_name(items: &Vec<ItemDefinition>, recipe: &RecipeDefinition) -> (r: String)
    ensures
        r@ == output_name(items@, *recipe),
{
    display_name(items, recipe.output_item.as_str())
}

/// How much of a material counts as carried: no more than 16 bits can hold.
pub open spec fn held(inventory: PlayerInventoryState, id: Seq<char>) -> int {
    if carried_amount(inventory, id) > 65535 {
        65535
    } else {
        carried_amount(inventory, id) as int
    }
}

/// Whether the player carries enough of one material for a batch of `n`.
pub open spec fn affords_input(
    inventory: PlayerInventoryState,
    input: CraftingInput,
    n: int,
) -> bool {
    n * input.quantity <= held(inventory, input.item_id@)
}

/// Whether the player carries enough of every material for a batch of `n`.
pub open spec fn affords(
    inventory: PlayerInventoryState,
    inputs: Seq<CraftingInput>,
    n: int,
) -> bool {
    forall|i: int| 0 <= i < inputs.len() ==> affords_input(inventory, #[trigger] inputs[i], n)
}

/// Whether the player carries every material of the recipe once.
pub fn has_all_inputs(inventory: &PlayerInventoryState, recipe: &RecipeDefinition) -> (r: bool)
    ensures
        r == affords(*inventory, recipe.inputs@, 1),
{
    let mut i: usize = 0;
    while i < recipe.inputs.len()
        invariant
            i <= recipe.inputs.len(),
            forall|k: int|
                0 <= k < i ==> affords_input(*inventory, #[trigger] recipe.inputs@[k], 1),
        decreases recipe.inputs.len() - i,
    {
        let input = &recipe.inputs[i];
        if count_in_inventory(inventory, input.item_id.as_str()) < input.quantity {
            proof {
                assert(!affords_input(*inventory, recipe.inputs@[i as int], 1));
            }
            return false;
        }
        i = i + 1;
    }
    true
}

/// `n` is the largest batch, up to the cap, that the materials allow.
pub open spec fn is_largest_batch(
    inventory: PlayerInventoryState,
    inputs: Seq<CraftingInput>,
    n: int,
) -> bool {
    &&& 0 <= n <= MAX_CRAFT_BATCH_SIZE
    &&& affords(inventory, inputs, n)
    &&& forall|m: int|
        n < m <= MAX_CRAFT_BATCH_SIZE ==> !(#[trigger] affords(inventory, inputs, m))
}

/// The largest batch that the player can afford right now: nothing without a
/// known inventory.
pub open spec fn batch_ceiling(
    inventory: Option<&PlayerInventoryState>,
    inputs: Seq<CraftingInput>,
) -> int {
    match inventory {
        Some(carried) => choose|n: int| is_largest_batch(*carried, inputs, n),
        None => 0,
    }
}

proof fn one_more(inventory: PlayerInventoryState, input: CraftingInput, n: int, m: int)
    requires
        0 <= n <= m,
        affords_input(inventory, input, m),
    ensures
        affords_input(inventory, input, n),
{
    assert(n * input.quantity <= m * input.quantity) by (nonlinear_arith)
        requires
            0 <= n <= m,
            input.quantity >= 0,
    ;
}

proof fn quotient_is_largest(have: int, quantity: int, n: int)
    requires
        have >= 0,
        quantity > 0,
    ensures
        n * quantity <= have <==> n <= have / quantity,
{
    assert(n * quantity <= have <==> n <= have / quantity) by (nonlinear_arith)
        requires
            have >= 0,
            quantity > 0,
    ;
}

/// The largest batch of a recipe that the player can afford right now, capped
/// at [`MAX_CRAFT_BATCH_SIZE`]; nothing without a known inventory.
pub fn max_craftable_batch(
    inventory: Option<&PlayerInventoryState>,
    recipe: &RecipeDefinition,
) -> (r: u16)
    ensures
        r == batch_ceiling(inventory, recipe.inputs@),
        inventory is None ==> r == 0,
        inventory is Some ==> is_largest_batch(*inventory->0, recipe.inputs@, r as int),
{
    let inventory = match inventory {
        None => {
            return 0;
        },
        Some(inventory) => inventory,
    };
    let mut max: u32 = 100;
    let mut i: usize = 0;
    while i < recipe.inputs.len()
        invariant
            i <= recipe.inputs.len(),
            max <= 100,
            forall|k: int|
                0 <= k < i ==> affords_input(
                    *inventory,
                    #[trigger] recipe.inputs@[k],
                    max as int,
                ),
            max < 100 ==> exists|k: int|
                0 <= k < i && !affords_input(*inventory, #[trigger] recipe.inputs@[k], max + 1),
        decreases recipe.inputs.len() - i,
    {
        let input = &recipe.inputs[i];
        let ghost old_max = max;
        if input.quantity != 0 {
            let have: u32 = count_in_inventory(inventory, input.item_id.as_str()) as u32;
            let possible: u32 = have / (input.quantity as u32);
            proof {
                quotient_is_largest(have as int, input.quantity as int, possible as int);
                quotient_is_largest(have as int, input.quantity as int, possible + 1);
                quotient_is_largest(have as int, input.quantity as int, max as int);
                assert(held(*inventory, input.item_id@) == have);
            }
            if possible < max {
                max = possible;
            }
        } else {
            proof {
                assert(max * input.quantity == 0) by (nonlinear_arith)
                    requires
                        input.quantity == 0,
                ;
            }
        }
        proof {
            assert forall|k: int| 0 <= k < i + 1 implies affords_input(
                *inventory,
                #[trigger] recipe.inputs@[k],
                max as int,
            ) by {
                if k < i {
                    one_more(*inventory, recipe.inputs@[k], max as int, old_max as int);
                }
            }
            if max < 100 {
                if max < old_max {
                    assert(!affords_input(*inventory, recipe.inputs@[i as int], max + 1));
                }
            }
        }
        i = i + 1;
    }
    proof {
        assert forall|m: int| max < m <= MAX_CRAFT_BATCH_SIZE implies !(#[trigger] affords(
            *inventory,
            recipe.inputs@,
            m,
        )) by {
            let k = choose|k: int|
                0 <= k < i && !affords_input(*inventory, #[trigger] recipe.inputs@[k], max + 1);
            if affords(*inventory, recipe.inputs@, m) {
                assert(affords_input(*inventory, recipe.inputs@[k], m));
                one_more(*inventory, recipe.inputs@[k], max + 1, m);
            }
        }
    }
    proof {
        assert(is_largest_batch(*inventory, recipe.inputs@, max as int));
    }
    max as u16
}

/// A recipe can be made at least once exactly where every material is at hand:
/// the batch ceiling is positive if and only if the recipe is affordable.
pub proof fn batch_is_positive_iff_affordable(
    inventory: PlayerInventoryState,
    inputs: Seq<CraftingInput>,
    n: int,
)
    requires
        is_largest_batch(inventory, inputs, n),
    ensures
        n > 0 <==> affords(inventory, inputs, 1),
{
    if n > 0 {
        assert forall|i: int| 0 <= i < inputs.len() implies affords_input(
            inventory,
            #[trigger] inputs[i],
            1,
        ) by {
            one_more(inventory, inputs[i], 1, n);
        }
    }
}

/// There is only one largest batch.
pub proof fn largest_batch_is_unique(
    inventory: PlayerInventoryState,
    inputs: Seq<CraftingInput>,
    n: int,
    m: int,
)
    requires
        is_largest_batch(inventory, inputs, n),
        is_largest_batch(inventory, inputs, m),
    ensures
        n == m,
{
}

/// Every batch up to the ceiling is affordable too.
pub proof fn smaller_batches_are_affordable(
    inventory: PlayerInventoryState,
    inputs: Seq<CraftingInput>,
    n: int,
    m: int,
)
    requires
        is_largest_batch(inventory, inputs, n),
        0 <= m <= n,
    ensures
        affords(inventory, inputs, m),
{
    assert forall|i: int| 0 <= i < inputs.len() implies affords_input(
        inventory,
        #[trigger] inputs[i],
        m,
    ) by {
        one_more(inventory, inputs[i], m, n);
    }
}

/// A recipe without materials is only limited by the cap.
pub proof fn free_recipes_reach_the_cap(inventory: PlayerInventoryState, n: int)
    requires
        is_largest_batch(inventory, Seq::empty(), n),
    ensures
        n == MAX_CRAFT_BATCH_SIZE,
{
    assert(affords(inventory, Seq::empty(), MAX_CRAFT_BATCH_SIZE as int));
}

/// A batch is affordable exactly where every material of it is carried as often as the
/// batch needs it, counted up to what 16 bits can hold.
pub proof fn batch_needs_every_material(
    inventory: PlayerInventoryState,
    inputs: Seq<CraftingInput>,
    n: int,
)
    requires
        0 <= n,
    ensures
        affords(inventory, inputs, n) <==> forall|i: int|
            0 <= i < inputs.len() ==> {
                let needed = n * (#[trigger] inputs[i]).quantity;
                needed <= 65535 && needed <= carried_amount(inventory, inputs[i].item_id@)
            },
{
    assert forall|i: int| 0 <= i < inputs.len() implies (affords_input(
        inventory,
        #[trigger] inputs[i],
        n,
    ) <==> n * inputs[i].quantity <= 65535 && n * inputs[i].quantity <= carried_amount(
        inventory,
        inputs[i].item_id@,
    )) by {}
    if affords(inventory, inputs, n) {
        assert forall|i: int| 0 <= i < inputs.len() implies ({
            let needed = n * (#[trigger] inputs[i]).quantity;
            needed <= 65535 && needed <= carried_amount(inventory, inputs[i].item_id@)
        }) by {
            assert(affords_input(inventory, inputs[i], n));
        }
    }
}

/// The ceiling of a known inventory uses the materials up: a batch of that size is
/// carried in full, and one more lacks some material unless the ceiling is the cap.
pub proof fn ceiling_uses_the_materials_up(
    inventory: PlayerInventoryState,
    inputs: Seq<CraftingInput>,
    n: int,
)
    requires
        n == batch_ceiling(Some(&inventory), inputs),
        is_largest_batch(inventory, inputs, n),
    ensures
        0 <= n <= 100,
        forall|i: int|
            0 <= i < inputs.len() ==> n * (#[trigger] inputs[i]).quantity <= carried_amount(
                inventory,
                inputs[i].item_id@,
            ),
        n < 100 ==> exists|i: int|
            0 <= i < inputs.len() && {
                let needed = (n + 1) * (#[trigger] inputs[i]).quantity;
                needed > 65535 || needed > carried_amount(inventory, inputs[i].item_id@)
            },
{
    batch_needs_every_material(inventory, inputs, n);
    if n < 100 {
        batch_needs_every_material(inventory, inputs, n + 1);
        assert(!affords(inventory, inputs, n + 1));
    }
}

/// Without a known inventory nothing can be made.
pub proof fn unknown_inventory_affords_nothing(inputs: Seq<CraftingInput>)
    ensures
        batch_ceiling(None, inputs) == 0,
{
}

/// The book of recipes answers with the first recipe of the asked id.
pub proof fn first_recipe_of_the_id_is_found(
    recipes: Seq<RecipeDefinition>,
    id: Seq<char>,
    k: int,
)
    requires
        0 <= k < recipes.len(),
        recipes[k].id@ == id,
        forall|i: int| 0 <= i < k ==> (#[trigger] recipes[i]).id@ != id,
    ensures
        recipe_of(recipes, id) == Some(recipes[k]),
    decreases k,
{
    if k > 0 {
        assert(recipes[0].id@ != id);
        let rest = recipes.drop_first();
        assert(rest[k - 1] == recipes[k]);
        assert forall|i: int| 0 <= i < k - 1 implies (#[trigger] rest[i]).id@ != id by {
            assert(rest[i] == recipes[i + 1]);
        }
        first_recipe_of_the_id_is_found(rest, id, k - 1);
    }
}

/// A recipe makes what its output item is called.
pub proof fn recipe_goes_by_its_output(
    items: Seq<ItemDefinition>,
    recipe: RecipeDefinition,
    k: int,
)
    requires
        0 <= k < items.len(),
        items[k].id@ == recipe.output_item@,
        forall|i: int| 0 <= i < k ==> (#[trigger] items[i]).id@ != recipe.output_item@,
    ensures
        output_name(items, recipe) == items[k].name@,
{
    first_row_of_the_id_is_found(items, recipe.output_item@, k);
}

} // verus!
