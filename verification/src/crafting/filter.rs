//! Which recipes the browser lists, and in what order.
use vstd::prelude::*;
use crate::crafting::recipes::{
    CraftingInput, RecipeCategory, RecipeDefinition, Registry, affords,
    batch_needs_every_material, has_all_inputs, output_display_name, output_name,
};
use crate::crafting::stations::StationContext;
use crate::items::{
    ItemDefinition, PlayerInventoryState, carried_amount, item_definition, item_of, name_of,
};
use crate::sorting::{
    in_order, insert_position, is_order, sorting_commutes_with_filtering, stable_sort,
    stable_sort_is_in_order,
};
use crate::text::{
    ascii_lowered, comes_before, contains_text, has_text, is_ascii_text, lowercase,
    part_of_ascii_is_ascii, same_text, text_before, text_before_is_irreflexive,
    text_before_is_total, text_before_is_transitive, texts, to_lowercase, trim, trimmed,
};

verus! {

/// One line of the recipe list.
#[derive(Clone, Copy)]
pub struct RecipeListEntry<'a> {
    pub recipe: &'a RecipeDefinition,
    /// Affordable and with its station in reach.
    pub craftable: bool,
    /// Whether the station requirement alone is fulfilled.
    pub station_met: bool,
}

/// The texts of a recipe that a search looks at, in lower case.
pub struct SearchTexts {
    pub name: String,
    pub description: String,
    pub output: String,
    /// The names of the materials that the item registry knows.
    pub materials: Vec<String>,
}

impl SearchTexts {
    /// Whether any of the texts contains `needle`.
    pub open spec fn matches(self, needle: Seq<char>) -> bool {
        ||| has_text(self.name@, needle)
        ||| has_text(self.description@, needle)
        ||| has_text(self.output@, needle)
        ||| exists|i: int|
            0 <= i < self.materials@.len() && has_text(#[trigger] self.materials@[i]@, needle)
    }
}

/// Whether any of the lowered texts contains the needle.
pub fn texts_match(searched: &SearchTexts, needle: &str) -> (r: bool)
    ensures
        r == searched.matches(needle@),
{
    if contains_text(searched.name.as_str(), needle) {
        return true;
    }
    if contains_text(searched.description.as_str(), needle) {
        return true;
    }
    if contains_text(searched.output.as_str(), needle) {
        return true;
    }
    let mut i: usize = 0;
    while i < searched.materials.len()
        invariant
            i <= searched.materials.len(),
            forall|k: int|
                0 <= k < i ==> !has_text(#[trigger] searched.materials@[k]@, needle@),
        decreases searched.materials.len() - i,
    {
        if contains_text(searched.materials[i].as_str(), needle) {
            proof {
                assert(has_text(searched.materials@[i as int]@, needle@));
            }
            return true;
        }
        i = i + 1;
    }
    false
}

/// The lowered names of the materials that the item registry knows.
pub open spec fn material_texts(items: Seq<ItemDefinition>, inputs: Seq<CraftingInput>) -> Seq<
    Seq<char>,
>
    decreases inputs.len(),
{
    if inputs.len() == 0 {
        Seq::empty()
    } else {
        let rest = material_texts(items, inputs.drop_last());
        match item_of(items, inputs.last().item_id@) {
            Some(definition) => rest.push(lowercase(definition.name@)),
            None => rest,
        }
    }
}

/// Whether a recipe is found by `needle`: in its own name, its description, the
/// name of what it makes, or the name of one of its materials.
pub open spec fn recipe_matches(
    items: Seq<ItemDefinition>,
    recipe: RecipeDefinition,
    needle: Seq<char>,
) -> bool {
    ||| has_text(lowercase(recipe.name@), needle)
    ||| has_text(lowercase(recipe.description@), needle)
    ||| has_text(lowercase(output_name(items, recipe)), needle)
    ||| exists|i: int|
        0 <= i < material_texts(items, recipe.inputs@).len() && has_text(
            #[trigger] material_texts(items, recipe.inputs@)[i],
            needle,
        )
}

/// Lowers the texts of a recipe that a search looks at.
pub fn search_texts(items: &Vec<ItemDefinition>, recipe: &RecipeDefinition) -> (r: SearchTexts)
    ensures
        r.name@ == lowercase(recipe.name@),
        r.description@ == lowercase(recipe.description@),
        r.output@ == lowercase(output_name(items@, *recipe)),
        texts(r.materials@) == material_texts(items@, recipe.inputs@),
{
    let mut materials: Vec<String> = Vec::new();
    let mut i: usize = 0;
    proof {
        assert(recipe.inputs@.take(0) =~= Seq::<CraftingInput>::empty());
        assert(texts(materials@) =~= Seq::<Seq<char>>::empty());
    }
    while i < recipe.inputs.len()
        invariant
            i <= recipe.inputs.len(),
            texts(materials@) == material_texts(items@, recipe.inputs@.take(i as int)),
        decreases recipe.inputs.len() - i,
    {
        proof {
            assert(recipe.inputs@.take(i + 1).drop_last() =~= recipe.inputs@.take(i as int));
            assert(recipe.inputs@.take(i + 1).last() == recipe.inputs@[i as int]);
        }
        if let Some(definition) = item_definition(items, recipe.inputs[i].item_id.as_str()) {
            let ghost before = materials@;
            let lowered = to_lowercase(definition.name.as_str());
            materials.push(lowered);
            proof {
                assert(texts(materials@) =~= texts(before).push(lowered@));
            }
        }
        i = i + 1;
    }
    proof {
        assert(recipe.inputs@.take(i as int) =~= recipe.inputs@);
    }
    let output = output_display_name(items, recipe);
    SearchTexts {
        name: to_lowercase(recipe.name.as_str()),
        description: to_lowercase(recipe.description.as_str()),
        output: to_lowercase(output.as_str()),
        materials,
    }
}

/// Whether a recipe is found by an already lowered needle.
pub fn matches_search(
    items: &Vec<ItemDefinition>,
    recipe: &RecipeDefinition,
    needle: &str,
) -> (r: bool)
    ensures
        r == recipe_matches(items@, *recipe, needle@),
{
    let searched = search_texts(items, recipe);
    proof {
        let listed = material_texts(items@, recipe.inputs@);
        assert(texts(searched.materials@).len() == searched.materials@.len());
        assert forall|i: int| 0 <= i < listed.len() implies #[trigger] listed[i]
            == searched.materials@[i]@ by {
            assert(listed[i] == texts(searched.materials@)[i]);
        }
        if searched.matches(needle@) && !recipe_matches(items@, *recipe, needle@) {
            let i = choose|i: int|
                0 <= i < searched.materials@.len() && has_text(
                    #[trigger] searched.materials@[i]@,
                    needle@,
                );
            assert(has_text(listed[i], needle@));
        }
        if recipe_matches(items@, *recipe, needle@) && !searched.matches(needle@) {
            let i = choose|i: int|
                0 <= i < listed.len() && has_text(#[trigger] listed[i], needle@);
            assert(has_text(searched.materials@[i]@, needle@));
        }
    }
    texts_match(&searched, needle)
}

/// What the list is narrowed to.
pub struct RecipeQuery {
    pub category: Option<RecipeCategory>,
    /// Trimmed and lowered; empty for no search.
    pub needle: String,
    pub only_craftable: bool,
}

/// What the list is narrowed to, as contracts speak of it.
pub struct Wanted {
    pub category: Option<RecipeCategory>,
    pub needle: Seq<char>,
    pub only_craftable: bool,
}

impl RecipeQuery {
    /// What the query asks for.
    pub open spec fn wanted(self) -> Wanted {
        Wanted {
            category: self.category,
            needle: self.needle@,
            only_craftable: self.only_craftable,
        }
    }
}

/// The line of a recipe: its flags against what the player carries and reaches.
pub open spec fn entry_of<'a>(
    registry: Registry,
    recipe: RecipeDefinition,
    inventory: Option<&PlayerInventoryState>,
    stations: StationContext,
) -> RecipeListEntry<'a> {
    let station_met = stations.meets(registry.items@, recipe.station);
    RecipeListEntry {
        recipe: &recipe,
        craftable: station_met && match inventory {
            Some(carried) => affords(*carried, recipe.inputs@, 1),
            None => false,
        },
        station_met,
    }
}

/// Whether a recipe passes the filters.
pub open spec fn passes(
    registry: Registry,
    wanted: Wanted,
    recipe: RecipeDefinition,
    inventory: Option<&PlayerInventoryState>,
    stations: StationContext,
) -> bool {
    &&& wanted.category is Some ==> recipe.category == wanted.category->0
    &&& wanted.needle.len() > 0 ==> recipe_matches(registry.items@, recipe, wanted.needle)
    &&& wanted.only_craftable ==> entry_of(registry, recipe, inventory, stations).craftable
}

/// The lines of the recipes that pass, in the order of the registry.
pub open spec fn listed<'a>(
    registry: Registry,
    wanted: Wanted,
    recipes: Seq<RecipeDefinition>,
    inventory: Option<&PlayerInventoryState>,
    stations: StationContext,
) -> Seq<RecipeListEntry<'a>>
    decreases recipes.len(),
{
    if recipes.len() == 0 {
        Seq::empty()
    } else {
        let rest = listed(registry, wanted, recipes.drop_last(), inventory, stations);
        if passes(registry, wanted, recipes.last(), inventory, stations) {
            rest.push(entry_of(registry, recipes.last(), inventory, stations))
        } else {
            rest
        }
    }
}

/// Whether a recipe is one that the tutorial asks for.
pub open spec fn is_tutorial(tutorial: Seq<String>, id: Seq<char>) -> bool {
    exists|i: int| 0 <= i < tutorial.len() && #[trigger] tutorial[i]@ == id
}

/// Whether a recipe is one that the tutorial asks for.
pub fn is_tutorial_recipe(tutorial: &Vec<String>, id: &str) -> (r: bool)
    ensures
        r == is_tutorial(tutorial@, id@),
{
    let mut i: usize = 0;
    while i < tutorial.len()
        invariant
            i <= tutorial.len(),
            forall|k: int| 0 <= k < i ==> #[trigger] tutorial@[k]@ != id@,
        decreases tutorial.len() - i,
    {
        if same_text(tutorial[i].as_str(), id) {
            return true;
        }
        i = i + 1;
    }
    false
}

/// The order of the list: recipes that the tutorial asks for while it pins
/// them, then what can be made now, then the higher tier, then by name.
pub open spec fn entry_before(
    tutorial: Seq<String>,
    pin: bool,
    a: RecipeListEntry,
    b: RecipeListEntry,
) -> bool {
    let pinned_a = pin && is_tutorial(tutorial, a.recipe.id@);
    let pinned_b = pin && is_tutorial(tutorial, b.recipe.id@);
    if pinned_a != pinned_b {
        pinned_a
    } else if a.craftable != b.craftable {
        a.craftable
    } else if a.recipe.tier != b.recipe.tier {
        a.recipe.tier > b.recipe.tier
    } else {
        text_before(a.recipe.name@, b.recipe.name@)
    }
}

/// [`entry_before`] as a relation on lines.
pub open spec fn list_order<'a>(tutorial: Seq<String>, pin: bool) -> spec_fn(
    RecipeListEntry<'a>,
    RecipeListEntry<'a>,
) -> bool {
    |a: RecipeListEntry<'a>, b: RecipeListEntry<'a>| entry_before(tutorial, pin, a, b)
}

/// Whether one line stands above another.
fn goes_above(tutorial: &Vec<String>, pin: bool, a: &RecipeListEntry, b: &RecipeListEntry) -> (r:
    bool)
    ensures
        r == entry_before(tutorial@, pin, *a, *b),
{
    let pinned_a = pin && is_tutorial_recipe(tutorial, a.recipe.id.as_str());
    let pinned_b = pin && is_tutorial_recipe(tutorial, b.recipe.id.as_str());
    if pinned_a != pinned_b {
        pinned_a
    } else if a.craftable != b.craftable {
        a.craftable
    } else if a.recipe.tier != b.recipe.tier {
        a.recipe.tier > b.recipe.tier
    } else {
        comes_before(a.recipe.name.as_str(), b.recipe.name.as_str())
    }
}

/// The list order is a strict order in which names alone can tie.
pub proof fn list_order_is_order<'a>(tutorial: Seq<String>, pin: bool)
    ensures
        is_order(list_order(tutorial, pin)),
{
    let before = list_order(tutorial, pin);
    assert forall|x: RecipeListEntry<'a>, y: RecipeListEntry<'a>| #[trigger]
        before(x, y) implies !before(y, x) by {
        if text_before(x.recipe.name@, y.recipe.name@) && text_before(
            y.recipe.name@,
            x.recipe.name@,
        ) {
            text_before_is_transitive(x.recipe.name@, y.recipe.name@, x.recipe.name@);
            text_before_is_irreflexive(x.recipe.name@);
        }
    }
    assert forall|x: RecipeListEntry<'a>, y: RecipeListEntry<'a>, z: RecipeListEntry<'a>|
        !(#[trigger] before(y, x)) && !(#[trigger] before(z, y)) implies !before(z, x) by {
        let (p, q, r) = (x.recipe.name@, y.recipe.name@, z.recipe.name@);
        if text_before(r, p) {
            if text_before(p, q) {
                text_before_is_transitive(r, p, q);
            } else if !text_before(q, p) {
                text_before_is_total(p, q);
            }
        }
    }
}

/// Brings the lines into the list order.
fn sort_entries<'a>(
    tutorial: &Vec<String>,
    pin: bool,
    entries: &Vec<RecipeListEntry<'a>>,
) -> (r: Vec<RecipeListEntry<'a>>)
    ensures
        r@ == stable_sort(entries@, list_order(tutorial@, pin)),
{
    let ghost before = list_order(tutorial@, pin);
    let mut r: Vec<RecipeListEntry<'a>> = Vec::new();
    let mut i: usize = 0;
    proof {
        assert(entries@.take(0) =~= Seq::<RecipeListEntry<'a>>::empty());
    }
    while i < entries.len()
        invariant
            i <= entries.len(),
            before == list_order(tutorial@, pin),
            r@ == stable_sort(entries@.take(i as int), before),
            r.len() == i,
        decreases entries.len() - i,
    {
        let x = entries[i];
        let mut p: usize = r.len();
        proof {
            assert(r@.take(r.len() as int) =~= r@);
        }
        while p > 0 && goes_above(tutorial, pin, &x, &r[p - 1])
            invariant
                p <= r.len(),
                before == list_order(tutorial@, pin),
                insert_position(r@, x, before) == insert_position(r@.take(p as int), x, before),
            decreases p,
        {
            proof {
                assert(r@.take(p as int).drop_last() =~= r@.take(p - 1));
                assert(r@.take(p as int).last() == r@[p - 1]);
            }
            p = p - 1;
        }
        proof {
            if p > 0 {
                assert(r@.take(p as int).last() == r@[p - 1]);
            }
            assert(p == insert_position(r@, x, before));
            assert(entries@.take(i + 1).drop_last() =~= entries@.take(i as int));
            assert(entries@.take(i + 1).last() == x);
        }
        r.insert(p, x);
        i = i + 1;
    }
    proof {
        assert(entries@.take(i as int) =~= entries@);
    }
    r
}

/// Lists the recipes that pass a query, in the list order.
pub fn collect_matching<'a>(
    registry: &'a Registry,
    query: &RecipeQuery,
    inventory: Option<&PlayerInventoryState>,
    stations: &StationContext,
    pin_tutorial: bool,
) -> (r: Vec<RecipeListEntry<'a>>)
    ensures
        r@ == stable_sort(
            listed(*registry, query.wanted(), registry.recipes@, inventory, *stations),
            list_order(registry.tutorial_recipes@, pin_tutorial),
        ),
{
    let mut entries: Vec<RecipeListEntry<'a>> = Vec::new();
    let mut i: usize = 0;
    proof {
        assert(registry.recipes@.take(0) =~= Seq::<RecipeDefinition>::empty());
    }
    while i < registry.recipes.len()
        invariant
            i <= registry.recipes.len(),
            entries@ == listed(
                *registry,
                query.wanted(),
                registry.recipes@.take(i as int),
                inventory,
                *stations,
            ),
        decreases registry.recipes.len() - i,
    {
        let recipe = &registry.recipes[i];
        proof {
            assert(registry.recipes@.take(i + 1).drop_last() =~= registry.recipes@.take(i as int));
            assert(registry.recipes@.take(i + 1).last() == *recipe);
        }
        let in_category = match query.category {
            Some(category) => recipe.category == category,
            None => true,
        };
        if in_category && (query.needle.as_str().is_empty() || matches_search(
            &registry.items,
            recipe,
            query.needle.as_str(),
        )) {
            let station_met = stations.met(&registry.items, recipe.station);
            let affordable = match inventory {
                Some(carried) => has_all_inputs(carried, recipe),
                None => false,
            };
            let craftable = station_met && affordable;
            if craftable || !query.only_craftable {
                entries.push(RecipeListEntry { recipe, craftable, station_met });
            }
        }
        i = i + 1;
    }
    proof {
        assert(registry.recipes@.take(i as int) =~= registry.recipes@);
    }
    sort_entries(&registry.tutorial_recipes, pin_tutorial, &entries)
}

/// In the list no line stands below one that it should stand above.
pub proof fn list_is_in_order<'a>(
    registry: Registry,
    wanted: Wanted,
    inventory: Option<&PlayerInventoryState>,
    stations: StationContext,
    pin: bool,
)
    ensures
        in_order::<RecipeListEntry<'a>>(
            stable_sort(
                listed(registry, wanted, registry.recipes@, inventory, stations),
                list_order(registry.tutorial_recipes@, pin),
            ),
            list_order(registry.tutorial_recipes@, pin),
        ),
{
    list_order_is_order(registry.tutorial_recipes@, pin);
    stable_sort_is_in_order::<RecipeListEntry<'a>>(
        listed(registry, wanted, registry.recipes@, inventory, stations),
        list_order(registry.tutorial_recipes@, pin),
    );
}

/// Without pinning, everything that can be made now stands above everything
/// that cannot.
pub proof fn craftable_recipes_come_first<'a>(
    registry: Registry,
    wanted: Wanted,
    inventory: Option<&PlayerInventoryState>,
    stations: StationContext,
    i: int,
    j: int,
)
    requires
        ({
            let list = stable_sort::<RecipeListEntry<'a>>(
                listed(registry, wanted, registry.recipes@, inventory, stations),
                list_order(registry.tutorial_recipes@, false),
            );
            &&& 0 <= i < list.len()
            &&& 0 <= j < list.len()
            &&& list[i].craftable
            &&& !list[j].craftable
        }),
    ensures
        i < j,
{
    let order = list_order(registry.tutorial_recipes@, false);
    let list = stable_sort::<RecipeListEntry<'a>>(
        listed(registry, wanted, registry.recipes@, inventory, stations),
        order,
    );
    list_is_in_order(registry, wanted, inventory, stations, false);
    if j < i {
        assert(order(list[i], list[j]));
    }
}

/// While the tutorial pins its recipes they stand above all others.
pub proof fn pinned_recipes_come_first<'a>(
    registry: Registry,
    wanted: Wanted,
    inventory: Option<&PlayerInventoryState>,
    stations: StationContext,
    i: int,
    j: int,
)
    requires
        ({
            let list = stable_sort::<RecipeListEntry<'a>>(
                listed(registry, wanted, registry.recipes@, inventory, stations),
                list_order(registry.tutorial_recipes@, true),
            );
            &&& 0 <= i < list.len()
            &&& 0 <= j < list.len()
            &&& is_tutorial(registry.tutorial_recipes@, list[i].recipe.id@)
            &&& !is_tutorial(registry.tutorial_recipes@, list[j].recipe.id@)
        }),
    ensures
        i < j,
{
    let order = list_order(registry.tutorial_recipes@, true);
    let list = stable_sort::<RecipeListEntry<'a>>(
        listed(registry, wanted, registry.recipes@, inventory, stations),
        order,
    );
    list_is_in_order(registry, wanted, inventory, stations, true);
    if j < i {
        assert(order(list[i], list[j]));
    }
}

/// A line is in the list exactly where its recipe passes the filters: every
/// line comes from a recipe that passes, and every recipe that passes has a
/// line.
pub proof fn listed_is_exact<'a>(
    registry: Registry,
    wanted: Wanted,
    recipes: Seq<RecipeDefinition>,
    inventory: Option<&PlayerInventoryState>,
    stations: StationContext,
)
    ensures
        forall|i: int|
            0 <= i < listed(registry, wanted, recipes, inventory, stations).len() ==> ({
                let line = #[trigger] listed(
                    registry,
                    wanted,
                    recipes,
                    inventory,
                    stations,
                )[i];
                &&& recipes.contains(*line.recipe)
                &&& passes(registry, wanted, *line.recipe, inventory, stations)
                &&& line == entry_of(registry, *line.recipe, inventory, stations)
            }),
        forall|k: int|
            0 <= k < recipes.len() && passes(
                registry,
                wanted,
                #[trigger] recipes[k],
                inventory,
                stations,
            ) ==> listed(registry, wanted, recipes, inventory, stations).contains(
                entry_of(registry, recipes[k], inventory, stations),
            ),
    decreases recipes.len(),
{
    if recipes.len() > 0 {
        let shorter = recipes.drop_last();
        listed_is_exact(registry, wanted, shorter, inventory, stations);
        let rest = listed(registry, wanted, shorter, inventory, stations);
        let all = listed(registry, wanted, recipes, inventory, stations);
        assert forall|i: int| 0 <= i < all.len() implies ({
            let line = #[trigger] all[i];
            &&& recipes.contains(*line.recipe)
            &&& passes(registry, wanted, *line.recipe, inventory, stations)
            &&& line == entry_of(registry, *line.recipe, inventory, stations)
        }) by {
            if i < rest.len() {
                assert(all[i] == rest[i]);
                let k = choose|k: int| 0 <= k < shorter.len() && shorter[k] == *rest[i].recipe;
                assert(recipes[k] == *all[i].recipe);
            } else {
                assert(recipes[recipes.len() - 1] == *all[i].recipe);
            }
        }
        assert forall|k: int|
            0 <= k < recipes.len() && passes(
                registry,
                wanted,
                #[trigger] recipes[k],
                inventory,
                stations,
            ) implies all.contains(
            entry_of(registry, recipes[k], inventory, stations),
        ) by {
            let line = entry_of(registry, recipes[k], inventory, stations);
            if k < shorter.len() {
                assert(shorter[k] == recipes[k]);
                let at = choose|at: int| 0 <= at < rest.len() && rest[at] == line;
                assert(all[at] == line);
            } else {
                assert(all[all.len() - 1] == line);
            }
        }
    }
}

/// What the list is narrowed to without any filter.
pub open spec fn everything() -> Wanted {
    Wanted { category: None, needle: Seq::empty(), only_craftable: false }
}

/// The line is of a recipe that passes the filters.
pub open spec fn line_passes<'a>(
    registry: Registry,
    wanted: Wanted,
    inventory: Option<&PlayerInventoryState>,
    stations: StationContext,
) -> spec_fn(RecipeListEntry<'a>) -> bool {
    |line: RecipeListEntry<'a>| passes(registry, wanted, *line.recipe, inventory, stations)
}

proof fn listed_filters<'a>(
    registry: Registry,
    wanted: Wanted,
    recipes: Seq<RecipeDefinition>,
    inventory: Option<&PlayerInventoryState>,
    stations: StationContext,
)
    ensures
        listed(registry, wanted, recipes, inventory, stations) == listed(
            registry,
            everything(),
            recipes,
            inventory,
            stations,
        ).filter(line_passes(registry, wanted, inventory, stations)),
    decreases recipes.len(),
{
    reveal(Seq::filter);
    if recipes.len() > 0 {
        listed_filters(registry, wanted, recipes.drop_last(), inventory, stations);
        let all = listed(registry, everything(), recipes, inventory, stations);
        let rest = listed(
            registry,
            everything(),
            recipes.drop_last(),
            inventory,
            stations,
        );
        assert(all.drop_last() =~= rest);
    }
}

/// Filters only leave lines out: the list is the unfiltered list without the lines
/// of the recipes that do not pass. What stays keeps its order and its flags.
pub proof fn filters_only_leave_lines_out<'a>(
    registry: Registry,
    wanted: Wanted,
    inventory: Option<&PlayerInventoryState>,
    stations: StationContext,
    pin: bool,
)
    ensures
        stable_sort::<RecipeListEntry<'a>>(
            listed(registry, wanted, registry.recipes@, inventory, stations),
            list_order(registry.tutorial_recipes@, pin),
        ) == stable_sort::<RecipeListEntry<'a>>(
            listed(registry, everything(), registry.recipes@, inventory, stations),
            list_order(registry.tutorial_recipes@, pin),
        ).filter(line_passes(registry, wanted, inventory, stations)),
{
    listed_filters(registry, wanted, registry.recipes@, inventory, stations);
    list_order_is_order(registry.tutorial_recipes@, pin);
    sorting_commutes_with_filtering::<RecipeListEntry<'a>>(
        listed(registry, everything(), registry.recipes@, inventory, stations),
        list_order(registry.tutorial_recipes@, pin),
        line_passes(registry, wanted, inventory, stations),
    );
}

/// The search text of the filter field as it is looked for.
pub open spec fn needle_of(search: Seq<char>) -> Seq<char> {
    lowercase(trimmed(search))
}

/// The state of the filter row.
pub struct RecipeFilter {
    pub search: String,
    pub category_filter: Option<RecipeCategory>,
    pub only_craftable: bool,
}

impl RecipeFilter {
    /// What the filter row asks for.
    pub open spec fn wanted(self) -> Wanted {
        Wanted {
            category: self.category_filter,
            needle: needle_of(self.search@),
            only_craftable: self.only_craftable,
        }
    }
}

/// Two filter rows that differ at most in how the search text is spaced around and
/// cased, so that the same text is looked for, ask for the same list.
pub proof fn same_needle_asks_for_the_same_list(a: RecipeFilter, b: RecipeFilter)
    requires
        a.category_filter == b.category_filter,
        a.only_craftable == b.only_craftable,
        needle_of(a.search@) == needle_of(b.search@),
    ensures
        a.wanted() == b.wanted(),
{
}

/// Two filter rows with ASCII texts that differ at most in the case of letters and
/// in the white space around ask for the same list. That the needle of such a text
/// is its lowered core, [`search_needle`] tells.
pub proof fn case_makes_no_difference(a: RecipeFilter, b: RecipeFilter)
    requires
        a.category_filter == b.category_filter,
        a.only_craftable == b.only_craftable,
        needle_of(a.search@) == ascii_lowered(trimmed(a.search@)),
        needle_of(b.search@) == ascii_lowered(trimmed(b.search@)),
        ascii_lowered(trimmed(a.search@)) == ascii_lowered(trimmed(b.search@)),
    ensures
        a.wanted() == b.wanted(),
{
}

/// Trims and lowers a search text. Trimming it before makes no difference, an empty
/// text stays empty, and an ASCII text has only its letters lowered, so that doing
/// it twice is doing it once.
pub fn search_needle(search: &str) -> (r: String)
    ensures
        r@ == needle_of(search@),
        needle_of(trimmed(search@)) == r@,
        search@.len() == 0 ==> r@.len() == 0,
        is_ascii_text(search@) ==> r@ == ascii_lowered(trimmed(search@)),
        is_ascii_text(search@) ==> needle_of(r@) == r@,
{
    let core = trim(search);
    proof {
        if is_ascii_text(search@) {
            part_of_ascii_is_ascii(search@, core@);
        }
    }
    to_lowercase(core.as_str())
}

/// Lists the recipes for the filter row: trims and lowers the search text, then
/// lists what passes. White space around the search text makes no difference, and
/// an empty one narrows nothing. Nor does the case of an ASCII text: its needle
/// asks for the same list as the text itself.
pub fn collect_sorted_recipes<'a>(
    registry: &'a Registry,
    filter: &RecipeFilter,
    inventory: Option<&PlayerInventoryState>,
    stations: &StationContext,
    pin_tutorial: bool,
) -> (r: Vec<RecipeListEntry<'a>>)
    ensures
        r@ == stable_sort(
            listed(
                *registry,
                filter.wanted(),
                registry.recipes@,
                inventory,
                *stations,
            ),
            list_order(registry.tutorial_recipes@, pin_tutorial),
        ),
        needle_of(trimmed(filter.search@)) == filter.wanted().needle,
        filter.search@.len() == 0 ==> filter.wanted().needle.len() == 0,
        is_ascii_text(filter.search@) ==> filter.wanted().needle == ascii_lowered(
            trimmed(filter.search@),
        ),
        is_ascii_text(filter.search@) ==> needle_of(filter.wanted().needle)
            == filter.wanted().needle,
{
    let query = RecipeQuery {
        category: filter.category_filter,
        needle: search_needle(filter.search.as_str()),
        only_craftable: filter.only_craftable,
    };
    collect_matching(registry, &query, inventory, stations, pin_tutorial)
}

/// A press on the filter row.
#[derive(Clone, Copy, Debug, PartialEq, Eq, Structural)]
pub enum FilterPress {
    All,
    Category(RecipeCategory),
}

/// What the category filter is after a press: the chips are a radio group, so a
/// press selects its chip whether or not it was selected, and "All" clears.
pub fn press_chip(press: FilterPress) -> (r: Option<RecipeCategory>)
    ensures
        r == match press {
            FilterPress::All => None::<RecipeCategory>,
            FilterPress::Category(category) => Some(category),
        },
{
    match press {
        FilterPress::All => None,
        FilterPress::Category(category) => Some(category),
    }
}

/// Whether a chip reads as selected under a filter.
pub fn chip_selected(filter: Option<RecipeCategory>, chip: FilterPress) -> (r: bool)
    ensures
        r == match chip {
            FilterPress::All => filter is None,
            FilterPress::Category(category) => filter == Some(category),
        },
{
    match chip {
        FilterPress::All => filter.is_none(),
        FilterPress::Category(category) => match filter {
            Some(selected) => selected == category,
            None => false,
        },
    }
}

/// After a press exactly the pressed chip reads as selected.
pub proof fn pressed_chip_is_the_selected_one(press: FilterPress, chip: FilterPress)
    ensures
        ({
            let filter = match press {
                FilterPress::All => None::<RecipeCategory>,
                FilterPress::Category(category) => Some(category),
            };
            let selected = match chip {
                FilterPress::All => filter is None,
                FilterPress::Category(category) => filter == Some(category),
            };
            selected == (chip == press)
        }),
{
}

proof fn material_is_searched(
    items: Seq<ItemDefinition>,
    inputs: Seq<CraftingInput>,
    i: int,
)
    requires
        0 <= i < inputs.len(),
        item_of(items, inputs[i].item_id@) is Some,
    ensures
        material_texts(items, inputs).contains(
            lowercase(item_of(items, inputs[i].item_id@)->0.name@),
        ),
    decreases inputs.len(),
{
    let rest = material_texts(items, inputs.drop_last());
    let all = material_texts(items, inputs);
    let name = lowercase(item_of(items, inputs[i].item_id@)->0.name@);
    if i == inputs.len() - 1 {
        assert(all[all.len() - 1] == name);
    } else {
        material_is_searched(items, inputs.drop_last(), i);
        let at = choose|at: int| 0 <= at < rest.len() && rest[at] == name;
        assert(all[at] == name);
    }
}

proof fn searched_text_is_a_material(
    items: Seq<ItemDefinition>,
    inputs: Seq<CraftingInput>,
    at: int,
) -> (i: int)
    requires
        0 <= at < material_texts(items, inputs).len(),
    ensures
        0 <= i < inputs.len(),
        item_of(items, inputs[i].item_id@) is Some,
        material_texts(items, inputs)[at] == lowercase(
            item_of(items, inputs[i].item_id@)->0.name@,
        ),
    decreases inputs.len(),
{
    let rest = material_texts(items, inputs.drop_last());
    if at < rest.len() {
        let i = searched_text_is_a_material(items, inputs.drop_last(), at);
        assert(inputs.drop_last()[i] == inputs[i]);
        i
    } else {
        inputs.len() - 1
    }
}

/// A recipe is found by the name of each of its materials that the registry knows,
/// wherever in the recipe the material stands.
pub proof fn every_material_is_searched(
    items: Seq<ItemDefinition>,
    recipe: RecipeDefinition,
    needle: Seq<char>,
    i: int,
)
    requires
        0 <= i < recipe.inputs@.len(),
        item_of(items, recipe.inputs@[i].item_id@) is Some,
        has_text(lowercase(item_of(items, recipe.inputs@[i].item_id@)->0.name@), needle),
    ensures
        recipe_matches(items, recipe, needle),
{
    let name = lowercase(item_of(items, recipe.inputs@[i].item_id@)->0.name@);
    material_is_searched(items, recipe.inputs@, i);
    let all = material_texts(items, recipe.inputs@);
    let at = choose|at: int| 0 <= at < all.len() && all[at] == name;
    assert(has_text(all[at], needle));
}

/// What a search finds holds the needle: in the recipe's name, in its description, in
/// the name of what it makes, or in the name of a material that the registry knows.
pub proof fn found_recipes_hold_the_needle(
    items: Seq<ItemDefinition>,
    recipe: RecipeDefinition,
    needle: Seq<char>,
)
    requires
        recipe_matches(items, recipe, needle),
        !has_text(lowercase(recipe.name@), needle),
        !has_text(lowercase(recipe.description@), needle),
        !has_text(lowercase(name_of(items, recipe.output_item@)), needle),
    ensures
        exists|i: int|
            0 <= i < recipe.inputs@.len() && item_of(
                items,
                (#[trigger] recipe.inputs@[i]).item_id@,
            ) is Some && has_text(
                lowercase(item_of(items, recipe.inputs@[i].item_id@)->0.name@),
                needle,
            ),
{
    let all = material_texts(items, recipe.inputs@);
    let at = choose|at: int| 0 <= at < all.len() && has_text(#[trigger] all[at], needle);
    let i = searched_text_is_a_material(items, recipe.inputs@, at);
    assert(recipe.inputs@[i] == recipe.inputs@[i]);
}

/// A recipe is found by its own name, by its description and by the name of what it
/// makes.
pub proof fn recipe_is_found_by_its_own_texts(
    items: Seq<ItemDefinition>,
    recipe: RecipeDefinition,
    needle: Seq<char>,
)
    requires
        has_text(lowercase(recipe.name@), needle) || has_text(
            lowercase(recipe.description@),
            needle,
        ) || has_text(lowercase(name_of(items, recipe.output_item@)), needle),
    ensures
        recipe_matches(items, recipe, needle),
{
}

/// Each filter does what it says and no more: a recipe passes without any, a category
/// keeps its own recipes, a needle keeps what it is found in, and the last filter keeps
/// what can be made now.
pub proof fn each_filter_keeps_its_own(
    registry: Registry,
    recipe: RecipeDefinition,
    inventory: Option<&PlayerInventoryState>,
    stations: StationContext,
    category: RecipeCategory,
    needle: Seq<char>,
)
    requires
        needle.len() > 0,
    ensures
        passes(registry, everything(), recipe, inventory, stations),
        passes(
            registry,
            (Wanted { category: Some(category), ..everything() }),
            recipe,
            inventory,
            stations,
        ) <==> recipe.category == category,
        passes(registry, (Wanted { needle, ..everything() }), recipe, inventory, stations)
            <==> recipe_matches(registry.items@, recipe, needle),
        passes(
            registry,
            (Wanted { only_craftable: true, ..everything() }),
            recipe,
            inventory,
            stations,
        ) <==> stations.meets(registry.items@, recipe.station) && inventory is Some && affords(
            *inventory->0,
            recipe.inputs@,
            1,
        ),
        forall|wanted: Wanted|
            #![trigger passes(registry, wanted, recipe, inventory, stations)]
            passes(registry, wanted, recipe, inventory, stations) <==> {
                &&& passes(
                    registry,
                    (Wanted { category: wanted.category, ..everything() }),
                    recipe,
                    inventory,
                    stations,
                )
                &&& passes(
                    registry,
                    (Wanted { needle: wanted.needle, ..everything() }),
                    recipe,
                    inventory,
                    stations,
                )
                &&& passes(
                    registry,
                    (Wanted { only_craftable: wanted.only_craftable, ..everything() }),
                    recipe,
                    inventory,
                    stations,
                )
            },
{
}

/// A line reads as craftable exactly where its station is in reach and one batch of
/// the materials is carried, and tells of the station apart from that.
pub proof fn line_flags_tell_station_and_materials(
    registry: Registry,
    recipe: RecipeDefinition,
    inventory: Option<&PlayerInventoryState>,
    stations: StationContext,
)
    ensures
        ({
            let line = entry_of(registry, recipe, inventory, stations);
            &&& *line.recipe == recipe
            &&& line.station_met == stations.meets(registry.items@, recipe.station)
            &&& line.craftable ==> line.station_met && inventory is Some
            &&& line.craftable <==> line.station_met && inventory is Some && forall|i: int|
                0 <= i < recipe.inputs@.len() ==> {
                    let input = #[trigger] recipe.inputs@[i];
                    input.quantity <= carried_amount(*inventory->0, input.item_id@)
                }
        }),
{
    if let Some(carried) = inventory {
        batch_needs_every_material(*carried, recipe.inputs@, 1);
        assert(forall|q: int| #![trigger 1 * q] 1 * q == q);
        assert forall|i: int| 0 <= i < recipe.inputs@.len() implies 1
            * (#[trigger] recipe.inputs@[i]).quantity == recipe.inputs@[i].quantity by {}
    }
}

/// Of two lines that neither the tutorial nor what can be made now tells apart, the one
/// of the higher tier stands above, and of one tier the one whose name comes first.
pub proof fn ties_go_by_tier_and_then_by_name(
    tutorial: Seq<String>,
    pin: bool,
    a: RecipeListEntry,
    b: RecipeListEntry,
)
    requires
        a.craftable == b.craftable,
        !pin || is_tutorial(tutorial, a.recipe.id@) == is_tutorial(tutorial, b.recipe.id@),
    ensures
        a.recipe.tier > b.recipe.tier ==> entry_before(tutorial, pin, a, b) && !entry_before(
            tutorial,
            pin,
            b,
            a,
        ),
        a.recipe.tier == b.recipe.tier ==> (entry_before(tutorial, pin, a, b) <==> text_before(
            a.recipe.name@,
            b.recipe.name@,
        )),
{
}

} // verus!
