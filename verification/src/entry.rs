//! One `RecipeDisplayEntry` of the packet, with its flags byte.

use vstd::prelude::*;

use crate::display::{
    any_fuel_display, holderset_ok, ingredient_display, item_display, owned_slots,
    requirements, result_display, slots_ok, write_any_fuel_slot_display,
    write_crafting_requirements, write_ingredient_slot_display, write_item_slot_display,
    write_result_slot_display,
};
use crate::grid::{
    cell_displays, cell_slots, collect_grid_slots, grid_cells, somes, utf8_len, utf8_width,
    write_grid_displays,
};
use crate::recipe::{CookingKind, CookingRecipe, CraftingRecipe, Ingredient, RecipeCategory, Stations};
use crate::version::MinecraftVersion;
use crate::wire::{
    bool_bytes, u32_be_bytes, var_int_bytes, write_bool, write_u32_be, write_u8, write_var_int,
};

verus! {

/// Recipe display type id of a shapeless recipe.
pub const RECIPE_DISPLAY_SHAPELESS: i32 = 0;

/// Recipe display type id of a shaped recipe.
pub const RECIPE_DISPLAY_SHAPED: i32 = 1;

/// Recipe display type id of a furnace recipe.
pub const RECIPE_DISPLAY_FURNACE: i32 = 2;

/// Recipe book category ids.
pub const CATEGORY_CRAFTING_BUILDING: i32 = 0;

pub const CATEGORY_CRAFTING_REDSTONE: i32 = 1;

pub const CATEGORY_CRAFTING_EQUIPMENT: i32 = 2;

pub const CATEGORY_CRAFTING_MISC: i32 = 3;

pub const CATEGORY_FURNACE_FOOD: i32 = 4;

pub const CATEGORY_FURNACE_BLOCKS: i32 = 5;

pub const CATEGORY_FURNACE_MISC: i32 = 6;

pub const CATEGORY_BLAST_FURNACE_BLOCKS: i32 = 7;

pub const CATEGORY_BLAST_FURNACE_MISC: i32 = 8;

pub const CATEGORY_SMOKER_FOOD: i32 = 9;

pub const CATEGORY_CAMPFIRE: i32 = 12;

/// The recipe book category of a crafting recipe's data category.
pub open spec fn spec_crafting_category(cat: RecipeCategory) -> i32 {
    match cat {
        RecipeCategory::Equipment => CATEGORY_CRAFTING_EQUIPMENT,
        RecipeCategory::Building => CATEGORY_CRAFTING_BUILDING,
        RecipeCategory::Blocks => CATEGORY_CRAFTING_BUILDING,
        RecipeCategory::Redstone => CATEGORY_CRAFTING_REDSTONE,
        RecipeCategory::Food => CATEGORY_CRAFTING_MISC,
        RecipeCategory::Misc => CATEGORY_CRAFTING_MISC,
    }
}

pub fn crafting_category(cat: RecipeCategory) -> (id: i32)
    ensures
        id == spec_crafting_category(cat),
{
    match cat {
        RecipeCategory::Equipment => CATEGORY_CRAFTING_EQUIPMENT,
        RecipeCategory::Building | RecipeCategory::Blocks => CATEGORY_CRAFTING_BUILDING,
        RecipeCategory::Redstone => CATEGORY_CRAFTING_REDSTONE,
        RecipeCategory::Food | RecipeCategory::Misc => CATEGORY_CRAFTING_MISC,
    }
}

/// A crafting recipe has a display in the recipe book: decorated pots and
/// special recipes have none.
pub open spec fn is_listed(r: CraftingRecipe) -> bool {
    !(r is DecoratedPot) && !(r is Special)
}

/// The width of a pattern: the number of UTF-8 bytes of its first row.
pub open spec fn shaped_width(pattern: Seq<Vec<char>>) -> i32 {
    if pattern.len() == 0 {
        0
    } else {
        utf8_len(pattern[0]@) as i32
    }
}

/// The height of a pattern: its number of rows.
pub open spec fn shaped_height(pattern: Seq<Vec<char>>) -> i32 {
    pattern.len() as i32
}

/// The fields that every crafting display ends with.
pub open spec fn crafting_tail(
    version: MinecraftVersion,
    stations: Stations,
    category: RecipeCategory,
    result: Option<i32>,
    slots: Seq<Option<Ingredient>>,
) -> Seq<u8> {
    result_display(result, version) + item_display(version, stations.crafting_table) + bool_bytes(
        false,
    ) + var_int_bytes(spec_crafting_category(category)) + requirements(slots) + seq![0u8]
}

/// The slot displays of a list of ingredients, in order.
pub open spec fn ingredient_displays(ings: Seq<Ingredient>, version: MinecraftVersion) -> Seq<u8>
    decreases ings.len(),
{
    if ings.len() == 0 {
        seq![]
    } else {
        ingredient_displays(ings.drop_last(), version) + ingredient_display(ings.last(), version)
    }
}

/// The entry of a shaped recipe with display id `id`: its width and
/// height, the declared number of ingredients `width * height`, then one
/// slot display per grid cell.
pub open spec fn shaped_entry(
    id: i32,
    version: MinecraftVersion,
    stations: Stations,
    category: RecipeCategory,
    pattern: Seq<Vec<char>>,
    key: Seq<(char, Ingredient)>,
    result: Option<i32>,
) -> Seq<u8> {
    let w = shaped_width(pattern);
    let h = shaped_height(pattern);
    let cells = grid_cells(pattern);
    var_int_bytes(id) + var_int_bytes(RECIPE_DISPLAY_SHAPED) + var_int_bytes(w) + var_int_bytes(h)
        + var_int_bytes((w * h) as i32) + cell_displays(cells, key, version) + crafting_tail(
        version,
        stations,
        category,
        result,
        somes(cell_slots(cells, key)),
    )
}

/// The entry of a shapeless recipe with display id `id`.
pub open spec fn shapeless_entry(
    id: i32,
    version: MinecraftVersion,
    stations: Stations,
    category: RecipeCategory,
    ingredients: Seq<Ingredient>,
    result: Option<i32>,
) -> Seq<u8> {
    var_int_bytes(id) + var_int_bytes(RECIPE_DISPLAY_SHAPELESS) + var_int_bytes(
        ingredients.len() as i32,
    ) + ingredient_displays(ingredients, version) + crafting_tail(
        version,
        stations,
        category,
        result,
        somes(ingredients),
    )
}

/// The entry of a transmute recipe with display id `id`: shown as a
/// shapeless recipe of its input and its material.
pub open spec fn transmute_entry(
    id: i32,
    version: MinecraftVersion,
    stations: Stations,
    category: RecipeCategory,
    input: Ingredient,
    material: Ingredient,
    result: Option<i32>,
) -> Seq<u8> {
    var_int_bytes(id) + var_int_bytes(RECIPE_DISPLAY_SHAPELESS) + var_int_bytes(2)
        + ingredient_display(input, version) + ingredient_display(material, version)
        + crafting_tail(version, stations, category, result, seq![Some(input), Some(material)])
}

/// The entry of a crafting recipe with display id `id`; nothing for a
/// recipe that is not listed.
pub open spec fn crafting_entry(
    id: i32,
    version: MinecraftVersion,
    stations: Stations,
    r: CraftingRecipe,
) -> Seq<u8> {
    match r {
        CraftingRecipe::Shaped { category, pattern, key, result } => shaped_entry(
            id,
            version,
            stations,
            category,
            pattern@,
            key@,
            result,
        ),
        CraftingRecipe::Shapeless { category, ingredients, result } => shapeless_entry(
            id,
            version,
            stations,
            category,
            ingredients@,
            result,
        ),
        CraftingRecipe::Transmute { category, input, material, result } => transmute_entry(
            id,
            version,
            stations,
            category,
            input,
            material,
            result,
        ),
        CraftingRecipe::DecoratedPot => seq![],
        CraftingRecipe::Special => seq![],
    }
}

/// The station that cooks a recipe of this kind.
pub open spec fn cooking_station(stations: Stations, kind: CookingKind) -> i32 {
    match kind {
        CookingKind::Smelting => stations.furnace,
        CookingKind::Blasting => stations.blast_furnace,
        CookingKind::Smoking => stations.smoker,
        CookingKind::CampfireCooking => stations.campfire,
    }
}

/// The entry of a cooking recipe with display id `id`, filed under the
/// recipe book category `book_category`.
pub open spec fn cooking_entry(
    id: i32,
    version: MinecraftVersion,
    stations: Stations,
    c: CookingRecipe,
    book_category: i32,
) -> Seq<u8> {
    var_int_bytes(id) + var_int_bytes(RECIPE_DISPLAY_FURNACE) + ingredient_display(
        c.ingredient,
        version,
    ) + any_fuel_display() + result_display(c.result, version) + item_display(
        version,
        cooking_station(stations, c.kind),
    ) + var_int_bytes(c.cooking_time) + u32_be_bytes(c.experience_bits) + bool_bytes(false)
        + var_int_bytes(book_category) + requirements(seq![Some(c.ingredient)]) + seq![0u8]
}

/// A crafting recipe can be encoded without an arithmetic overflow: the
/// width of a pattern is a byte count, its area fits in an `i32`, and every
/// required holder set can be counted.
pub open spec fn crafting_encodable(r: CraftingRecipe) -> bool {
    match r {
        CraftingRecipe::Shaped { pattern, key, .. } => {
            &&& pattern@.len() > 0 ==> utf8_len(pattern@[0]@) <= usize::MAX
            &&& i32::MIN <= shaped_width(pattern@) * shaped_height(pattern@) <= i32::MAX
            &&& slots_ok(somes(cell_slots(grid_cells(pattern@), key@)))
        },
        CraftingRecipe::Shapeless { ingredients, .. } => slots_ok(somes(ingredients@)),
        CraftingRecipe::Transmute { input, material, .. } => holderset_ok(input) && holderset_ok(
            material,
        ),
        _ => true,
    }
}

/// A cooking recipe can be encoded without an arithmetic overflow.
pub open spec fn cooking_encodable(c: CookingRecipe) -> bool {
    holderset_ok(c.ingredient)
}

/// Writes the slot display of each ingredient, in order.
fn write_ingredient_displays(out: &mut Vec<u8>, ings: &Vec<Ingredient>, version: MinecraftVersion)
    ensures
        final(out)@ == old(out)@ + ingredient_displays(ings@, version),
{
    let mut i: usize = 0;
    while i < ings.len()
        invariant
            i <= ings.len(),
            out@ == old(out)@ + ingredient_displays(ings@.take(i as int), version),
        decreases ings.len() - i,
    {
        assert(ings@.take(i as int + 1).drop_last() =~= ings@.take(i as int));
        write_ingredient_slot_display(out, &ings[i], version);
        i = i + 1;
    }
    assert(ings@.take(ings.len() as int) =~= ings@);
}

/// Every ingredient of a list as a present slot.
fn all_slots(ings: &Vec<Ingredient>) -> (slots: Vec<Option<&Ingredient>>)
    ensures
        owned_slots(slots@) == somes(ings@),
{
    let mut slots: Vec<Option<&Ingredient>> = Vec::new();
    let mut i: usize = 0;
    while i < ings.len()
        invariant
            i <= ings.len(),
            owned_slots(slots@) == somes(ings@.take(i as int)),
        decreases ings.len() - i,
    {
        let ghost before = slots@;
        slots.push(Some(&ings[i]));
        assert(owned_slots(slots@) =~= owned_slots(before).push(Some(ings@[i as int])));
        assert(somes(ings@.take(i as int + 1)) =~= somes(ings@.take(i as int)).push(
            Some(ings@[i as int]),
        ));
        i = i + 1;
    }
    assert(ings@.take(ings.len() as int) =~= ings@);
    slots
}

/// Writes the fields that every crafting display ends with.
fn write_crafting_tail(
    out: &mut Vec<u8>,
    version: MinecraftVersion,
    stations: &Stations,
    category: RecipeCategory,
    result: Option<i32>,
    slots: &Vec<Option<&Ingredient>>,
)
    requires
        slots_ok(owned_slots(slots@)),
    ensures
        final(out)@ == old(out)@ + crafting_tail(
            version,
            *stations,
            category,
            result,
            owned_slots(slots@),
        ),
{
    write_result_slot_display(out, result, version);
    write_item_slot_display(out, stations.crafting_table, version);
    write_bool(out, false);
    write_var_int(out, crafting_category(category));
    write_crafting_requirements(out, slots, version);
    write_u8(out, 0);
    assert(out@ =~= old(out)@ + crafting_tail(
        version,
        *stations,
        category,
        result,
        owned_slots(slots@),
    ));
}

fn write_shaped_entry(
    out: &mut Vec<u8>,
    display_id: i32,
    version: MinecraftVersion,
    stations: &Stations,
    category: RecipeCategory,
    pattern: &Vec<Vec<char>>,
    key: &Vec<(char, Ingredient)>,
    result: Option<i32>,
)
    requires
        pattern@.len() > 0 ==> utf8_len(pattern@[0]@) <= usize::MAX,
        i32::MIN <= shaped_width(pattern@) * shaped_height(pattern@) <= i32::MAX,
        slots_ok(somes(cell_slots(grid_cells(pattern@), key@))),
    ensures
        final(out)@ == old(out)@ + shaped_entry(
            display_id,
            version,
            *stations,
            category,
            pattern@,
            key@,
            result,
        ),
{
    let height = pattern.len() as i32;
    let width = if pattern.len() == 0 {
        0i32
    } else {
        utf8_width(&pattern[0]) as i32
    };
    write_var_int(out, display_id);
    write_var_int(out, RECIPE_DISPLAY_SHAPED);
    write_var_int(out, width);
    write_var_int(out, height);
    write_var_int(out, width * height);
    write_grid_displays(out, pattern, key, version);
    let slots = collect_grid_slots(pattern, key);
    write_crafting_tail(out, version, stations, category, result, &slots);
    assert(out@ =~= old(out)@ + shaped_entry(
        display_id,
        version,
        *stations,
        category,
        pattern@,
        key@,
        result,
    ));
}

fn write_shapeless_entry(
    out: &mut Vec<u8>,
    display_id: i32,
    version: MinecraftVersion,
    stations: &Stations,
    category: RecipeCategory,
    ingredients: &Vec<Ingredient>,
    result: Option<i32>,
)
    requires
        slots_ok(somes(ingredients@)),
    ensures
        final(out)@ == old(out)@ + shapeless_entry(
            display_id,
            version,
            *stations,
            category,
            ingredients@,
            result,
        ),
{
    write_var_int(out, display_id);
    write_var_int(out, RECIPE_DISPLAY_SHAPELESS);
    write_var_int(out, ingredients.len() as i32);
    write_ingredient_displays(out, ingredients, version);
    let slots = all_slots(ingredients);
    write_crafting_tail(out, version, stations, category, result, &slots);
    assert(out@ =~= old(out)@ + shapeless_entry(
        display_id,
        version,
        *stations,
        category,
        ingredients@,
        result,
    ));
}

fn write_transmute_entry(
    out: &mut Vec<u8>,
    display_id: i32,
    version: MinecraftVersion,
    stations: &Stations,
    category: RecipeCategory,
    input: &Ingredient,
    material: &Ingredient,
    result: Option<i32>,
)
    requires
        holderset_ok(*input),
        holderset_ok(*material),
    ensures
        final(out)@ == old(out)@ + transmute_entry(
            display_id,
            version,
            *stations,
            category,
            *input,
            *material,
            result,
        ),
{
    write_var_int(out, display_id);
    write_var_int(out, RECIPE_DISPLAY_SHAPELESS);
    write_var_int(out, 2);
    write_ingredient_slot_display(out, input, version);
    write_ingredient_slot_display(out, material, version);
    let slots: Vec<Option<&Ingredient>> = vec![Some(input), Some(material)];
    assert(owned_slots(slots@) =~= seq![Some(*input), Some(*material)]);
    write_crafting_tail(out, version, stations, category, result, &slots);
    assert(out@ =~= old(out)@ + transmute_entry(
        display_id,
        version,
        *stations,
        category,
        *input,
        *material,
        result,
    ));
}

fn write_cooking_entry(
    out: &mut Vec<u8>,
    display_id: i32,
    version: MinecraftVersion,
    stations: &Stations,
    recipe: &CookingRecipe,
    book_category: i32,
)
    requires
        cooking_encodable(*recipe),
    ensures
        final(out)@ == old(out)@ + cooking_entry(
            display_id,
            version,
            *stations,
            *recipe,
            book_category,
        ),
{
    let station = match recipe.kind {
        CookingKind::Smelting => stations.furnace,
        CookingKind::Blasting => stations.blast_furnace,
        CookingKind::Smoking => stations.smoker,
        CookingKind::CampfireCooking => stations.campfire,
    };
    write_var_int(out, display_id);
    write_var_int(out, RECIPE_DISPLAY_FURNACE);
    write_ingredient_slot_display(out, &recipe.ingredient, version);
    write_any_fuel_slot_display(out);
    write_result_slot_display(out, recipe.result, version);
    write_item_slot_display(out, station, version);
    write_var_int(out, recipe.cooking_time);
    write_u32_be(out, recipe.experience_bits);
    write_bool(out, false);
    write_var_int(out, book_category);
    let slots: Vec<Option<&Ingredient>> = vec![Some(&recipe.ingredient)];
    assert(owned_slots(slots@) =~= seq![Some(recipe.ingredient)]);
    write_crafting_requirements(out, &slots, version);
    write_u8(out, 0);
    assert(out@ =~= old(out)@ + cooking_entry(
        display_id,
        version,
        *stations,
        *recipe,
        book_category,
    ));
}

/// Writes one recipe display entry and its flags byte, and says whether it
/// wrote one: a crafting recipe that is not listed, or no recipe at all,
/// writes nothing.
pub fn write_entry(
    out: &mut Vec<u8>,
    display_id: i32,
    version: MinecraftVersion,
    stations: &Stations,
    crafting_recipe: Option<&CraftingRecipe>,
    cooking_recipe: Option<(&CookingRecipe, i32)>,
) -> (written: bool)
    requires
        match crafting_recipe {
            Some(r) => crafting_encodable(*r),
            None => match cooking_recipe {
                Some((c, _)) => cooking_encodable(*c),
                None => true,
            },
        },
    ensures
        match crafting_recipe {
            Some(r) => {
                &&& written == is_listed(*r)
                &&& final(out)@ == old(out)@ + crafting_entry(display_id, version, *stations, *r)
            },
            None => match cooking_recipe {
                Some((c, book_category)) => {
                    &&& written
                    &&& final(out)@ == old(out)@ + cooking_entry(
                        display_id,
                        version,
                        *stations,
                        *c,
                        book_category,
                    )
                },
                None => !written && final(out)@ == old(out)@,
            },
        },
{
    if let Some(recipe) = crafting_recipe {
        match recipe {
            CraftingRecipe::Shaped { category, pattern, key, result } => {
                write_shaped_entry(out, display_id, version, stations, *category, pattern, key, *result);
            },
            CraftingRecipe::Shapeless { category, ingredients, result } => {
                write_shapeless_entry(out, display_id, version, stations, *category, ingredients, *result);
            },
            CraftingRecipe::Transmute { category, input, material, result } => {
                write_transmute_entry(out, display_id, version, stations, *category, input, material, *result);
            },
            CraftingRecipe::DecoratedPot | CraftingRecipe::Special => {
                return false;
            },
        }
        return true;
    }
    if let Some((recipe, book_category)) = cooking_recipe {
        write_cooking_entry(out, display_id, version, stations, recipe, book_category);
        return true;
    }
    false
}

} // verus!
