//! The clientbound packet that adds recipes to the client's recipe book.

use vstd::prelude::*;

use crate::entry::{
    cooking_encodable, cooking_entry, crafting_encodable, crafting_entry, is_listed, write_entry,
    CATEGORY_BLAST_FURNACE_BLOCKS, CATEGORY_BLAST_FURNACE_MISC, CATEGORY_CAMPFIRE,
    CATEGORY_FURNACE_BLOCKS, CATEGORY_FURNACE_FOOD, CATEGORY_FURNACE_MISC, CATEGORY_SMOKER_FOOD,
};
use crate::recipe::{CookingKind, CookingRecipe, CraftingRecipe, RecipeCategory, Stations};
use crate::version::MinecraftVersion;
use crate::wire::{bool_bytes, var_int_bytes, write_bool, write_var_int};

verus! {

/// Clientbound packet that adds recipes to the client's recipe book.
/// `replace = true` means the client replaces its current recipe list.
pub struct CRecipeBookAdd {
    pub replace: bool,
}

/// A recipe that the packet shows, in the order it is written.
pub enum ListedEntry {
    Crafting(CraftingRecipe),
    Cooking(CookingRecipe),
}

/// The crafting recipes that have a display, in order.
pub open spec fn listed_crafting(rs: Seq<CraftingRecipe>) -> Seq<CraftingRecipe>
    decreases rs.len(),
{
    if rs.len() == 0 {
        seq![]
    } else if is_listed(rs.last()) {
        listed_crafting(rs.drop_last()).push(rs.last())
    } else {
        listed_crafting(rs.drop_last())
    }
}

/// The recipe book category of a cooking recipe.
pub open spec fn cooking_book_category(c: CookingRecipe) -> i32 {
    match c.kind {
        CookingKind::Smelting => match c.category {
            RecipeCategory::Food => CATEGORY_FURNACE_FOOD,
            RecipeCategory::Blocks => CATEGORY_FURNACE_BLOCKS,
            _ => CATEGORY_FURNACE_MISC,
        },
        CookingKind::Blasting => match c.category {
            RecipeCategory::Blocks => CATEGORY_BLAST_FURNACE_BLOCKS,
            _ => CATEGORY_BLAST_FURNACE_MISC,
        },
        CookingKind::Smoking => CATEGORY_SMOKER_FOOD,
        CookingKind::CampfireCooking => CATEGORY_CAMPFIRE,
    }
}

/// The entries of the packet: the listed crafting recipes, then every
/// cooking recipe.
pub open spec fn listed_entries(rs: Seq<CraftingRecipe>, cs: Seq<CookingRecipe>) -> Seq<ListedEntry> {
    listed_crafting(rs).map_values(|r: CraftingRecipe| ListedEntry::Crafting(r)) + cs.map_values(
        |c: CookingRecipe| ListedEntry::Cooking(c),
    )
}

/// The bytes of the entry with display id `k`.
pub open spec fn entry_bytes(
    k: int,
    e: ListedEntry,
    version: MinecraftVersion,
    stations: Stations,
) -> Seq<u8> {
    match e {
        ListedEntry::Crafting(r) => crafting_entry(k as i32, version, stations, r),
        ListedEntry::Cooking(c) => cooking_entry(
            k as i32,
            version,
            stations,
            c,
            cooking_book_category(c),
        ),
    }
}

/// The entries in order, the `k`-th with display id `k`.
pub open spec fn entries_bytes(
    es: Seq<ListedEntry>,
    version: MinecraftVersion,
    stations: Stations,
) -> Seq<u8>
    decreases es.len(),
{
    if es.len() == 0 {
        seq![]
    } else {
        entries_bytes(es.drop_last(), version, stations) + entry_bytes(
            es.len() - 1,
            es.last(),
            version,
            stations,
        )
    }
}

/// The packet's data: the number of entries, the entries, the replace flag.
pub open spec fn packet_bytes(
    replace: bool,
    version: MinecraftVersion,
    stations: Stations,
    rs: Seq<CraftingRecipe>,
    cs: Seq<CookingRecipe>,
) -> Seq<u8> {
    let es = listed_entries(rs, cs);
    var_int_bytes(es.len() as i32) + entries_bytes(es, version, stations) + bool_bytes(replace)
}

/// A prefix lists no more recipes than the whole.
proof fn lemma_listed_prefix(rs: Seq<CraftingRecipe>, k: int)
    requires
        0 <= k <= rs.len(),
    ensures
        listed_crafting(rs.take(k)).len() <= listed_crafting(rs).len(),
    decreases rs.len(),
{
    if k < rs.len() {
        assert(rs.drop_last().take(k) =~= rs.take(k));
        lemma_listed_prefix(rs.drop_last(), k);
    } else {
        assert(rs.take(k) =~= rs);
    }
}

/// The recipe book category of a cooking recipe.
fn book_category(c: &CookingRecipe) -> (id: i32)
    ensures
        id == cooking_book_category(*c),
{
    match c.kind {
        CookingKind::Smelting => match c.category {
            RecipeCategory::Food => CATEGORY_FURNACE_FOOD,
            RecipeCategory::Blocks => CATEGORY_FURNACE_BLOCKS,
            _ => CATEGORY_FURNACE_MISC,
        },
        CookingKind::Blasting => match c.category {
            RecipeCategory::Blocks => CATEGORY_BLAST_FURNACE_BLOCKS,
            _ => CATEGORY_BLAST_FURNACE_MISC,
        },
        CookingKind::Smoking => CATEGORY_SMOKER_FOOD,
        CookingKind::CampfireCooking => CATEGORY_CAMPFIRE,
    }
}

/// The number of listed crafting recipes.
fn count_listed(crafting: &Vec<CraftingRecipe>) -> (n: usize)
    ensures
        n == listed_crafting(crafting@).len(),
{
    let mut n: usize = 0;
    let mut i: usize = 0;
    while i < crafting.len()
        invariant
            i <= crafting.len(),
            n == listed_crafting(crafting@.take(i as int)).len(),
            n <= i,
        decreases crafting.len() - i,
    {
        assert(crafting@.take(i as int + 1).drop_last() =~= crafting@.take(i as int));
        match &crafting[i] {
            CraftingRecipe::Special | CraftingRecipe::DecoratedPot => {},
            _ => {
                n = n + 1;
            },
        }
        i = i + 1;
    }
    assert(crafting@.take(crafting.len() as int) =~= crafting@);
    n
}

impl CRecipeBookAdd {
    pub fn new(replace: bool) -> (p: CRecipeBookAdd)
        ensures
            p.replace == replace,
    {
        CRecipeBookAdd { replace }
    }

    /// Writes the packet's data for the given recipes: the number of
    /// entries, one entry per listed crafting recipe and per cooking
    /// recipe with consecutive display ids from 0, then the replace flag.
    pub fn write_packet_data(
        &self,
        out: &mut Vec<u8>,
        version: MinecraftVersion,
        stations: &Stations,
        crafting: &Vec<CraftingRecipe>,
        cooking: &Vec<CookingRecipe>,
    )
        requires
            listed_crafting(crafting@).len() + cooking@.len() <= i32::MAX,
            forall|i: int| 0 <= i < crafting@.len() ==> crafting_encodable(#[trigger] crafting@[i]),
            forall|i: int| 0 <= i < cooking@.len() ==> cooking_encodable(#[trigger] cooking@[i]),
        ensures
            final(out)@ == old(out)@ + packet_bytes(
                self.replace,
                version,
                *stations,
                crafting@,
                cooking@,
            ),
    {
        let ghost rs = crafting@;
        let ghost cs = cooking@;
        let ghost listed = listed_crafting(rs);
        let ghost lc = listed.map_values(|r: CraftingRecipe| ListedEntry::Crafting(r));
        let crafting_count = count_listed(crafting);
        let total = crafting_count + cooking.len();
        write_var_int(out, total as i32);
        let ghost head = out@;
        let mut display_id: i32 = 0;
        let mut i: usize = 0;
        while i < crafting.len()
            invariant
                rs == crafting@,
                listed == listed_crafting(rs),
                lc == listed.map_values(|r: CraftingRecipe| ListedEntry::Crafting(r)),
                listed.len() + cooking@.len() <= i32::MAX,
                forall|j: int| 0 <= j < rs.len() ==> crafting_encodable(#[trigger] rs[j]),
                i <= crafting.len(),
                display_id == listed_crafting(rs.take(i as int)).len(),
                out@ == head + entries_bytes(
                    listed_crafting(rs.take(i as int)).map_values(
                        |r: CraftingRecipe| ListedEntry::Crafting(r),
                    ),
                    version,
                    *stations,
                ),
            decreases crafting.len() - i,
        {
            let ghost prev = listed_crafting(rs.take(i as int));
            let ghost prev_es = prev.map_values(|r: CraftingRecipe| ListedEntry::Crafting(r));
            assert(rs.take(i as int + 1).drop_last() =~= rs.take(i as int));
            assert(rs.take(i as int + 1).last() == rs[i as int]);
            proof {
                lemma_listed_prefix(rs, i as int + 1);
            }
            let written = write_entry(
                out,
                display_id,
                version,
                stations,
                Some(&crafting[i]),
                None,
            );
            if written {
                let ghost next_es = prev.push(rs[i as int]).map_values(
                    |r: CraftingRecipe| ListedEntry::Crafting(r),
                );
                assert(next_es.drop_last() =~= prev_es);
                assert(next_es.last() == ListedEntry::Crafting(rs[i as int]));
                display_id = display_id + 1;
            }
            i = i + 1;
        }
        assert(rs.take(crafting.len() as int) =~= rs);
        let ghost mid = out@;
        let mut j: usize = 0;
        while j < cooking.len()
            invariant
                cs == cooking@,
                lc.len() == listed.len(),
                listed.len() + cs.len() <= i32::MAX,
                forall|k: int| 0 <= k < cs.len() ==> cooking_encodable(#[trigger] cs[k]),
                j <= cooking.len(),
                display_id == listed.len() + j,
                out@ == head + entries_bytes(
                    lc + cs.take(j as int).map_values(|c: CookingRecipe| ListedEntry::Cooking(c)),
                    version,
                    *stations,
                ),
            decreases cooking.len() - j,
        {
            let ghost prev_es = lc + cs.take(j as int).map_values(
                |c: CookingRecipe| ListedEntry::Cooking(c),
            );
            let ghost next_es = lc + cs.take(j as int + 1).map_values(
                |c: CookingRecipe| ListedEntry::Cooking(c),
            );
            assert(next_es.drop_last() =~= prev_es);
            assert(next_es.last() == ListedEntry::Cooking(cs[j as int]));
            let recipe = &cooking[j];
            let category = book_category(recipe);
            write_entry(out, display_id, version, stations, None, Some((recipe, category)));
            display_id = display_id + 1;
            j = j + 1;
        }
        assert(cs.take(cooking.len() as int) =~= cs);
        assert(lc + cs.map_values(|c: CookingRecipe| ListedEntry::Cooking(c)) =~= listed_entries(
            rs,
            cs,
        ));
        write_bool(out, self.replace);
        assert(out@ =~= old(out)@ + packet_bytes(self.replace, version, *stations, rs, cs));
    }
}

} // verus!
