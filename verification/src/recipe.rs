//! The recipes as the packet reads them, with every registry key already
//! looked up: an item is its protocol id for the client's version, or
//! `None` where the registry has no item of that key.

use vstd::prelude::*;

verus! {

/// The category a recipe is filed under in the data files.
#[derive(Clone, Copy, Debug, PartialEq, Eq, Structural)]
pub enum RecipeCategory {
    Equipment,
    Building,
    Blocks,
    Redstone,
    Food,
    Misc,
}

/// An ingredient of a recipe.
pub enum Ingredient {
    /// One item.
    Simple(Option<i32>),
    /// An item tag; tags cannot be resolved here.
    Tagged,
    /// Any of a list of items, each looked up on its own.
    OneOf(Vec<Option<i32>>),
}

/// A crafting-table recipe.
pub enum CraftingRecipe {
    /// A grid pattern whose characters name ingredients through `key`;
    /// a space is an empty cell.
    Shaped {
        category: RecipeCategory,
        pattern: Vec<Vec<char>>,
        key: Vec<(char, Ingredient)>,
        result: Option<i32>,
    },
    Shapeless { category: RecipeCategory, ingredients: Vec<Ingredient>, result: Option<i32> },
    Transmute {
        category: RecipeCategory,
        input: Ingredient,
        material: Ingredient,
        result: Option<i32>,
    },
    DecoratedPot,
    Special,
}

/// Which station cooks a recipe.
#[derive(Clone, Copy, Debug, PartialEq, Eq, Structural)]
pub enum CookingKind {
    Smelting,
    Blasting,
    Smoking,
    CampfireCooking,
}

/// A cooking recipe; the experience is carried as the bits of its `f32`.
pub struct CookingRecipe {
    pub kind: CookingKind,
    pub category: RecipeCategory,
    pub ingredient: Ingredient,
    pub result: Option<i32>,
    pub cooking_time: i32,
    pub experience_bits: u32,
}

/// The protocol item ids of the five crafting stations.
#[derive(Clone, Copy, Debug, PartialEq, Eq, Structural)]
pub struct Stations {
    pub crafting_table: i32,
    pub furnace: i32,
    pub blast_furnace: i32,
    pub smoker: i32,
    pub campfire: i32,
}

/// The namespace that registry keys may carry in the data files.
pub open spec fn namespace() -> Seq<char> {
    seq!['m', 'i', 'n', 'e', 'c', 'r', 'a', 'f', 't', ':']
}

/// `id` starts with the namespace.
pub open spec fn has_namespace(id: Seq<char>) -> bool {
    id.len() >= namespace().len() && id.subrange(0, namespace().len() as int) == namespace()
}

/// The registry key of an identifier: the identifier without its
/// namespace, or the identifier itself where it has none.
pub open spec fn spec_registry_key(id: Seq<char>) -> Seq<char> {
    if has_namespace(id) {
        id.subrange(namespace().len() as int, id.len() as int)
    } else {
        id
    }
}

/// The key under which the item registry is searched for `id`.
pub fn registry_key(id: &str) -> (key: &str)
    ensures
        key@ == spec_registry_key(id@),
{
    let ns: Vec<char> = vec!['m', 'i', 'n', 'e', 'c', 'r', 'a', 'f', 't', ':'];
    assert(ns@ == namespace());
    let n = id.unicode_len();
    if n < ns.len() {
        return id;
    }
    let mut i: usize = 0;
    while i < ns.len()
        invariant
            ns@ == namespace(),
            n == id@.len(),
            n >= ns.len(),
            i <= ns.len(),
            forall|j: int| 0 <= j < i ==> id@[j] == ns@[j],
        decreases ns.len() - i,
    {
        if id.get_char(i) != ns[i] {
            assert(id@.subrange(0, 10)[i as int] != namespace()[i as int]);
            return id;
        }
        i = i + 1;
    }
    assert(id@.subrange(0, 10) =~= namespace());
    id.substring_char(ns.len(), n)
}

} // verus!
