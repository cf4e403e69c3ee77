//! The wire format, field by field: what each encoding is made of, stated
//! over the bytes of its parts, the parts' own laws, and literal type ids.

use vstd::prelude::*;
use vstd::utf8::{encode_scalar, encode_utf8};

use crate::display::{
    any_fuel_display, empty_display, found, holderset, holdersets, ingredient_display,
    item_display, item_displays, owned_slots, requirements, result_display, var_ints,
};
use crate::entry::{
    cooking_entry, cooking_station, crafting_entry, crafting_tail, ingredient_displays,
    is_listed, shaped_entry, shaped_height, shaped_width, shapeless_entry,
    spec_crafting_category, transmute_entry,
};
use crate::grid::{
    cell_display, cell_displays, cell_slots, char_width, grid_cells, key_find, somes, utf8_len,
};
use crate::packet::{
    cooking_book_category, entries_bytes, entry_bytes, listed_crafting, listed_entries,
    packet_bytes, ListedEntry,
};
use crate::recipe::{
    spec_registry_key, CookingKind, CookingRecipe, CraftingRecipe, Ingredient, RecipeCategory,
    Stations,
};
use crate::version::{spec_slot_display_composite, spec_slot_display_item, MinecraftVersion};
use crate::wire::{
    bool_bytes, leb128, lemma_var_int_round_trip, u32_be_bytes, var_int_bytes, var_int_value,
};

verus! {

/// A VarInt below 128 is the single byte of its value; a larger one is its
/// low seven bits with the high bit set, followed by the VarInt of the rest.
pub proof fn lemma_var_int_bytes(v: i32)
    ensures
        0 <= v < 128 ==> var_int_bytes(v) == seq![v as u8],
        !(0 <= v < 128) ==> var_int_bytes(v) == seq![((v as u32) % 128 + 128) as u8] + leb128(
            (v as u32) / 128,
        ),
{
    if v < 0 {
        assert(v < 0 ==> (v as u32) >= 0x8000_0000) by (bit_vector);
    }
}

/// A boolean is the single byte 1 or 0.
pub proof fn lemma_bool_bytes(b: bool)
    ensures
        bool_bytes(true) == seq![1u8],
        bool_bytes(false) == seq![0u8],
{
}

/// A 32-bit word is four bytes, most significant first, that make up its value.
pub proof fn lemma_u32_be_bytes(x: u32)
    ensures
        u32_be_bytes(x).len() == 4,
        u32_be_bytes(x)[0] * 0x100_0000 + u32_be_bytes(x)[1] * 0x1_0000 + u32_be_bytes(x)[2]
            * 0x100 + u32_be_bytes(x)[3] == x,
{
}

/// Release order is by major, then minor, then patch number; the item and
/// composite slot display ids are 4 and 10 from release 26.1 on, and 2 and
/// 7 before it.
pub proof fn lemma_slot_display_ids(v: MinecraftVersion)
    ensures
        ({
            let late = v.major > 26 || (v.major == 26 && v.minor >= 1);
            &&& late ==> spec_slot_display_item(v) == 4 && spec_slot_display_composite(v) == 10
            &&& !late ==> spec_slot_display_item(v) == 2 && spec_slot_display_composite(v) == 7
        }),
{
}

/// Releases are ordered as their numbers read from the left: one is at
/// least another exactly when its (major, minor, patch) key is at least the
/// other's.
pub proof fn lemma_release_order(v: MinecraftVersion, w: MinecraftVersion)
    ensures
        v.spec_at_least(w) <==> v.major * 0x1_0000_0000_0000_0000int + v.minor * 0x1_0000_0000int
            + v.patch >= w.major * 0x1_0000_0000_0000_0000int + w.minor * 0x1_0000_0000int
            + w.patch,
        MinecraftVersion::spec_v26_1() == (MinecraftVersion { major: 26, minor: 1, patch: 0 }),
{
}

/// A registry key is the identifier without a leading `minecraft:`, and an
/// identifier without it is its own key.
pub proof fn lemma_registry_key(rest: Seq<char>, id: Seq<char>)
    ensures
        spec_registry_key(seq!['m', 'i', 'n', 'e', 'c', 'r', 'a', 'f', 't', ':'] + rest) == rest,
        !(id.len() >= 10 && id.take(10) == seq!['m', 'i', 'n', 'e', 'c', 'r', 'a', 'f', 't', ':'])
            ==> spec_registry_key(id) == id,
{
    let ns = seq!['m', 'i', 'n', 'e', 'c', 'r', 'a', 'f', 't', ':'];
    let s = ns + rest;
    assert(s.subrange(0, 10) =~= ns);
    assert(s.subrange(10, s.len() as int) =~= rest);
    assert(id.take(10) =~= id.subrange(0, 10));
}

/// An empty slot is the byte 0, the fuel slot the byte 1, and an item slot
/// the item slot type id followed by the item's id.
pub proof fn lemma_slot_displays(v: MinecraftVersion, item: i32)
    ensures
        empty_display() == seq![0u8],
        any_fuel_display() == seq![1u8],
        item_display(v, item) == var_int_bytes(spec_slot_display_item(v)) + var_int_bytes(item),
{
}

/// The found items are the ids of the list that are present, in order.
pub proof fn lemma_found(s: Seq<Option<i32>>, x: i32)
    ensures
        found(Seq::empty()) == Seq::<i32>::empty(),
        found(s.push(Some(x))) == found(s).push(x),
        found(s.push(None)) == found(s),
        found(s).len() <= s.len(),
    decreases s.len(),
{
    assert(s.push(Some(x)).drop_last() =~= s);
    assert(s.push(None::<i32>).drop_last() =~= s);
    if s.len() > 0 {
        lemma_found(s.drop_last(), x);
    }
}

/// A run of item displays (or of VarInts) is one per item, in order.
pub proof fn lemma_item_runs(v: MinecraftVersion, s: Seq<i32>, x: i32)
    ensures
        item_displays(v, Seq::empty()) == Seq::<u8>::empty(),
        item_displays(v, s.push(x)) == item_displays(v, s) + item_display(v, x),
        var_ints(Seq::empty()) == Seq::<u8>::empty(),
        var_ints(s.push(x)) == var_ints(s) + var_int_bytes(x),
{
    assert(s.push(x).drop_last() =~= s);
}

/// The slot display of an ingredient: one item is its item display; a
/// missing item, a tag, or a list with no item found is an empty slot; a
/// list with one item found is that item's display; a list with `n >= 2`
/// items found is the composite type id, `n`, and then exactly the item
/// displays of the found items, in order.
pub proof fn lemma_ingredient_display(v: MinecraftVersion, item: i32, items: Vec<Option<i32>>)
    ensures
        ingredient_display(Ingredient::Simple(Some(item)), v) == item_display(v, item),
        ingredient_display(Ingredient::Simple(None), v) == seq![0u8],
        ingredient_display(Ingredient::Tagged, v) == seq![0u8],
        found(items@).len() == 0 ==> ingredient_display(Ingredient::OneOf(items), v) == seq![0u8],
        found(items@).len() == 1 ==> ingredient_display(Ingredient::OneOf(items), v)
            == item_display(v, found(items@)[0]),
        found(items@).len() >= 2 ==> ingredient_display(Ingredient::OneOf(items), v)
            == var_int_bytes(spec_slot_display_composite(v)) + var_int_bytes(
            found(items@).len() as i32,
        ) + item_displays(v, found(items@)),
{
}

/// A result is its item display, or an empty slot when it is missing.
pub proof fn lemma_result_display(v: MinecraftVersion, item: i32)
    ensures
        result_display(Some(item), v) == item_display(v, item),
        result_display(None, v) == seq![0u8],
{
}

/// A holder set is a direct list: the VarInt `n + 1`, then the ids of its
/// `n` items. An absent ingredient, a missing item and a tag are the empty
/// list (the byte 1); one item is 2 and its id; a list of items is the
/// number found plus one, then the found ids in order.
pub proof fn lemma_holderset(item: i32, items: Vec<Option<i32>>)
    ensures
        holderset(None) == seq![1u8],
        holderset(Some(Ingredient::Simple(None))) == seq![1u8],
        holderset(Some(Ingredient::Tagged)) == seq![1u8],
        holderset(Some(Ingredient::Simple(Some(item)))) == seq![2u8] + var_int_bytes(item),
        found(items@).len() < i32::MAX ==> holderset(Some(Ingredient::OneOf(items)))
            == var_int_bytes((found(items@).len() + 1) as i32) + var_ints(found(items@)),
        found(items@).len() < i32::MAX ==> var_int_value(
            holderset(Some(Ingredient::OneOf(items))),
        ) == found(items@).len() + 1,
{
    let f = found(items@);
    if f.len() < i32::MAX {
        let n = ((f.len() as i32) + 1) as i32;
        assert(n == f.len() + 1);
        lemma_var_int_round_trip(n, var_ints(f));
    }
}

/// The requirements field is the byte 1 (present), the number of slots,
/// and then one holder set per slot, in order.
pub proof fn lemma_requirements(slots: Seq<Option<Ingredient>>, s: Option<Ingredient>)
    ensures
        requirements(slots) == seq![1u8] + var_int_bytes(slots.len() as i32) + holdersets(slots),
        holdersets(Seq::empty()) == Seq::<u8>::empty(),
        holdersets(slots.push(s)) == holdersets(slots) + holderset(s),
        slots.len() <= i32::MAX ==> var_int_value(requirements(slots).drop_first())
            == slots.len(),
{
    assert(slots.push(s).drop_last() =~= slots);
    if slots.len() <= i32::MAX {
        let n = slots.len() as i32;
        lemma_var_int_round_trip(n, holdersets(slots));
        assert(requirements(slots).drop_first() =~= var_int_bytes(n) + holdersets(slots));
    }
}

/// A requirements slot is read through its reference.
pub proof fn lemma_owned_slots(slots: Seq<Option<&Ingredient>>)
    ensures
        owned_slots(slots).len() == slots.len(),
        forall|i: int|
            0 <= i < slots.len() ==> #[trigger] owned_slots(slots)[i] == match slots[i] {
                Some(x) => Some(*x),
                None => None,
            },
{
}

/// The crafting recipe book categories: equipment 2, building and blocks 0,
/// redstone 1, food and misc 3; every crafting recipe is filed under 0 to 3.
pub proof fn lemma_crafting_category(cat: RecipeCategory)
    ensures
        0 <= spec_crafting_category(cat) <= 3,
        spec_crafting_category(RecipeCategory::Equipment) == 2,
        spec_crafting_category(RecipeCategory::Building) == 0,
        spec_crafting_category(RecipeCategory::Blocks) == 0,
        spec_crafting_category(RecipeCategory::Redstone) == 1,
        spec_crafting_category(RecipeCategory::Food) == 3,
        spec_crafting_category(RecipeCategory::Misc) == 3,
{
}

/// A cooking recipe is shown at its own station.
pub proof fn lemma_cooking_station(st: Stations, kind: CookingKind)
    ensures
        cooking_station(st, CookingKind::Smelting) == st.furnace,
        cooking_station(st, CookingKind::Blasting) == st.blast_furnace,
        cooking_station(st, CookingKind::Smoking) == st.smoker,
        cooking_station(st, CookingKind::CampfireCooking) == st.campfire,
{
}

/// Every crafting display ends with the result, the crafting table, an
/// absent group (0), the book category, the requirements and the flags 0.
pub proof fn lemma_crafting_tail(
    v: MinecraftVersion,
    st: Stations,
    cat: RecipeCategory,
    result: Option<i32>,
    slots: Seq<Option<Ingredient>>,
)
    ensures
        crafting_tail(v, st, cat, result, slots) == result_display(result, v) + item_display(
            v,
            st.crafting_table,
        ) + seq![0u8] + var_int_bytes(spec_crafting_category(cat)) + requirements(slots)
            + seq![0u8],
{
}

/// A run of ingredient displays is one per ingredient, in order.
pub proof fn lemma_ingredient_displays(v: MinecraftVersion, ings: Seq<Ingredient>, i: Ingredient)
    ensures
        ingredient_displays(Seq::empty(), v) == Seq::<u8>::empty(),
        ingredient_displays(ings.push(i), v) == ingredient_displays(ings, v) + ingredient_display(
            i,
            v,
        ),
        somes(ings).len() == ings.len(),
        forall|k: int| 0 <= k < ings.len() ==> #[trigger] somes(ings)[k] == Some(ings[k]),
{
    assert(ings.push(i).drop_last() =~= ings);
}

/// A shapeless entry is its display id, the shapeless type 0, the number of
/// ingredients, exactly one slot display per ingredient, and the crafting
/// tail with one requirement per ingredient; reading the VarInt after the
/// id and the type gives the number of ingredients.
pub proof fn lemma_shapeless_entry(
    id: i32,
    v: MinecraftVersion,
    st: Stations,
    cat: RecipeCategory,
    ings: Seq<Ingredient>,
    result: Option<i32>,
)
    requires
        ings.len() <= i32::MAX,
    ensures
        shapeless_entry(id, v, st, cat, ings, result) == var_int_bytes(id) + seq![0u8]
            + var_int_bytes(ings.len() as i32) + ingredient_displays(ings, v) + crafting_tail(
            v,
            st,
            cat,
            result,
            somes(ings),
        ),
        var_int_value(
            shapeless_entry(id, v, st, cat, ings, result).subrange(
                var_int_bytes(id).len() + 1int,
                shapeless_entry(id, v, st, cat, ings, result).len() as int,
            ),
        ) == ings.len(),
{
    let e = shapeless_entry(id, v, st, cat, ings, result);
    let n = ings.len() as i32;
    let rest = ingredient_displays(ings, v) + crafting_tail(v, st, cat, result, somes(ings));
    let h = var_int_bytes(id).len() + 1;
    assert(e =~= var_int_bytes(id) + seq![0u8] + (var_int_bytes(n) + rest));
    assert(e.subrange(h as int, e.len() as int) =~= var_int_bytes(n) + rest);
    lemma_var_int_round_trip(n, rest);
}

/// A transmute entry is shown as shapeless (type 0) with exactly two
/// ingredients, its input and its material, each also a requirement.
pub proof fn lemma_transmute_entry(
    id: i32,
    v: MinecraftVersion,
    st: Stations,
    cat: RecipeCategory,
    input: Ingredient,
    material: Ingredient,
    result: Option<i32>,
)
    ensures
        transmute_entry(id, v, st, cat, input, material, result) == var_int_bytes(id) + seq![0u8]
            + seq![2u8] + ingredient_display(input, v) + ingredient_display(material, v)
            + crafting_tail(v, st, cat, result, seq![Some(input), Some(material)]),
{
}

/// The height of a pattern is its number of rows and its width the number
/// of UTF-8 bytes of its first row (0 without rows).
pub proof fn lemma_shaped_dimensions(pattern: Seq<Vec<char>>)
    requires
        pattern.len() <= i32::MAX,
        pattern.len() > 0 ==> utf8_len(pattern[0]@) <= i32::MAX,
    ensures
        shaped_height(pattern) == pattern.len(),
        pattern.len() == 0 ==> shaped_width(pattern) == 0,
        pattern.len() > 0 ==> shaped_width(pattern) == encode_utf8(pattern[0]@).len(),
{
    if pattern.len() > 0 {
        lemma_utf8_len(pattern[0]@);
    }
}

/// Counting bytes character by character gives the length of the UTF-8
/// encoding.
pub proof fn lemma_utf8_len(s: Seq<char>)
    ensures
        utf8_len(s) == encode_utf8(s).len(),
    decreases s.len(),
{
    if s.len() > 0 {
        let t = s.drop_first();
        lemma_utf8_len(t);
        lemma_utf8_len_cons(s[0], t);
        assert(seq![s[0]] + t =~= s);
        lemma_char_width(s[0]);
    }
}

/// One character's width is the length of its encoding.
proof fn lemma_char_width(c: char)
    ensures
        char_width(c) == encode_scalar(c as u32).len(),
{
    vstd::utf8::char_is_scalar(c);
}

/// Counting a character in front of a string.
proof fn lemma_utf8_len_cons(c: char, t: Seq<char>)
    ensures
        utf8_len(seq![c] + t) == char_width(c) + utf8_len(t),
    decreases t.len(),
{
    if t.len() == 0 {
        assert(seq![c] + t =~= seq![c]);
        assert(seq![c].drop_last() =~= Seq::<char>::empty());
        assert(seq![c].last() == c);
        assert(utf8_len(Seq::<char>::empty()) == 0);
    } else {
        lemma_utf8_len_cons(c, t.drop_last());
        assert((seq![c] + t).drop_last() =~= seq![c] + t.drop_last());
        assert((seq![c] + t).last() == t.last());
    }
}

/// The first entry of the key for a character gives its ingredient; a
/// character without an entry has none.
pub proof fn lemma_key_find(key: Seq<(char, Ingredient)>, ch: char, j: int)
    ensures
        (0 <= j < key.len() && key[j].0 == ch && forall|i: int| 0 <= i < j ==> key[i].0 != ch)
            ==> key_find(key, ch) == Some(key[j].1),
        (forall|i: int| 0 <= i < key.len() ==> key[i].0 != ch) ==> key_find(key, ch) is None,
    decreases key.len(),
{
    if key.len() > 0 {
        lemma_key_find(key.drop_first(), ch, j - 1);
        if key[0].0 != ch {
            assert forall|i: int| 0 <= i < key.len() - 1 && (forall|i2: int| 0 <= i2 < key.len() ==> key[i2].0 != ch) implies key.drop_first()[i].0 != ch by {
                assert(key.drop_first()[i] == key[i + 1]);
            }
            if 0 < j < key.len() && key[j].0 == ch && forall|i: int| 0 <= i < j ==> key[i].0 != ch {
                assert(key.drop_first()[j - 1] == key[j]);
                assert forall|i: int| 0 <= i < j - 1 implies key.drop_first()[i].0 != ch by {
                    assert(key.drop_first()[i] == key[i + 1]);
                }
            }
        }
    }
}

/// The cells of a pattern are its rows in order; each cell is one slot
/// display, empty for a space or a character the key lacks; the required
/// slots are the ingredients of the other cells, in order.
pub proof fn lemma_grid(
    rows: Seq<Vec<char>>,
    row: Vec<char>,
    cells: Seq<char>,
    ch: char,
    key: Seq<(char, Ingredient)>,
    v: MinecraftVersion,
)
    ensures
        grid_cells(Seq::empty()) == Seq::<char>::empty(),
        grid_cells(rows.push(row)) == grid_cells(rows) + row@,
        cell_display(' ', key, v) == seq![0u8],
        ch != ' ' && key_find(key, ch) is None ==> cell_display(ch, key, v) == seq![0u8],
        ch != ' ' && key_find(key, ch) is Some ==> cell_display(ch, key, v) == ingredient_display(
            key_find(key, ch)->0,
            v,
        ),
        cell_displays(Seq::empty(), key, v) == Seq::<u8>::empty(),
        cell_displays(cells.push(ch), key, v) == cell_displays(cells, key, v) + cell_display(
            ch,
            key,
            v,
        ),
        cell_slots(Seq::empty(), key) == Seq::<Ingredient>::empty(),
        ch != ' ' && key_find(key, ch) is Some ==> cell_slots(cells.push(ch), key) == cell_slots(
            cells,
            key,
        ).push(key_find(key, ch)->0),
        !(ch != ' ' && key_find(key, ch) is Some) ==> cell_slots(cells.push(ch), key)
            == cell_slots(cells, key),
{
    assert(rows.push(row).drop_last() =~= rows);
    assert(cells.push(ch).drop_last() =~= cells);
}

/// A shaped entry is its display id, the shaped type 1, the width, the
/// height, the declared number of ingredients `width * height`, one slot
/// display per grid cell, and the crafting tail with one requirement per
/// named non-space cell.
pub proof fn lemma_shaped_entry(
    id: i32,
    v: MinecraftVersion,
    st: Stations,
    cat: RecipeCategory,
    pattern: Seq<Vec<char>>,
    key: Seq<(char, Ingredient)>,
    result: Option<i32>,
)
    ensures
        shaped_entry(id, v, st, cat, pattern, key, result) == var_int_bytes(id) + seq![1u8]
            + var_int_bytes(shaped_width(pattern)) + var_int_bytes(shaped_height(pattern))
            + var_int_bytes((shaped_width(pattern) * shaped_height(pattern)) as i32)
            + cell_displays(grid_cells(pattern), key, v) + crafting_tail(
            v,
            st,
            cat,
            result,
            somes(cell_slots(grid_cells(pattern), key)),
        ),
{
}

/// A cooking entry is its display id, the furnace type 2, the ingredient,
/// the fuel slot, the result, its station, the cooking time, the experience
/// word, an absent group (0), the book category, the ingredient as the one
/// requirement, and the flags 0.
pub proof fn lemma_cooking_entry(
    id: i32,
    v: MinecraftVersion,
    st: Stations,
    c: CookingRecipe,
    book_category: i32,
)
    ensures
        cooking_entry(id, v, st, c, book_category) == var_int_bytes(id) + seq![2u8]
            + ingredient_display(c.ingredient, v) + seq![1u8] + result_display(c.result, v)
            + item_display(v, cooking_station(st, c.kind)) + var_int_bytes(c.cooking_time)
            + u32_be_bytes(c.experience_bits) + seq![0u8] + var_int_bytes(book_category)
            + requirements(seq![Some(c.ingredient)]) + seq![0u8],
{
}

/// Each crafting recipe kind is written as its own entry; decorated pots
/// and special recipes are not listed and write nothing.
pub proof fn lemma_crafting_entry(id: i32, v: MinecraftVersion, st: Stations, r: CraftingRecipe)
    ensures
        is_listed(r) <==> !(r is DecoratedPot || r is Special),
        !is_listed(r) ==> crafting_entry(id, v, st, r) == Seq::<u8>::empty(),
        r matches CraftingRecipe::Shaped { category, pattern, key, result } ==> crafting_entry(
            id,
            v,
            st,
            r,
        ) == shaped_entry(id, v, st, category, pattern@, key@, result),
        r matches CraftingRecipe::Shapeless { category, ingredients, result } ==> crafting_entry(
            id,
            v,
            st,
            r,
        ) == shapeless_entry(id, v, st, category, ingredients@, result),
        r matches CraftingRecipe::Transmute { category, input, material, result }
            ==> crafting_entry(id, v, st, r) == transmute_entry(
            id,
            v,
            st,
            category,
            input,
            material,
            result,
        ),
{
}

/// The listed crafting recipes are the recipes that have a display, in
/// their order.
pub proof fn lemma_listed_crafting(rs: Seq<CraftingRecipe>)
    ensures
        listed_crafting(rs) == rs.filter(|r: CraftingRecipe| is_listed(r)),
    decreases rs.len(),
{
    reveal_with_fuel(Seq::filter, 1);
    if rs.len() > 0 {
        lemma_listed_crafting(rs.drop_last());
    }
}

/// The packet is the number of entries, the entries in order with display
/// ids 0, 1, 2, ..., and the replace flag; the entries are the listed
/// crafting recipes, then the cooking recipes filed under their book
/// categories.
pub proof fn lemma_packet_layout(
    replace: bool,
    v: MinecraftVersion,
    st: Stations,
    rs: Seq<CraftingRecipe>,
    cs: Seq<CookingRecipe>,
    es: Seq<ListedEntry>,
    e: ListedEntry,
    k: int,
)
    ensures
        packet_bytes(replace, v, st, rs, cs) == var_int_bytes(listed_entries(rs, cs).len() as i32)
            + entries_bytes(listed_entries(rs, cs), v, st) + seq![if replace { 1u8 } else { 0u8 }],
        entries_bytes(Seq::empty(), v, st) == Seq::<u8>::empty(),
        entries_bytes(es.push(e), v, st) == entries_bytes(es, v, st) + entry_bytes(
            es.len() as int,
            e,
            v,
            st,
        ),
        e matches ListedEntry::Crafting(r) ==> entry_bytes(k, e, v, st) == crafting_entry(
            k as i32,
            v,
            st,
            r,
        ),
        e matches ListedEntry::Cooking(c) ==> entry_bytes(k, e, v, st) == cooking_entry(
            k as i32,
            v,
            st,
            c,
            cooking_book_category(c),
        ),
        listed_entries(rs, cs).len() == listed_crafting(rs).len() + cs.len(),
        forall|i: int|
            0 <= i < listed_crafting(rs).len() ==> #[trigger] listed_entries(rs, cs)[i]
                == ListedEntry::Crafting(listed_crafting(rs)[i]),
        forall|i: int|
            0 <= i < cs.len() ==> #[trigger] listed_entries(rs, cs)[listed_crafting(rs).len() + i]
                == ListedEntry::Cooking(cs[i]),
{
    assert(es.push(e).drop_last() =~= es);
    let es2 = listed_entries(rs, cs);
    let l = listed_crafting(rs).len();
    assert forall|i: int| 0 <= i < cs.len() implies #[trigger] es2[l + i] == ListedEntry::Cooking(cs[i]) by {
        assert(es2[l + i] == cs.map_values(|c: CookingRecipe| ListedEntry::Cooking(c))[i]);
    }
}

} // verus!
