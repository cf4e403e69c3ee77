//! What a reader of the packet can rely on: every count that the packet
//! declares is the number of items that follow it.

use vstd::prelude::*;

use crate::display::{
    found, holderset, holdersets, ingredient_display, item_displays, requirements, var_ints,
};
use crate::entry::{
    cooking_entry, crafting_entry, is_listed, shaped_entry, shaped_height, shaped_width,
    shapeless_entry, transmute_entry,
};
use crate::grid::{grid_cells, utf8_len};
use crate::packet::{
    cooking_book_category, entries_bytes, entry_bytes, listed_crafting, listed_entries,
    packet_bytes, ListedEntry,
};
use crate::recipe::{CookingKind, CookingRecipe, CraftingRecipe, Ingredient, RecipeCategory, Stations};
use crate::version::{spec_slot_display_composite, MinecraftVersion};
use crate::wire::{bool_bytes, lemma_var_int_round_trip, var_int_bytes, var_int_value};

verus! {

/// The packet begins with the number of its entries: reading its first
/// VarInt gives the number of listed crafting recipes plus the number of
/// cooking recipes.
pub proof fn lemma_packet_count(
    replace: bool,
    version: MinecraftVersion,
    stations: Stations,
    rs: Seq<CraftingRecipe>,
    cs: Seq<CookingRecipe>,
)
    requires
        listed_crafting(rs).len() + cs.len() <= i32::MAX,
    ensures
        listed_entries(rs, cs).len() == listed_crafting(rs).len() + cs.len(),
        var_int_value(packet_bytes(replace, version, stations, rs, cs)) == listed_entries(
            rs,
            cs,
        ).len(),
{
    let es = listed_entries(rs, cs);
    let n = es.len() as i32;
    assert(n == es.len());
    let rest = entries_bytes(es, version, stations) + bool_bytes(replace);
    lemma_var_int_round_trip(n, rest);
    assert(packet_bytes(replace, version, stations, rs, cs) =~= var_int_bytes(n) + rest);
}

/// A crafting recipe has an entry (some bytes written) exactly when it is
/// listed, that is, exactly when the packet's count includes it.
pub proof fn lemma_entry_iff_listed(
    id: i32,
    version: MinecraftVersion,
    stations: Stations,
    r: CraftingRecipe,
)
    ensures
        (crafting_entry(id, version, stations, r).len() > 0) == is_listed(r),
{
}

/// Every entry of the packet begins with its display id: reading the first
/// VarInt of the `k`-th entry gives `k`.
pub proof fn lemma_entry_begins_with_id(
    k: int,
    e: ListedEntry,
    version: MinecraftVersion,
    stations: Stations,
)
    requires
        0 <= k <= i32::MAX,
        e matches ListedEntry::Crafting(r) ==> is_listed(r),
    ensures
        entry_bytes(k, e, version, stations).len() > 0,
        var_int_value(entry_bytes(k, e, version, stations)) == k,
{
    let id = k as i32;
    assert(id == k);
    let b = entry_bytes(k, e, version, stations);
    let vb = var_int_bytes(id);
    let rest = b.subrange(vb.len() as int, b.len() as int);
    match e {
        ListedEntry::Crafting(r) => {
            match r {
                CraftingRecipe::Shaped { category, pattern, key, result } => {
                    assert(b == shaped_entry(id, version, stations, category, pattern@, key@, result));
                },
                CraftingRecipe::Shapeless { category, ingredients, result } => {
                    assert(b == shapeless_entry(id, version, stations, category, ingredients@, result));
                },
                CraftingRecipe::Transmute { category, input, material, result } => {
                    assert(b == transmute_entry(id, version, stations, category, input, material, result));
                },
                _ => {},
            }
        },
        ListedEntry::Cooking(c) => {
            assert(b == cooking_entry(id, version, stations, c, cooking_book_category(c)));
        },
    }
    assert(b =~= vb + rest);
    lemma_var_int_round_trip(id, rest);
}

/// The holder set of a list of items declares one more than the number of
/// item ids that follow it: reading its first VarInt gives `n + 1` where
/// `n` items were found.
pub proof fn lemma_holderset_count(items: Seq<Option<i32>>, v: Vec<Option<i32>>)
    requires
        v@ == items,
        found(items).len() < i32::MAX,
    ensures
        var_int_value(holderset(Some(Ingredient::OneOf(v)))) == found(items).len() + 1,
{
    let f = found(items);
    let n = ((f.len() as i32) + 1) as i32;
    assert(n == f.len() + 1);
    lemma_var_int_round_trip(n, var_ints(f));
}

/// A composite slot display declares the number of item displays that
/// follow it: after its type id, reading a VarInt gives the number of items
/// found, when there are at least two.
pub proof fn lemma_composite_count(items: Seq<Option<i32>>, v: Vec<Option<i32>>, version: MinecraftVersion)
    requires
        v@ == items,
        2 <= found(items).len() <= i32::MAX,
    ensures
        ({
            let b = ingredient_display(Ingredient::OneOf(v), version);
            let t = var_int_bytes(spec_slot_display_composite(version));
            &&& b.subrange(0, t.len() as int) == t
            &&& var_int_value(b.subrange(t.len() as int, b.len() as int)) == found(items).len()
        }),
{
    let f = found(items);
    let n = f.len() as i32;
    assert(n == f.len());
    let b = ingredient_display(Ingredient::OneOf(v), version);
    let t = var_int_bytes(spec_slot_display_composite(version));
    assert(b =~= t + (var_int_bytes(n) + item_displays(version, f)));
    assert(b.subrange(t.len() as int, b.len() as int) =~= var_int_bytes(n) + item_displays(version, f));
    lemma_var_int_round_trip(n, item_displays(version, f));
}

/// The requirements field is a present flag, then the number of slots:
/// reading the VarInt after the flag gives the number of holder sets that
/// follow.
pub proof fn lemma_requirements_count(slots: Seq<Option<Ingredient>>)
    requires
        slots.len() <= i32::MAX,
    ensures
        requirements(slots)[0] == 1,
        var_int_value(requirements(slots).drop_first()) == slots.len(),
{
    let n = slots.len() as i32;
    assert(n == slots.len());
    lemma_var_int_round_trip(n, holdersets(slots));
    assert(requirements(slots).drop_first() =~= var_int_bytes(n) + holdersets(slots));
}

/// The cells of rows that all have `w` characters number `rows.len() * w`.
proof fn lemma_grid_len(rows: Seq<Vec<char>>, w: int)
    requires
        w >= 0,
        forall|r: int| 0 <= r < rows.len() ==> #[trigger] rows[r]@.len() == w,
    ensures
        grid_cells(rows).len() == rows.len() * w,
    decreases rows.len(),
{
    if rows.len() > 0 {
        lemma_grid_len(rows.drop_last(), w);
        let n = rows.len() as int;
        assert((n - 1) * w + w == n * w) by (nonlinear_arith);
    }
}

/// A shaped recipe declares `width * height` ingredients; when every row
/// has as many characters as the first row has UTF-8 bytes (an ASCII
/// rectangle), that is the number of grid cells, each of which is written
/// as one slot display.
pub proof fn lemma_shaped_count(pattern: Seq<Vec<char>>)
    requires
        pattern.len() <= i32::MAX,
        pattern.len() > 0 ==> utf8_len(pattern[0]@) <= i32::MAX,
        forall|r: int|
            0 <= r < pattern.len() ==> #[trigger] pattern[r]@.len() == utf8_len(pattern[0]@),
    ensures
        grid_cells(pattern).len() == shaped_width(pattern) * shaped_height(pattern),
{
    if pattern.len() == 0 {
        assert(grid_cells(pattern) =~= Seq::<char>::empty());
    } else {
        let w = utf8_len(pattern[0]@) as int;
        lemma_grid_len(pattern, w);
        assert(shaped_width(pattern) == w);
        assert(shaped_height(pattern) == pattern.len());
    }
}

/// Each cooking kind is filed only under its own station's recipe book
/// categories: smelting under the furnace's (food 4, blocks 5, misc 6),
/// blasting under the blast furnace's (blocks 7, anything else 8), smoking
/// under the smoker's (9) and campfire cooking under the campfire's (12).
pub proof fn lemma_cooking_book_category(c: CookingRecipe)
    ensures
        c.kind == CookingKind::Smelting ==> 4 <= cooking_book_category(c) <= 6,
        c.kind == CookingKind::Smelting ==> (cooking_book_category(c) == 4 <==> c.category
            == RecipeCategory::Food),
        c.kind == CookingKind::Smelting ==> (cooking_book_category(c) == 5 <==> c.category
            == RecipeCategory::Blocks),
        c.kind == CookingKind::Blasting ==> 7 <= cooking_book_category(c) <= 8,
        c.kind == CookingKind::Blasting ==> (cooking_book_category(c) == 7 <==> c.category
            == RecipeCategory::Blocks),
        c.kind == CookingKind::Smoking ==> cooking_book_category(c) == 9,
        c.kind == CookingKind::CampfireCooking ==> cooking_book_category(c) == 12,
{
}

/// A prefix of the entries is written before the rest of them.
proof fn lemma_entries_prefix(
    es: Seq<ListedEntry>,
    k: int,
    version: MinecraftVersion,
    stations: Stations,
)
    requires
        0 <= k < es.len(),
    ensures
        entries_bytes(es.take(k), version, stations).len() + entry_bytes(k, es[k], version, stations).len()
            <= entries_bytes(es, version, stations).len(),
        entries_bytes(es, version, stations).subrange(
            0,
            (entries_bytes(es.take(k), version, stations).len() + entry_bytes(
                k,
                es[k],
                version,
                stations,
            ).len()) as int,
        ) == entries_bytes(es.take(k), version, stations) + entry_bytes(k, es[k], version, stations),
    decreases es.len(),
{
    let a = entries_bytes(es.take(k), version, stations);
    let e = entry_bytes(k, es[k], version, stations);
    if k == es.len() - 1 {
        assert(es.drop_last() =~= es.take(k));
        assert(entries_bytes(es, version, stations) =~= a + e);
    } else {
        let d = es.drop_last();
        assert(d.take(k) =~= es.take(k));
        assert(d[k] == es[k]);
        lemma_entries_prefix(d, k, version, stations);
        let whole = entries_bytes(es, version, stations);
        let init = entries_bytes(d, version, stations);
        assert(whole == init + entry_bytes(es.len() - 1, es.last(), version, stations));
        let n = (a.len() + e.len()) as int;
        assert(init.subrange(0, n) == a + e);
        assert(whole.subrange(0, n) =~= init.subrange(0, n));
    }
}

/// Every listed crafting recipe is listed.
proof fn lemma_listed_are_listed(rs: Seq<CraftingRecipe>, i: int)
    requires
        0 <= i < listed_crafting(rs).len(),
    ensures
        is_listed(listed_crafting(rs)[i]),
    decreases rs.len(),
{
    if rs.len() > 0 {
        let d = rs.drop_last();
        if is_listed(rs.last()) && i == listed_crafting(d).len() {
        } else {
            lemma_listed_are_listed(d, i);
        }
    }
}

/// The entries are numbered in order: after the count, the `k`-th entry of
/// the packet starts where the first `k` entries end, and reading a VarInt
/// there gives `k`; so the display ids read are 0, 1, 2, ... without repeats,
/// for crafting and cooking entries alike.
pub proof fn lemma_entries_carry_their_ids(
    replace: bool,
    version: MinecraftVersion,
    stations: Stations,
    rs: Seq<CraftingRecipe>,
    cs: Seq<CookingRecipe>,
    k: int,
)
    requires
        listed_crafting(rs).len() + cs.len() <= i32::MAX,
        0 <= k < listed_crafting(rs).len() + cs.len(),
    ensures
        ({
            let es = listed_entries(rs, cs);
            let p = packet_bytes(replace, version, stations, rs, cs);
            let off = (var_int_bytes(es.len() as i32).len() + entries_bytes(
                es.take(k),
                version,
                stations,
            ).len()) as int;
            let e = entry_bytes(k, es[k], version, stations);
            &&& p.subrange(off, off + e.len()) == e
            &&& var_int_value(p.subrange(off, p.len() as int)) == k
        }),
{
    let es = listed_entries(rs, cs);
    let p = packet_bytes(replace, version, stations, rs, cs);
    let h = var_int_bytes(es.len() as i32);
    let all = entries_bytes(es, version, stations);
    let a = entries_bytes(es.take(k), version, stations);
    let e = entry_bytes(k, es[k], version, stations);
    let off = (h.len() + a.len()) as int;
    let al = a.len() as int;
    let el = e.len() as int;
    lemma_entries_prefix(es, k, version, stations);
    let lc = listed_crafting(rs);
    if k < lc.len() {
        assert(es[k] == ListedEntry::Crafting(lc[k]));
        lemma_listed_are_listed(rs, k);
    } else {
        assert(es[k] == ListedEntry::Cooking(cs[k - lc.len()]));
    }
    lemma_entry_begins_with_id(k, es[k], version, stations);
    assert(p == h + all + bool_bytes(replace));
    assert(p.subrange(off, off + el) =~= all.subrange(al, al + el));
    assert(all.subrange(al, al + el) =~= (a + e).subrange(al, al + el));
    assert((a + e).subrange(al, al + el) =~= e);
    let rest = p.subrange(off + el, p.len() as int);
    assert(p.subrange(off, p.len() as int) =~= e + rest);
    lemma_entry_value_prefix(k, es[k], version, stations, rest);
}

/// Reading a VarInt at the start of an entry, whatever follows it, gives
/// the entry's display id.
proof fn lemma_entry_value_prefix(
    k: int,
    e: ListedEntry,
    version: MinecraftVersion,
    stations: Stations,
    rest: Seq<u8>,
)
    requires
        0 <= k <= i32::MAX,
        e matches ListedEntry::Crafting(r) ==> is_listed(r),
    ensures
        var_int_value(entry_bytes(k, e, version, stations) + rest) == k,
{
    let id = k as i32;
    let b = entry_bytes(k, e, version, stations);
    let vb = var_int_bytes(id);
    let tail = b.subrange(vb.len() as int, b.len() as int);
    lemma_entry_begins_with_id(k, e, version, stations);
    lemma_entry_starts_with(k, e, version, stations);
    assert(b =~= vb + tail);
    assert(b + rest =~= vb + (tail + rest));
    lemma_var_int_round_trip(id, tail + rest);
}

/// An entry's bytes begin with the VarInt of its display id.
proof fn lemma_entry_starts_with(k: int, e: ListedEntry, version: MinecraftVersion, stations: Stations)
    requires
        0 <= k <= i32::MAX,
        e matches ListedEntry::Crafting(r) ==> is_listed(r),
    ensures
        entry_bytes(k, e, version, stations).len() >= var_int_bytes(k as i32).len(),
        entry_bytes(k, e, version, stations).subrange(0, var_int_bytes(k as i32).len() as int)
            == var_int_bytes(k as i32),
{
    let id = k as i32;
    let b = entry_bytes(k, e, version, stations);
    let vb = var_int_bytes(id);
    match e {
        ListedEntry::Crafting(r) => {
            match r {
                CraftingRecipe::Shaped { category, pattern, key, result } => {
                    assert(b == shaped_entry(id, version, stations, category, pattern@, key@, result));
                },
                CraftingRecipe::Shapeless { category, ingredients, result } => {
                    assert(b == shapeless_entry(id, version, stations, category, ingredients@, result));
                },
                CraftingRecipe::Transmute { category, input, material, result } => {
                    assert(b == transmute_entry(id, version, stations, category, input, material, result));
                },
                _ => {},
            }
        },
        ListedEntry::Cooking(c) => {
            assert(b == cooking_entry(id, version, stations, c, cooking_book_category(c)));
        },
    }
    assert(b.subrange(0, vb.len() as int) =~= vb);
}

} // verus!
