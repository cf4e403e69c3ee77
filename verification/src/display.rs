//! Slot displays, ingredient holder sets and crafting requirements.

use vstd::prelude::*;

use crate::recipe::Ingredient;
use crate::version::{
    slot_display_composite, slot_display_item, spec_slot_display_composite,
    spec_slot_display_item, MinecraftVersion,
};
use crate::wire::{bool_bytes, var_int_bytes, write_bool, write_var_int};

verus! {

/// Slot display type id of an empty slot (the same in every version).
pub const SLOT_DISPLAY_EMPTY: i32 = 0;

/// Slot display type id of "any fuel" (the same in every version).
pub const SLOT_DISPLAY_ANY_FUEL: i32 = 1;

/// A slot showing one item.
pub open spec fn item_display(version: MinecraftVersion, item: i32) -> Seq<u8> {
    var_int_bytes(spec_slot_display_item(version)) + var_int_bytes(item)
}

/// An empty slot.
pub open spec fn empty_display() -> Seq<u8> {
    var_int_bytes(SLOT_DISPLAY_EMPTY)
}

/// The fuel slot of a furnace recipe.
pub open spec fn any_fuel_display() -> Seq<u8> {
    var_int_bytes(SLOT_DISPLAY_ANY_FUEL)
}

/// The items that were found, in order, leaving out the keys the registry lacks.
pub open spec fn found(items: Seq<Option<i32>>) -> Seq<i32>
    decreases items.len(),
{
    if items.len() == 0 {
        seq![]
    } else {
        match items.last() {
            Some(item) => found(items.drop_last()).push(item),
            None => found(items.drop_last()),
        }
    }
}

/// One item slot display per item, in order.
pub open spec fn item_displays(version: MinecraftVersion, items: Seq<i32>) -> Seq<u8>
    decreases items.len(),
{
    if items.len() == 0 {
        seq![]
    } else {
        item_displays(version, items.drop_last()) + item_display(version, items.last())
    }
}

/// One VarInt per item, in order.
pub open spec fn var_ints(items: Seq<i32>) -> Seq<u8>
    decreases items.len(),
{
    if items.len() == 0 {
        seq![]
    } else {
        var_ints(items.drop_last()) + var_int_bytes(items.last())
    }
}

/// The slot display of an ingredient: a single found item is shown as that
/// item, several as a composite of their item displays, and anything else
/// (a missing item, a tag, no item found) as an empty slot.
pub open spec fn ingredient_display(ingredient: Ingredient, version: MinecraftVersion) -> Seq<u8> {
    match ingredient {
        Ingredient::Simple(Some(item)) => item_display(version, item),
        Ingredient::Simple(None) => empty_display(),
        Ingredient::Tagged => empty_display(),
        Ingredient::OneOf(items) => {
            let f = found(items@);
            if f.len() == 0 {
                empty_display()
            } else if f.len() == 1 {
                item_display(version, f[0])
            } else {
                var_int_bytes(spec_slot_display_composite(version)) + var_int_bytes(f.len() as i32)
                    + item_displays(version, f)
            }
        },
    }
}

/// The slot display of a recipe's result.
pub open spec fn result_display(result: Option<i32>, version: MinecraftVersion) -> Seq<u8> {
    match result {
        Some(item) => item_display(version, item),
        None => empty_display(),
    }
}

/// The holder set of an ingredient: `VarInt(n + 1)` then the ids of a
/// direct list of `n` items (0 is reserved for a tag reference, which is
/// never written).
pub open spec fn holderset(ingredient: Option<Ingredient>) -> Seq<u8> {
    match ingredient {
        Some(Ingredient::Simple(Some(item))) => var_int_bytes(2) + var_int_bytes(item),
        Some(Ingredient::OneOf(items)) => {
            let f = found(items@);
            var_int_bytes(((f.len() as i32) + 1) as i32) + var_ints(f)
        },
        _ => var_int_bytes(1),
    }
}

/// The holder set of an ingredient can be counted without overflow.
pub open spec fn holderset_ok(ingredient: Ingredient) -> bool {
    match ingredient {
        Ingredient::OneOf(items) => (found(items@).len() as i32) != i32::MAX,
        _ => true,
    }
}

/// The slots of a requirements list, seen through their references.
pub open spec fn owned_slots(slots: Seq<Option<&Ingredient>>) -> Seq<Option<Ingredient>> {
    slots.map_values(|s: Option<&Ingredient>| match s {
        Some(i) => Some(*i),
        None => None,
    })
}

/// One holder set per slot, in order.
pub open spec fn holdersets(slots: Seq<Option<Ingredient>>) -> Seq<u8>
    decreases slots.len(),
{
    if slots.len() == 0 {
        seq![]
    } else {
        holdersets(slots.drop_last()) + holderset(slots.last())
    }
}

/// The `craftingRequirements` field, present: a true flag, the number of
/// slots, and one holder set per slot.
pub open spec fn requirements(slots: Seq<Option<Ingredient>>) -> Seq<u8> {
    bool_bytes(true) + var_int_bytes(slots.len() as i32) + holdersets(slots)
}

/// Every slot's holder set can be counted without overflow.
pub open spec fn slots_ok(slots: Seq<Option<Ingredient>>) -> bool {
    forall|i: int|
        0 <= i < slots.len() ==> match #[trigger] slots[i] {
            Some(ing) => holderset_ok(ing),
            None => true,
        }
}

pub fn write_item_slot_display(out: &mut Vec<u8>, item: i32, version: MinecraftVersion)
    ensures
        final(out)@ == old(out)@ + item_display(version, item),
{
    write_var_int(out, slot_display_item(version));
    write_var_int(out, item);
    assert(out@ =~= old(out)@ + item_display(version, item));
}

pub fn write_empty_slot_display(out: &mut Vec<u8>)
    ensures
        final(out)@ == old(out)@ + empty_display(),
{
    write_var_int(out, SLOT_DISPLAY_EMPTY);
}

pub fn write_any_fuel_slot_display(out: &mut Vec<u8>)
    ensures
        final(out)@ == old(out)@ + any_fuel_display(),
{
    write_var_int(out, SLOT_DISPLAY_ANY_FUEL);
}

/// The found items of a list, in order.
pub fn found_items(items: &Vec<Option<i32>>) -> (f: Vec<i32>)
    ensures
        f@ == found(items@),
{
    let mut f: Vec<i32> = Vec::new();
    let mut i: usize = 0;
    while i < items.len()
        invariant
            i <= items.len(),
            f@ == found(items@.take(i as int)),
        decreases items.len() - i,
    {
        assert(items@.take(i as int + 1).drop_last() =~= items@.take(i as int));
        match items[i] {
            Some(item) => {
                f.push(item);
            },
            None => {},
        }
        i = i + 1;
    }
    assert(items@.take(items.len() as int) =~= items@);
    f
}

pub fn write_ingredient_slot_display(
    out: &mut Vec<u8>,
    ingredient: &Ingredient,
    version: MinecraftVersion,
)
    ensures
        final(out)@ == old(out)@ + ingredient_display(*ingredient, version),
{
    match ingredient {
        Ingredient::Simple(Some(item)) => write_item_slot_display(out, *item, version),
        Ingredient::Simple(None) => write_empty_slot_display(out),
        Ingredient::Tagged => write_empty_slot_display(out),
        Ingredient::OneOf(items) => {
            let f = found_items(items);
            if f.len() == 0 {
                write_empty_slot_display(out);
            } else if f.len() == 1 {
                write_item_slot_display(out, f[0], version);
            } else {
                write_var_int(out, slot_display_composite(version));
                write_var_int(out, f.len() as i32);
                let ghost head = out@;
                let mut i: usize = 0;
                while i < f.len()
                    invariant
                        i <= f.len(),
                        out@ == head + item_displays(version, f@.take(i as int)),
                    decreases f.len() - i,
                {
                    assert(f@.take(i as int + 1).drop_last() =~= f@.take(i as int));
                    write_item_slot_display(out, f[i], version);
                    i = i + 1;
                }
                assert(f@.take(f.len() as int) =~= f@);
                assert(out@ =~= old(out)@ + ingredient_display(*ingredient, version));
            }
        },
    }
}

pub fn write_result_slot_display(out: &mut Vec<u8>, result: Option<i32>, version: MinecraftVersion)
    ensures
        final(out)@ == old(out)@ + result_display(result, version),
{
    match result {
        Some(item) => write_item_slot_display(out, item, version),
        None => write_empty_slot_display(out),
    }
}

/// Writes one ingredient as a holder set.
pub fn write_ingredient_holderset(
    out: &mut Vec<u8>,
    ingredient: Option<&Ingredient>,
    version: MinecraftVersion,
)
    requires
        match ingredient {
            Some(ing) => holderset_ok(*ing),
            None => true,
        },
    ensures
        final(out)@ == old(out)@ + holderset(
            match ingredient {
                Some(i) => Some(*i),
                None => None,
            },
        ),
{
    match ingredient {
        None => write_var_int(out, 1),
        Some(Ingredient::Simple(Some(item))) => {
            write_var_int(out, 2);
            write_var_int(out, *item);
            assert(out@ =~= old(out)@ + var_int_bytes(2) + var_int_bytes(*item));
        },
        Some(Ingredient::Simple(None)) => write_var_int(out, 1),
        Some(Ingredient::Tagged) => write_var_int(out, 1),
        Some(Ingredient::OneOf(items)) => {
            let f = found_items(items);
            write_var_int(out, f.len() as i32 + 1);
            let ghost head = out@;
            let mut i: usize = 0;
            while i < f.len()
                invariant
                    i <= f.len(),
                    out@ == head + var_ints(f@.take(i as int)),
                decreases f.len() - i,
            {
                assert(f@.take(i as int + 1).drop_last() =~= f@.take(i as int));
                write_var_int(out, f[i]);
                i = i + 1;
            }
            assert(f@.take(f.len() as int) =~= f@);
            assert(out@ =~= old(out)@ + var_int_bytes(((f@.len() as i32) + 1) as i32) + var_ints(f@));
        },
    }
}

/// Writes the `craftingRequirements` field, present.
pub fn write_crafting_requirements(
    out: &mut Vec<u8>,
    slots: &Vec<Option<&Ingredient>>,
    version: MinecraftVersion,
)
    requires
        slots_ok(owned_slots(slots@)),
    ensures
        final(out)@ == old(out)@ + requirements(owned_slots(slots@)),
{
    let ghost owned = owned_slots(slots@);
    write_bool(out, true);
    write_var_int(out, slots.len() as i32);
    let ghost head = out@;
    let mut i: usize = 0;
    while i < slots.len()
        invariant
            i <= slots.len(),
            owned == owned_slots(slots@),
            owned.len() == slots@.len(),
            slots_ok(owned),
            out@ == head + holdersets(owned.take(i as int)),
        decreases slots.len() - i,
    {
        assert(owned.take(i as int + 1).drop_last() =~= owned.take(i as int));
        let slot = slots[i];
        assert(owned[i as int] == match slot {
            Some(x) => Some(*x),
            None => None::<Ingredient>,
        });
        write_ingredient_holderset(out, slot, version);
        i = i + 1;
    }
    assert(owned.take(slots.len() as int) =~= owned);
    assert(out@ =~= old(out)@ + requirements(owned));
}

} // verus!
