//! The grid of a shaped recipe: its cells, their slot displays, and the
//! ingredients that the grid requires.

use vstd::prelude::*;

use crate::display::{
    empty_display, ingredient_display, owned_slots, write_empty_slot_display,
    write_ingredient_slot_display,
};
use crate::recipe::Ingredient;
use crate::version::MinecraftVersion;

verus! {

/// The ingredient that `key` gives a character: the first entry for it.
pub open spec fn key_find(key: Seq<(char, Ingredient)>, ch: char) -> Option<Ingredient>
    decreases key.len(),
{
    if key.len() == 0 {
        None
    } else if key[0].0 == ch {
        Some(key[0].1)
    } else {
        key_find(key.drop_first(), ch)
    }
}

/// The cells of a pattern, row by row.
pub open spec fn grid_cells(rows: Seq<Vec<char>>) -> Seq<char>
    decreases rows.len(),
{
    if rows.len() == 0 {
        seq![]
    } else {
        grid_cells(rows.drop_last()) + rows.last()@
    }
}

/// The slot display of one cell: empty for a space or a character that the
/// key lacks, else the display of its ingredient.
pub open spec fn cell_display(ch: char, key: Seq<(char, Ingredient)>, version: MinecraftVersion) -> Seq<u8> {
    if ch == ' ' {
        empty_display()
    } else {
        match key_find(key, ch) {
            Some(ing) => ingredient_display(ing, version),
            None => empty_display(),
        }
    }
}

/// One slot display per cell, in order.
pub open spec fn cell_displays(
    cells: Seq<char>,
    key: Seq<(char, Ingredient)>,
    version: MinecraftVersion,
) -> Seq<u8>
    decreases cells.len(),
{
    if cells.len() == 0 {
        seq![]
    } else {
        cell_displays(cells.drop_last(), key, version) + cell_display(cells.last(), key, version)
    }
}

/// The ingredients of the cells that are not spaces and that the key names,
/// in order.
pub open spec fn cell_slots(cells: Seq<char>, key: Seq<(char, Ingredient)>) -> Seq<Ingredient>
    decreases cells.len(),
{
    if cells.len() == 0 {
        seq![]
    } else {
        let ch = cells.last();
        let init = cell_slots(cells.drop_last(), key);
        if ch != ' ' && key_find(key, ch) is Some {
            init.push(key_find(key, ch)->0)
        } else {
            init
        }
    }
}

/// Each ingredient as a present slot.
pub open spec fn somes(ings: Seq<Ingredient>) -> Seq<Option<Ingredient>> {
    ings.map_values(|i: Ingredient| Some(i))
}

/// The number of bytes of one character in UTF-8.
pub open spec fn char_width(c: char) -> nat {
    if (c as u32) < 0x80 {
        1
    } else if (c as u32) < 0x800 {
        2
    } else if (c as u32) < 0x1_0000 {
        3
    } else {
        4
    }
}

/// The number of bytes of a string in UTF-8.
pub open spec fn utf8_len(s: Seq<char>) -> nat
    decreases s.len(),
{
    if s.len() == 0 {
        0
    } else {
        utf8_len(s.drop_last()) + char_width(s.last())
    }
}

/// The first entry of `key` for `ch`.
pub fn find_key(key: &Vec<(char, Ingredient)>, ch: char) -> (found: Option<&Ingredient>)
    ensures
        match found {
            Some(i) => key_find(key@, ch) == Some(*i),
            None => key_find(key@, ch) is None,
        },
{
    let mut i: usize = 0;
    assert(key@.subrange(0, key@.len() as int) =~= key@);
    while i < key.len()
        invariant
            i <= key.len(),
            key_find(key@, ch) == key_find(key@.subrange(i as int, key@.len() as int), ch),
        decreases key.len() - i,
    {
        let ghost rest = key@.subrange(i as int, key@.len() as int);
        assert(rest[0] == key@[i as int]);
        if key[i].0 == ch {
            return Some(&key[i].1);
        }
        assert(rest.drop_first() =~= key@.subrange(i as int + 1, key@.len() as int));
        i = i + 1;
    }
    None
}

/// The number of UTF-8 bytes of a row.
pub fn utf8_width(row: &Vec<char>) -> (n: usize)
    requires
        utf8_len(row@) <= usize::MAX,
    ensures
        n == utf8_len(row@),
{
    let mut n: usize = 0;
    let mut i: usize = 0;
    while i < row.len()
        invariant
            i <= row.len(),
            n == utf8_len(row@.take(i as int)),
            utf8_len(row@) <= usize::MAX,
        decreases row.len() - i,
    {
        assert(row@.take(i as int + 1).drop_last() =~= row@.take(i as int));
        proof {
            lemma_utf8_len_prefix(row@, i as int + 1);
        }
        let c = row[i];
        let code = c as u32;
        if code < 0x80 {
            n = n + 1;
        } else if code < 0x800 {
            n = n + 2;
        } else if code < 0x1_0000 {
            n = n + 3;
        } else {
            n = n + 4;
        }
        i = i + 1;
    }
    assert(row@.take(row.len() as int) =~= row@);
    n
}

/// A prefix has no more UTF-8 bytes than the whole.
proof fn lemma_utf8_len_prefix(s: Seq<char>, k: int)
    requires
        0 <= k <= s.len(),
    ensures
        utf8_len(s.take(k)) <= utf8_len(s),
    decreases s.len(),
{
    if k < s.len() {
        assert(s.drop_last().take(k) =~= s.take(k));
        lemma_utf8_len_prefix(s.drop_last(), k);
    } else {
        assert(s.take(k) =~= s);
    }
}

/// Writes the slot display of every cell of the pattern, row by row.
pub fn write_grid_displays(
    out: &mut Vec<u8>,
    pattern: &Vec<Vec<char>>,
    key: &Vec<(char, Ingredient)>,
    version: MinecraftVersion,
)
    ensures
        final(out)@ == old(out)@ + cell_displays(grid_cells(pattern@), key@, version),
{
    let mut r: usize = 0;
    while r < pattern.len()
        invariant
            r <= pattern.len(),
            out@ == old(out)@ + cell_displays(grid_cells(pattern@.take(r as int)), key@, version),
        decreases pattern.len() - r,
    {
        let row = &pattern[r];
        let ghost done = grid_cells(pattern@.take(r as int));
        assert(pattern@.take(r as int + 1).drop_last() =~= pattern@.take(r as int));
        assert(grid_cells(pattern@.take(r as int + 1)) == done + row@);
        let mut c: usize = 0;
        assert(done + row@.take(0) =~= done);
        while c < row.len()
            invariant
                c <= row.len(),
                out@ == old(out)@ + cell_displays(done + row@.take(c as int), key@, version),
            decreases row.len() - c,
        {
            let ch = row[c];
            let ghost cells = done + row@.take(c as int + 1);
            assert(cells.drop_last() =~= done + row@.take(c as int));
            assert(cells.last() == ch);
            if ch == ' ' {
                write_empty_slot_display(out);
            } else {
                match find_key(key, ch) {
                    Some(ing) => write_ingredient_slot_display(out, ing, version),
                    None => write_empty_slot_display(out),
                }
            }
            c = c + 1;
        }
        assert(row@.take(row.len() as int) =~= row@);
        r = r + 1;
    }
    assert(pattern@.take(pattern.len() as int) =~= pattern@);
}

/// The ingredient of every non-space cell that the key names, row by row.
pub fn collect_grid_slots<'a>(
    pattern: &Vec<Vec<char>>,
    key: &'a Vec<(char, Ingredient)>,
) -> (slots: Vec<Option<&'a Ingredient>>)
    ensures
        owned_slots(slots@) == somes(cell_slots(grid_cells(pattern@), key@)),
{
    let mut slots: Vec<Option<&'a Ingredient>> = Vec::new();
    let mut r: usize = 0;
    while r < pattern.len()
        invariant
            r <= pattern.len(),
            owned_slots(slots@) == somes(cell_slots(grid_cells(pattern@.take(r as int)), key@)),
        decreases pattern.len() - r,
    {
        let row = &pattern[r];
        let ghost done = grid_cells(pattern@.take(r as int));
        assert(pattern@.take(r as int + 1).drop_last() =~= pattern@.take(r as int));
        assert(grid_cells(pattern@.take(r as int + 1)) == done + row@);
        let mut c: usize = 0;
        assert(done + row@.take(0) =~= done);
        while c < row.len()
            invariant
                c <= row.len(),
                owned_slots(slots@) == somes(cell_slots(done + row@.take(c as int), key@)),
            decreases row.len() - c,
        {
            let ch = row[c];
            let ghost cells = done + row@.take(c as int + 1);
            assert(cells.drop_last() =~= done + row@.take(c as int));
            assert(cells.last() == ch);
            if ch != ' ' {
                match find_key(key, ch) {
                    Some(ing) => {
                        let ghost before = slots@;
                        slots.push(Some(ing));
                        assert(owned_slots(slots@) =~= owned_slots(before).push(Some(*ing)));
                        assert(somes(cell_slots(cells, key@)) =~= somes(
                            cell_slots(done + row@.take(c as int), key@),
                        ).push(Some(*ing)));
                    },
                    None => {},
                }
            }
            c = c + 1;
        }
        assert(row@.take(row.len() as int) =~= row@);
        r = r + 1;
    }
    assert(pattern@.take(pattern.len() as int) =~= pattern@);
    slots
}

} // verus!
