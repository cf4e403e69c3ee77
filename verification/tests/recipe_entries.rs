use pumpkin_protocol::entry::{crafting_category, write_entry};
use pumpkin_protocol::grid::{collect_grid_slots, find_key, utf8_width, write_grid_displays};
use pumpkin_protocol::packet::CRecipeBookAdd;
use pumpkin_protocol::recipe::{
    CookingKind, CookingRecipe, CraftingRecipe, Ingredient, RecipeCategory, Stations,
};
use pumpkin_protocol::version::MinecraftVersion;

fn v1_21() -> MinecraftVersion {
    MinecraftVersion::new(1, 21, 4)
}

fn v26_1() -> MinecraftVersion {
    MinecraftVersion::new(26, 1, 0)
}

fn stations() -> Stations {
    Stations { crafting_table: 30, furnace: 31, blast_furnace: 32, smoker: 33, campfire: 34 }
}

fn row(s: &str) -> Vec<char> {
    s.chars().collect()
}

fn shaped() -> CraftingRecipe {
    CraftingRecipe::Shaped {
        category: RecipeCategory::Misc,
        pattern: vec![row("##"), row("# ")],
        key: vec![('#', Ingredient::Simple(Some(10)))],
        result: Some(20),
    }
}

fn shapeless() -> CraftingRecipe {
    CraftingRecipe::Shapeless {
        category: RecipeCategory::Equipment,
        ingredients: vec![Ingredient::Simple(Some(10)), Ingredient::Tagged],
        result: None,
    }
}

fn smelting() -> CookingRecipe {
    CookingRecipe {
        kind: CookingKind::Smelting,
        category: RecipeCategory::Food,
        ingredient: Ingredient::Simple(Some(11)),
        result: Some(12),
        cooking_time: 200,
        experience_bits: 0.1f32.to_bits(),
    }
}

fn entry(id: i32, v: MinecraftVersion, c: Option<&CraftingRecipe>, k: Option<(&CookingRecipe, i32)>) -> (bool, Vec<u8>) {
    let mut out = Vec::new();
    let written = write_entry(&mut out, id, v, &stations(), c, k);
    (written, out)
}

#[test]
fn crafting_categories() {
    assert_eq!(crafting_category(RecipeCategory::Equipment), 2);
    assert_eq!(crafting_category(RecipeCategory::Building), 0);
    assert_eq!(crafting_category(RecipeCategory::Blocks), 0);
    assert_eq!(crafting_category(RecipeCategory::Redstone), 1);
    assert_eq!(crafting_category(RecipeCategory::Food), 3);
    assert_eq!(crafting_category(RecipeCategory::Misc), 3);
}

#[test]
fn key_lookup_takes_the_first_entry() {
    let key = vec![('a', Ingredient::Simple(Some(1))), ('b', Ingredient::Tagged), ('a', Ingredient::Simple(Some(2)))];
    assert!(matches!(find_key(&key, 'a'), Some(Ingredient::Simple(Some(1)))));
    assert!(matches!(find_key(&key, 'b'), Some(Ingredient::Tagged)));
    assert!(find_key(&key, 'c').is_none());
}

#[test]
fn utf8_widths() {
    assert_eq!(utf8_width(&row("")), 0);
    assert_eq!(utf8_width(&row("###")), 3);
    assert_eq!(utf8_width(&row("é#")), 3);
    assert_eq!(utf8_width(&row("€")), 3);
    assert_eq!(utf8_width(&row("😀")), 4);
}

#[test]
fn grid_cells_and_slots() {
    let pattern = vec![row("ab"), row(" c")];
    let key = vec![('a', Ingredient::Simple(Some(1))), ('b', Ingredient::Simple(None))];
    let mut out = Vec::new();
    write_grid_displays(&mut out, &pattern, &key, v1_21());
    assert_eq!(out, vec![2, 1, 0, 0, 0]);
    let slots = collect_grid_slots(&pattern, &key);
    assert_eq!(slots.len(), 2);
    assert!(matches!(slots[0], Some(Ingredient::Simple(Some(1)))));
    assert!(matches!(slots[1], Some(Ingredient::Simple(None))));
}

#[test]
fn shaped_entry_bytes() {
    let r = shaped();
    let (written, out) = entry(5, v1_21(), Some(&r), None);
    assert!(written);
    assert_eq!(
        out,
        vec![
            5, 1, 2, 2, 4, // id, shaped, width, height, count
            2, 10, 2, 10, 2, 10, 0, // cells
            2, 20, // result
            2, 30, // crafting table
            0, 3, // no group, misc
            1, 3, 2, 10, 2, 10, 2, 10, // requirements
            0, // flags
        ]
    );
}

#[test]
fn shaped_count_law_on_a_rectangle() {
    let r = CraftingRecipe::Shaped {
        category: RecipeCategory::Building,
        pattern: vec![row("abc"), row("a a"), row("cba")],
        key: vec![('a', Ingredient::Tagged), ('b', Ingredient::Tagged), ('c', Ingredient::Tagged)],
        result: None,
    };
    let (_, out) = entry(0, v1_21(), Some(&r), None);
    // width 3, height 3, nine declared, nine slot displays of one byte each
    assert_eq!(&out[..5], &[0, 1, 3, 3, 9]);
    assert_eq!(&out[5..14], &[0u8; 9]);
}

#[test]
fn shaped_width_counts_bytes_of_the_first_row() {
    let r = CraftingRecipe::Shaped {
        category: RecipeCategory::Misc,
        pattern: vec![row("é")],
        key: vec![('é', Ingredient::Simple(Some(1)))],
        result: None,
    };
    let (_, out) = entry(0, v1_21(), Some(&r), None);
    assert_eq!(&out[..7], &[0, 1, 2, 1, 2, 2, 1]);
}

#[test]
fn empty_pattern() {
    let r = CraftingRecipe::Shaped {
        category: RecipeCategory::Misc,
        pattern: vec![],
        key: vec![],
        result: None,
    };
    let (written, out) = entry(0, v1_21(), Some(&r), None);
    assert!(written);
    assert_eq!(out, vec![0, 1, 0, 0, 0, 0, 2, 30, 0, 3, 1, 0, 0]);
}

#[test]
fn shapeless_entry_bytes() {
    let r = shapeless();
    let (written, out) = entry(0, v26_1(), Some(&r), None);
    assert!(written);
    assert_eq!(out, vec![0, 0, 2, 4, 10, 0, 0, 4, 30, 0, 2, 1, 2, 2, 10, 1, 0]);
}

#[test]
fn transmute_entry_bytes() {
    let r = CraftingRecipe::Transmute {
        category: RecipeCategory::Redstone,
        input: Ingredient::OneOf(vec![Some(3), Some(4)]),
        material: Ingredient::Simple(None),
        result: Some(6),
    };
    let (written, out) = entry(7, v1_21(), Some(&r), None);
    assert!(written);
    assert_eq!(
        out,
        vec![7, 0, 2, 7, 2, 2, 3, 2, 4, 0, 2, 6, 2, 30, 0, 1, 1, 2, 3, 3, 4, 1, 0]
    );
}

#[test]
fn special_recipes_are_skipped() {
    assert_eq!(entry(0, v1_21(), Some(&CraftingRecipe::Special), None), (false, vec![]));
    assert_eq!(entry(0, v1_21(), Some(&CraftingRecipe::DecoratedPot), None), (false, vec![]));
    assert_eq!(entry(0, v1_21(), None, None), (false, vec![]));
}

#[test]
fn cooking_entry_bytes() {
    let c = smelting();
    let (written, out) = entry(1, v1_21(), None, Some((&c, 4)));
    assert!(written);
    assert_eq!(
        out,
        vec![1, 2, 2, 11, 1, 2, 12, 2, 31, 0xc8, 0x01, 0x3d, 0xcc, 0xcc, 0xcd, 0, 4, 1, 1, 2, 11, 0]
    );
}

#[test]
fn cooking_stations_follow_the_kind() {
    for (kind, station) in [
        (CookingKind::Smelting, 31u8),
        (CookingKind::Blasting, 32),
        (CookingKind::Smoking, 33),
        (CookingKind::CampfireCooking, 34),
    ] {
        let c = CookingRecipe { kind, ..smelting() };
        let (_, out) = entry(0, v1_21(), None, Some((&c, 9)));
        assert_eq!(&out[7..9], &[2, station]);
    }
}

#[test]
fn crafting_wins_over_cooking() {
    let r = shapeless();
    let c = smelting();
    let (a, with_both) = entry(0, v26_1(), Some(&r), Some((&c, 4)));
    let (b, crafting_only) = entry(0, v26_1(), Some(&r), None);
    assert!(a && b);
    assert_eq!(with_both, crafting_only);
    let (skipped, nothing) = entry(0, v26_1(), Some(&CraftingRecipe::Special), Some((&c, 4)));
    assert!(!skipped);
    assert!(nothing.is_empty());
}

#[test]
fn new_packet_keeps_its_flag() {
    assert!(CRecipeBookAdd::new(true).replace);
    assert!(!CRecipeBookAdd::new(false).replace);
}

#[test]
fn packet_counts_and_numbers_its_entries() {
    let crafting = vec![CraftingRecipe::Special, shapeless(), CraftingRecipe::DecoratedPot];
    let cooking = vec![smelting()];
    let mut out = Vec::new();
    CRecipeBookAdd::new(true).write_packet_data(&mut out, v1_21(), &stations(), &crafting, &cooking);
    let mut expected = vec![2u8];
    expected.extend_from_slice(&[0, 0, 2, 2, 10, 0, 0, 2, 30, 0, 2, 1, 2, 2, 10, 1, 0]);
    expected.extend_from_slice(&[
        1, 2, 2, 11, 1, 2, 12, 2, 31, 0xc8, 0x01, 0x3d, 0xcc, 0xcc, 0xcd, 0, 4, 1, 1, 2, 11, 0,
    ]);
    expected.push(1);
    assert_eq!(out, expected);
}

#[test]
fn cooking_book_categories() {
    let cases = [
        (CookingKind::Smelting, RecipeCategory::Food, 4u8),
        (CookingKind::Smelting, RecipeCategory::Blocks, 5),
        (CookingKind::Smelting, RecipeCategory::Misc, 6),
        (CookingKind::Blasting, RecipeCategory::Blocks, 7),
        (CookingKind::Blasting, RecipeCategory::Equipment, 8),
        (CookingKind::Smoking, RecipeCategory::Food, 9),
        (CookingKind::CampfireCooking, RecipeCategory::Food, 12),
    ];
    for (kind, category, expected) in cases {
        let c = CookingRecipe { kind, category, ..smelting() };
        let mut out = Vec::new();
        CRecipeBookAdd::new(false).write_packet_data(&mut out, v1_21(), &stations(), &vec![], &vec![c]);
        // count, id, furnace type, ingredient (2 bytes), fuel, result (2), station (2),
        // time (2), experience (4), group, then the category
        assert_eq!(out[17], expected);
        assert_eq!(*out.last().unwrap(), 0);
    }
}

#[test]
fn empty_packet() {
    let mut out = Vec::new();
    CRecipeBookAdd::new(false).write_packet_data(&mut out, v26_1(), &stations(), &vec![], &vec![]);
    assert_eq!(out, vec![0, 0]);
}
