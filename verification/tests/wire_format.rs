use pumpkin_protocol::display::{
    found_items, write_any_fuel_slot_display, write_crafting_requirements,
    write_empty_slot_display, write_ingredient_holderset, write_ingredient_slot_display,
    write_item_slot_display, write_result_slot_display,
};
use pumpkin_protocol::recipe::{registry_key, Ingredient};
use pumpkin_protocol::version::{slot_display_composite, slot_display_item, MinecraftVersion};
use pumpkin_protocol::wire::{write_bool, write_u32_be, write_u8, write_var_int};

fn var_int(v: i32) -> Vec<u8> {
    let mut out = Vec::new();
    write_var_int(&mut out, v);
    out
}

/// Reads a VarInt back, the way a client does.
fn read_var_int(bytes: &[u8]) -> (i32, usize) {
    let mut value: u32 = 0;
    let mut i = 0;
    loop {
        let b = bytes[i];
        value |= ((b & 0x7f) as u32) << (7 * i);
        i += 1;
        if b & 0x80 == 0 {
            return (value as i32, i);
        }
    }
}

fn v1_21() -> MinecraftVersion {
    MinecraftVersion::new(1, 21, 4)
}

fn v26_1() -> MinecraftVersion {
    MinecraftVersion::new(26, 1, 0)
}

#[test]
fn var_int_known_encodings() {
    assert_eq!(var_int(0), vec![0x00]);
    assert_eq!(var_int(1), vec![0x01]);
    assert_eq!(var_int(127), vec![0x7f]);
    assert_eq!(var_int(128), vec![0x80, 0x01]);
    assert_eq!(var_int(300), vec![0xac, 0x02]);
    assert_eq!(var_int(25565), vec![0xdd, 0xc7, 0x01]);
    assert_eq!(var_int(2097151), vec![0xff, 0xff, 0x7f]);
    assert_eq!(var_int(i32::MAX), vec![0xff, 0xff, 0xff, 0xff, 0x07]);
    assert_eq!(var_int(-1), vec![0xff, 0xff, 0xff, 0xff, 0x0f]);
    assert_eq!(var_int(i32::MIN), vec![0x80, 0x80, 0x80, 0x80, 0x08]);
}

#[test]
fn var_int_appends_to_what_is_there() {
    let mut out = vec![9u8, 9u8];
    write_var_int(&mut out, 300);
    assert_eq!(out, vec![9, 9, 0xac, 0x02]);
}

#[test]
fn var_int_round_trip_law() {
    for v in [0, 1, 127, 128, 255, 300, 16383, 16384, 2097151, 2097152, i32::MAX, -1, -128, i32::MIN] {
        let mut bytes = var_int(v);
        let len = bytes.len();
        assert!((1..=5).contains(&len));
        for b in &bytes[..len - 1] {
            assert!(*b >= 0x80);
        }
        assert!(bytes[len - 1] < 0x80);
        bytes.extend_from_slice(&[0xff, 0x01]);
        assert_eq!(read_var_int(&bytes), (v, len));
    }
}

#[test]
fn bool_u8_and_word() {
    let mut out = Vec::new();
    write_bool(&mut out, true);
    write_bool(&mut out, false);
    write_u8(&mut out, 0xab);
    write_u32_be(&mut out, 0.1f32.to_bits());
    write_u32_be(&mut out, 0x01020304);
    assert_eq!(out, vec![1, 0, 0xab, 0x3d, 0xcc, 0xcc, 0xcd, 1, 2, 3, 4]);
    assert_eq!(&out[3..7], &0.1f32.to_be_bytes());
}

#[test]
fn version_ordering() {
    let v26 = MinecraftVersion::v26_1();
    assert!(v26_1().at_least(&v26));
    assert!(MinecraftVersion::new(26, 1, 1).at_least(&v26));
    assert!(MinecraftVersion::new(27, 0, 0).at_least(&v26));
    assert!(!MinecraftVersion::new(26, 0, 9).at_least(&v26));
    assert!(!v1_21().at_least(&v26));
    assert!(!MinecraftVersion::new(1, 99, 99).at_least(&v26));
}

#[test]
fn slot_display_ids_depend_on_version() {
    assert_eq!(slot_display_item(v1_21()), 2);
    assert_eq!(slot_display_composite(v1_21()), 7);
    assert_eq!(slot_display_item(v26_1()), 4);
    assert_eq!(slot_display_composite(v26_1()), 10);
    assert_eq!(slot_display_item(MinecraftVersion::new(26, 2, 0)), 4);
    assert_eq!(slot_display_composite(MinecraftVersion::new(25, 9, 9)), 7);
}

#[test]
fn fixed_slot_displays() {
    let mut out = Vec::new();
    write_empty_slot_display(&mut out);
    assert_eq!(out, vec![0]);
    let mut out = Vec::new();
    write_any_fuel_slot_display(&mut out);
    assert_eq!(out, vec![1]);
    let mut out = Vec::new();
    write_item_slot_display(&mut out, 200, v1_21());
    assert_eq!(out, vec![2, 0xc8, 0x01]);
    let mut out = Vec::new();
    write_item_slot_display(&mut out, 5, v26_1());
    assert_eq!(out, vec![4, 5]);
}

fn ingredient_bytes(ing: &Ingredient, version: MinecraftVersion) -> Vec<u8> {
    let mut out = Vec::new();
    write_ingredient_slot_display(&mut out, ing, version);
    out
}

#[test]
fn ingredient_slot_displays() {
    assert_eq!(ingredient_bytes(&Ingredient::Simple(Some(5)), v1_21()), vec![2, 5]);
    assert_eq!(ingredient_bytes(&Ingredient::Simple(None), v1_21()), vec![0]);
    assert_eq!(ingredient_bytes(&Ingredient::Tagged, v1_21()), vec![0]);
    assert_eq!(ingredient_bytes(&Ingredient::OneOf(vec![]), v1_21()), vec![0]);
    assert_eq!(ingredient_bytes(&Ingredient::OneOf(vec![None, None]), v1_21()), vec![0]);
    assert_eq!(ingredient_bytes(&Ingredient::OneOf(vec![None, Some(7)]), v1_21()), vec![2, 7]);
    assert_eq!(
        ingredient_bytes(&Ingredient::OneOf(vec![Some(3), None, Some(4)]), v1_21()),
        vec![7, 2, 2, 3, 2, 4]
    );
    assert_eq!(
        ingredient_bytes(&Ingredient::OneOf(vec![Some(3), None, Some(4)]), v26_1()),
        vec![10, 2, 4, 3, 4, 4]
    );
}

#[test]
fn found_items_keep_order() {
    assert_eq!(found_items(&vec![Some(3), None, Some(1), None, Some(2)]), vec![3, 1, 2]);
    assert_eq!(found_items(&vec![None]), Vec::<i32>::new());
}

#[test]
fn result_slot_display() {
    let mut out = Vec::new();
    write_result_slot_display(&mut out, Some(9), v1_21());
    write_result_slot_display(&mut out, None, v1_21());
    assert_eq!(out, vec![2, 9, 0]);
}

fn holderset_bytes(ing: Option<&Ingredient>) -> Vec<u8> {
    let mut out = Vec::new();
    write_ingredient_holderset(&mut out, ing, v1_21());
    out
}

#[test]
fn holdersets_declare_one_more_than_their_items() {
    assert_eq!(holderset_bytes(None), vec![1]);
    assert_eq!(holderset_bytes(Some(&Ingredient::Simple(Some(9)))), vec![2, 9]);
    assert_eq!(holderset_bytes(Some(&Ingredient::Simple(None))), vec![1]);
    assert_eq!(holderset_bytes(Some(&Ingredient::Tagged)), vec![1]);
    assert_eq!(holderset_bytes(Some(&Ingredient::OneOf(vec![]))), vec![1]);
    let bytes = holderset_bytes(Some(&Ingredient::OneOf(vec![Some(3), None, Some(300)])));
    assert_eq!(bytes, vec![3, 3, 0xac, 0x02]);
    assert_eq!(read_var_int(&bytes).0, 2 + 1);
}

#[test]
fn crafting_requirements_field() {
    let a = Ingredient::Simple(Some(8));
    let b = Ingredient::OneOf(vec![Some(1), Some(2)]);
    let mut out = Vec::new();
    write_crafting_requirements(&mut out, &vec![Some(&a), None, Some(&b)], v1_21());
    assert_eq!(out, vec![1, 3, 2, 8, 1, 3, 1, 2]);
    let mut out = Vec::new();
    write_crafting_requirements(&mut out, &vec![], v1_21());
    assert_eq!(out, vec![1, 0]);
}

#[test]
fn registry_keys_lose_the_namespace() {
    assert_eq!(registry_key("minecraft:stone"), "stone");
    assert_eq!(registry_key("stone"), "stone");
    assert_eq!(registry_key("minecraft:"), "");
    assert_eq!(registry_key("minecraft"), "minecraft");
    assert_eq!(registry_key("other:stone"), "other:stone");
    assert_eq!(registry_key("minecraft:minecraft:x"), "minecraft:x");
    assert_eq!(registry_key("Minecraft:stone"), "Minecraft:stone");
    assert_eq!(registry_key("minecraft:é"), "é");
    assert_eq!(registry_key(""), "");
}
