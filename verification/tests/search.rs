use bl3_save_edit_ui::filter::{get_filtered_items, item_matches_query, search_texts, texts_match_query};
use bl3_save_edit_ui::item::{
    BalancePart, Bl3Item, ItemEditorListItem, ItemEditorLootlemonItem, ItemParts, ManufacturerPart,
};
use bl3_save_edit_ui::tab_type::ItemListTabType;
use bl3_save_edit_ui::text::{
    chars_of, contains_chars, string_from_chars, to_lowercase, to_title_case, trim_chars,
    usize_to_string,
};

fn item(balance: Option<&str>, ident: Option<&str>, manufacturer: Option<&str>, level: usize) -> Bl3Item {
    Bl3Item {
        serial: "BL3(AwAAAABmboC7I9xAEzwShMJVX8nPYwsAAA==)".to_string(),
        balance_part: BalancePart {
            name: balance.map(|s| s.to_string()),
            short_ident: ident.map(|s| s.to_string()),
        },
        manufacturer_part: ManufacturerPart { short_ident: manufacturer.map(|s| s.to_string()) },
        level,
        item_parts: Some(ItemParts {
            part_inv_key: "BPInvPart_Shotgun_Hyperion_C".to_string(),
            item_type: "Weapon".to_string(),
            rarity: "Legendary".to_string(),
            weapon_type: Some("Shotgun".to_string()),
            part_count: 10,
            generic_part_count: 1,
        }),
    }
}

fn chars(s: &str) -> Vec<char> {
    s.chars().collect()
}

#[test]
fn contains_finds_runs_of_characters() {
    assert!(contains_chars(&chars("legendary"), &chars("gend")));
    assert!(contains_chars(&chars("legendary"), &chars("")));
    assert!(contains_chars(&chars("ab"), &chars("ab")));
    assert!(!contains_chars(&chars("legendary"), &chars("gnd")));
    assert!(!contains_chars(&chars("ab"), &chars("abc")));
    assert!(contains_chars(&chars("ΣaΣb"), &chars("Σb")));
}

#[test]
fn trim_drops_unicode_whitespace_at_both_ends() {
    assert_eq!(trim_chars(&chars("  level 5\t\n")), chars("level 5"));
    assert_eq!(trim_chars(&chars("\u{3000}a b\u{a0}")), chars("a b"));
    assert_eq!(trim_chars(&chars(" \t ")), Vec::<char>::new());
    assert_eq!(trim_chars(&chars("x")), chars("x"));
}

#[test]
fn conversions_match_std_and_heck() {
    assert_eq!(chars_of("héllo"), chars("héllo"));
    assert_eq!(string_from_chars(&chars("Σ ok")), "Σ ok");
    assert_eq!(to_lowercase("MAGGIE Σ"), "maggie σ");
    assert_eq!(to_title_case("HyperionShotgun"), "Hyperion Shotgun");
    assert_eq!(to_title_case("shouty_snake_case"), "Shouty Snake Case");
    assert_eq!(usize_to_string(0), "0");
    assert_eq!(usize_to_string(72), "72");
    assert_eq!(usize_to_string(1234567890), "1234567890");
    assert_eq!(usize_to_string(usize::MAX), usize::MAX.to_string());
}

#[test]
fn empty_search_finds_everything() {
    let it = item(Some("Maggie"), None, Some("JAK"), 57);
    assert!(item_matches_query(&it, ""));
    assert!(item_matches_query(&it, "   "));
}

#[test]
fn search_by_balance_name_or_short_ident() {
    let named = item(Some("Maggie"), Some("Bal_JAK_PS_Maggie"), None, 1);
    assert!(item_matches_query(&named, "maggie"));
    // The balance name is lowercased before the query (which is stored
    // lowercased) is looked for, and the short ident is not searched when
    // there is a name.
    assert!(!item_matches_query(&named, "Maggie"));
    assert!(!item_matches_query(&named, "bal_jak"));
    let unnamed = item(None, Some("Bal_JAK_PS_Maggie"), None, 1);
    assert!(item_matches_query(&unnamed, "bal_jak"));
}

#[test]
fn search_by_manufacturer_in_title_case() {
    let it = item(None, None, Some("HyperionShotgun"), 1);
    assert!(item_matches_query(&it, "hyperion shotgun"));
    assert!(!item_matches_query(&it, "hyperionshotgun"));
}

#[test]
fn search_by_level_text() {
    let it = item(None, None, None, 57);
    assert!(item_matches_query(&it, "level 57"));
    assert!(item_matches_query(&it, "  vel 5 "));
    assert!(!item_matches_query(&it, "level 58"));
}

#[test]
fn search_by_type_rarity_and_weapon_type() {
    let it = item(None, None, None, 3);
    assert!(item_matches_query(&it, "weapon"));
    assert!(item_matches_query(&it, "legend"));
    assert!(item_matches_query(&it, "shotgun"));
    assert!(!item_matches_query(&it, "pistol"));
    let mut bare = item(None, None, None, 3);
    bare.item_parts = None;
    assert!(!item_matches_query(&bare, "weapon"));
}

#[test]
fn filtered_items_keep_their_positions() {
    let items = vec![
        ItemEditorListItem::new(item(Some("Maggie"), None, None, 1)),
        ItemEditorListItem::new(item(Some("Flakker"), None, None, 2)),
        ItemEditorListItem::new(item(Some("Maggie"), None, None, 3)),
    ];
    let found = get_filtered_items("maggie", &ItemListTabType::Items, &items, &[]);
    let positions: Vec<usize> = found.iter().map(|(i, _)| *i).collect();
    assert_eq!(positions, vec![0, 2]);
    assert_eq!(found[1].1.level, 3);
    let all = get_filtered_items(" ", &ItemListTabType::Items, &items, &[]);
    assert_eq!(all.len(), 3);
}

#[test]
fn filtered_items_of_the_lootlemon_tab() {
    let items = vec![ItemEditorListItem::new(item(Some("Maggie"), None, None, 1))];
    let lootlemon = vec![
        ItemEditorLootlemonItem::new(0, "https://www.lootlemon.com/a".to_string(), item(Some("Hellwalker"), None, None, 60)),
        ItemEditorLootlemonItem::new(1, "https://www.lootlemon.com/b".to_string(), item(Some("Maggie"), None, None, 60)),
    ];
    let found = get_filtered_items("maggie", &ItemListTabType::Lootlemon, &items, &lootlemon);
    assert_eq!(found.len(), 1);
    assert_eq!(found[0].0, 1);
}

#[test]
fn search_texts_of_an_item() {
    let t = search_texts(&item(None, Some("Bal_JAK_Maggie"), Some("HyperionShotgun"), 12));
    assert_eq!(t.balance.as_deref(), Some("bal_jak_maggie"));
    assert_eq!(t.manufacturer.as_deref(), Some("hyperion shotgun"));
    assert_eq!(t.level, "level 12");
    assert_eq!(t.item_type.as_deref(), Some("weapon"));
    assert_eq!(t.rarity.as_deref(), Some("legendary"));
    assert_eq!(t.weapon_type.as_deref(), Some("shotgun"));
    assert!(texts_match_query(&t, " hyperion sh "));
    assert!(!texts_match_query(&t, "HYPERION"));
    let mut bare = item(Some("Maggie"), None, None, 1);
    bare.item_parts = None;
    let t = search_texts(&bare);
    assert_eq!(t.balance.as_deref(), Some("maggie"));
    assert!(t.manufacturer.is_none() && t.item_type.is_none() && t.rarity.is_none() && t.weapon_type.is_none());
}

#[test]
fn surrounding_whitespace_does_not_change_the_search() {
    let items = vec![
        ItemEditorListItem::new(item(Some("Maggie"), None, None, 1)),
        ItemEditorListItem::new(item(Some("Flakker"), None, None, 2)),
    ];
    let plain: Vec<usize> = get_filtered_items("flak", &ItemListTabType::Items, &items, &[])
        .iter()
        .map(|(i, _)| *i)
        .collect();
    let padded: Vec<usize> = get_filtered_items("\t flak  ", &ItemListTabType::Items, &items, &[])
        .iter()
        .map(|(i, _)| *i)
        .collect();
    assert_eq!(plain, vec![1]);
    assert_eq!(plain, padded);
}
