//! Searching the item lists.
use vstd::prelude::*;

use crate::item::{Bl3Item, ItemEditorListItem, ItemEditorLootlemonItem};
use crate::tab_type::ItemListTabType;
use crate::text::{
    chars_of, contains_chars, decimal, lowercase_of, seq_contains, title_case_of, to_lowercase,
    to_title_case, trim_chars, trimmed, usize_to_string,
};

verus! {

/// The text an item's balance is searched by: the lowercased balance name,
/// or, where the item has none, its lowercased short identifier.
pub open spec fn balance_search_text(item: Bl3Item) -> Option<Seq<char>> {
    match item.balance_part.name {
        Some(name) => Some(lowercase_of(name@)),
        None => match item.balance_part.short_ident {
            Some(ident) => Some(lowercase_of(ident@)),
            None => None,
        },
    }
}

/// The text "level N" for an item of level N.
pub open spec fn level_text(item: Bl3Item) -> Seq<char> {
    "level "@ + decimal(item.level as nat)
}

/// Whether the search `query` (once trimmed) finds `item`: an empty query
/// finds every item; otherwise the query must occur in the balance text, the
/// manufacturer in lowercase title case, the level text, or the lowercased
/// item type, rarity or weapon type.
pub open spec fn item_matches(item: Bl3Item, query: Seq<char>) -> bool {
    let q = trimmed(query);
    ||| q.len() == 0
    ||| (balance_search_text(item) matches Some(t) && seq_contains(t, q))
    ||| (item.manufacturer_part.short_ident matches Some(m) && seq_contains(
        lowercase_of(title_case_of(m@)),
        q,
    ))
    ||| seq_contains(level_text(item), q)
    ||| (item.item_parts matches Some(ip) && {
        ||| seq_contains(lowercase_of(ip.item_type@), q)
        ||| seq_contains(lowercase_of(ip.rarity@), q)
        ||| (ip.weapon_type matches Some(w) && seq_contains(lowercase_of(w@), q))
    })
}

/// The items of a list paired with their positions.
pub open spec fn numbered(items: Seq<Bl3Item>) -> Seq<(usize, Bl3Item)> {
    Seq::new(items.len(), |i: int| (i as usize, items[i]))
}

/// The items of a list that `query` finds, with their positions, in list order.
pub open spec fn filtered(items: Seq<Bl3Item>, query: Seq<char>) -> Seq<(usize, Bl3Item)> {
    numbered(items).filter(|p: (usize, Bl3Item)| item_matches(p.1, query))
}

/// The items of the file's list.
pub open spec fn list_items(items: Seq<ItemEditorListItem>) -> Seq<Bl3Item> {
    items.map_values(|e: ItemEditorListItem| e.item)
}

/// The items of the Lootlemon catalogue.
pub open spec fn lootlemon_list_items(items: Seq<ItemEditorLootlemonItem>) -> Seq<Bl3Item> {
    items.map_values(|e: ItemEditorLootlemonItem| e.item)
}

/// The texts an item is searched by: the lowercased balance text, the
/// manufacturer in lowercase title case, "level N", and the lowercased item
/// type, rarity and weapon type of its parts section.
#[derive(Debug)]
pub struct SearchTexts {
    pub balance: Option<String>,
    pub manufacturer: Option<String>,
    pub level: String,
    pub item_type: Option<String>,
    pub rarity: Option<String>,
    pub weapon_type: Option<String>,
}

pub open spec fn text_view(t: Option<String>) -> Option<Seq<char>> {
    match t {
        Some(s) => Some(s@),
        None => None,
    }
}

pub open spec fn lowered_view(t: Option<String>) -> Option<Seq<char>> {
    match t {
        Some(s) => Some(lowercase_of(s@)),
        None => None,
    }
}

/// `t` holds the texts `item` is searched by.
pub open spec fn search_texts_of(item: Bl3Item, t: SearchTexts) -> bool {
    &&& text_view(t.balance) == balance_search_text(item)
    &&& text_view(t.manufacturer) == match item.manufacturer_part.short_ident {
        Some(m) => Some(lowercase_of(title_case_of(m@))),
        None => None,
    }
    &&& t.level@ == level_text(item)
    &&& text_view(t.item_type) == match item.item_parts {
        Some(ip) => Some(lowercase_of(ip.item_type@)),
        None => None,
    }
    &&& text_view(t.rarity) == match item.item_parts {
        Some(ip) => Some(lowercase_of(ip.rarity@)),
        None => None,
    }
    &&& text_view(t.weapon_type) == match item.item_parts {
        Some(ip) => lowered_view(ip.weapon_type),
        None => None,
    }
}

/// `text` is present and holds `q`.
pub open spec fn found_in(text: Option<Seq<char>>, q: Seq<char>) -> bool {
    text matches Some(t) && seq_contains(t, q)
}

/// Whether the search `query` (once trimmed) finds an item searched by the
/// texts `t`: an empty query finds every item; otherwise the query must
/// occur in one of the texts.
pub open spec fn texts_found(t: SearchTexts, query: Seq<char>) -> bool {
    let q = trimmed(query);
    ||| q.len() == 0
    ||| found_in(text_view(t.balance), q)
    ||| found_in(text_view(t.manufacturer), q)
    ||| seq_contains(t.level@, q)
    ||| found_in(text_view(t.item_type), q)
    ||| found_in(text_view(t.rarity), q)
    ||| found_in(text_view(t.weapon_type), q)
}

fn lowered(text: &Option<String>) -> (r: Option<String>)
    ensures
        text_view(r) == lowered_view(*text),
{
    match text {
        Some(s) => Some(to_lowercase(s.as_str())),
        None => None,
    }
}

/// The texts `item` is searched by.
pub fn search_texts(item: &Bl3Item) -> (t: SearchTexts)
    ensures
        search_texts_of(*item, t),
{
    let balance = match &item.balance_part.name {
        Some(name) => Some(to_lowercase(name.as_str())),
        None => lowered(&item.balance_part.short_ident),
    };
    let manufacturer = match &item.manufacturer_part.short_ident {
        Some(m) => Some(to_lowercase(to_title_case(m.as_str()).as_str())),
        None => None,
    };
    let level = String::from_str("level ").concat(usize_to_string(item.level).as_str());
    let (item_type, rarity, weapon_type) = match &item.item_parts {
        Some(ip) => (
            Some(to_lowercase(ip.item_type.as_str())),
            Some(to_lowercase(ip.rarity.as_str())),
            lowered(&ip.weapon_type),
        ),
        None => (None, None, None),
    };
    SearchTexts { balance, manufacturer, level, item_type, rarity, weapon_type }
}

fn found_in_text(text: &Option<String>, q: &Vec<char>) -> (r: bool)
    ensures
        r == found_in(text_view(*text), q@),
{
    match text {
        Some(t) => contains_chars(&chars_of(t.as_str()), q),
        None => false,
    }
}

/// Whether `search_items_query` finds an item searched by the texts `t`.
pub fn texts_match_query(t: &SearchTexts, search_items_query: &str) -> (r: bool)
    ensures
        r == texts_found(*t, search_items_query@),
{
    let q = trim_chars(&chars_of(search_items_query));
    q.len() == 0 || found_in_text(&t.balance, &q) || found_in_text(&t.manufacturer, &q)
        || contains_chars(&chars_of(t.level.as_str()), &q) || found_in_text(&t.item_type, &q)
        || found_in_text(&t.rarity, &q) || found_in_text(&t.weapon_type, &q)
}

/// Whether `search_items_query` finds `item`.
pub fn item_matches_query(item: &Bl3Item, search_items_query: &str) -> (r: bool)
    ensures
        r == item_matches(*item, search_items_query@),
{
    let t = search_texts(item);
    texts_match_query(&t, search_items_query)
}

fn filter_items(items: &Vec<&Bl3Item>, search_items_query: &str) -> (r: Vec<(usize, Bl3Item)>)
    ensures
        r@ == filtered(items@.map_values(|i: &Bl3Item| *i), search_items_query@),
{
    let ghost all = items@.map_values(|i: &Bl3Item| *i);
    let ghost pred = |p: (usize, Bl3Item)| item_matches(p.1, search_items_query@);
    let n = items.len();
    let mut r: Vec<(usize, Bl3Item)> = Vec::new();
    for i in 0..n
        invariant
            n == items@.len(),
            all == items@.map_values(|i: &Bl3Item| *i),
            pred == (|p: (usize, Bl3Item)| item_matches(p.1, search_items_query@)),
            r@ == numbered(all).take(i as int).filter(pred),
    {
        proof {
            reveal_with_fuel(Seq::<_>::filter, 1);
            assert(numbered(all).take(i as int) =~= numbered(all).take(i + 1).drop_last());
            assert(numbered(all).take(i + 1).last() == (i, all[i as int]));
            assert(all[i as int] == *items@[i as int]);
        }
        let found = item_matches_query(items[i], search_items_query);
        proof {
            assert(pred((i, all[i as int])) == found);
        }
        if found {
            r.push((i, items[i].duplicate()));
        }
    }
    proof {
        assert(numbered(all).take(n as int) =~= numbered(all));
    }
    r
}

/// The entries of the shown list that `search_items_query` finds, each with
/// its position in that list, in list order.
pub fn get_filtered_items(
    search_items_query: &str,
    item_list_tab_type: &ItemListTabType,
    items: &[ItemEditorListItem],
    lootlemon_items: &[ItemEditorLootlemonItem],
) -> (r: Vec<(usize, Bl3Item)>)
    ensures
        *item_list_tab_type == ItemListTabType::Items ==> r@ == filtered(
            list_items(items@),
            search_items_query@,
        ),
        *item_list_tab_type == ItemListTabType::Lootlemon ==> r@ == filtered(
            lootlemon_list_items(lootlemon_items@),
            search_items_query@,
        ),
{
    let mut shown: Vec<&Bl3Item> = Vec::new();
    match item_list_tab_type {
        ItemListTabType::Items => {
            for i in 0..items.len()
                invariant
                    shown@.map_values(|i: &Bl3Item| *i) == list_items(items@).take(i as int),
            {
                proof {
                    assert(list_items(items@).take(i + 1) =~= list_items(items@).take(
                        i as int,
                    ).push(items@[i as int].item));
                }
                shown.push(&items[i].item);
                proof {
                    assert(shown@.map_values(|i: &Bl3Item| *i) =~= list_items(items@).take(
                        i + 1,
                    ));
                }
            }
            proof {
                assert(list_items(items@).take(items@.len() as int) =~= list_items(items@));
            }
        },
        ItemListTabType::Lootlemon => {
            for i in 0..lootlemon_items.len()
                invariant
                    shown@.map_values(|i: &Bl3Item| *i) == lootlemon_list_items(
                        lootlemon_items@,
                    ).take(i as int),
            {
                proof {
                    assert(lootlemon_list_items(lootlemon_items@).take(i + 1)
                        =~= lootlemon_list_items(lootlemon_items@).take(i as int).push(
                        lootlemon_items@[i as int].item,
                    ));
                }
                shown.push(&lootlemon_items[i].item);
                proof {
                    assert(shown@.map_values(|i: &Bl3Item| *i) =~= lootlemon_list_items(
                        lootlemon_items@,
                    ).take(i + 1));
                }
            }
            proof {
                assert(lootlemon_list_items(lootlemon_items@).take(lootlemon_items@.len() as int)
                    =~= lootlemon_list_items(lootlemon_items@));
            }
        },
    }
    filter_items(&shown, search_items_query)
}

} // verus!
