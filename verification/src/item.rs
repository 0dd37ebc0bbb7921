//! The items the editor lists, and the per-item editor panel state.
//!
//! An item is held by what the editor reads of it: the texts it is searched
//! by, its level, how many parts and anointments it carries, and its serial,
//! from which the save editor's core rebuilds the full item.
use vstd::prelude::*;

verus! {

/// The balance part of an item: its display name, if the core knows one,
/// and its short identifier.
#[derive(Debug)]
pub struct BalancePart {
    pub name: Option<String>,
    pub short_ident: Option<String>,
}

/// The manufacturer part of an item, by its short identifier.
#[derive(Debug)]
pub struct ManufacturerPart {
    pub short_ident: Option<String>,
}

/// The decoded parts section of an item.
#[derive(Debug)]
pub struct ItemParts {
    /// The inventory key under which the item's parts are looked up.
    pub part_inv_key: String,
    /// The item type as the core displays it (e.g. "Weapon").
    pub item_type: String,
    /// The rarity as the core displays it (e.g. "Legendary").
    pub rarity: String,
    /// The weapon type as the core displays it, for weapons.
    pub weapon_type: Option<String>,
    /// How many parts the item carries.
    pub part_count: usize,
    /// How many generic parts (anointments) the item carries.
    pub generic_part_count: usize,
}

/// An item of a save file or profile bank.
#[derive(Debug)]
pub struct Bl3Item {
    /// The item's serial, base64 encoded with its `BL3(...)` frame.
    pub serial: String,
    pub balance_part: BalancePart,
    pub manufacturer_part: ManufacturerPart,
    pub level: usize,
    pub item_parts: Option<ItemParts>,
}

fn copy_text(s: &Option<String>) -> (r: Option<String>)
    ensures
        r == *s,
{
    match s {
        Some(t) => Some(t.clone()),
        None => None,
    }
}

impl Bl3Item {
    /// A copy of the item.
    pub fn duplicate(&self) -> (r: Bl3Item)
        ensures
            r == *self,
    {
        let item_parts = match &self.item_parts {
            Some(ip) => Some(
                ItemParts {
                    part_inv_key: ip.part_inv_key.clone(),
                    item_type: ip.item_type.clone(),
                    rarity: ip.rarity.clone(),
                    weapon_type: copy_text(&ip.weapon_type),
                    part_count: ip.part_count,
                    generic_part_count: ip.generic_part_count,
                },
            ),
            None => None,
        };
        Bl3Item {
            serial: self.serial.clone(),
            balance_part: BalancePart {
                name: copy_text(&self.balance_part.name),
                short_ident: copy_text(&self.balance_part.short_ident),
            },
            manufacturer_part: ManufacturerPart {
                short_ident: copy_text(&self.manufacturer_part.short_ident),
            },
            level: self.level,
            item_parts,
        }
    }
}

/// A position in the editor's list of parts that can be added: a category,
/// and a part within it.
#[derive(Debug, Clone, Copy, PartialEq, Eq, Structural)]
pub struct AvailablePartTypeIndex {
    pub category_index: usize,
    pub part_index: usize,
}

/// A position in the editor's list of the item's current parts.
#[derive(Debug, Clone, Copy, PartialEq, Eq, Structural)]
pub struct CurrentPartTypeIndex {
    pub category_index: usize,
    pub part_index: usize,
}

impl Default for CurrentPartTypeIndex {
    /// The first part of the first category.
    fn default() -> (r: Self)
        ensures
            r == (CurrentPartTypeIndex { category_index: 0, part_index: 0 }),
    {
        CurrentPartTypeIndex { category_index: 0, part_index: 0 }
    }
}

/// Which tab of the available-parts panel is shown.
#[derive(Debug, Clone, Copy, PartialEq, Eq, Structural)]
pub enum AvailablePartType {
    Parts,
    Anointments,
}

/// Which tab of the current-parts panel is shown.
#[derive(Debug, Clone, Copy, PartialEq, Eq, Structural)]
pub enum CurrentPartType {
    Parts,
    Anointments,
}

/// The panel of parts that can be added to the item.
#[derive(Debug)]
pub struct AvailableParts {
    pub part_type_index: AvailablePartTypeIndex,
    pub show_all_available_parts: bool,
    pub search_input: String,
    pub parts_tab_type: AvailablePartType,
    /// The short names of the parts shown, by category.
    pub parts: Vec<Vec<String>>,
}

/// The panel of the parts the item carries.
#[derive(Debug)]
pub struct CurrentParts {
    pub part_type_index: CurrentPartTypeIndex,
    pub reorder_parts: bool,
    pub search_input: String,
    pub parts_tab_type: CurrentPartType,
    /// The short names of the parts shown, by category.
    pub parts: Vec<Vec<String>>,
}

/// The editor panel of one item.
#[derive(Debug)]
pub struct ItemEditor {
    pub available_parts: AvailableParts,
    pub current_parts: CurrentParts,
    pub balance_search_input: String,
    pub inv_data_search_input: String,
    pub manufacturer_search_input: String,
}

/// The editor panel as it stands before anything is chosen in it.
pub open spec fn is_fresh_editor(e: ItemEditor) -> bool {
    &&& e.available_parts.part_type_index == (AvailablePartTypeIndex {
        category_index: 0,
        part_index: 0,
    })
    &&& !e.available_parts.show_all_available_parts
    &&& e.available_parts.search_input@ == Seq::<char>::empty()
    &&& e.available_parts.parts_tab_type == AvailablePartType::Parts
    &&& e.available_parts.parts@ == Seq::<Vec<String>>::empty()
    &&& e.current_parts.part_type_index == (CurrentPartTypeIndex {
        category_index: 0,
        part_index: 0,
    })
    &&& !e.current_parts.reorder_parts
    &&& e.current_parts.search_input@ == Seq::<char>::empty()
    &&& e.current_parts.parts_tab_type == CurrentPartType::Parts
    &&& e.current_parts.parts@ == Seq::<Vec<String>>::empty()
    &&& e.balance_search_input@ == Seq::<char>::empty()
    &&& e.inv_data_search_input@ == Seq::<char>::empty()
    &&& e.manufacturer_search_input@ == Seq::<char>::empty()
}

impl ItemEditor {
    /// An editor panel with nothing chosen; its part lists are filled when
    /// the item is mapped to the editor.
    pub fn new() -> (e: ItemEditor)
        ensures
            is_fresh_editor(e),
    {
        ItemEditor {
            available_parts: AvailableParts {
                part_type_index: AvailablePartTypeIndex { category_index: 0, part_index: 0 },
                show_all_available_parts: false,
                search_input: String::new(),
                parts_tab_type: AvailablePartType::Parts,
                parts: Vec::new(),
            },
            current_parts: CurrentParts {
                part_type_index: CurrentPartTypeIndex { category_index: 0, part_index: 0 },
                reorder_parts: false,
                search_input: String::new(),
                parts_tab_type: CurrentPartType::Parts,
                parts: Vec::new(),
            },
            balance_search_input: String::new(),
            inv_data_search_input: String::new(),
            manufacturer_search_input: String::new(),
        }
    }
}

/// An entry of the item list: the item and its editor panel.
#[derive(Debug)]
pub struct ItemEditorListItem {
    pub item: Bl3Item,
    pub editor: ItemEditor,
}

impl ItemEditorListItem {
    /// An entry for `item` with a fresh editor panel.
    pub fn new(item: Bl3Item) -> (r: ItemEditorListItem)
        ensures
            r.item == item,
            is_fresh_editor(r.editor),
    {
        ItemEditorListItem { item, editor: ItemEditor::new() }
    }
}

/// An entry of the Lootlemon catalogue: an item and the page that shows it.
#[derive(Debug)]
pub struct ItemEditorLootlemonItem {
    /// The entry's position in the catalogue.
    pub index: usize,
    pub link: String,
    pub item: Bl3Item,
}

impl ItemEditorLootlemonItem {
    pub fn new(index: usize, link: String, item: Bl3Item) -> (r: ItemEditorLootlemonItem)
        ensures
            r.index == index,
            r.link == link,
            r.item == item,
    {
        ItemEditorLootlemonItem { index, link, item }
    }
}

/// The Lootlemon catalogue shown in the second tab of the item list.
#[derive(Debug)]
pub struct ItemEditorLootlemonItems {
    pub items: Vec<ItemEditorLootlemonItem>,
}

impl ItemEditorLootlemonItems {
    /// The catalogue built from the core's Lootlemon entries (link and item),
    /// each numbered by its position.
    pub fn from_entries(entries: Vec<(String, Bl3Item)>) -> (r: ItemEditorLootlemonItems)
        ensures
            r.items@.len() == entries@.len(),
            forall|i: int|
                #![trigger r.items@[i]]
                0 <= i < entries@.len() ==> r.items@[i].index == i && r.items@[i].link
                    == entries@[i].0 && r.items@[i].item == entries@[i].1,
    {
        let mut entries = entries;
        let ghost all = entries@;
        let n = entries.len();
        let mut rev: Vec<ItemEditorLootlemonItem> = Vec::new();
        // Entries are taken from the back; `rev` holds them last first.
        while entries.len() > 0
            invariant
                n == all.len(),
                entries@ == all.take(entries@.len() as int),
                rev@.len() + entries@.len() == n,
                forall|k: int|
                    #![trigger rev@[k]]
                    0 <= k < rev@.len() ==> rev@[k].index == n - 1 - k && rev@[k].link == all[n
                        - 1 - k].0 && rev@[k].item == all[n - 1 - k].1,
            decreases entries@.len(),
        {
            let i = entries.len() - 1;
            let (link, item) = entries.pop().unwrap();
            proof {
                assert(all.take(i as int) =~= all.take((i + 1) as int).drop_last());
            }
            rev.push(ItemEditorLootlemonItem::new(i, link, item));
        }
        let mut items: Vec<ItemEditorLootlemonItem> = Vec::new();
        while rev.len() > 0
            invariant
                n == all.len(),
                rev@.len() + items@.len() == n,
                forall|k: int|
                    #![trigger rev@[k]]
                    0 <= k < rev@.len() ==> rev@[k].index == n - 1 - k && rev@[k].link == all[n
                        - 1 - k].0 && rev@[k].item == all[n - 1 - k].1,
                forall|k: int|
                    #![trigger items@[k]]
                    0 <= k < items@.len() ==> items@[k].index == k && items@[k].link == all[k].0
                        && items@[k].item == all[k].1,
            decreases rev@.len(),
        {
            let e = rev.pop().unwrap();
            items.push(e);
        }
        ItemEditorLootlemonItems { items }
    }
}

} // verus!
