//! The state of the item editor page: the item list, its selection, the
//! search inputs and the Lootlemon catalogue.
use vstd::prelude::*;

use crate::item::{
    AvailablePartType, AvailablePartTypeIndex, AvailableParts, Bl3Item, CurrentPartType,
    CurrentPartTypeIndex, CurrentParts, ItemEditor, ItemEditorListItem, ItemEditorLootlemonItems,
};
use crate::tab_type::ItemListTabType;

verus! {

/// How many parts and anointments an item may carry, as the save editor's
/// core sets them.
#[derive(Debug, Clone, Copy, PartialEq, Eq, Structural)]
pub struct ItemLimits {
    pub max_item_parts: usize,
    pub max_item_anointments: usize,
}

/// The item editor page.
#[derive(Debug)]
pub struct ItemEditorState {
    pub selected_item_index: usize,
    pub import_serial_input: String,
    pub all_item_levels_input: i32,
    pub items: Vec<ItemEditorListItem>,
    pub lootlemon_items: ItemEditorLootlemonItems,
    pub search_items_input: String,
    pub search_lootlemon_items_input: String,
    pub item_list_tab_type: ItemListTabType,
    pub item_list_is_reverse_order: bool,
    pub limits: ItemLimits,
}

/// Why a change to the selected item could not be made.
#[derive(Debug)]
pub enum ItemEditorError {
    /// There is no item at the selected position.
    NoItemAtIndex(usize),
    /// The save editor's core refused the change, with its message.
    Core(String),
}

impl ItemEditorError {
    /// The error's text.
    pub open spec fn message_text(&self) -> Seq<char> {
        match self {
            ItemEditorError::NoItemAtIndex(i) => "couldn't get item for index: "@
                + crate::text::decimal(*i as nat),
            ItemEditorError::Core(m) => m@,
        }
    }

    /// The error as the user reads it.
    pub fn message(&self) -> (r: String)
        ensures
            r@ == self.message_text(),
    {
        match self {
            ItemEditorError::NoItemAtIndex(i) => String::from_str(
                "couldn't get item for index: ",
            ).concat(crate::text::usize_to_string(*i).as_str()),
            ItemEditorError::Core(m) => m.clone(),
        }
    }
}

/// A change to an item's editor panel.
#[derive(Debug)]
pub enum EditorEdit {
    /// Select the first available part of the first category.
    ResetAvailablePartSelection,
    ShowAllAvailableParts(bool),
    /// Filter the available parts by the given (lowercased) text.
    SearchAvailableParts(String),
    /// Open a tab of the available-parts panel, with its search cleared.
    ShowAvailablePartsTab(AvailablePartType),
    /// Filter the current parts by the given (lowercased) text.
    SearchCurrentParts(String),
    /// Open a tab of the current-parts panel, with its search cleared and
    /// reordering off.
    ShowCurrentPartsTab(CurrentPartType),
    /// Turn reordering of the current parts on or off; the first part is selected.
    ReorderCurrentParts(bool),
    SelectAvailablePart(AvailablePartTypeIndex),
    SelectCurrentPart(CurrentPartTypeIndex),
    SearchBalance(String),
    SearchInvData(String),
    SearchManufacturer(String),
    /// The selected current part was moved to the given place: select it there.
    PartMoved(usize),
    /// Clear the current-parts search.
    ClearCurrentPartsSearch,
}

/// `new` is `old` with `edit` made.
pub open spec fn edit_applied(old: ItemEditor, edit: EditorEdit, new: ItemEditor) -> bool {
    match edit {
        EditorEdit::ResetAvailablePartSelection => new == ItemEditor {
            available_parts: AvailableParts {
                part_type_index: AvailablePartTypeIndex { category_index: 0, part_index: 0 },
                ..old.available_parts
            },
            ..old
        },
        EditorEdit::ShowAllAvailableParts(b) => new == ItemEditor {
            available_parts: AvailableParts { show_all_available_parts: b, ..old.available_parts },
            ..old
        },
        EditorEdit::SearchAvailableParts(s) => new == ItemEditor {
            available_parts: AvailableParts { search_input: s, ..old.available_parts },
            ..old
        },
        EditorEdit::ShowAvailablePartsTab(t) => {
            &&& new.available_parts.search_input@ == Seq::<char>::empty()
            &&& new == ItemEditor {
                available_parts: AvailableParts {
                    search_input: new.available_parts.search_input,
                    parts_tab_type: t,
                    ..old.available_parts
                },
                ..old
            }
        },
        EditorEdit::SearchCurrentParts(s) => new == ItemEditor {
            current_parts: CurrentParts { search_input: s, ..old.current_parts },
            ..old
        },
        EditorEdit::ShowCurrentPartsTab(t) => {
            &&& new.current_parts.search_input@ == Seq::<char>::empty()
            &&& new == ItemEditor {
                current_parts: CurrentParts {
                    search_input: new.current_parts.search_input,
                    reorder_parts: false,
                    parts_tab_type: t,
                    ..old.current_parts
                },
                ..old
            }
        },
        EditorEdit::ReorderCurrentParts(b) => new == ItemEditor {
            current_parts: CurrentParts {
                part_type_index: CurrentPartTypeIndex { category_index: 0, part_index: 0 },
                reorder_parts: b,
                ..old.current_parts
            },
            ..old
        },
        EditorEdit::SelectAvailablePart(i) => new == ItemEditor {
            available_parts: AvailableParts { part_type_index: i, ..old.available_parts },
            ..old
        },
        EditorEdit::SelectCurrentPart(i) => new == ItemEditor {
            current_parts: CurrentParts { part_type_index: i, ..old.current_parts },
            ..old
        },
        EditorEdit::SearchBalance(s) => new == ItemEditor { balance_search_input: s, ..old },
        EditorEdit::SearchInvData(s) => new == ItemEditor { inv_data_search_input: s, ..old },
        EditorEdit::SearchManufacturer(s) => new == ItemEditor {
            manufacturer_search_input: s,
            ..old
        },
        EditorEdit::PartMoved(p) => new == ItemEditor {
            current_parts: CurrentParts {
                part_type_index: CurrentPartTypeIndex {
                    part_index: p,
                    ..old.current_parts.part_type_index
                },
                ..old.current_parts
            },
            ..old
        },
        EditorEdit::ClearCurrentPartsSearch => {
            &&& new.current_parts.search_input@ == Seq::<char>::empty()
            &&& new == ItemEditor {
                current_parts: CurrentParts {
                    search_input: new.current_parts.search_input,
                    ..old.current_parts
                },
                ..old
            }
        },
    }
}

/// Makes `edit` to an editor panel.
pub fn apply_edit(editor: &mut ItemEditor, edit: EditorEdit)
    ensures
        edit_applied(*old(editor), edit, *final(editor)),
{
    match edit {
        EditorEdit::ResetAvailablePartSelection => {
            editor.available_parts.part_type_index = AvailablePartTypeIndex {
                category_index: 0,
                part_index: 0,
            };
        },
        EditorEdit::ShowAllAvailableParts(b) => {
            editor.available_parts.show_all_available_parts = b;
        },
        EditorEdit::SearchAvailableParts(s) => {
            editor.available_parts.search_input = s;
        },
        EditorEdit::ShowAvailablePartsTab(t) => {
            editor.available_parts.search_input = String::new();
            editor.available_parts.parts_tab_type = t;
        },
        EditorEdit::SearchCurrentParts(s) => {
            editor.current_parts.search_input = s;
        },
        EditorEdit::ShowCurrentPartsTab(t) => {
            editor.current_parts.search_input = String::new();
            editor.current_parts.reorder_parts = false;
            editor.current_parts.parts_tab_type = t;
        },
        EditorEdit::ReorderCurrentParts(b) => {
            editor.current_parts.part_type_index = CurrentPartTypeIndex::default();
            editor.current_parts.reorder_parts = b;
        },
        EditorEdit::SelectAvailablePart(i) => {
            editor.available_parts.part_type_index = i;
        },
        EditorEdit::SelectCurrentPart(i) => {
            editor.current_parts.part_type_index = i;
        },
        EditorEdit::SearchBalance(s) => {
            editor.balance_search_input = s;
        },
        EditorEdit::SearchInvData(s) => {
            editor.inv_data_search_input = s;
        },
        EditorEdit::SearchManufacturer(s) => {
            editor.manufacturer_search_input = s;
        },
        EditorEdit::PartMoved(p) => {
            editor.current_parts.part_type_index.part_index = p;
        },
        EditorEdit::ClearCurrentPartsSearch => {
            editor.current_parts.search_input = String::new();
        },
    }
}

/// `new` is `old` with the entry at `index` replaced by `entry`.
pub open spec fn entry_replaced(
    old: ItemEditorState,
    index: int,
    entry: ItemEditorListItem,
    new: ItemEditorState,
) -> bool {
    &&& new.items@ == old.items@.update(index, entry)
    &&& new == ItemEditorState { items: new.items, ..old }
}

/// `new` is `old` with an entry for `item`, with a fresh editor panel,
/// appended to the list.
pub open spec fn item_appended(old: ItemEditorState, item: Bl3Item, new: ItemEditorState) -> bool {
    &&& new.items@.len() == old.items@.len() + 1
    &&& new.items@.drop_last() == old.items@
    &&& new.items@.last().item == item
    &&& crate::item::is_fresh_editor(new.items@.last().editor)
    &&& new == ItemEditorState { items: new.items, ..old }
}

/// `new` is `old` with an entry for `item`, with a fresh editor panel, put
/// at `index` when that names an entry; otherwise `new` is `old`.
pub open spec fn item_inserted(
    old: ItemEditorState,
    index: usize,
    item: Bl3Item,
    new: ItemEditorState,
) -> bool {
    &&& index < old.items@.len() ==> {
        &&& new.items@.len() == old.items@.len() + 1
        &&& new.items@.take(index as int) == old.items@.take(index as int)
        &&& new.items@.skip(index + 1) == old.items@.skip(index as int)
        &&& new.items@[index as int].item == item
        &&& crate::item::is_fresh_editor(new.items@[index as int].editor)
    }
    &&& index >= old.items@.len() ==> new.items@ == old.items@
    &&& new == ItemEditorState { items: new.items, ..old }
}

/// `new` is `old` with the entry at `remove_id` taken out, when that names
/// an entry; otherwise `new` is `old`.
pub open spec fn item_removed(old: ItemEditorState, remove_id: usize, new: ItemEditorState) -> bool {
    &&& remove_id < old.items@.len() ==> new.items@ == old.items@.remove(remove_id as int)
    &&& remove_id >= old.items@.len() ==> new.items@ == old.items@
    &&& new == ItemEditorState { items: new.items, ..old }
}

impl ItemEditorState {
    /// A page over the given catalogue, with no items, the first tab open,
    /// and the all-levels input at 1.
    pub fn new(lootlemon_items: ItemEditorLootlemonItems, limits: ItemLimits) -> (s: Self)
        ensures
            s.selected_item_index == 0,
            s.import_serial_input@ == Seq::<char>::empty(),
            s.all_item_levels_input == 1,
            s.items@ == Seq::<ItemEditorListItem>::empty(),
            s.lootlemon_items == lootlemon_items,
            s.search_items_input@ == Seq::<char>::empty(),
            s.search_lootlemon_items_input@ == Seq::<char>::empty(),
            s.item_list_tab_type == ItemListTabType::Items,
            !s.item_list_is_reverse_order,
            s.limits == limits,
    {
        ItemEditorState {
            selected_item_index: 0,
            import_serial_input: String::new(),
            all_item_levels_input: 1,
            items: Vec::new(),
            lootlemon_items,
            search_items_input: String::new(),
            search_lootlemon_items_input: String::new(),
            item_list_tab_type: ItemListTabType::default(),
            item_list_is_reverse_order: false,
            limits,
        }
    }

    /// The item list.
    pub fn items(&mut self) -> (r: &Vec<ItemEditorListItem>)
        ensures
            *r == old(self).items,
            *final(self) == *old(self),
    {
        &self.items
    }

    /// The item list, to change in place.
    pub fn items_mut(&mut self) -> (r: &mut Vec<ItemEditorListItem>)
        ensures
            *r == old(self).items,
            *final(self) == (ItemEditorState { items: *final(r), ..*old(self) }),
    {
        &mut self.items
    }

    /// Appends an entry for `item` to the list.
    pub fn add_item(&mut self, item: Bl3Item)
        requires
            old(self).items@.len() < usize::MAX,
        ensures
            item_appended(*old(self), item, *final(self)),
    {
        let entry = ItemEditorListItem::new(item);
        self.items.push(entry);
        proof {
            assert(self.items@.drop_last() =~= old(self).items@);
        }
    }

    /// Puts an entry for `item` at `index`, moving the entries from there on
    /// one place down; an `index` past the last entry changes nothing.
    pub fn insert_item(&mut self, index: usize, item: Bl3Item)
        ensures
            item_inserted(*old(self), index, item, *final(self)),
    {
        if index < self.items.len() {
            let entry = ItemEditorListItem::new(item);
            self.items.insert(index, entry);
            proof {
                assert(self.items@.take(index as int) =~= old(self).items@.take(index as int));
                assert(self.items@.skip(index + 1) =~= old(self).items@.skip(index as int));
            }
        }
    }

    /// Takes the entry at `remove_id` out of the list; a `remove_id` past the
    /// last entry changes nothing.
    pub fn remove_item(&mut self, remove_id: usize)
        ensures
            item_removed(*old(self), remove_id, *final(self)),
    {
        if remove_id < self.items.len() {
            self.items.remove(remove_id);
        }
    }

    /// Puts the list in the opposite order.
    pub fn reverse_items(&mut self)
        ensures
            final(self).items@ == old(self).items@.reverse(),
            *final(self) == (ItemEditorState { items: final(self).items, ..*old(self) }),
    {
        let mut taken: Vec<ItemEditorListItem> = Vec::new();
        let ghost all = self.items@;
        while self.items.len() > 0
            invariant
                all.reverse().take(taken@.len() as int) == taken@,
                self.items@ == all.take(self.items@.len() as int),
                taken@.len() + self.items@.len() == all.len(),
                *self == (ItemEditorState { items: self.items, ..*old(self) }),
                all == old(self).items@,
            decreases self.items@.len(),
        {
            let ghost k = self.items@.len();
            let e = self.items.pop().unwrap();
            proof {
                assert(all.take(k - 1) =~= all.take(k as int).drop_last());
            }
            taken.push(e);
            proof {
                assert(all.reverse().take(taken@.len() as int) =~= taken@);
            }
        }
        proof {
            assert(all.reverse().take(all.len() as int) =~= all.reverse());
        }
        self.items = taken;
    }

    /// Replaces the item of the entry at `index`, keeping its editor panel.
    pub fn set_item(&mut self, index: usize, item: Bl3Item)
        requires
            index < old(self).items@.len(),
        ensures
            entry_replaced(
                *old(self),
                index as int,
                ItemEditorListItem { item, editor: old(self).items@[index as int].editor },
                *final(self),
            ),
    {
        let mut taken = self.items.remove(index);
        taken.item = item;
        self.items.insert(index, taken);
        proof {
            assert(self.items@ =~= old(self).items@.update(
                index as int,
                ItemEditorListItem { item, editor: old(self).items@[index as int].editor },
            ));
        }
    }

    /// Makes `edit` to the editor panel of the entry at `index`.
    pub fn edit_item(&mut self, index: usize, edit: EditorEdit)
        requires
            index < old(self).items@.len(),
        ensures
            final(self).items@.len() == old(self).items@.len(),
            final(self).items@[index as int].item == old(self).items@[index as int].item,
            edit_applied(
                old(self).items@[index as int].editor,
                edit,
                final(self).items@[index as int].editor,
            ),
            entry_replaced(*old(self), index as int, final(self).items@[index as int], *final(self)),
    {
        let mut taken = self.items.remove(index);
        apply_edit(&mut taken.editor, edit);
        self.items.insert(index, taken);
        proof {
            assert(self.items@ =~= old(self).items@.update(index as int, self.items@[index as int]));
        }
    }
}

/// Changes to the selected entry of the list.
pub trait ItemEditorStateExt {
    /// Makes `edit` to the selected entry's editor panel. On success the
    /// entry's position comes back: the entry is then to be mapped to the
    /// editor again.
    fn map_current_item_if_exists(&mut self, edit: EditorEdit) -> Result<usize, ItemEditorError>;

    /// Records what the save editor's core gave back for an operation on the
    /// selected entry's item: the changed item, or the core's error.
    fn map_current_item_if_exists_result(&mut self, outcome: Result<Bl3Item, String>) -> Result<
        usize,
        ItemEditorError,
    >;

    /// The position of the selected entry, to map to the editor again.
    fn map_current_item_if_exists_to_editor_state(&mut self) -> Result<usize, ItemEditorError>;
}

impl ItemEditorStateExt for ItemEditorState {
    fn map_current_item_if_exists(&mut self, edit: EditorEdit) -> (r: Result<usize, ItemEditorError>)
        ensures
            old(self).selected_item_index < old(self).items@.len() ==> {
                let i = old(self).selected_item_index as int;
                &&& r == Ok::<usize, ItemEditorError>(old(self).selected_item_index)
                &&& final(self).items@[i].item == old(self).items@[i].item
                &&& edit_applied(old(self).items@[i].editor, edit, final(self).items@[i].editor)
                &&& entry_replaced(*old(self), i, final(self).items@[i], *final(self))
            },
            old(self).selected_item_index >= old(self).items@.len() ==> {
                &&& r == Err::<usize, ItemEditorError>(
                    ItemEditorError::NoItemAtIndex(old(self).selected_item_index),
                )
                &&& *final(self) == *old(self)
            },
    {
        let i = self.selected_item_index;
        if i < self.items.len() {
            self.edit_item(i, edit);
            Ok(i)
        } else {
            Err(ItemEditorError::NoItemAtIndex(i))
        }
    }

    fn map_current_item_if_exists_result(&mut self, outcome: Result<Bl3Item, String>) -> (r: Result<
        usize,
        ItemEditorError,
    >)
        ensures
            old(self).selected_item_index >= old(self).items@.len() ==> {
                &&& r == Err::<usize, ItemEditorError>(
                    ItemEditorError::NoItemAtIndex(old(self).selected_item_index),
                )
                &&& *final(self) == *old(self)
            },
            old(self).selected_item_index < old(self).items@.len() ==> match outcome {
                Err(e) => {
                    &&& r == Err::<usize, ItemEditorError>(ItemEditorError::Core(e))
                    &&& *final(self) == *old(self)
                },
                Ok(item) => {
                    let i = old(self).selected_item_index as int;
                    &&& r == Ok::<usize, ItemEditorError>(old(self).selected_item_index)
                    &&& entry_replaced(
                        *old(self),
                        i,
                        ItemEditorListItem { item, editor: old(self).items@[i].editor },
                        *final(self),
                    )
                },
            },
    {
        let i = self.selected_item_index;
        if i < self.items.len() {
            match outcome {
                Err(e) => Err(ItemEditorError::Core(e)),
                Ok(item) => {
                    self.set_item(i, item);
                    Ok(i)
                },
            }
        } else {
            Err(ItemEditorError::NoItemAtIndex(i))
        }
    }

    fn map_current_item_if_exists_to_editor_state(&mut self) -> (r: Result<usize, ItemEditorError>)
        ensures
            *final(self) == *old(self),
            old(self).selected_item_index < old(self).items@.len() ==> r == Ok::<
                usize,
                ItemEditorError,
            >(old(self).selected_item_index),
            old(self).selected_item_index >= old(self).items@.len() ==> r == Err::<
                usize,
                ItemEditorError,
            >(ItemEditorError::NoItemAtIndex(old(self).selected_item_index)),
    {
        let i = self.selected_item_index;
        if i < self.items.len() {
            Ok(i)
        } else {
            Err(ItemEditorError::NoItemAtIndex(i))
        }
    }
}

} // verus!
