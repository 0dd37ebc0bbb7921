//! What the item editor page shows, worked out from its state; the widgets
//! are built from it.
use vstd::prelude::*;

use crate::filter::{filtered, get_filtered_items, list_items, lootlemon_list_items};
use crate::item::Bl3Item;
use crate::state::ItemEditorState;
use crate::tab_type::ItemListTabType;
use crate::text::{decimal, usize_to_string};

verus! {

/// What the item list shows below its tab bar (and below the search row,
/// where that is shown).
#[derive(Debug, Clone, Copy, PartialEq, Eq, Structural)]
pub enum ItemListBody {
    /// The entries the search finds.
    Entries,
    /// The notice that the search found nothing.
    NoSearchResults,
    /// The invitation to import or create a first item.
    GetStarted,
}

/// The arrow on the button that reverses the item list.
#[derive(Debug, Clone, Copy, PartialEq, Eq, Structural)]
pub enum ReverseOrderIcon {
    Up,
    Down,
}

/// What the item editor page shows.
#[derive(Debug)]
pub struct ItemEditorViewModel {
    /// The count shown on the items tab, as "(N)".
    pub items_tab_count_label: String,
    /// The placeholder of the search input, as "Search N items...".
    pub search_placeholder: String,
    /// Whether the search row is shown: not on the items tab while the file
    /// has no items.
    pub show_search_row: bool,
    pub show_reverse_order_button: bool,
    pub reverse_order_icon: ReverseOrderIcon,
    /// The positions, in the open tab's list, of the entries shown, in order.
    pub visible_entries: Vec<usize>,
    pub body: ItemListBody,
    /// The listed entry of the items tab drawn as the active one: the entry
    /// at the selected position, when the items tab is open and lists it.
    pub active_entry: Option<usize>,
    /// The entry whose editor panel is shown beside the list.
    pub editor_index: Option<usize>,
}

/// The items of the open tab's list.
pub open spec fn shown_list(s: ItemEditorState) -> Seq<Bl3Item> {
    if s.item_list_tab_type == ItemListTabType::Items {
        list_items(s.items@)
    } else {
        lootlemon_list_items(s.lootlemon_items.items@)
    }
}

/// The search text of the open tab.
pub open spec fn shown_query(s: ItemEditorState) -> Seq<char> {
    if s.item_list_tab_type == ItemListTabType::Items {
        s.search_items_input@
    } else {
        s.search_lootlemon_items_input@
    }
}

/// The positions of the entries the open tab's search finds.
pub open spec fn shown_positions(s: ItemEditorState) -> Seq<usize> {
    filtered(shown_list(s), shown_query(s)).map_values(|p: (usize, Bl3Item)| p.0)
}

/// The page `s` shows what `v` says.
pub open spec fn shows(s: ItemEditorState, v: ItemEditorViewModel) -> bool {
    &&& v.items_tab_count_label@ == "("@ + decimal(s.items@.len()) + ")"@
    &&& v.search_placeholder@ == "Search "@ + decimal(shown_list(s).len()) + " items..."@
    &&& v.show_search_row == !(s.item_list_tab_type == ItemListTabType::Items
        && s.items@.len() == 0)
    &&& v.active_entry == if s.item_list_tab_type == ItemListTabType::Items
        && shown_positions(s).contains(s.selected_item_index) {
        Some(s.selected_item_index)
    } else {
        None::<usize>
    }
    &&& v.show_reverse_order_button == (s.item_list_tab_type == ItemListTabType::Items
        && s.items@.len() > 0)
    &&& v.reverse_order_icon == if s.item_list_is_reverse_order {
        ReverseOrderIcon::Up
    } else {
        ReverseOrderIcon::Down
    }
    &&& v.visible_entries@ == shown_positions(s)
    &&& v.body == if s.item_list_tab_type == ItemListTabType::Items && s.items@.len() == 0 {
        ItemListBody::GetStarted
    } else if shown_positions(s).len() == 0 {
        ItemListBody::NoSearchResults
    } else {
        ItemListBody::Entries
    }
    &&& v.editor_index == if s.selected_item_index < s.items@.len() {
        Some(s.selected_item_index)
    } else {
        None::<usize>
    }
}

fn lists(positions: &Vec<usize>, index: usize) -> (r: bool)
    ensures
        r == positions@.contains(index),
{
    for k in 0..positions.len()
        invariant
            forall|j: int| 0 <= j < k ==> positions@[j] != index,
    {
        if positions[k] == index {
            return true;
        }
    }
    false
}

fn positions(found: &Vec<(usize, Bl3Item)>) -> (r: Vec<usize>)
    ensures
        r@ == found@.map_values(|p: (usize, Bl3Item)| p.0),
{
    let mut r: Vec<usize> = Vec::new();
    for k in 0..found.len()
        invariant
            r@ == found@.take(k as int).map_values(|p: (usize, Bl3Item)| p.0),
    {
        proof {
            assert(found@.take(k + 1).map_values(|p: (usize, Bl3Item)| p.0) =~= found@.take(
                k as int,
            ).map_values(|p: (usize, Bl3Item)| p.0).push(found@[k as int].0));
        }
        r.push(found[k].0);
    }
    proof {
        assert(found@.take(found@.len() as int) =~= found@);
    }
    r
}

/// What the page shows.
pub fn view_model(state: &ItemEditorState) -> (v: ItemEditorViewModel)
    ensures
        shows(*state, v),
{
    let number_of_items = state.items.len();
    let number_of_lootlemon_items = state.lootlemon_items.items.len();
    let on_items = match state.item_list_tab_type {
        ItemListTabType::Items => true,
        ItemListTabType::Lootlemon => false,
    };
    let query = if on_items {
        state.search_items_input.as_str()
    } else {
        state.search_lootlemon_items_input.as_str()
    };
    let found = get_filtered_items(
        query,
        &state.item_list_tab_type,
        state.items.as_slice(),
        state.lootlemon_items.items.as_slice(),
    );
    let visible_entries = positions(&found);
    let shown_count = if on_items {
        number_of_items
    } else {
        number_of_lootlemon_items
    };
    let body = if on_items && number_of_items == 0 {
        ItemListBody::GetStarted
    } else if visible_entries.len() == 0 {
        ItemListBody::NoSearchResults
    } else {
        ItemListBody::Entries
    };
    proof {
        assert(list_items(state.items@).len() == number_of_items);
        assert(lootlemon_list_items(state.lootlemon_items.items@).len()
            == number_of_lootlemon_items);
    }
    let active_entry = if on_items && lists(&visible_entries, state.selected_item_index) {
        Some(state.selected_item_index)
    } else {
        None
    };
    ItemEditorViewModel {
        items_tab_count_label: String::from_str("(").concat(
            usize_to_string(number_of_items).as_str(),
        ).concat(")"),
        search_placeholder: String::from_str("Search ").concat(
            usize_to_string(shown_count).as_str(),
        ).concat(" items..."),
        show_search_row: !(on_items && number_of_items == 0),
        show_reverse_order_button: on_items && number_of_items > 0,
        reverse_order_icon: if state.item_list_is_reverse_order {
            ReverseOrderIcon::Up
        } else {
            ReverseOrderIcon::Down
        },
        visible_entries,
        body,
        active_entry,
        editor_index: if state.selected_item_index < number_of_items {
            Some(state.selected_item_index)
        } else {
            None
        },
    }
}

} // verus!
