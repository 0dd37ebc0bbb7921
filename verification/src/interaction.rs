//! The messages of the item editor page and how each changes the page.
use vstd::prelude::*;

use crate::item::{
    AvailablePartType, AvailablePartTypeIndex, CurrentPartType, CurrentPartTypeIndex,
};
use crate::response::{
    is_quiet, only_effects, only_error, only_notification, only_request, CoreRequest, ErrorContext,
    ItemEditorCommand, ItemEditorInteractionResponse, ItemField, PartMove, ScrollEdge,
    SerialOrigin, UiEffect,
};
use crate::state::{EditorEdit, ItemEditorError, ItemEditorState};
use crate::steps::{
    add_new_item, edit_selected, has_selected, item_added, new_item_edge, remap_selected,
    remapped, selected_edited,
};
use crate::tab_type::ItemListTabType;
use crate::text::{
    chars_of, decimal, lowercase_of, string_from_chars, to_lowercase, trim_chars, trimmed,
    usize_to_string,
};

verus! {

/// Something the user did on the item editor page, or a result it waits for.
#[derive(Debug)]
pub enum ItemEditorInteractionMessage {
    ItemPressed(usize),
    ItemsSearchInputChanged(String),
    ItemsLootLemonSearchInputChanged(String),
    ItemListReverseOrderPressed,
    ItemListItemTabPressed,
    ItemListLootlemonTabPressed,
    ItemListLootlemonImportPressed(usize),
    ItemListLootlemonOpenWebsitePressed(usize),
    /// The browser was asked to open a Lootlemon page; the error, if that failed.
    ItemListLootlemonOpenWebsiteCompleted(Result<(), String>),
    ShowAllAvailablePartsSelected(bool),
    AvailablePartsSearchInputChanged(String),
    AvailablePartsTabPressed,
    AvailableAnointmentsTabPressed,
    CurrentPartsSearchInputChanged(String),
    CurrentPartsTabPressed,
    CurrentAnointmentsTabPressed,
    ReorderCurrentPartsSelected(bool),
    ReorderCurrentPartsMoveUpPressed,
    ReorderCurrentPartsMoveDownPressed,
    ReorderCurrentPartsMoveTopPressed,
    ReorderCurrentPartsMoveBottomPressed,
    AvailablePartPressed(AvailablePartTypeIndex),
    AvailableAnointmentPressed(AvailablePartTypeIndex),
    /// A current part was pressed: with reordering on, it is selected;
    /// otherwise it is taken off the item.
    CurrentPartPressed(bool, CurrentPartTypeIndex),
    CurrentAnointmentPressed(CurrentPartTypeIndex),
    ImportSerialInputChanged(String),
    CreateItemPressed,
    ImportItemFromSerialPressed,
    AllItemLevel(i32),
    SetAllItemLevelsPressed,
    ItemLevel(i32),
    DeleteItem(usize),
    DuplicateItem(usize),
    /// A balance was chosen, by its identifier.
    BalanceInputSelected(String),
    BalanceSearchInputChanged(String),
    /// Inventory data was chosen, by its identifier.
    InvDataInputSelected(String),
    InvDataSearchInputChanged(String),
    ManufacturerSearchInputChanged(String),
    /// A manufacturer was chosen, by its identifier.
    ManufacturerInputSelected(String),
}

/// The longest search text (in UTF-8 bytes) the balance, inventory data and
/// manufacturer searches take.
pub const MAX_PART_SEARCH_LEN: usize = 500;

/// The serial of the item that "Create Item" adds.
pub open spec fn new_item_serial() -> Seq<char> {
    "BL3(BAAAAAD2aoA+P1vAEgA=)"@
}

/// The inventory key under which anointments are looked up.
pub open spec fn generic_part_inv_key() -> Seq<char> {
    "InventoryGenericPartData"@
}

/// The part named at `index` of a panel's part lists, if there is one.
pub open spec fn part_at(parts: Seq<Vec<String>>, category_index: usize, part_index: usize) -> Option<
    String,
> {
    if category_index < parts.len() && part_index < parts[category_index as int]@.len() {
        Some(parts[category_index as int]@[part_index as int])
    } else {
        None
    }
}

fn get_part(parts: &Vec<Vec<String>>, category_index: usize, part_index: usize) -> (r: Option<
    String,
>)
    ensures
        r == part_at(parts@, category_index, part_index),
{
    if category_index < parts.len() && part_index < parts[category_index].len() {
        Some(parts[category_index][part_index].clone())
    } else {
        None
    }
}

/// The search inputs of the item lists are stored lowercased.
fn set_search_items_input(state: &mut ItemEditorState, query: String) -> (r:
    ItemEditorInteractionResponse)
    ensures
        final(state).search_items_input@ == lowercase_of(query@),
        *final(state) == (ItemEditorState {
            search_items_input: final(state).search_items_input,
            ..*old(state)
        }),
        is_quiet(r),
{
    state.search_items_input = to_lowercase(query.as_str());
    ItemEditorInteractionResponse::quiet()
}

fn set_search_lootlemon_items_input(state: &mut ItemEditorState, query: String) -> (r:
    ItemEditorInteractionResponse)
    ensures
        final(state).search_lootlemon_items_input@ == lowercase_of(query@),
        *final(state) == (ItemEditorState {
            search_lootlemon_items_input: final(state).search_lootlemon_items_input,
            ..*old(state)
        }),
        is_quiet(r),
{
    state.search_lootlemon_items_input = to_lowercase(query.as_str());
    ItemEditorInteractionResponse::quiet()
}

/// What reversing the list gives: the list in the opposite order with the
/// same entry selected, the order flag flipped, and the entry mapped again.
pub open spec fn reversed(
    old: ItemEditorState,
    new: ItemEditorState,
    r: ItemEditorInteractionResponse,
) -> bool {
    &&& new.items@ == old.items@.reverse()
    &&& new == ItemEditorState {
        items: new.items,
        item_list_is_reverse_order: !old.item_list_is_reverse_order,
        selected_item_index: (old.items@.len() - old.selected_item_index - 1) as usize,
        ..old
    }
    &&& remapped(new, Seq::empty(), Seq::empty(), ErrorContext::MapAfterReverse, r)
}

fn reverse_order(state: &mut ItemEditorState) -> (r: ItemEditorInteractionResponse)
    requires
        has_selected(*old(state)),
    ensures
        reversed(*old(state), *final(state), r),
        final(state).items@[final(state).selected_item_index as int] == old(
            state,
        ).items@[old(state).selected_item_index as int],
{
    state.item_list_is_reverse_order = !state.item_list_is_reverse_order;
    state.reverse_items();
    state.selected_item_index = state.items.len() - state.selected_item_index - 1;
    remap_selected(state, Vec::new(), Vec::new(), ErrorContext::MapAfterReverse)
}

/// The text of the notification for a missing Lootlemon entry.
pub open spec fn lootlemon_missing_text(prefix: Seq<char>, id: usize) -> Seq<char> {
    prefix + "couldn't find an item with index "@ + decimal(id as nat) + "."@
}

fn lootlemon_missing(prefix: &str, id: usize) -> (r: ItemEditorInteractionResponse)
    ensures
        only_notification(r, lootlemon_missing_text(prefix@, id)),
{
    ItemEditorInteractionResponse::negative(
        String::from_str(prefix).concat("couldn't find an item with index ").concat(
            usize_to_string(id).as_str(),
        ).concat("."),
    )
}

/// What importing the Lootlemon entry `id` gives: its item added and
/// selected, the list scrolled to it, the entry mapped, and the catalogue's
/// search focused; a missing entry is only reported.
pub open spec fn lootlemon_imported(
    id: usize,
    old: ItemEditorState,
    new: ItemEditorState,
    r: ItemEditorInteractionResponse,
) -> bool {
    if id < old.lootlemon_items.items@.len() {
        &&& item_added(old, new, old.lootlemon_items.items@[id as int].item)
        &&& remapped(
            new,
            seq![UiEffect::SnapItemList(new_item_edge(old))],
            seq![UiEffect::FocusLootlemonSearch],
            ErrorContext::MapLootlemonItem,
            r,
        )
    } else {
        &&& new == old
        &&& only_notification(
            r,
            lootlemon_missing_text("Failed to import item from Lootlemon: "@, id),
        )
    }
}

fn import_lootlemon_item(state: &mut ItemEditorState, id: usize) -> (r:
    ItemEditorInteractionResponse)
    requires
        old(state).items@.len() < usize::MAX,
    ensures
        lootlemon_imported(id, *old(state), *final(state), r),
{
    if id < state.lootlemon_items.items.len() {
        let item = state.lootlemon_items.items[id].item.duplicate();
        let edge = add_new_item(state, item);
        let mut before = Vec::new();
        before.push(UiEffect::SnapItemList(edge));
        let mut after = Vec::new();
        after.push(UiEffect::FocusLootlemonSearch);
        proof {
            assert(before@ =~= seq![UiEffect::SnapItemList(edge)]);
            assert(after@ =~= seq![UiEffect::FocusLootlemonSearch]);
        }
        remap_selected(state, before, after, ErrorContext::MapLootlemonItem)
    } else {
        lootlemon_missing("Failed to import item from Lootlemon: ", id)
    }
}

/// What asking for the Lootlemon page of entry `id` gives.
pub open spec fn website_opened(
    id: usize,
    s: ItemEditorState,
    r: ItemEditorInteractionResponse,
) -> bool {
    if id < s.lootlemon_items.items@.len() {
        &&& r.notification is None
        &&& r.error is None
        &&& r.command matches Some(ItemEditorCommand::OpenWebsite(link)) && link@
            == s.lootlemon_items.items@[id as int].link@
        &&& r.effects@ == Seq::<UiEffect>::empty()
        &&& r.request is None
    } else {
        only_notification(r, lootlemon_missing_text("Failed to open Lootlemon Website: "@, id))
    }
}

fn open_lootlemon_website(state: &ItemEditorState, id: usize) -> (r: ItemEditorInteractionResponse)
    ensures
        website_opened(id, *state, r),
{
    if id < state.lootlemon_items.items.len() {
        let mut r = ItemEditorInteractionResponse::quiet();
        r.command = Some(
            ItemEditorCommand::OpenWebsite(state.lootlemon_items.items[id].link.clone()),
        );
        r
    } else {
        lootlemon_missing("Failed to open Lootlemon Website: ", id)
    }
}

/// The notification for a Lootlemon page that did not open.
pub open spec fn website_failed(res: Result<(), String>, r: ItemEditorInteractionResponse) -> bool {
    match res {
        Ok(_) => is_quiet(r),
        Err(e) => only_notification(r, "Failed to open Lootlemon Website: "@ + e@ + "."@),
    }
}

fn lootlemon_website_completed(res: Result<(), String>) -> (r: ItemEditorInteractionResponse)
    ensures
        website_failed(res, r),
{
    match res {
        Ok(_) => ItemEditorInteractionResponse::quiet(),
        Err(e) => ItemEditorInteractionResponse::negative(
            String::from_str("Failed to open Lootlemon Website: ").concat(e.as_str()).concat("."),
        ),
    }
}

/// The lowercased search text that a panel search stores.
pub open spec fn lowered(query: String, stored: String) -> bool {
    stored@ == lowercase_of(query@)
}

/// What a change of the available-parts search gives.
pub open spec fn available_search_set(
    query: String,
    old: ItemEditorState,
    new: ItemEditorState,
    r: ItemEditorInteractionResponse,
) -> bool {
    let stored = new.items@[old.selected_item_index as int].editor.available_parts.search_input;
    &&& selected_edited(
        old,
        new,
        EditorEdit::SearchAvailableParts(stored),
        Seq::empty(),
        ErrorContext::FilterAvailableParts,
        r,
    )
    &&& has_selected(old) ==> lowered(query, stored)
}

fn search_available_parts(state: &mut ItemEditorState, query: String) -> (r:
    ItemEditorInteractionResponse)
    ensures
        available_search_set(query, *old(state), *final(state), r),
{
    let stored = to_lowercase(query.as_str());
    edit_selected(
        state,
        EditorEdit::SearchAvailableParts(stored),
        Vec::new(),
        ErrorContext::FilterAvailableParts,
    )
}

/// What a change of the current-parts search gives.
pub open spec fn current_search_set(
    query: String,
    old: ItemEditorState,
    new: ItemEditorState,
    r: ItemEditorInteractionResponse,
) -> bool {
    let stored = new.items@[old.selected_item_index as int].editor.current_parts.search_input;
    &&& selected_edited(
        old,
        new,
        EditorEdit::SearchCurrentParts(stored),
        Seq::empty(),
        ErrorContext::FilterCurrentParts,
        r,
    )
    &&& has_selected(old) ==> lowered(query, stored)
}

fn search_current_parts(state: &mut ItemEditorState, query: String) -> (r:
    ItemEditorInteractionResponse)
    ensures
        current_search_set(query, *old(state), *final(state), r),
{
    let stored = to_lowercase(query.as_str());
    edit_selected(
        state,
        EditorEdit::SearchCurrentParts(stored),
        Vec::new(),
        ErrorContext::FilterCurrentParts,
    )
}

/// The effects of opening a tab of the available-parts panel of entry `i`.
pub open spec fn available_tab_effects(i: usize) -> Seq<UiEffect> {
    seq![UiEffect::SnapAvailableParts(i, ScrollEdge::Top), UiEffect::FocusAvailablePartsSearch(i)]
}

fn show_available_tab(state: &mut ItemEditorState, tab: AvailablePartType) -> (r:
    ItemEditorInteractionResponse)
    ensures
        selected_edited(
            *old(state),
            *final(state),
            EditorEdit::ShowAvailablePartsTab(tab),
            available_tab_effects(old(state).selected_item_index),
            if tab == AvailablePartType::Parts {
                ErrorContext::ShowAvailableParts
            } else {
                ErrorContext::ShowAvailableAnointments
            },
            r,
        ),
{
    let i = state.selected_item_index;
    let mut effects = Vec::new();
    effects.push(UiEffect::SnapAvailableParts(i, ScrollEdge::Top));
    effects.push(UiEffect::FocusAvailablePartsSearch(i));
    proof {
        assert(effects@ =~= available_tab_effects(i));
    }
    let context = match tab {
        AvailablePartType::Parts => ErrorContext::ShowAvailableParts,
        AvailablePartType::Anointments => ErrorContext::ShowAvailableAnointments,
    };
    edit_selected(state, EditorEdit::ShowAvailablePartsTab(tab), effects, context)
}

/// The effects of opening a tab of the current-parts panel of entry `i`.
pub open spec fn current_tab_effects(i: usize) -> Seq<UiEffect> {
    seq![UiEffect::SnapCurrentParts(i, ScrollEdge::Top), UiEffect::FocusCurrentPartsSearch(i)]
}

fn show_current_tab(state: &mut ItemEditorState, tab: CurrentPartType) -> (r:
    ItemEditorInteractionResponse)
    ensures
        selected_edited(
            *old(state),
            *final(state),
            EditorEdit::ShowCurrentPartsTab(tab),
            current_tab_effects(old(state).selected_item_index),
            if tab == CurrentPartType::Parts {
                ErrorContext::ViewCurrentParts
            } else {
                ErrorContext::ViewCurrentAnointments
            },
            r,
        ),
{
    let i = state.selected_item_index;
    let mut effects = Vec::new();
    effects.push(UiEffect::SnapCurrentParts(i, ScrollEdge::Top));
    effects.push(UiEffect::FocusCurrentPartsSearch(i));
    proof {
        assert(effects@ =~= current_tab_effects(i));
    }
    let context = match tab {
        CurrentPartType::Parts => ErrorContext::ViewCurrentParts,
        CurrentPartType::Anointments => ErrorContext::ViewCurrentAnointments,
    };
    edit_selected(state, EditorEdit::ShowCurrentPartsTab(tab), effects, context)
}

/// The effects of turning reordering on or off for entry `i`: the panel
/// scrolls to its top when reordering starts.
pub open spec fn reorder_effects(i: usize, on: bool) -> Seq<UiEffect> {
    if on {
        seq![UiEffect::SnapCurrentParts(i, ScrollEdge::Top)]
    } else {
        Seq::empty()
    }
}

fn reorder_current_parts(state: &mut ItemEditorState, on: bool) -> (r:
    ItemEditorInteractionResponse)
    ensures
        selected_edited(
            *old(state),
            *final(state),
            EditorEdit::ReorderCurrentParts(on),
            reorder_effects(old(state).selected_item_index, on),
            ErrorContext::ReorderCurrentParts,
            r,
        ),
{
    let mut effects = Vec::new();
    if on {
        effects.push(UiEffect::SnapCurrentParts(state.selected_item_index, ScrollEdge::Top));
    }
    proof {
        assert(effects@ =~= reorder_effects(old(state).selected_item_index, on));
    }
    edit_selected(state, EditorEdit::ReorderCurrentParts(on), effects, ErrorContext::ReorderCurrentParts)
}

/// The context in which a failed move is reported.
pub open spec fn move_context(direction: PartMove) -> ErrorContext {
    match direction {
        PartMove::Up => ErrorContext::MovePartUp,
        PartMove::Down => ErrorContext::MovePartDown,
        PartMove::Top => ErrorContext::MovePartTop,
        PartMove::Bottom => ErrorContext::MovePartBottom,
    }
}

pub fn move_context_of(direction: PartMove) -> (c: ErrorContext)
    ensures
        c == move_context(direction),
{
    match direction {
        PartMove::Up => ErrorContext::MovePartUp,
        PartMove::Down => ErrorContext::MovePartDown,
        PartMove::Top => ErrorContext::MovePartTop,
        PartMove::Bottom => ErrorContext::MovePartBottom,
    }
}

/// What asking to move the selected current part gives: a request to the
/// core naming the part's place, or, with no entry selected, the error.
pub open spec fn move_requested(
    direction: PartMove,
    s: ItemEditorState,
    r: ItemEditorInteractionResponse,
) -> bool {
    if has_selected(s) {
        only_request(
            r,
            CoreRequest::MovePart {
                item_index: s.selected_item_index,
                direction,
                part_index: s.items@[s.selected_item_index as int].editor.current_parts.part_type_index.part_index,
            },
        )
    } else {
        only_error(r, move_context(direction), ItemEditorError::NoItemAtIndex(s.selected_item_index))
    }
}

fn request_move(state: &ItemEditorState, direction: PartMove) -> (r: ItemEditorInteractionResponse)
    ensures
        move_requested(direction, *state, r),
{
    let i = state.selected_item_index;
    if i < state.items.len() {
        ItemEditorInteractionResponse::request(
            CoreRequest::MovePart {
                item_index: i,
                direction,
                part_index: state.items[i].editor.current_parts.part_type_index.part_index,
            },
        )
    } else {
        ItemEditorInteractionResponse::error(
            move_context_of(direction),
            ItemEditorError::NoItemAtIndex(i),
        )
    }
}

/// What pressing an available part (or anointment) gives: when an entry is
/// selected whose item has a parts section with room for one more, and the
/// pressed place names a part, a request to add it; otherwise nothing.
pub open spec fn add_requested(
    index: AvailablePartTypeIndex,
    anointment: bool,
    s: ItemEditorState,
    r: ItemEditorInteractionResponse,
) -> bool {
    let i = s.selected_item_index as int;
    if has_selected(s) && s.items@[i].item.item_parts is Some && (if anointment {
        s.items@[i].item.item_parts->0.generic_part_count < s.limits.max_item_anointments
    } else {
        s.items@[i].item.item_parts->0.part_count < s.limits.max_item_parts
    }) && part_at(
        s.items@[i].editor.available_parts.parts@,
        index.category_index,
        index.part_index,
    ) is Some {
        &&& r.notification is None
        &&& r.error is None
        &&& r.command is None
        &&& r.effects@ == Seq::<UiEffect>::empty()
        &&& r.request matches Some(
            CoreRequest::AddPart { item_index, part_inv_key, part_name, select, anointment: a },
        )
        &&& item_index == s.selected_item_index
        &&& part_inv_key@ == (if anointment {
            generic_part_inv_key()
        } else {
            s.items@[i].item.item_parts->0.part_inv_key@
        })
        &&& part_name == part_at(
            s.items@[i].editor.available_parts.parts@,
            index.category_index,
            index.part_index,
        )->0
        &&& select == index
        &&& a == anointment
    } else {
        is_quiet(r)
    }
}

fn request_add_part(state: &ItemEditorState, index: AvailablePartTypeIndex, anointment: bool) -> (r:
    ItemEditorInteractionResponse)
    ensures
        add_requested(index, anointment, *state, r),
{
    let i = state.selected_item_index;
    if i < state.items.len() {
        let entry = &state.items[i];
        match &entry.item.item_parts {
            Some(ip) => {
                let room = if anointment {
                    ip.generic_part_count < state.limits.max_item_anointments
                } else {
                    ip.part_count < state.limits.max_item_parts
                };
                if room {
                    match get_part(
                        &entry.editor.available_parts.parts,
                        index.category_index,
                        index.part_index,
                    ) {
                        Some(part_name) => {
                            let part_inv_key = if anointment {
                                String::from_str("InventoryGenericPartData")
                            } else {
                                ip.part_inv_key.clone()
                            };
                            return ItemEditorInteractionResponse::request(
                                CoreRequest::AddPart {
                                    item_index: i,
                                    part_inv_key,
                                    part_name,
                                    select: index,
                                    anointment,
                                },
                            );
                        },
                        None => {},
                    }
                }
            },
            None => {},
        }
    }
    ItemEditorInteractionResponse::quiet()
}

/// What pressing a current part (or anointment) to take it off gives: a
/// request to remove it when an entry is selected and the place names a
/// part; otherwise nothing.
pub open spec fn remove_requested(
    index: CurrentPartTypeIndex,
    anointment: bool,
    s: ItemEditorState,
    r: ItemEditorInteractionResponse,
) -> bool {
    let i = s.selected_item_index as int;
    if has_selected(s) && part_at(
        s.items@[i].editor.current_parts.parts@,
        index.category_index,
        index.part_index,
    ) is Some {
        only_request(
            r,
            CoreRequest::RemovePart {
                item_index: s.selected_item_index,
                part_name: part_at(
                    s.items@[i].editor.current_parts.parts@,
                    index.category_index,
                    index.part_index,
                )->0,
                anointment,
            },
        )
    } else {
        is_quiet(r)
    }
}

fn request_remove_part(state: &ItemEditorState, index: CurrentPartTypeIndex, anointment: bool) -> (r:
    ItemEditorInteractionResponse)
    ensures
        remove_requested(index, anointment, *state, r),
{
    let i = state.selected_item_index;
    if i < state.items.len() {
        match get_part(
            &state.items[i].editor.current_parts.parts,
            index.category_index,
            index.part_index,
        ) {
            Some(part_name) => {
                return ItemEditorInteractionResponse::request(
                    CoreRequest::RemovePart { item_index: i, part_name, anointment },
                );
            },
            None => {},
        }
    }
    ItemEditorInteractionResponse::quiet()
}

/// What a change to the selected item made by the core (level, balance, ...)
/// asks for: the request, or, with no entry selected, the error.
pub open spec fn selected_change_requested(
    s: ItemEditorState,
    req: CoreRequest,
    context: ErrorContext,
    r: ItemEditorInteractionResponse,
) -> bool {
    if has_selected(s) {
        only_request(r, req)
    } else {
        only_error(r, context, ItemEditorError::NoItemAtIndex(s.selected_item_index))
    }
}

/// The context in which a failed change of a chosen part is reported.
pub open spec fn field_context(field: ItemField) -> ErrorContext {
    match field {
        ItemField::Balance => ErrorContext::SetBalance,
        ItemField::InvData => ErrorContext::SetInvData,
        ItemField::Manufacturer => ErrorContext::SetManufacturer,
    }
}

pub fn field_context_of(field: ItemField) -> (c: ErrorContext)
    ensures
        c == field_context(field),
{
    match field {
        ItemField::Balance => ErrorContext::SetBalance,
        ItemField::InvData => ErrorContext::SetInvData,
        ItemField::Manufacturer => ErrorContext::SetManufacturer,
    }
}

fn request_set_field(state: &ItemEditorState, field: ItemField, value: String) -> (r:
    ItemEditorInteractionResponse)
    ensures
        selected_change_requested(
            *state,
            CoreRequest::SetField { item_index: state.selected_item_index, field, value },
            field_context(field),
            r,
        ),
{
    let i = state.selected_item_index;
    if i < state.items.len() {
        ItemEditorInteractionResponse::request(CoreRequest::SetField { item_index: i, field, value })
    } else {
        ItemEditorInteractionResponse::error(field_context_of(field), ItemEditorError::NoItemAtIndex(i))
    }
}

fn request_set_level(state: &ItemEditorState, level: i32) -> (r: ItemEditorInteractionResponse)
    ensures
        selected_change_requested(
            *state,
            CoreRequest::SetLevel { item_index: state.selected_item_index, level: level as usize },
            ErrorContext::SetItemLevel,
            r,
        ),
{
    let i = state.selected_item_index;
    if i < state.items.len() {
        ItemEditorInteractionResponse::request(
            CoreRequest::SetLevel { item_index: i, level: level as usize },
        )
    } else {
        ItemEditorInteractionResponse::error(ErrorContext::SetItemLevel, ItemEditorError::NoItemAtIndex(i))
    }
}

/// What "Set" for all levels gives: a request to set the level of the
/// first item (the rest follow one by one), or, with no items, the error of
/// mapping the selected entry.
pub open spec fn all_levels_requested(s: ItemEditorState, r: ItemEditorInteractionResponse) -> bool {
    if s.items@.len() > 0 {
        only_request(
            r,
            CoreRequest::SetAllLevels { item_index: 0, level: s.all_item_levels_input as usize },
        )
    } else {
        remapped(s, Seq::empty(), Seq::empty(), ErrorContext::MapAfterAllLevels, r)
    }
}

fn request_all_levels(state: &mut ItemEditorState) -> (r: ItemEditorInteractionResponse)
    ensures
        *final(state) == *old(state),
        all_levels_requested(*old(state), r),
{
    if state.items.len() > 0 {
        ItemEditorInteractionResponse::request(
            CoreRequest::SetAllLevels {
                item_index: 0,
                level: state.all_item_levels_input as usize,
            },
        )
    } else {
        remap_selected(state, Vec::new(), Vec::new(), ErrorContext::MapAfterAllLevels)
    }
}

/// What deleting the entry `id` gives: the entry taken out of the list
/// (when there is one) and out of the file, the selection moved one up
/// unless it is at the top, and the selected entry mapped again.
pub open spec fn deleted(
    id: usize,
    old: ItemEditorState,
    new: ItemEditorState,
    r: ItemEditorInteractionResponse,
) -> bool {
    &&& id < old.items@.len() ==> new.items@ == old.items@.remove(id as int)
    &&& id >= old.items@.len() ==> new.items@ == old.items@
    &&& new == ItemEditorState {
        items: new.items,
        selected_item_index: if old.selected_item_index != 0 {
            (old.selected_item_index - 1) as usize
        } else {
            0
        },
        ..old
    }
    &&& remapped(
        new,
        seq![UiEffect::RemoveItemFromFile(id)],
        Seq::empty(),
        ErrorContext::MapAfterDelete,
        r,
    )
}

fn delete_item(state: &mut ItemEditorState, id: usize) -> (r: ItemEditorInteractionResponse)
    ensures
        deleted(id, *old(state), *final(state), r),
{
    state.remove_item(id);
    if state.selected_item_index != 0 {
        state.selected_item_index = state.selected_item_index - 1;
    }
    let mut before = Vec::new();
    before.push(UiEffect::RemoveItemFromFile(id));
    proof {
        assert(before@ =~= seq![UiEffect::RemoveItemFromFile(id)]);
    }
    remap_selected(state, before, Vec::new(), ErrorContext::MapAfterDelete)
}

/// What adding a new item (created, imported or duplicated) gives: the item
/// added and selected, the list scrolled to it, its search focused, the
/// first tab open, and the new entry mapped.
pub open spec fn new_item_shown(
    item: crate::item::Bl3Item,
    context: ErrorContext,
    old: ItemEditorState,
    new: ItemEditorState,
    r: ItemEditorInteractionResponse,
) -> bool {
    exists|mid: ItemEditorState|
        {
            &&& item_added(old, mid, item)
            &&& new == ItemEditorState { item_list_tab_type: ItemListTabType::Items, ..mid }
            &&& remapped(
                new,
                seq![UiEffect::SnapItemList(new_item_edge(old)), UiEffect::FocusItemSearch],
                Seq::empty(),
                context,
                r,
            )
        }
}

/// Adds `item` and shows it, as creating, importing and duplicating do.
pub fn show_new_item(
    state: &mut ItemEditorState,
    item: crate::item::Bl3Item,
    context: ErrorContext,
) -> (r: ItemEditorInteractionResponse)
    requires
        old(state).items@.len() < usize::MAX,
    ensures
        new_item_shown(item, context, *old(state), *final(state), r),
{
    let edge = add_new_item(state, item);
    let ghost mid = *state;
    state.item_list_tab_type = ItemListTabType::Items;
    let mut before = Vec::new();
    before.push(UiEffect::SnapItemList(edge));
    before.push(UiEffect::FocusItemSearch);
    proof {
        assert(before@ =~= seq![UiEffect::SnapItemList(edge), UiEffect::FocusItemSearch]);
    }
    let r = remap_selected(state, before, Vec::new(), context);
    assert(item_added(*old(state), mid, item));
    r
}

/// What duplicating the entry `id` gives.
pub open spec fn duplicated(
    id: usize,
    old: ItemEditorState,
    new: ItemEditorState,
    r: ItemEditorInteractionResponse,
) -> bool {
    if id < old.items@.len() {
        new_item_shown(old.items@[id as int].item, ErrorContext::MapDuplicatedItem, old, new, r)
    } else {
        &&& new == old
        &&& only_notification(
            r,
            "Failed to duplicate item number "@ + decimal(id as nat)
                + ": could not find this item to duplicate."@,
        )
    }
}

fn duplicate_item(state: &mut ItemEditorState, id: usize) -> (r: ItemEditorInteractionResponse)
    requires
        old(state).items@.len() < usize::MAX,
    ensures
        duplicated(id, *old(state), *final(state), r),
{
    if id < state.items.len() {
        let item = state.items[id].item.duplicate();
        show_new_item(state, item, ErrorContext::MapDuplicatedItem)
    } else {
        ItemEditorInteractionResponse::negative(
            String::from_str("Failed to duplicate item number ").concat(
                usize_to_string(id).as_str(),
            ).concat(": could not find this item to duplicate."),
        )
    }
}

/// The length in bytes of a text's UTF-8 encoding, as `str::len` gives it.
pub open spec fn utf8_len(s: Seq<char>) -> usize {
    vstd::utf8::encode_utf8(s).len() as usize
}

/// The edit that stores a search text of the balance, inventory data or
/// manufacturer picker.
pub open spec fn search_edit(field: ItemField, text: String) -> EditorEdit {
    match field {
        ItemField::Balance => EditorEdit::SearchBalance(text),
        ItemField::InvData => EditorEdit::SearchInvData(text),
        ItemField::Manufacturer => EditorEdit::SearchManufacturer(text),
    }
}

/// The search text of a picker in an editor panel.
pub open spec fn stored_search(field: ItemField, e: crate::item::ItemEditor) -> String {
    match field {
        ItemField::Balance => e.balance_search_input,
        ItemField::InvData => e.inv_data_search_input,
        ItemField::Manufacturer => e.manufacturer_search_input,
    }
}

/// The context in which a failed picker search is reported.
pub open spec fn search_context(field: ItemField) -> ErrorContext {
    match field {
        ItemField::Balance => ErrorContext::SetBalanceSearch,
        ItemField::InvData => ErrorContext::SetInvDataSearch,
        ItemField::Manufacturer => ErrorContext::SetManufacturerSearch,
    }
}

/// What a change of the balance, inventory data or manufacturer search
/// gives: texts longer than the limit are ignored; others are stored
/// lowercased in the selected entry's panel.
pub open spec fn part_search_set(
    field: ItemField,
    query: String,
    old: ItemEditorState,
    new: ItemEditorState,
    r: ItemEditorInteractionResponse,
) -> bool {
    if utf8_len(query@) <= MAX_PART_SEARCH_LEN {
        let text = stored_search(field, new.items@[old.selected_item_index as int].editor);
        &&& selected_edited(old, new, search_edit(field, text), Seq::empty(), search_context(field), r)
        &&& has_selected(old) ==> lowered(query, text)
    } else {
        &&& new == old
        &&& is_quiet(r)
    }
}

fn search_part(state: &mut ItemEditorState, field: ItemField, query: String) -> (r:
    ItemEditorInteractionResponse)
    ensures
        part_search_set(field, query, *old(state), *final(state), r),
{
    if query.as_str().len() <= MAX_PART_SEARCH_LEN {
        let stored = to_lowercase(query.as_str());
        match field {
            ItemField::Balance => edit_selected(
                state,
                EditorEdit::SearchBalance(stored),
                Vec::new(),
                ErrorContext::SetBalanceSearch,
            ),
            ItemField::InvData => edit_selected(
                state,
                EditorEdit::SearchInvData(stored),
                Vec::new(),
                ErrorContext::SetInvDataSearch,
            ),
            ItemField::Manufacturer => edit_selected(
                state,
                EditorEdit::SearchManufacturer(stored),
                Vec::new(),
                ErrorContext::SetManufacturerSearch,
            ),
        }
    } else {
        ItemEditorInteractionResponse::quiet()
    }
}

/// What a request to decode the serial gives.
pub open spec fn serial_requested(
    serial: Seq<char>,
    origin: SerialOrigin,
    r: ItemEditorInteractionResponse,
) -> bool {
    &&& r.notification is None
    &&& r.error is None
    &&& r.command is None
    &&& r.effects@ == Seq::<UiEffect>::empty()
    &&& r.request matches Some(CoreRequest::ParseSerial { serial: s, origin: o }) && s@ == serial
        && o == origin
}

fn request_import(state: &ItemEditorState) -> (r: ItemEditorInteractionResponse)
    ensures
        serial_requested(trimmed(state.import_serial_input@), SerialOrigin::Imported, r),
{
    let serial = string_from_chars(&trim_chars(&chars_of(state.import_serial_input.as_str())));
    ItemEditorInteractionResponse::request(
        CoreRequest::ParseSerial { serial, origin: SerialOrigin::Imported },
    )
}

fn request_create() -> (r: ItemEditorInteractionResponse)
    ensures
        serial_requested(new_item_serial(), SerialOrigin::Created, r),
{
    ItemEditorInteractionResponse::request(
        CoreRequest::ParseSerial {
            serial: String::from_str("BL3(BAAAAAD2aoA+P1vAEgA=)"),
            origin: SerialOrigin::Created,
        },
    )
}

/// What a message needs of the page: importing from Lootlemon and
/// duplicating need room in the list for one more entry, and reversing the
/// list needs an entry selected (its new position is counted back from the
/// end).
pub open spec fn update_allowed(msg: ItemEditorInteractionMessage, s: ItemEditorState) -> bool {
    &&& (msg is ItemListLootlemonImportPressed || msg is DuplicateItem) ==> s.items@.len()
        < usize::MAX
    &&& msg is ItemListReverseOrderPressed ==> has_selected(s)
}

/// How `msg` changes the page `old` into `new`, and what it asks for in `r`.
pub open spec fn update_post(
    msg: ItemEditorInteractionMessage,
    old: ItemEditorState,
    new: ItemEditorState,
    r: ItemEditorInteractionResponse,
) -> bool {
    let sel = old.selected_item_index;
    match msg {
        ItemEditorInteractionMessage::ItemPressed(i) => selected_edited(
            ItemEditorState { selected_item_index: i, ..old },
            new,
            EditorEdit::ResetAvailablePartSelection,
            Seq::empty(),
            ErrorContext::MapSelectedItem,
            r,
        ),
        ItemEditorInteractionMessage::ItemsSearchInputChanged(q) => {
            &&& new.search_items_input@ == lowercase_of(q@)
            &&& new == ItemEditorState { search_items_input: new.search_items_input, ..old }
            &&& is_quiet(r)
        },
        ItemEditorInteractionMessage::ItemsLootLemonSearchInputChanged(q) => {
            &&& new.search_lootlemon_items_input@ == lowercase_of(q@)
            &&& new == ItemEditorState {
                search_lootlemon_items_input: new.search_lootlemon_items_input,
                ..old
            }
            &&& is_quiet(r)
        },
        ItemEditorInteractionMessage::ItemListReverseOrderPressed => reversed(old, new, r),
        ItemEditorInteractionMessage::ItemListItemTabPressed => {
            &&& new == ItemEditorState { item_list_tab_type: ItemListTabType::Items, ..old }
            &&& only_effects(r, seq![UiEffect::FocusItemSearch])
        },
        ItemEditorInteractionMessage::ItemListLootlemonTabPressed => {
            &&& new == ItemEditorState { item_list_tab_type: ItemListTabType::Lootlemon, ..old }
            &&& only_effects(r, seq![UiEffect::FocusLootlemonSearch])
        },
        ItemEditorInteractionMessage::ItemListLootlemonImportPressed(id) => lootlemon_imported(
            id,
            old,
            new,
            r,
        ),
        ItemEditorInteractionMessage::ItemListLootlemonOpenWebsitePressed(id) => {
            &&& new == old
            &&& website_opened(id, old, r)
        },
        ItemEditorInteractionMessage::ItemListLootlemonOpenWebsiteCompleted(res) => {
            &&& new == old
            &&& website_failed(res, r)
        },
        ItemEditorInteractionMessage::ShowAllAvailablePartsSelected(b) => selected_edited(
            old,
            new,
            EditorEdit::ShowAllAvailableParts(b),
            Seq::empty(),
            ErrorContext::ShowAllAvailableParts,
            r,
        ),
        ItemEditorInteractionMessage::AvailablePartsSearchInputChanged(q) => available_search_set(
            q,
            old,
            new,
            r,
        ),
        ItemEditorInteractionMessage::AvailablePartsTabPressed => selected_edited(
            old,
            new,
            EditorEdit::ShowAvailablePartsTab(AvailablePartType::Parts),
            available_tab_effects(sel),
            ErrorContext::ShowAvailableParts,
            r,
        ),
        ItemEditorInteractionMessage::AvailableAnointmentsTabPressed => selected_edited(
            old,
            new,
            EditorEdit::ShowAvailablePartsTab(AvailablePartType::Anointments),
            available_tab_effects(sel),
            ErrorContext::ShowAvailableAnointments,
            r,
        ),
        ItemEditorInteractionMessage::CurrentPartsSearchInputChanged(q) => current_search_set(
            q,
            old,
            new,
            r,
        ),
        ItemEditorInteractionMessage::CurrentPartsTabPressed => selected_edited(
            old,
            new,
            EditorEdit::ShowCurrentPartsTab(CurrentPartType::Parts),
            current_tab_effects(sel),
            ErrorContext::ViewCurrentParts,
            r,
        ),
        ItemEditorInteractionMessage::CurrentAnointmentsTabPressed => selected_edited(
            old,
            new,
            EditorEdit::ShowCurrentPartsTab(CurrentPartType::Anointments),
            current_tab_effects(sel),
            ErrorContext::ViewCurrentAnointments,
            r,
        ),
        ItemEditorInteractionMessage::ReorderCurrentPartsSelected(b) => selected_edited(
            old,
            new,
            EditorEdit::ReorderCurrentParts(b),
            reorder_effects(sel, b),
            ErrorContext::ReorderCurrentParts,
            r,
        ),
        ItemEditorInteractionMessage::ReorderCurrentPartsMoveUpPressed => {
            &&& new == old
            &&& move_requested(PartMove::Up, old, r)
        },
        ItemEditorInteractionMessage::ReorderCurrentPartsMoveDownPressed => {
            &&& new == old
            &&& move_requested(PartMove::Down, old, r)
        },
        ItemEditorInteractionMessage::ReorderCurrentPartsMoveTopPressed => {
            &&& new == old
            &&& move_requested(PartMove::Top, old, r)
        },
        ItemEditorInteractionMessage::ReorderCurrentPartsMoveBottomPressed => {
            &&& new == old
            &&& move_requested(PartMove::Bottom, old, r)
        },
        ItemEditorInteractionMessage::AvailablePartPressed(index) => {
            &&& new == old
            &&& add_requested(index, false, old, r)
        },
        ItemEditorInteractionMessage::AvailableAnointmentPressed(index) => {
            &&& new == old
            &&& add_requested(index, true, old, r)
        },
        ItemEditorInteractionMessage::CurrentPartPressed(reorder, index) => if reorder {
            selected_edited(
                old,
                new,
                EditorEdit::SelectCurrentPart(index),
                Seq::empty(),
                ErrorContext::SelectPartToReorder,
                r,
            )
        } else {
            &&& new == old
            &&& remove_requested(index, false, old, r)
        },
        ItemEditorInteractionMessage::CurrentAnointmentPressed(index) => {
            &&& new == old
            &&& remove_requested(index, true, old, r)
        },
        ItemEditorInteractionMessage::ImportSerialInputChanged(s) => {
            &&& new == ItemEditorState { import_serial_input: s, ..old }
            &&& is_quiet(r)
        },
        ItemEditorInteractionMessage::CreateItemPressed => {
            &&& new == old
            &&& serial_requested(new_item_serial(), SerialOrigin::Created, r)
        },
        ItemEditorInteractionMessage::ImportItemFromSerialPressed => {
            &&& new == old
            &&& serial_requested(trimmed(old.import_serial_input@), SerialOrigin::Imported, r)
        },
        ItemEditorInteractionMessage::AllItemLevel(v) => {
            &&& new == ItemEditorState { all_item_levels_input: v, ..old }
            &&& is_quiet(r)
        },
        ItemEditorInteractionMessage::SetAllItemLevelsPressed => {
            &&& new == old
            &&& all_levels_requested(old, r)
        },
        ItemEditorInteractionMessage::ItemLevel(v) => {
            &&& new == old
            &&& selected_change_requested(
                old,
                CoreRequest::SetLevel { item_index: sel, level: v as usize },
                ErrorContext::SetItemLevel,
                r,
            )
        },
        ItemEditorInteractionMessage::DeleteItem(id) => deleted(id, old, new, r),
        ItemEditorInteractionMessage::DuplicateItem(id) => duplicated(id, old, new, r),
        ItemEditorInteractionMessage::BalanceInputSelected(p) => {
            &&& new == old
            &&& selected_change_requested(
                old,
                CoreRequest::SetField { item_index: sel, field: ItemField::Balance, value: p },
                ErrorContext::SetBalance,
                r,
            )
        },
        ItemEditorInteractionMessage::BalanceSearchInputChanged(q) => part_search_set(
            ItemField::Balance,
            q,
            old,
            new,
            r,
        ),
        ItemEditorInteractionMessage::InvDataInputSelected(p) => {
            &&& new == old
            &&& selected_change_requested(
                old,
                CoreRequest::SetField { item_index: sel, field: ItemField::InvData, value: p },
                ErrorContext::SetInvData,
                r,
            )
        },
        ItemEditorInteractionMessage::InvDataSearchInputChanged(q) => part_search_set(
            ItemField::InvData,
            q,
            old,
            new,
            r,
        ),
        ItemEditorInteractionMessage::ManufacturerSearchInputChanged(q) => part_search_set(
            ItemField::Manufacturer,
            q,
            old,
            new,
            r,
        ),
        ItemEditorInteractionMessage::ManufacturerInputSelected(p) => {
            &&& new == old
            &&& selected_change_requested(
                old,
                CoreRequest::SetField {
                    item_index: sel,
                    field: ItemField::Manufacturer,
                    value: p,
                },
                ErrorContext::SetManufacturer,
                r,
            )
        },
    }
}

impl ItemEditorInteractionMessage {
    /// Handles the message on the page: changes the page and says what is
    /// asked of the widgets, the runtime and the save editor's core.
    pub fn update_state(self, item_editor_state: &mut ItemEditorState) -> (r:
        ItemEditorInteractionResponse)
        requires
            update_allowed(self, *old(item_editor_state)),
        ensures
            update_post(self, *old(item_editor_state), *final(item_editor_state), r),
    {
        let state = item_editor_state;
        match self {
            ItemEditorInteractionMessage::ItemPressed(item_index) => {
                state.selected_item_index = item_index;
                edit_selected(
                    state,
                    EditorEdit::ResetAvailablePartSelection,
                    Vec::new(),
                    ErrorContext::MapSelectedItem,
                )
            },
            ItemEditorInteractionMessage::ItemsSearchInputChanged(q) => set_search_items_input(
                state,
                q,
            ),
            ItemEditorInteractionMessage::ItemsLootLemonSearchInputChanged(q) =>
                set_search_lootlemon_items_input(state, q),
            ItemEditorInteractionMessage::ItemListReverseOrderPressed => reverse_order(state),
            ItemEditorInteractionMessage::ItemListItemTabPressed => {
                state.item_list_tab_type = ItemListTabType::Items;
                let mut effects = Vec::new();
                effects.push(UiEffect::FocusItemSearch);
                proof {
                    assert(effects@ =~= seq![UiEffect::FocusItemSearch]);
                }
                ItemEditorInteractionResponse::with_effects(effects)
            },
            ItemEditorInteractionMessage::ItemListLootlemonTabPressed => {
                state.item_list_tab_type = ItemListTabType::Lootlemon;
                let mut effects = Vec::new();
                effects.push(UiEffect::FocusLootlemonSearch);
                proof {
                    assert(effects@ =~= seq![UiEffect::FocusLootlemonSearch]);
                }
                ItemEditorInteractionResponse::with_effects(effects)
            },
            ItemEditorInteractionMessage::ItemListLootlemonImportPressed(id) => import_lootlemon_item(
                state,
                id,
            ),
            ItemEditorInteractionMessage::ItemListLootlemonOpenWebsitePressed(id) =>
                open_lootlemon_website(state, id),
            ItemEditorInteractionMessage::ItemListLootlemonOpenWebsiteCompleted(res) =>
                lootlemon_website_completed(res),
            ItemEditorInteractionMessage::ShowAllAvailablePartsSelected(selected) => edit_selected(
                state,
                EditorEdit::ShowAllAvailableParts(selected),
                Vec::new(),
                ErrorContext::ShowAllAvailableParts,
            ),
            ItemEditorInteractionMessage::AvailablePartsSearchInputChanged(q) =>
                search_available_parts(state, q),
            ItemEditorInteractionMessage::AvailablePartsTabPressed => show_available_tab(
                state,
                AvailablePartType::Parts,
            ),
            ItemEditorInteractionMessage::AvailableAnointmentsTabPressed => show_available_tab(
                state,
                AvailablePartType::Anointments,
            ),
            ItemEditorInteractionMessage::CurrentPartsSearchInputChanged(q) => search_current_parts(
                state,
                q,
            ),
            ItemEditorInteractionMessage::CurrentPartsTabPressed => show_current_tab(
                state,
                CurrentPartType::Parts,
            ),
            ItemEditorInteractionMessage::CurrentAnointmentsTabPressed => show_current_tab(
                state,
                CurrentPartType::Anointments,
            ),
            ItemEditorInteractionMessage::ReorderCurrentPartsSelected(selected) =>
                reorder_current_parts(state, selected),
            ItemEditorInteractionMessage::ReorderCurrentPartsMoveUpPressed => request_move(
                state,
                PartMove::Up,
            ),
            ItemEditorInteractionMessage::ReorderCurrentPartsMoveDownPressed => request_move(
                state,
                PartMove::Down,
            ),
            ItemEditorInteractionMessage::ReorderCurrentPartsMoveTopPressed => request_move(
                state,
                PartMove::Top,
            ),
            ItemEditorInteractionMessage::ReorderCurrentPartsMoveBottomPressed => request_move(
                state,
                PartMove::Bottom,
            ),
            ItemEditorInteractionMessage::AvailablePartPressed(index) => request_add_part(
                state,
                index,
                false,
            ),
            ItemEditorInteractionMessage::AvailableAnointmentPressed(index) => request_add_part(
                state,
                index,
                true,
            ),
            ItemEditorInteractionMessage::CurrentPartPressed(reorder_parts, index) => {
                if !reorder_parts {
                    request_remove_part(state, index, false)
                } else {
                    edit_selected(
                        state,
                        EditorEdit::SelectCurrentPart(index),
                        Vec::new(),
                        ErrorContext::SelectPartToReorder,
                    )
                }
            },
            ItemEditorInteractionMessage::CurrentAnointmentPressed(index) => request_remove_part(
                state,
                index,
                true,
            ),
            ItemEditorInteractionMessage::ImportSerialInputChanged(s) => {
                state.import_serial_input = s;
                ItemEditorInteractionResponse::quiet()
            },
            ItemEditorInteractionMessage::CreateItemPressed => request_create(),
            ItemEditorInteractionMessage::ImportItemFromSerialPressed => request_import(state),
            ItemEditorInteractionMessage::AllItemLevel(v) => {
                state.all_item_levels_input = v;
                ItemEditorInteractionResponse::quiet()
            },
            ItemEditorInteractionMessage::SetAllItemLevelsPressed => request_all_levels(state),
            ItemEditorInteractionMessage::ItemLevel(v) => request_set_level(state, v),
            ItemEditorInteractionMessage::DeleteItem(id) => delete_item(state, id),
            ItemEditorInteractionMessage::DuplicateItem(id) => duplicate_item(state, id),
            ItemEditorInteractionMessage::BalanceInputSelected(p) => request_set_field(
                state,
                ItemField::Balance,
                p,
            ),
            ItemEditorInteractionMessage::BalanceSearchInputChanged(q) => search_part(
                state,
                ItemField::Balance,
                q,
            ),
            ItemEditorInteractionMessage::InvDataInputSelected(p) => request_set_field(
                state,
                ItemField::InvData,
                p,
            ),
            ItemEditorInteractionMessage::InvDataSearchInputChanged(q) => search_part(
                state,
                ItemField::InvData,
                q,
            ),
            ItemEditorInteractionMessage::ManufacturerSearchInputChanged(q) => search_part(
                state,
                ItemField::Manufacturer,
                q,
            ),
            ItemEditorInteractionMessage::ManufacturerInputSelected(p) => request_set_field(
                state,
                ItemField::Manufacturer,
                p,
            ),
        }
    }
}

} // verus!
