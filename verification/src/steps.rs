//! Steps shared by the message handlers: editing the selected entry, mapping
//! it to the editor again, and adding a new item to the list.
use vstd::prelude::*;

use crate::item::{is_fresh_editor, Bl3Item};
use crate::response::{
    effects_then_error, only_effects, only_error, ErrorContext, ItemEditorInteractionResponse,
    ScrollEdge, UiEffect,
};
use crate::state::{
    edit_applied, entry_replaced, EditorEdit, ItemEditorError, ItemEditorState, ItemEditorStateExt,
};

verus! {

/// The selected position names an entry of the list.
pub open spec fn has_selected(s: ItemEditorState) -> bool {
    s.selected_item_index < s.items@.len()
}

/// `new` and `r` are what making `edit` to the selected entry of `old` gives:
/// the `effects` and then a new mapping of the entry, or, with no entry
/// selected, the error in `context` and no change.
pub open spec fn selected_edited(
    old: ItemEditorState,
    new: ItemEditorState,
    edit: EditorEdit,
    effects: Seq<UiEffect>,
    context: ErrorContext,
    r: ItemEditorInteractionResponse,
) -> bool {
    if has_selected(old) {
        let i = old.selected_item_index as int;
        &&& new.items@[i].item == old.items@[i].item
        &&& edit_applied(old.items@[i].editor, edit, new.items@[i].editor)
        &&& entry_replaced(old, i, new.items@[i], new)
        &&& only_effects(r, effects.push(UiEffect::MapItemToEditor(old.selected_item_index, context)))
    } else {
        &&& new == old
        &&& only_error(r, context, ItemEditorError::NoItemAtIndex(old.selected_item_index))
    }
}

/// `r` asks for the effects `before`, a new mapping of the selected entry of
/// `s`, and the effects `after`; with no entry selected, the mapping is
/// replaced by the error in `context`.
pub open spec fn remapped(
    s: ItemEditorState,
    before: Seq<UiEffect>,
    after: Seq<UiEffect>,
    context: ErrorContext,
    r: ItemEditorInteractionResponse,
) -> bool {
    if has_selected(s) {
        only_effects(r, before.push(UiEffect::MapItemToEditor(s.selected_item_index, context)) + after)
    } else {
        effects_then_error(
            r,
            before + after,
            context,
            ItemEditorError::NoItemAtIndex(s.selected_item_index),
        )
    }
}

/// Makes `edit` to the selected entry, after the `effects` that come with it.
pub fn edit_selected(
    state: &mut ItemEditorState,
    edit: EditorEdit,
    effects: Vec<UiEffect>,
    context: ErrorContext,
) -> (r: ItemEditorInteractionResponse)
    ensures
        selected_edited(*old(state), *final(state), edit, effects@, context, r),
{
    match state.map_current_item_if_exists(edit) {
        Ok(i) => {
            let mut effects = effects;
            effects.push(UiEffect::MapItemToEditor(i, context));
            ItemEditorInteractionResponse::with_effects(effects)
        },
        Err(e) => ItemEditorInteractionResponse::error(context, e),
    }
}

/// Asks for the selected entry to be mapped to the editor again, between
/// the effects `before` and `after`.
pub fn remap_selected(
    state: &mut ItemEditorState,
    before: Vec<UiEffect>,
    after: Vec<UiEffect>,
    context: ErrorContext,
) -> (r: ItemEditorInteractionResponse)
    ensures
        *final(state) == *old(state),
        remapped(*old(state), before@, after@, context, r),
{
    let mut effects = before;
    match state.map_current_item_if_exists_to_editor_state() {
        Ok(i) => {
            effects.push(UiEffect::MapItemToEditor(i, context));
            let mut after = after;
            effects.append(&mut after);
            ItemEditorInteractionResponse::with_effects(effects)
        },
        Err(e) => {
            let mut after = after;
            effects.append(&mut after);
            ItemEditorInteractionResponse::effects_then_error(effects, context, e)
        },
    }
}

/// Where the item list scrolls to show a new item.
pub open spec fn new_item_edge(s: ItemEditorState) -> ScrollEdge {
    if s.item_list_is_reverse_order {
        ScrollEdge::Top
    } else {
        ScrollEdge::Bottom
    }
}

/// `new` is `old` with an entry for `item` added where the list order puts
/// new items, and selected: at the top of a reversed list, at the bottom
/// otherwise. (A reversed empty list takes no entry, as `insert_item` puts
/// nothing past the end.)
pub open spec fn item_added(old: ItemEditorState, new: ItemEditorState, item: Bl3Item) -> bool {
    if old.item_list_is_reverse_order {
        &&& if old.items@.len() > 0 {
            &&& new.items@.len() == old.items@.len() + 1
            &&& new.items@[0].item == item
            &&& is_fresh_editor(new.items@[0].editor)
            &&& new.items@.skip(1) == old.items@
        } else {
            new.items@ == old.items@
        }
        &&& new == ItemEditorState { items: new.items, selected_item_index: 0, ..old }
    } else {
        &&& new.items@.len() == old.items@.len() + 1
        &&& new.items@.drop_last() == old.items@
        &&& new.items@.last().item == item
        &&& is_fresh_editor(new.items@.last().editor)
        &&& new == ItemEditorState {
            items: new.items,
            selected_item_index: old.items@.len() as usize,
            ..old
        }
    }
}

/// Adds `item` to the list and selects it; gives where the list is to scroll.
pub fn add_new_item(state: &mut ItemEditorState, item: Bl3Item) -> (edge: ScrollEdge)
    requires
        old(state).items@.len() < usize::MAX,
    ensures
        item_added(*old(state), *final(state), item),
        edge == new_item_edge(*old(state)),
{
    if state.item_list_is_reverse_order {
        state.insert_item(0, item);
        proof {
            if old(state).items@.len() > 0 {
                assert(old(state).items@.skip(0) =~= old(state).items@);
            }
        }
        state.selected_item_index = 0;
        ScrollEdge::Top
    } else {
        state.add_item(item);
        state.selected_item_index = state.items.len() - 1;
        ScrollEdge::Bottom
    }
}

} // verus!
