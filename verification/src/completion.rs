//! Finishing the work that the save editor's core did for a message.
use vstd::prelude::*;

use crate::item::{Bl3Item, ItemEditorListItem};
use crate::response::{
    is_quiet, only_effects, only_error, only_request, CoreReply, CoreRequest, ErrorContext,
    ItemEditorInteractionResponse, PartMove, ScrollEdge, SerialOrigin, UiEffect,
};
use crate::state::{edit_applied, entry_replaced, EditorEdit, ItemEditorError, ItemEditorState};
use crate::steps::{edit_selected, has_selected, remap_selected, remapped, selected_edited};
use crate::interaction::{
    field_context, field_context_of, move_context, move_context_of, new_item_shown, show_new_item,
};

verus! {

/// The context in which a request's failure is reported.
pub open spec fn failure_context(req: CoreRequest) -> ErrorContext {
    match req {
        CoreRequest::AddPart { anointment, .. } => if anointment {
            ErrorContext::AddAnointment
        } else {
            ErrorContext::AddPart
        },
        CoreRequest::RemovePart { anointment, .. } => if anointment {
            ErrorContext::RemoveAnointment
        } else {
            ErrorContext::RemovePart
        },
        CoreRequest::MovePart { direction, .. } => move_context(direction),
        CoreRequest::MapMovedPart { direction, .. } => move_context(direction),
        CoreRequest::SetLevel { .. } => ErrorContext::SetItemLevel,
        CoreRequest::SetAllLevels { item_index, .. } => ErrorContext::SetLevelForItemNumber(
            item_index,
        ),
        CoreRequest::SetField { field, .. } => field_context(field),
        CoreRequest::ParseSerial { origin, .. } => if origin == SerialOrigin::Created {
            ErrorContext::MapCreatedItem
        } else {
            ErrorContext::ImportSerial
        },
    }
}

fn failure_context_of(req: &CoreRequest) -> (c: ErrorContext)
    ensures
        c == failure_context(*req),
{
    match req {
        CoreRequest::AddPart { anointment, .. } => if *anointment {
            ErrorContext::AddAnointment
        } else {
            ErrorContext::AddPart
        },
        CoreRequest::RemovePart { anointment, .. } => if *anointment {
            ErrorContext::RemoveAnointment
        } else {
            ErrorContext::RemovePart
        },
        CoreRequest::MovePart { direction, .. } => move_context_of(*direction),
        CoreRequest::MapMovedPart { direction, .. } => move_context_of(*direction),
        CoreRequest::SetLevel { .. } => ErrorContext::SetItemLevel,
        CoreRequest::SetAllLevels { item_index, .. } => ErrorContext::SetLevelForItemNumber(
            *item_index,
        ),
        CoreRequest::SetField { field, .. } => field_context_of(*field),
        CoreRequest::ParseSerial { origin, .. } => match origin {
            SerialOrigin::Created => ErrorContext::MapCreatedItem,
            SerialOrigin::Imported => ErrorContext::ImportSerial,
        },
    }
}

/// The item a request works on, for the requests that name one.
pub open spec fn request_item_index(req: CoreRequest) -> Option<usize> {
    match req {
        CoreRequest::AddPart { item_index, .. } => Some(item_index),
        CoreRequest::RemovePart { item_index, .. } => Some(item_index),
        CoreRequest::MovePart { item_index, .. } => Some(item_index),
        CoreRequest::MapMovedPart { item_index, .. } => Some(item_index),
        CoreRequest::SetLevel { item_index, .. } => Some(item_index),
        CoreRequest::SetAllLevels { item_index, .. } => Some(item_index),
        CoreRequest::SetField { item_index, .. } => Some(item_index),
        CoreRequest::ParseSerial { .. } => None,
    }
}

/// The effects that come with selecting the part just added: the
/// current-parts panel scrolls to its end when it is being reordered.
pub open spec fn added_part_effects(s: ItemEditorState, anointment: bool) -> Seq<UiEffect> {
    if !anointment && has_selected(s)
        && s.items@[s.selected_item_index as int].editor.current_parts.reorder_parts {
        seq![UiEffect::SnapCurrentParts(s.selected_item_index, ScrollEdge::Bottom)]
    } else {
        Seq::empty()
    }
}

/// The effects that finish a move in entry `i`: moved to the top or
/// bottom, the current-parts panel scrolls there.
pub open spec fn moved_part_effects(i: usize, direction: PartMove) -> Seq<UiEffect> {
    match direction {
        PartMove::Top => seq![UiEffect::SnapCurrentParts(i, ScrollEdge::Top)],
        PartMove::Bottom => seq![UiEffect::SnapCurrentParts(i, ScrollEdge::Bottom)],
        _ => Seq::empty(),
    }
}

/// What recording a part moved to `p` gives: the selected entry's moved
/// part is selected at its new place, and its editor panel is to be rebuilt
/// before the move is finished; with no entry selected, the error.
pub open spec fn part_move_recorded(
    mid: ItemEditorState,
    new: ItemEditorState,
    p: usize,
    direction: PartMove,
    r: ItemEditorInteractionResponse,
) -> bool {
    if has_selected(mid) {
        let i = mid.selected_item_index as int;
        &&& new.items@[i].item == mid.items@[i].item
        &&& edit_applied(mid.items@[i].editor, EditorEdit::PartMoved(p), new.items@[i].editor)
        &&& entry_replaced(mid, i, new.items@[i], new)
        &&& only_request(
            r,
            CoreRequest::MapMovedPart { item_index: mid.selected_item_index, direction },
        )
    } else {
        &&& new == mid
        &&& only_error(
            r,
            move_context(direction),
            ItemEditorError::NoItemAtIndex(mid.selected_item_index),
        )
    }
}

/// What finishing a move in entry `i` gives, once its editor panel was
/// rebuilt: the current-parts search cleared and the panel scrolled as the
/// move asks; a position no longer in the list is reported as missing.
pub open spec fn move_finished(
    i: usize,
    direction: PartMove,
    old: ItemEditorState,
    new: ItemEditorState,
    r: ItemEditorInteractionResponse,
) -> bool {
    if i < old.items@.len() {
        &&& new.items@[i as int].item == old.items@[i as int].item
        &&& edit_applied(
            old.items@[i as int].editor,
            EditorEdit::ClearCurrentPartsSearch,
            new.items@[i as int].editor,
        )
        &&& entry_replaced(old, i as int, new.items@[i as int], new)
        &&& only_effects(r, moved_part_effects(i, direction))
    } else {
        &&& new == old
        &&& only_error(r, move_context(direction), ItemEditorError::NoItemAtIndex(i))
    }
}

fn finish_move(state: &mut ItemEditorState, i: usize, direction: PartMove) -> (r:
    ItemEditorInteractionResponse)
    ensures
        move_finished(i, direction, *old(state), *final(state), r),
{
    if i < state.items.len() {
        state.edit_item(i, EditorEdit::ClearCurrentPartsSearch);
        let mut effects = Vec::new();
        match direction {
            PartMove::Top => effects.push(UiEffect::SnapCurrentParts(i, ScrollEdge::Top)),
            PartMove::Bottom => effects.push(UiEffect::SnapCurrentParts(i, ScrollEdge::Bottom)),
            _ => {},
        }
        proof {
            assert(effects@ =~= moved_part_effects(i, direction));
        }
        ItemEditorInteractionResponse::with_effects(effects)
    } else {
        ItemEditorInteractionResponse::error(
            move_context_of(direction),
            ItemEditorError::NoItemAtIndex(i),
        )
    }
}

/// What follows once the item at the request's position has been replaced
/// by the core's result, from the page `mid` on.
pub open spec fn after_item_changed(
    req: CoreRequest,
    reply: CoreReply,
    mid: ItemEditorState,
    new: ItemEditorState,
    r: ItemEditorInteractionResponse,
) -> bool {
    match req {
        CoreRequest::AddPart { select, anointment, .. } => selected_edited(
            mid,
            new,
            EditorEdit::SelectAvailablePart(select),
            added_part_effects(mid, anointment),
            if anointment {
                ErrorContext::MapAfterAddAnointment
            } else {
                ErrorContext::MapAfterAddPart
            },
            r,
        ),
        CoreRequest::RemovePart { anointment, .. } => {
            &&& new == mid
            &&& remapped(
                mid,
                Seq::empty(),
                Seq::empty(),
                if anointment {
                    ErrorContext::MapAfterRemoveAnointment
                } else {
                    ErrorContext::MapAfterRemovePart
                },
                r,
            )
        },
        CoreRequest::MovePart { direction, part_index, .. } => part_move_recorded(
            mid,
            new,
            match reply {
                CoreReply::Moved(_, p) => p,
                _ => part_index,
            },
            direction,
            r,
        ),
        CoreRequest::SetAllLevels { item_index, level } => {
            &&& new == mid
            &&& if item_index + 1 < mid.items@.len() {
                only_request(
                    r,
                    CoreRequest::SetAllLevels { item_index: (item_index + 1) as usize, level },
                )
            } else {
                remapped(mid, Seq::empty(), Seq::empty(), ErrorContext::MapAfterAllLevels, r)
            }
        },
        _ => {
            &&& new == mid
            &&& remapped(mid, Seq::empty(), Seq::empty(), failure_context(req), r)
        },
    }
}

/// The item the core gave back, if it gave one.
pub open spec fn reply_item(reply: CoreReply) -> Option<Bl3Item> {
    match reply {
        CoreReply::Updated(item) => Some(item),
        CoreReply::Moved(item, _) => Some(item),
        _ => None,
    }
}

/// How the core's `reply` to `req` changes the page `old` into `new`, and
/// what it asks for in `r`:
/// a part that is not found changes nothing; a failure is reported in the
/// request's context; a rebuilt panel after a move finishes the move (and,
/// for any other request, changes nothing); a decoded serial becomes a new item, shown as created
/// or imported items are; any other item replaces the item at the request's
/// position (kept with its editor panel), after which the step of the
/// message that asked for the work is finished; a position no longer in
/// the list is reported as missing.
pub open spec fn completed(
    req: CoreRequest,
    reply: CoreReply,
    old: ItemEditorState,
    new: ItemEditorState,
    r: ItemEditorInteractionResponse,
) -> bool {
    match reply {
        CoreReply::PartNotFound => {
            &&& new == old
            &&& is_quiet(r)
        },
        CoreReply::Failed(e) => {
            &&& new == old
            &&& only_error(r, failure_context(req), ItemEditorError::Core(e))
        },
        _ => if req is MapMovedPart {
            move_finished(
                req->MapMovedPart_item_index,
                req->MapMovedPart_direction,
                old,
                new,
                r,
            )
        } else if reply is Mapped {
            &&& new == old
            &&& is_quiet(r)
        } else {
            let item = reply_item(reply)->0;
            match request_item_index(req) {
                None => new_item_shown(
                    item,
                    if req->ParseSerial_origin == SerialOrigin::Created {
                        ErrorContext::MapCreatedItem
                    } else {
                        ErrorContext::MapImportedItem
                    },
                    old,
                    new,
                    r,
                ),
                Some(i) => if i < old.items@.len() {
                    exists|mid: ItemEditorState|
                        {
                            &&& #[trigger] entry_replaced(
                                old,
                                i as int,
                                ItemEditorListItem { item, editor: old.items@[i as int].editor },
                                mid,
                            )
                            &&& after_item_changed(req, reply, mid, new, r)
                        }
                } else {
                    &&& new == old
                    &&& only_error(r, failure_context(req), ItemEditorError::NoItemAtIndex(i))
                },
            }
        },
    }
}

/// A reply that can finish the request: a decoded serial needs room in the
/// list for one more entry, and the template of a new item always decodes.
pub open spec fn reply_allowed(req: CoreRequest, reply: CoreReply, s: ItemEditorState) -> bool {
    &&& req is ParseSerial ==> s.items@.len() < usize::MAX
    &&& (req is ParseSerial && req->ParseSerial_origin == SerialOrigin::Created) ==> !(
    reply is Failed)
}

impl CoreRequest {
    /// Takes the core's reply to this request into the page.
    pub fn complete(self, item_editor_state: &mut ItemEditorState, reply: CoreReply) -> (r:
        ItemEditorInteractionResponse)
        requires
            reply_allowed(self, reply, *old(item_editor_state)),
        ensures
            completed(self, reply, *old(item_editor_state), *final(item_editor_state), r),
    {
        let state = item_editor_state;
        let context = failure_context_of(&self);
        let (item, moved_to) = match reply {
            CoreReply::PartNotFound => {
                return ItemEditorInteractionResponse::quiet();
            },
            CoreReply::Failed(e) => {
                return ItemEditorInteractionResponse::error(context, ItemEditorError::Core(e));
            },
            CoreReply::Mapped => {
                return match self {
                    CoreRequest::MapMovedPart { item_index, direction } => finish_move(
                        state,
                        item_index,
                        direction,
                    ),
                    _ => ItemEditorInteractionResponse::quiet(),
                };
            },
            CoreReply::Updated(item) => (item, None),
            CoreReply::Moved(item, p) => (item, Some(p)),
        };
        match self {
            CoreRequest::MapMovedPart { item_index, direction } => {
                return finish_move(state, item_index, direction);
            },
            _ => {},
        }
        let ghost reply_spec = reply;
        match self {
            CoreRequest::ParseSerial { origin, .. } => {
                let map_context = match origin {
                    SerialOrigin::Created => ErrorContext::MapCreatedItem,
                    SerialOrigin::Imported => ErrorContext::MapImportedItem,
                };
                return show_new_item(state, item, map_context);
            },
            _ => {},
        }
        let i = match &self {
            CoreRequest::AddPart { item_index, .. } => *item_index,
            CoreRequest::RemovePart { item_index, .. } => *item_index,
            CoreRequest::MovePart { item_index, .. } => *item_index,
            CoreRequest::MapMovedPart { item_index, .. } => *item_index,
            CoreRequest::SetLevel { item_index, .. } => *item_index,
            CoreRequest::SetAllLevels { item_index, .. } => *item_index,
            CoreRequest::SetField { item_index, .. } => *item_index,
            CoreRequest::ParseSerial { .. } => 0,
        };
        if i >= state.items.len() {
            return ItemEditorInteractionResponse::error(context, ItemEditorError::NoItemAtIndex(i));
        }
        state.set_item(i, item);
        let ghost mid = *state;
        let r = match self {
            CoreRequest::AddPart { select, anointment, .. } => {
                let mut effects = Vec::new();
                let sel = state.selected_item_index;
                if !anointment && sel < state.items.len()
                    && state.items[sel].editor.current_parts.reorder_parts {
                    effects.push(UiEffect::SnapCurrentParts(sel, ScrollEdge::Bottom));
                }
                proof {
                    assert(effects@ =~= added_part_effects(mid, anointment));
                }
                let map_context = if anointment {
                    ErrorContext::MapAfterAddAnointment
                } else {
                    ErrorContext::MapAfterAddPart
                };
                edit_selected(state, EditorEdit::SelectAvailablePart(select), effects, map_context)
            },
            CoreRequest::RemovePart { anointment, .. } => {
                let map_context = if anointment {
                    ErrorContext::MapAfterRemoveAnointment
                } else {
                    ErrorContext::MapAfterRemovePart
                };
                remap_selected(state, Vec::new(), Vec::new(), map_context)
            },
            CoreRequest::MovePart { direction, part_index, .. } => {
                let p = match moved_to {
                    Some(p) => p,
                    None => part_index,
                };
                let sel = state.selected_item_index;
                if sel < state.items.len() {
                    state.edit_item(sel, EditorEdit::PartMoved(p));
                    ItemEditorInteractionResponse::request(
                        CoreRequest::MapMovedPart { item_index: sel, direction },
                    )
                } else {
                    ItemEditorInteractionResponse::error(context, ItemEditorError::NoItemAtIndex(sel))
                }
            },
            CoreRequest::SetAllLevels { item_index, level } => {
                if item_index + 1 < state.items.len() {
                    ItemEditorInteractionResponse::request(
                        CoreRequest::SetAllLevels { item_index: item_index + 1, level },
                    )
                } else {
                    remap_selected(state, Vec::new(), Vec::new(), ErrorContext::MapAfterAllLevels)
                }
            },
            _ => remap_selected(state, Vec::new(), Vec::new(), context),
        };
        proof {
            assert(after_item_changed(self, reply_spec, mid, *state, r));
        }
        r
    }
}

} // verus!
