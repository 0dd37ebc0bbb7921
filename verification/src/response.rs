//! What the item editor asks of its surroundings after handling a message:
//! notifications, errors to report, commands, widget effects, and work for
//! the save editor's core.
use vstd::prelude::*;

use crate::item::{AvailablePartTypeIndex, Bl3Item};
use crate::state::ItemEditorError;
use crate::text::decimal;

verus! {

/// Which end of a scrollable list to scroll to.
#[derive(Debug, Clone, Copy, PartialEq, Eq, Structural)]
pub enum ScrollEdge {
    Top,
    Bottom,
}

/// What the editor was doing when an error came up; each names the text
/// the user is shown before the error itself.
#[derive(Debug, Clone, Copy, PartialEq, Eq, Structural)]
pub enum ErrorContext {
    MapSelectedItem,
    MapAfterReverse,
    MapLootlemonItem,
    ShowAllAvailableParts,
    FilterAvailableParts,
    ShowAvailableParts,
    ShowAvailableAnointments,
    AddPart,
    MapAfterAddPart,
    AddAnointment,
    MapAfterAddAnointment,
    FilterCurrentParts,
    ViewCurrentParts,
    ViewCurrentAnointments,
    ReorderCurrentParts,
    MovePartUp,
    MovePartDown,
    MovePartTop,
    MovePartBottom,
    RemovePart,
    MapAfterRemovePart,
    SelectPartToReorder,
    RemoveAnointment,
    MapAfterRemoveAnointment,
    MapCreatedItem,
    MapImportedItem,
    ImportSerial,
    /// Setting the level of the item at the given position, while setting all levels.
    SetLevelForItemNumber(usize),
    MapAfterAllLevels,
    SetItemLevel,
    MapAfterDelete,
    MapDuplicatedItem,
    SetBalance,
    SetBalanceSearch,
    SetInvData,
    SetInvDataSearch,
    SetManufacturer,
    SetManufacturerSearch,
}

/// The text of a context that names no item.
pub open spec fn context_text(c: ErrorContext) -> Seq<char> {
    match c {
        ErrorContext::MapSelectedItem => "Failed to map selected item to editor"@,
        ErrorContext::MapAfterReverse =>
            "Failed to map previously selected item to editor when reversing order"@,
        ErrorContext::MapLootlemonItem => "Failed to map Lootlemon item to editor"@,
        ErrorContext::ShowAllAvailableParts =>
            "Failed to map item to editor when showing all available parts"@,
        ErrorContext::FilterAvailableParts =>
            "Failed to map item to editor when showing filtered available parts/anointments"@,
        ErrorContext::ShowAvailableParts =>
            "Failed to map item to editor when showing available parts"@,
        ErrorContext::ShowAvailableAnointments =>
            "Failed to map item to editor when showing available anointments"@,
        ErrorContext::AddPart => "Failed to add part to item"@,
        ErrorContext::MapAfterAddPart => "Failed to map item to editor after adding part to item"@,
        ErrorContext::AddAnointment => "Failed to add anointment to item"@,
        ErrorContext::MapAfterAddAnointment =>
            "Failed to map item to editor after adding anointment to item"@,
        ErrorContext::FilterCurrentParts =>
            "Failed to map item to editor when showing filtered current parts/anointments"@,
        ErrorContext::ViewCurrentParts => "Failed to view current parts"@,
        ErrorContext::ViewCurrentAnointments => "Failed to view current anointments"@,
        ErrorContext::ReorderCurrentParts => "Failed to reorder current parts"@,
        ErrorContext::MovePartUp => "Failed to move selected part up"@,
        ErrorContext::MovePartDown => "Failed to move selected part down"@,
        ErrorContext::MovePartTop => "Failed to move selected part to top"@,
        ErrorContext::MovePartBottom => "Failed to move selected part to bottom"@,
        ErrorContext::RemovePart => "Failed to remove part from item"@,
        ErrorContext::MapAfterRemovePart => "Failed to map item with removed part to editor"@,
        ErrorContext::SelectPartToReorder => "Failed to select part to reorder"@,
        ErrorContext::RemoveAnointment => "Failed to remove anointment from item"@,
        ErrorContext::MapAfterRemoveAnointment =>
            "Failed to map item to editor after removing anointment from item"@,
        ErrorContext::MapCreatedItem => "Failed map created item to editor"@,
        ErrorContext::MapImportedItem => "Failed to map imported item to editor"@,
        ErrorContext::ImportSerial => "Failed to import serial"@,
        ErrorContext::SetLevelForItemNumber(_) => "Failed to set level for item number: "@,
        ErrorContext::MapAfterAllLevels =>
            "Failed to map previously selected item to editor after updating all item levels"@,
        ErrorContext::SetItemLevel => "Failed to set level for item"@,
        ErrorContext::MapAfterDelete =>
            "Failed to select an item to show in editor after deleting item"@,
        ErrorContext::MapDuplicatedItem => "Failed to map duplicated item to editor"@,
        ErrorContext::SetBalance => "Failed to set balance for item"@,
        ErrorContext::SetBalanceSearch =>
            "Failed to set balance search field value for current item"@,
        ErrorContext::SetInvData => "Failed to set inventory data for item"@,
        ErrorContext::SetInvDataSearch =>
            "Failed to set inventory data search field value for current item"@,
        ErrorContext::SetManufacturer => "Failed to set manufacturer for item"@,
        ErrorContext::SetManufacturerSearch =>
            "Failed to set manufacturer search field value for current item"@,
    }
}

impl ErrorContext {
    /// The text shown before an error in this context; while setting all
    /// levels it names the item's position and the core's message.
    pub fn message(&self, error: &ItemEditorError) -> (r: String)
        ensures
            *self matches ErrorContext::SetLevelForItemNumber(i) ==> r@ == context_text(*self)
                + decimal(i as nat) + " - "@ + error.message_text(),
            !(*self is SetLevelForItemNumber) ==> r@ == context_text(*self),
    {
        match self {
            ErrorContext::MapSelectedItem => String::from_str("Failed to map selected item to editor"),
            ErrorContext::MapAfterReverse => String::from_str(
                "Failed to map previously selected item to editor when reversing order",
            ),
            ErrorContext::MapLootlemonItem => String::from_str("Failed to map Lootlemon item to editor"),
            ErrorContext::ShowAllAvailableParts => String::from_str(
                "Failed to map item to editor when showing all available parts",
            ),
            ErrorContext::FilterAvailableParts => String::from_str(
                "Failed to map item to editor when showing filtered available parts/anointments",
            ),
            ErrorContext::ShowAvailableParts => String::from_str(
                "Failed to map item to editor when showing available parts",
            ),
            ErrorContext::ShowAvailableAnointments => String::from_str(
                "Failed to map item to editor when showing available anointments",
            ),
            ErrorContext::AddPart => String::from_str("Failed to add part to item"),
            ErrorContext::MapAfterAddPart => String::from_str(
                "Failed to map item to editor after adding part to item",
            ),
            ErrorContext::AddAnointment => String::from_str("Failed to add anointment to item"),
            ErrorContext::MapAfterAddAnointment => String::from_str(
                "Failed to map item to editor after adding anointment to item",
            ),
            ErrorContext::FilterCurrentParts => String::from_str(
                "Failed to map item to editor when showing filtered current parts/anointments",
            ),
            ErrorContext::ViewCurrentParts => String::from_str("Failed to view current parts"),
            ErrorContext::ViewCurrentAnointments => String::from_str(
                "Failed to view current anointments",
            ),
            ErrorContext::ReorderCurrentParts => String::from_str("Failed to reorder current parts"),
            ErrorContext::MovePartUp => String::from_str("Failed to move selected part up"),
            ErrorContext::MovePartDown => String::from_str("Failed to move selected part down"),
            ErrorContext::MovePartTop => String::from_str("Failed to move selected part to top"),
            ErrorContext::MovePartBottom => String::from_str(
                "Failed to move selected part to bottom",
            ),
            ErrorContext::RemovePart => String::from_str("Failed to remove part from item"),
            ErrorContext::MapAfterRemovePart => String::from_str(
                "Failed to map item with removed part to editor",
            ),
            ErrorContext::SelectPartToReorder => String::from_str("Failed to select part to reorder"),
            ErrorContext::RemoveAnointment => String::from_str(
                "Failed to remove anointment from item",
            ),
            ErrorContext::MapAfterRemoveAnointment => String::from_str(
                "Failed to map item to editor after removing anointment from item",
            ),
            ErrorContext::MapCreatedItem => String::from_str("Failed map created item to editor"),
            ErrorContext::MapImportedItem => String::from_str(
                "Failed to map imported item to editor",
            ),
            ErrorContext::ImportSerial => String::from_str("Failed to import serial"),
            ErrorContext::SetLevelForItemNumber(i) => String::from_str(
                "Failed to set level for item number: ",
            ).concat(crate::text::usize_to_string(*i).as_str()).concat(" - ").concat(
                error.message().as_str(),
            ),
            ErrorContext::MapAfterAllLevels => String::from_str(
                "Failed to map previously selected item to editor after updating all item levels",
            ),
            ErrorContext::SetItemLevel => String::from_str("Failed to set level for item"),
            ErrorContext::MapAfterDelete => String::from_str(
                "Failed to select an item to show in editor after deleting item",
            ),
            ErrorContext::MapDuplicatedItem => String::from_str(
                "Failed to map duplicated item to editor",
            ),
            ErrorContext::SetBalance => String::from_str("Failed to set balance for item"),
            ErrorContext::SetBalanceSearch => String::from_str(
                "Failed to set balance search field value for current item",
            ),
            ErrorContext::SetInvData => String::from_str("Failed to set inventory data for item"),
            ErrorContext::SetInvDataSearch => String::from_str(
                "Failed to set inventory data search field value for current item",
            ),
            ErrorContext::SetManufacturer => String::from_str("Failed to set manufacturer for item"),
            ErrorContext::SetManufacturerSearch => String::from_str(
                "Failed to set manufacturer search field value for current item",
            ),
        }
    }
}

/// An error to report to the user, with what the editor was doing.
#[derive(Debug)]
pub struct UiError {
    pub context: ErrorContext,
    pub error: ItemEditorError,
}

#[derive(Debug, Clone, Copy, PartialEq, Eq, Structural)]
pub enum NotificationSentiment {
    Positive,
    Negative,
}

/// A message shown to the user.
#[derive(Debug)]
pub struct Notification {
    pub message: String,
    pub sentiment: NotificationSentiment,
}

/// Work for the toolkit's runtime.
#[derive(Debug)]
pub enum ItemEditorCommand {
    /// Open the given Lootlemon page in the browser.
    OpenWebsite(String),
}

/// A change to the widgets, made in order.
#[derive(Debug, Clone, Copy, PartialEq, Eq, Structural)]
pub enum UiEffect {
    SnapItemList(ScrollEdge),
    FocusItemSearch,
    FocusLootlemonSearch,
    /// Scroll the available-parts panel of the entry at the position.
    SnapAvailableParts(usize, ScrollEdge),
    FocusAvailablePartsSearch(usize),
    /// Scroll the current-parts panel of the entry at the position.
    SnapCurrentParts(usize, ScrollEdge),
    FocusCurrentPartsSearch(usize),
    /// Rebuild the editor panel of the entry at the position from its item;
    /// a failure is reported in the given context.
    MapItemToEditor(usize, ErrorContext),
    /// Take the item at the position out of the open save or profile bank.
    RemoveItemFromFile(usize),
}

/// A direction in which the selected part of an item is moved.
#[derive(Debug, Clone, Copy, PartialEq, Eq, Structural)]
pub enum PartMove {
    Up,
    Down,
    Top,
    Bottom,
}

/// Where a serial to decode came from.
#[derive(Debug, Clone, Copy, PartialEq, Eq, Structural)]
pub enum SerialOrigin {
    /// The template of a new item.
    Created,
    /// The serial the user typed in.
    Imported,
}

/// Which chosen part of an item is set.
#[derive(Debug, Clone, Copy, PartialEq, Eq, Structural)]
pub enum ItemField {
    Balance,
    InvData,
    Manufacturer,
}

/// Work on items that only the save editor's core can do.
#[derive(Debug)]
pub enum CoreRequest {
    /// Look the named part up under `part_inv_key` and add it to the item
    /// (as an anointment if `anointment`); then select `select` in the panel.
    AddPart {
        item_index: usize,
        part_inv_key: String,
        part_name: String,
        select: AvailablePartTypeIndex,
        anointment: bool,
    },
    /// Take the named part (or anointment) off the item.
    RemovePart { item_index: usize, part_name: String, anointment: bool },
    /// Move the part at `part_index` of the item; the reply says where it went.
    MovePart { item_index: usize, direction: PartMove, part_index: usize },
    /// Rebuild the editor panel of the entry whose part was just moved; on
    /// success the move is finished.
    MapMovedPart { item_index: usize, direction: PartMove },
    /// Set the level of the item.
    SetLevel { item_index: usize, level: usize },
    /// Set the level of the item, one step of setting all levels.
    SetAllLevels { item_index: usize, level: usize },
    /// Set a chosen part of the item, named by its identifier.
    SetField { item_index: usize, field: ItemField, value: String },
    /// Decode a serial into an item.
    ParseSerial { serial: String, origin: SerialOrigin },
}

/// What the save editor's core gave back for a request.
#[derive(Debug)]
pub enum CoreReply {
    /// The item as it now is (or as decoded).
    Updated(Bl3Item),
    /// The item after a move, and where the moved part now is.
    Moved(Bl3Item, usize),
    /// The part to add is not in the core's database.
    PartNotFound,
    /// The entry's editor panel was rebuilt.
    Mapped,
    /// The core's error message.
    Failed(String),
}

/// What handling a message asks for.
#[derive(Debug)]
pub struct ItemEditorInteractionResponse {
    pub notification: Option<Notification>,
    pub error: Option<UiError>,
    pub command: Option<ItemEditorCommand>,
    pub effects: Vec<UiEffect>,
    pub request: Option<CoreRequest>,
}

/// Nothing is asked for.
pub open spec fn is_quiet(r: ItemEditorInteractionResponse) -> bool {
    &&& r.notification is None
    &&& r.error is None
    &&& r.command is None
    &&& r.effects@ == Seq::<UiEffect>::empty()
    &&& r.request is None
}

/// Only the effects `e` are asked for.
pub open spec fn only_effects(r: ItemEditorInteractionResponse, e: Seq<UiEffect>) -> bool {
    &&& r.notification is None
    &&& r.error is None
    &&& r.command is None
    &&& r.effects@ == e
    &&& r.request is None
}

/// The effects `e` are asked for, and then the error is reported.
pub open spec fn effects_then_error(
    r: ItemEditorInteractionResponse,
    e: Seq<UiEffect>,
    context: ErrorContext,
    error: ItemEditorError,
) -> bool {
    &&& r.notification is None
    &&& r.error == Some(UiError { context, error })
    &&& r.command is None
    &&& r.effects@ == e
    &&& r.request is None
}

/// Only the error is reported.
pub open spec fn only_error(
    r: ItemEditorInteractionResponse,
    context: ErrorContext,
    error: ItemEditorError,
) -> bool {
    effects_then_error(r, Seq::empty(), context, error)
}

/// Only a negative notification with the given text is asked for.
pub open spec fn only_notification(r: ItemEditorInteractionResponse, text: Seq<char>) -> bool {
    &&& r.notification matches Some(n) && n.message@ == text && n.sentiment
        == NotificationSentiment::Negative
    &&& r.error is None
    &&& r.command is None
    &&& r.effects@ == Seq::<UiEffect>::empty()
    &&& r.request is None
}

/// Only the request is asked for.
pub open spec fn only_request(r: ItemEditorInteractionResponse, req: CoreRequest) -> bool {
    &&& r.notification is None
    &&& r.error is None
    &&& r.command is None
    &&& r.effects@ == Seq::<UiEffect>::empty()
    &&& r.request == Some(req)
}

impl ItemEditorInteractionResponse {
    pub fn quiet() -> (r: Self)
        ensures
            is_quiet(r),
    {
        ItemEditorInteractionResponse {
            notification: None,
            error: None,
            command: None,
            effects: Vec::new(),
            request: None,
        }
    }

    pub fn with_effects(effects: Vec<UiEffect>) -> (r: Self)
        ensures
            only_effects(r, effects@),
    {
        ItemEditorInteractionResponse {
            notification: None,
            error: None,
            command: None,
            effects,
            request: None,
        }
    }

    pub fn effects_then_error(
        effects: Vec<UiEffect>,
        context: ErrorContext,
        error: ItemEditorError,
    ) -> (r: Self)
        ensures
            effects_then_error(r, effects@, context, error),
    {
        ItemEditorInteractionResponse {
            notification: None,
            error: Some(UiError { context, error }),
            command: None,
            effects,
            request: None,
        }
    }

    pub fn error(context: ErrorContext, error: ItemEditorError) -> (r: Self)
        ensures
            only_error(r, context, error),
    {
        ItemEditorInteractionResponse {
            notification: None,
            error: Some(UiError { context, error }),
            command: None,
            effects: Vec::new(),
            request: None,
        }
    }

    pub fn negative(message: String) -> (r: Self)
        ensures
            only_notification(r, message@),
    {
        ItemEditorInteractionResponse {
            notification: Some(
                Notification { message, sentiment: NotificationSentiment::Negative },
            ),
            error: None,
            command: None,
            effects: Vec::new(),
            request: None,
        }
    }

    pub fn request(req: CoreRequest) -> (r: Self)
        ensures
            only_request(r, req),
    {
        ItemEditorInteractionResponse {
            notification: None,
            error: None,
            command: None,
            effects: Vec::new(),
            request: Some(req),
        }
    }
}

} // verus!
