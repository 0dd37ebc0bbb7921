use bl3_save_edit_ui::button_style::{ButtonStyle, ItemEditorButtonStyle, Rgb8};
use bl3_save_edit_ui::interaction::ItemEditorInteractionMessage as Msg;
use bl3_save_edit_ui::item::{
    AvailablePartTypeIndex, BalancePart, Bl3Item, CurrentPartTypeIndex, ItemEditorLootlemonItems,
    ItemParts, ManufacturerPart,
};
use bl3_save_edit_ui::response::{
    CoreReply, CoreRequest, ErrorContext, ItemEditorCommand, ItemEditorInteractionResponse,
    ItemField, PartMove, ScrollEdge, SerialOrigin, UiEffect,
};
use bl3_save_edit_ui::state::{ItemEditorError, ItemEditorState, ItemEditorStateExt, ItemLimits};
use bl3_save_edit_ui::tab_type::ItemListTabType;
use bl3_save_edit_ui::view_model::{view_model, ItemListBody, ReverseOrderIcon};

fn item(name: &str, level: usize) -> Bl3Item {
    Bl3Item {
        serial: format!("BL3({})", name),
        balance_part: BalancePart { name: Some(name.to_string()), short_ident: None },
        manufacturer_part: ManufacturerPart { short_ident: Some("Jakobs".to_string()) },
        level,
        item_parts: Some(ItemParts {
            part_inv_key: "BPInvPart_PS_JAK_C".to_string(),
            item_type: "Weapon".to_string(),
            rarity: "Legendary".to_string(),
            weapon_type: Some("Pistol".to_string()),
            part_count: 3,
            generic_part_count: 0,
        }),
    }
}

fn state_with(names: &[&str]) -> ItemEditorState {
    let catalogue = ItemEditorLootlemonItems::from_entries(vec![
        ("https://www.lootlemon.com/weapon/maggie-bl3".to_string(), item("Maggie", 60)),
        ("https://www.lootlemon.com/weapon/hellwalker-bl3".to_string(), item("Hellwalker", 60)),
    ]);
    let mut s = ItemEditorState::new(catalogue, ItemLimits { max_item_parts: 4, max_item_anointments: 1 });
    for (i, n) in names.iter().enumerate() {
        s.add_item(item(n, i + 1));
    }
    s
}

fn names(s: &mut ItemEditorState) -> Vec<String> {
    s.items().iter().map(|e| e.item.balance_part.name.clone().unwrap()).collect()
}

fn notification_text(r: &ItemEditorInteractionResponse) -> String {
    r.notification.as_ref().unwrap().message.clone()
}

fn error_of(r: &ItemEditorInteractionResponse) -> (ErrorContext, String) {
    let e = r.error.as_ref().unwrap();
    (e.context, e.error.message())
}

#[test]
fn button_styles_light_up_the_selected_entry() {
    let grey = |l: u8| Rgb8 { r: l, g: l, b: l };
    assert_eq!(
        ItemEditorButtonStyle { is_active: true }.active(),
        ButtonStyle { background: Some(grey(30)), text_color: grey(255), border_width: 0 }
    );
    assert_eq!(
        ItemEditorButtonStyle { is_active: false }.active(),
        ButtonStyle { background: Some(grey(22)), text_color: grey(220), border_width: 0 }
    );
    assert_eq!(ItemEditorButtonStyle { is_active: false }.hovered().background, Some(grey(30)));
    assert_eq!(ItemEditorButtonStyle { is_active: true }.pressed().background, Some(grey(25)));
    assert_eq!(ItemEditorButtonStyle { is_active: true }.pressed().text_color, grey(220));
}

#[test]
fn tab_type_defaults_to_items() {
    assert_eq!(ItemListTabType::default(), ItemListTabType::Items);
    assert_eq!(ItemListTabType::Items.label(), "Items");
    assert_eq!(ItemListTabType::Lootlemon.label(), "Lootlemon Items");
}

#[test]
fn new_state_starts_empty_at_level_one() {
    let mut s = state_with(&[]);
    assert_eq!(s.all_item_levels_input, 1);
    assert_eq!(s.selected_item_index, 0);
    assert!(s.items().is_empty());
    assert_eq!(s.lootlemon_items.items.len(), 2);
    assert_eq!(s.lootlemon_items.items[1].index, 1);
    assert_eq!(s.lootlemon_items.items[1].link, "https://www.lootlemon.com/weapon/hellwalker-bl3");
}

#[test]
fn insert_and_remove_ignore_positions_past_the_end() {
    let mut s = state_with(&["A", "B"]);
    s.insert_item(2, item("C", 3));
    assert_eq!(names(&mut s), vec!["A", "B"]);
    s.insert_item(1, item("C", 3));
    assert_eq!(names(&mut s), vec!["A", "C", "B"]);
    s.remove_item(5);
    assert_eq!(names(&mut s), vec!["A", "C", "B"]);
    s.remove_item(0);
    assert_eq!(names(&mut s), vec!["C", "B"]);
    s.items_mut().clear();
    assert!(s.items().is_empty());
}

#[test]
fn reversing_keeps_the_selected_item() {
    let mut s = state_with(&["A", "B", "C", "D"]);
    s.selected_item_index = 1;
    let r = Msg::ItemListReverseOrderPressed.update_state(&mut s);
    assert_eq!(names(&mut s), vec!["D", "C", "B", "A"]);
    assert_eq!(s.selected_item_index, 2);
    assert!(s.item_list_is_reverse_order);
    assert_eq!(r.effects, vec![UiEffect::MapItemToEditor(2, ErrorContext::MapAfterReverse)]);
    Msg::ItemListReverseOrderPressed.update_state(&mut s);
    assert_eq!(names(&mut s), vec!["A", "B", "C", "D"]);
    assert_eq!(s.selected_item_index, 1);
    assert!(!s.item_list_is_reverse_order);
}

#[test]
fn pressing_an_item_selects_it() {
    let mut s = state_with(&["A", "B"]);
    s.items_mut()[1].editor.available_parts.part_type_index =
        AvailablePartTypeIndex { category_index: 2, part_index: 3 };
    let r = Msg::ItemPressed(1).update_state(&mut s);
    assert_eq!(s.selected_item_index, 1);
    assert_eq!(
        s.items()[1].editor.available_parts.part_type_index,
        AvailablePartTypeIndex { category_index: 0, part_index: 0 }
    );
    assert_eq!(r.effects, vec![UiEffect::MapItemToEditor(1, ErrorContext::MapSelectedItem)]);
    let r = Msg::ItemPressed(7).update_state(&mut s);
    assert_eq!(s.selected_item_index, 7);
    assert_eq!(
        error_of(&r),
        (ErrorContext::MapSelectedItem, "couldn't get item for index: 7".to_string())
    );
    assert_eq!(ErrorContext::MapSelectedItem.message(&r.error.unwrap().error), "Failed to map selected item to editor");
}

#[test]
fn searches_are_stored_lowercased() {
    let mut s = state_with(&["A"]);
    Msg::ItemsSearchInputChanged("MAGGIE".to_string()).update_state(&mut s);
    assert_eq!(s.search_items_input, "maggie");
    Msg::ItemsLootLemonSearchInputChanged("HellWalker".to_string()).update_state(&mut s);
    assert_eq!(s.search_lootlemon_items_input, "hellwalker");
    let r = Msg::AvailablePartsSearchInputChanged("Barrel".to_string()).update_state(&mut s);
    assert_eq!(s.items()[0].editor.available_parts.search_input, "barrel");
    assert_eq!(r.effects, vec![UiEffect::MapItemToEditor(0, ErrorContext::FilterAvailableParts)]);
    Msg::CurrentPartsSearchInputChanged("Grip".to_string()).update_state(&mut s);
    assert_eq!(s.items()[0].editor.current_parts.search_input, "grip");
}

#[test]
fn part_pickers_ignore_searches_over_five_hundred_bytes() {
    let mut s = state_with(&["A"]);
    Msg::BalanceSearchInputChanged("Mag".to_string()).update_state(&mut s);
    assert_eq!(s.items()[0].editor.balance_search_input, "mag");
    let long = "x".repeat(501);
    let r = Msg::BalanceSearchInputChanged(long).update_state(&mut s);
    assert_eq!(s.items()[0].editor.balance_search_input, "mag");
    assert!(r.effects.is_empty() && r.error.is_none());
    Msg::InvDataSearchInputChanged("x".repeat(500)).update_state(&mut s);
    assert_eq!(s.items()[0].editor.inv_data_search_input.len(), 500);
    Msg::ManufacturerSearchInputChanged("JAKOBS".to_string()).update_state(&mut s);
    assert_eq!(s.items()[0].editor.manufacturer_search_input, "jakobs");
}

#[test]
fn tabs_of_the_panels_clear_their_search() {
    let mut s = state_with(&["A"]);
    Msg::AvailablePartsSearchInputChanged("barrel".to_string()).update_state(&mut s);
    let r = Msg::AvailableAnointmentsTabPressed.update_state(&mut s);
    assert_eq!(s.items()[0].editor.available_parts.search_input, "");
    assert_eq!(
        r.effects,
        vec![
            UiEffect::SnapAvailableParts(0, ScrollEdge::Top),
            UiEffect::FocusAvailablePartsSearch(0),
            UiEffect::MapItemToEditor(0, ErrorContext::ShowAvailableAnointments),
        ]
    );
    Msg::ReorderCurrentPartsSelected(true).update_state(&mut s);
    assert!(s.items()[0].editor.current_parts.reorder_parts);
    Msg::CurrentPartsTabPressed.update_state(&mut s);
    assert!(!s.items()[0].editor.current_parts.reorder_parts);
}

#[test]
fn list_tabs_switch_and_focus_their_search() {
    let mut s = state_with(&[]);
    let r = Msg::ItemListLootlemonTabPressed.update_state(&mut s);
    assert_eq!(s.item_list_tab_type, ItemListTabType::Lootlemon);
    assert_eq!(r.effects, vec![UiEffect::FocusLootlemonSearch]);
    let r = Msg::ItemListItemTabPressed.update_state(&mut s);
    assert_eq!(s.item_list_tab_type, ItemListTabType::Items);
    assert_eq!(r.effects, vec![UiEffect::FocusItemSearch]);
}

#[test]
fn importing_from_lootlemon_adds_and_selects_the_item() {
    let mut s = state_with(&["A"]);
    let r = Msg::ItemListLootlemonImportPressed(1).update_state(&mut s);
    assert_eq!(names(&mut s), vec!["A", "Hellwalker"]);
    assert_eq!(s.selected_item_index, 1);
    assert_eq!(
        r.effects,
        vec![
            UiEffect::SnapItemList(ScrollEdge::Bottom),
            UiEffect::MapItemToEditor(1, ErrorContext::MapLootlemonItem),
            UiEffect::FocusLootlemonSearch,
        ]
    );
    let r = Msg::ItemListLootlemonImportPressed(9).update_state(&mut s);
    assert_eq!(
        notification_text(&r),
        "Failed to import item from Lootlemon: couldn't find an item with index 9."
    );
}

#[test]
fn importing_into_a_reversed_list_puts_the_item_on_top() {
    let mut s = state_with(&["A", "B"]);
    s.item_list_is_reverse_order = true;
    let r = Msg::ItemListLootlemonImportPressed(0).update_state(&mut s);
    assert_eq!(names(&mut s), vec!["Maggie", "A", "B"]);
    assert_eq!(s.selected_item_index, 0);
    assert_eq!(r.effects[0], UiEffect::SnapItemList(ScrollEdge::Top));
    // A reversed empty list takes no item, and the mapping then fails.
    let mut empty = state_with(&[]);
    empty.item_list_is_reverse_order = true;
    let r = Msg::ItemListLootlemonImportPressed(0).update_state(&mut empty);
    assert!(empty.items().is_empty());
    assert_eq!(error_of(&r).0, ErrorContext::MapLootlemonItem);
}

#[test]
fn opening_the_lootlemon_page() {
    let mut s = state_with(&[]);
    let r = Msg::ItemListLootlemonOpenWebsitePressed(0).update_state(&mut s);
    match r.command {
        Some(ItemEditorCommand::OpenWebsite(link)) => {
            assert_eq!(link, "https://www.lootlemon.com/weapon/maggie-bl3")
        }
        None => panic!("no command"),
    }
    let r = Msg::ItemListLootlemonOpenWebsitePressed(2).update_state(&mut s);
    assert_eq!(
        notification_text(&r),
        "Failed to open Lootlemon Website: couldn't find an item with index 2."
    );
    let r = Msg::ItemListLootlemonOpenWebsiteCompleted(Err("no browser".to_string())).update_state(&mut s);
    assert_eq!(notification_text(&r), "Failed to open Lootlemon Website: no browser.");
    let r = Msg::ItemListLootlemonOpenWebsiteCompleted(Ok(())).update_state(&mut s);
    assert!(r.notification.is_none());
}

#[test]
fn creating_an_item_decodes_the_template_then_adds_it() {
    let mut s = state_with(&["A"]);
    s.item_list_tab_type = ItemListTabType::Lootlemon;
    let r = Msg::CreateItemPressed.update_state(&mut s);
    let req = r.request.unwrap();
    match &req {
        CoreRequest::ParseSerial { serial, origin } => {
            assert_eq!(serial, "BL3(BAAAAAD2aoA+P1vAEgA=)");
            assert_eq!(*origin, SerialOrigin::Created);
        }
        _ => panic!("wrong request"),
    }
    let r = req.complete(&mut s, CoreReply::Updated(item("New", 1)));
    assert_eq!(names(&mut s), vec!["A", "New"]);
    assert_eq!(s.selected_item_index, 1);
    assert_eq!(s.item_list_tab_type, ItemListTabType::Items);
    assert_eq!(
        r.effects,
        vec![
            UiEffect::SnapItemList(ScrollEdge::Bottom),
            UiEffect::FocusItemSearch,
            UiEffect::MapItemToEditor(1, ErrorContext::MapCreatedItem),
        ]
    );
}

#[test]
fn importing_a_serial_trims_it_and_reports_failures() {
    let mut s = state_with(&[]);
    Msg::ImportSerialInputChanged("  BL3(AwAAAAB=)\n".to_string()).update_state(&mut s);
    let r = Msg::ImportItemFromSerialPressed.update_state(&mut s);
    let req = r.request.unwrap();
    match &req {
        CoreRequest::ParseSerial { serial, origin } => {
            assert_eq!(serial, "BL3(AwAAAAB=)");
            assert_eq!(*origin, SerialOrigin::Imported);
        }
        _ => panic!("wrong request"),
    }
    let r = req.complete(&mut s, CoreReply::Failed("invalid serial".to_string()));
    assert_eq!(error_of(&r), (ErrorContext::ImportSerial, "invalid serial".to_string()));
    assert!(s.items().is_empty());
}

#[test]
fn deleting_moves_the_selection_up() {
    let mut s = state_with(&["A", "B", "C"]);
    s.selected_item_index = 2;
    let r = Msg::DeleteItem(1).update_state(&mut s);
    assert_eq!(names(&mut s), vec!["A", "C"]);
    assert_eq!(s.selected_item_index, 1);
    assert_eq!(
        r.effects,
        vec![
            UiEffect::RemoveItemFromFile(1),
            UiEffect::MapItemToEditor(1, ErrorContext::MapAfterDelete),
        ]
    );
    s.selected_item_index = 0;
    Msg::DeleteItem(0).update_state(&mut s);
    assert_eq!(names(&mut s), vec!["C"]);
    assert_eq!(s.selected_item_index, 0);
}

#[test]
fn duplicating_copies_the_item() {
    let mut s = state_with(&["A", "B"]);
    s.selected_item_index = 0;
    Msg::DuplicateItem(0).update_state(&mut s);
    assert_eq!(names(&mut s), vec!["A", "B", "A"]);
    assert_eq!(s.selected_item_index, 2);
    assert_eq!(s.items()[2].item.serial, "BL3(A)");
    let r = Msg::DuplicateItem(5).update_state(&mut s);
    assert_eq!(
        notification_text(&r),
        "Failed to duplicate item number 5: could not find this item to duplicate."
    );
}

#[test]
fn adding_a_part_asks_the_core_and_selects_it() {
    let mut s = state_with(&["A"]);
    s.items_mut()[0].editor.available_parts.parts = vec![vec!["Barrel_01".to_string(), "Barrel_02".to_string()]];
    s.items_mut()[0].editor.current_parts.reorder_parts = true;
    let index = AvailablePartTypeIndex { category_index: 0, part_index: 1 };
    let r = Msg::AvailablePartPressed(index).update_state(&mut s);
    let req = r.request.unwrap();
    match &req {
        CoreRequest::AddPart { item_index, part_inv_key, part_name, select, anointment } => {
            assert_eq!(*item_index, 0);
            assert_eq!(part_inv_key, "BPInvPart_PS_JAK_C");
            assert_eq!(part_name, "Barrel_02");
            assert_eq!(*select, index);
            assert!(!anointment);
        }
        _ => panic!("wrong request"),
    }
    let mut changed = item("A", 1);
    changed.item_parts.as_mut().unwrap().part_count = 4;
    let r = req.complete(&mut s, CoreReply::Updated(changed));
    assert_eq!(s.items()[0].item.item_parts.as_ref().unwrap().part_count, 4);
    assert_eq!(s.items()[0].editor.available_parts.part_type_index, index);
    assert_eq!(
        r.effects,
        vec![
            UiEffect::SnapCurrentParts(0, ScrollEdge::Bottom),
            UiEffect::MapItemToEditor(0, ErrorContext::MapAfterAddPart),
        ]
    );
    // The item is full now: nothing more is asked.
    let r = Msg::AvailablePartPressed(index).update_state(&mut s);
    assert!(r.request.is_none() && r.error.is_none());
    // A place with no part asks nothing either.
    let r = Msg::AvailableAnointmentPressed(AvailablePartTypeIndex { category_index: 3, part_index: 0 })
        .update_state(&mut s);
    assert!(r.request.is_none());
}

#[test]
fn adding_an_anointment_uses_the_generic_part_key() {
    let mut s = state_with(&["A"]);
    s.items_mut()[0].editor.available_parts.parts = vec![vec!["Anoint_01".to_string()]];
    let index = AvailablePartTypeIndex { category_index: 0, part_index: 0 };
    let r = Msg::AvailableAnointmentPressed(index).update_state(&mut s);
    let req = r.request.unwrap();
    match &req {
        CoreRequest::AddPart { part_inv_key, anointment, .. } => {
            assert_eq!(part_inv_key, "InventoryGenericPartData");
            assert!(*anointment);
        }
        _ => panic!("wrong request"),
    }
    let r = req.complete(&mut s, CoreReply::PartNotFound);
    assert!(r.effects.is_empty() && r.error.is_none());
}

#[test]
fn removing_a_part_or_selecting_it_for_reordering() {
    let mut s = state_with(&["A"]);
    s.items_mut()[0].editor.current_parts.parts = vec![vec!["Grip_01".to_string()]];
    let index = CurrentPartTypeIndex { category_index: 0, part_index: 0 };
    let r = Msg::CurrentPartPressed(false, index).update_state(&mut s);
    let req = r.request.unwrap();
    match &req {
        CoreRequest::RemovePart { item_index, part_name, anointment } => {
            assert_eq!((*item_index, part_name.as_str(), *anointment), (0, "Grip_01", false));
        }
        _ => panic!("wrong request"),
    }
    let r = req.complete(&mut s, CoreReply::Failed("part is required".to_string()));
    assert_eq!(error_of(&r), (ErrorContext::RemovePart, "part is required".to_string()));
    let sel = CurrentPartTypeIndex { category_index: 0, part_index: 0 };
    let r = Msg::CurrentPartPressed(true, sel).update_state(&mut s);
    assert!(r.request.is_none());
    assert_eq!(r.effects, vec![UiEffect::MapItemToEditor(0, ErrorContext::SelectPartToReorder)]);
}

#[test]
fn moving_a_part_records_where_it_went() {
    let mut s = state_with(&["A"]);
    s.items_mut()[0].editor.current_parts.part_type_index = CurrentPartTypeIndex { category_index: 1, part_index: 2 };
    s.items_mut()[0].editor.current_parts.search_input = "grip".to_string();
    let r = Msg::ReorderCurrentPartsMoveTopPressed.update_state(&mut s);
    let req = r.request.unwrap();
    match &req {
        CoreRequest::MovePart { item_index, direction, part_index } => {
            assert_eq!((*item_index, *direction, *part_index), (0, PartMove::Top, 2));
        }
        _ => panic!("wrong request"),
    }
    let r = req.complete(&mut s, CoreReply::Moved(item("A", 1), 0));
    let cp = &s.items()[0].editor.current_parts;
    assert_eq!(cp.part_type_index, CurrentPartTypeIndex { category_index: 1, part_index: 0 });
    // The search is cleared only once the panel was rebuilt.
    assert_eq!(cp.search_input, "grip");
    assert!(r.effects.is_empty());
    let remap = r.request.unwrap();
    match &remap {
        CoreRequest::MapMovedPart { item_index, direction } => {
            assert_eq!((*item_index, *direction), (0, PartMove::Top));
        }
        _ => panic!("wrong request"),
    }
    let r = remap.complete(&mut s, CoreReply::Mapped);
    assert_eq!(s.items()[0].editor.current_parts.search_input, "");
    assert_eq!(r.effects, vec![UiEffect::SnapCurrentParts(0, ScrollEdge::Top)]);
    // A failed rebuild is reported in the move's context and clears nothing.
    s.items_mut()[0].editor.current_parts.search_input = "barrel".to_string();
    let failed = CoreRequest::MapMovedPart { item_index: 0, direction: PartMove::Down };
    let r = failed.complete(&mut s, CoreReply::Failed("no such part".to_string()));
    assert_eq!(error_of(&r), (ErrorContext::MovePartDown, "no such part".to_string()));
    assert_eq!(s.items()[0].editor.current_parts.search_input, "barrel");
    assert!(r.effects.is_empty());
    let mut none = state_with(&[]);
    let r = Msg::ReorderCurrentPartsMoveUpPressed.update_state(&mut none);
    assert_eq!(error_of(&r), (ErrorContext::MovePartUp, "couldn't get item for index: 0".to_string()));
}

#[test]
fn setting_all_levels_goes_item_by_item() {
    let mut s = state_with(&["A", "B"]);
    Msg::AllItemLevel(50).update_state(&mut s);
    let r = Msg::SetAllItemLevelsPressed.update_state(&mut s);
    let req = r.request.unwrap();
    match &req {
        CoreRequest::SetAllLevels { item_index, level } => assert_eq!((*item_index, *level), (0, 50)),
        _ => panic!("wrong request"),
    }
    let r = req.complete(&mut s, CoreReply::Updated(item("A", 50)));
    let req = r.request.unwrap();
    match &req {
        CoreRequest::SetAllLevels { item_index, level } => assert_eq!((*item_index, *level), (1, 50)),
        _ => panic!("wrong request"),
    }
    let r = req.complete(&mut s, CoreReply::Failed("level too high".to_string()));
    let e = r.error.unwrap();
    assert_eq!(e.context, ErrorContext::SetLevelForItemNumber(1));
    assert_eq!(
        e.context.message(&e.error),
        "Failed to set level for item number: 1 - level too high"
    );
    assert_eq!(s.items()[0].item.level, 50);
    assert_eq!(s.items()[1].item.level, 2);
    let last = CoreRequest::SetAllLevels { item_index: 1, level: 50 };
    let r = last.complete(&mut s, CoreReply::Updated(item("B", 50)));
    assert_eq!(r.effects, vec![UiEffect::MapItemToEditor(0, ErrorContext::MapAfterAllLevels)]);
    let mut none = state_with(&[]);
    let r = Msg::SetAllItemLevelsPressed.update_state(&mut none);
    assert_eq!(error_of(&r).0, ErrorContext::MapAfterAllLevels);
}

#[test]
fn level_and_picker_changes_go_to_the_core() {
    let mut s = state_with(&["A"]);
    let r = Msg::ItemLevel(-1).update_state(&mut s);
    match r.request.unwrap() {
        CoreRequest::SetLevel { item_index, level } => {
            assert_eq!(item_index, 0);
            assert_eq!(level, usize::MAX);
        }
        _ => panic!("wrong request"),
    }
    let r = Msg::BalanceInputSelected("Bal_PS_JAK_Maggie".to_string()).update_state(&mut s);
    let req = r.request.unwrap();
    match &req {
        CoreRequest::SetField { item_index, field, value } => {
            assert_eq!((*item_index, *field, value.as_str()), (0, ItemField::Balance, "Bal_PS_JAK_Maggie"));
        }
        _ => panic!("wrong request"),
    }
    let r = req.complete(&mut s, CoreReply::Updated(item("Maggie", 1)));
    assert_eq!(s.items()[0].item.balance_part.name.as_deref(), Some("Maggie"));
    assert_eq!(r.effects, vec![UiEffect::MapItemToEditor(0, ErrorContext::SetBalance)]);
    s.selected_item_index = 4;
    let r = Msg::ManufacturerInputSelected("Jakobs".to_string()).update_state(&mut s);
    assert_eq!(error_of(&r).0, ErrorContext::SetManufacturer);
}

#[test]
fn replies_for_items_no_longer_listed_are_reported() {
    let mut s = state_with(&["A"]);
    let req = CoreRequest::SetLevel { item_index: 3, level: 2 };
    let r = req.complete(&mut s, CoreReply::Updated(item("A", 2)));
    assert_eq!(error_of(&r), (ErrorContext::SetItemLevel, "couldn't get item for index: 3".to_string()));
    assert_eq!(s.items()[0].item.level, 1);
}

#[test]
fn trait_methods_on_the_selected_entry() {
    let mut s = state_with(&["A"]);
    assert_eq!(s.map_current_item_if_exists_to_editor_state().ok(), Some(0));
    match s.map_current_item_if_exists_result(Err("bad".to_string())) {
        Err(ItemEditorError::Core(m)) => assert_eq!(m, "bad"),
        _ => panic!("expected the core's error"),
    }
    assert_eq!(s.map_current_item_if_exists_result(Ok(item("Z", 9))).ok(), Some(0));
    assert_eq!(s.items()[0].item.level, 9);
    s.selected_item_index = 1;
    match s.map_current_item_if_exists_to_editor_state() {
        Err(ItemEditorError::NoItemAtIndex(1)) => {}
        _ => panic!("expected a missing item"),
    }
}

#[test]
fn view_model_of_the_items_tab() {
    let mut s = state_with(&[]);
    let v = view_model(&s);
    assert_eq!(v.body, ItemListBody::GetStarted);
    assert!(!v.show_reverse_order_button);
    assert_eq!(v.items_tab_count_label, "(0)");
    assert_eq!(v.editor_index, None);
    assert!(!v.show_search_row);
    assert_eq!(v.active_entry, None);
    s.add_item(item("Maggie", 1));
    s.add_item(item("Flakker", 2));
    s.add_item(item("Maggie", 3));
    s.selected_item_index = 1;
    s.search_items_input = "maggie".to_string();
    let v = view_model(&s);
    assert_eq!(v.visible_entries, vec![0, 2]);
    assert_eq!(v.body, ItemListBody::Entries);
    assert_eq!(v.search_placeholder, "Search 3 items...");
    assert_eq!(v.items_tab_count_label, "(3)");
    assert!(v.show_reverse_order_button);
    assert_eq!(v.reverse_order_icon, ReverseOrderIcon::Down);
    assert_eq!(v.editor_index, Some(1));
    assert!(v.show_search_row);
    // The selected entry is not among those the search finds.
    assert_eq!(v.active_entry, None);
    s.selected_item_index = 2;
    assert_eq!(view_model(&s).active_entry, Some(2));
    s.search_items_input = "nothing".to_string();
    assert_eq!(view_model(&s).body, ItemListBody::NoSearchResults);
}

#[test]
fn view_model_of_the_lootlemon_tab() {
    let mut s = state_with(&["A"]);
    s.item_list_tab_type = ItemListTabType::Lootlemon;
    s.item_list_is_reverse_order = true;
    s.search_lootlemon_items_input = "hell".to_string();
    let v = view_model(&s);
    assert_eq!(v.visible_entries, vec![1]);
    assert_eq!(v.search_placeholder, "Search 2 items...");
    assert!(!v.show_reverse_order_button);
    assert_eq!(v.reverse_order_icon, ReverseOrderIcon::Up);
    assert_eq!(v.editor_index, Some(0));
    assert!(v.show_search_row);
    assert_eq!(v.active_entry, None);
}

#[test]
fn removing_undoes_inserting_and_appending() {
    let mut s = state_with(&["A", "B", "C"]);
    s.selected_item_index = 2;
    s.insert_item(1, item("X", 9));
    s.remove_item(1);
    assert_eq!(names(&mut s), vec!["A", "B", "C"]);
    assert_eq!(s.selected_item_index, 2);
    s.add_item(item("Y", 9));
    s.remove_item(3);
    assert_eq!(names(&mut s), vec!["A", "B", "C"]);
}
