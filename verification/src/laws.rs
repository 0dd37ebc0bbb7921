//! Properties of the item editor that hold across its operations.
use vstd::prelude::*;

use crate::filter::{
    filtered, item_matches, list_items, lootlemon_list_items, numbered, search_texts_of,
    texts_found, SearchTexts,
};
use crate::interaction::{reversed, update_post, ItemEditorInteractionMessage};
use crate::item::{Bl3Item, CurrentPartTypeIndex};
use crate::response::{
    CoreRequest, ErrorContext, ItemEditorInteractionResponse, PartMove, UiEffect,
};
use crate::state::{item_appended, item_inserted, item_removed, ItemEditorState};
use crate::steps::{has_selected, item_added};
use crate::tab_type::ItemListTabType;
use crate::text::{decimal, lowercase_of, seq_contains, title_case_of, trimmed};
use crate::view_model::{shows, ItemEditorViewModel, ItemListBody};

verus! {

broadcast use {vstd::seq_lib::group_seq_properties, vstd::seq_lib::group_filter_ensures};

/// Reversing the item list keeps the same entry selected.
pub proof fn lemma_reverse_keeps_selection(
    old: ItemEditorState,
    new: ItemEditorState,
    r: ItemEditorInteractionResponse,
)
    requires
        old.items@.len() <= usize::MAX,
        has_selected(old),
        reversed(old, new, r),
    ensures
        has_selected(new),
        new.items@[new.selected_item_index as int] == old.items@[old.selected_item_index as int],
{
}

/// Reversing the item list twice gives back the list, its order flag and
/// its selection.
pub proof fn lemma_reverse_twice(
    s0: ItemEditorState,
    s1: ItemEditorState,
    s2: ItemEditorState,
    r1: ItemEditorInteractionResponse,
    r2: ItemEditorInteractionResponse,
)
    requires
        s0.items@.len() <= usize::MAX,
        has_selected(s0),
        reversed(s0, s1, r1),
        reversed(s1, s2, r2),
    ensures
        s2.items@ == s0.items@,
        s2 == (ItemEditorState { items: s2.items, ..s0 }),
{
    assert(s0.items@.reverse().reverse() =~= s0.items@);
    assert(s1.selected_item_index == s0.items@.len() - s0.selected_item_index - 1);
    assert(s2.selected_item_index == s0.selected_item_index);
}

proof fn lemma_filter_all<A>(s: Seq<A>, pred: spec_fn(A) -> bool)
    requires
        forall|i: int| 0 <= i < s.len() ==> pred(#[trigger] s[i]),
    ensures
        s.filter(pred) == s,
    decreases s.len(),
{
    reveal_with_fuel(Seq::<_>::filter, 1);
    if s.len() > 0 {
        lemma_filter_all(s.drop_last(), pred);
        assert(s.drop_last().push(s.last()) =~= s);
    }
}

/// A search text that is empty once trimmed finds every entry, in order.
pub proof fn lemma_blank_search_finds_all(items: Seq<Bl3Item>, query: Seq<char>)
    requires
        trimmed(query).len() == 0,
    ensures
        filtered(items, query) == numbered(items),
{
    lemma_filter_all(numbered(items), |p: (usize, Bl3Item)| item_matches(p.1, query));
}

proof fn lemma_filter_keeps_increasing(s: Seq<(usize, Bl3Item)>, pred: spec_fn((usize, Bl3Item)) -> bool)
    requires
        forall|a: int, b: int| 0 <= a < b < s.len() ==> s[a].0 < s[b].0,
    ensures
        forall|a: int, b: int|
            0 <= a < b < s.filter(pred).len() ==> s.filter(pred)[a].0 < s.filter(pred)[b].0,
    decreases s.len(),
{
    reveal_with_fuel(Seq::<_>::filter, 1);
    if s.len() > 0 {
        let rest = s.drop_last();
        lemma_filter_keeps_increasing(rest, pred);
        let f = rest.filter(pred);
        assert forall|k: int| 0 <= k < f.len() implies f[k].0 < s.last().0 by {
            assert(f.contains(f[k]));
            rest.lemma_filter_contains_rev(pred, f[k]);
            let j = choose|j: int| 0 <= j < rest.len() && rest[j] == f[k];
            assert(s[j] == rest[j]);
        }
    }
}

/// The search finds exactly the entries it matches: each entry it gives is
/// the list's entry at the position it gives and is matched by the query;
/// positions come in increasing order; and every entry the query matches is
/// among them.
pub proof fn lemma_search_finds_exactly(items: Seq<Bl3Item>, query: Seq<char>)
    requires
        items.len() <= usize::MAX,
    ensures
        forall|k: int|
            0 <= k < filtered(items, query).len() ==> {
                let p = #[trigger] filtered(items, query)[k];
                &&& p.0 < items.len()
                &&& p.1 == items[p.0 as int]
                &&& item_matches(p.1, query)
            },
        forall|a: int, b: int|
            0 <= a < b < filtered(items, query).len() ==> filtered(items, query)[a].0 < filtered(
                items,
                query,
            )[b].0,
        forall|i: int|
            0 <= i < items.len() && item_matches(items[i], query) ==> exists|k: int|
                0 <= k < filtered(items, query).len() && #[trigger] filtered(items, query)[k].0
                    == i,
{
    let pred = |p: (usize, Bl3Item)| item_matches(p.1, query);
    let n = numbered(items);
    let f = n.filter(pred);
    assert(f == filtered(items, query));
    assert forall|k: int| 0 <= k < f.len() implies {
        let p = #[trigger] f[k];
        &&& p.0 < items.len()
        &&& p.1 == items[p.0 as int]
        &&& item_matches(p.1, query)
    } by {
        assert(f.contains(f[k]));
        n.lemma_filter_contains_rev(pred, f[k]);
        let j = choose|j: int| 0 <= j < n.len() && n[j] == f[k];
        assert(pred(f[k]));
    }
    assert forall|a: int, b: int| 0 <= a < b < n.len() implies n[a].0 < n[b].0 by {}
    lemma_filter_keeps_increasing(n, pred);
    assert forall|i: int| 0 <= i < items.len() && item_matches(items[i], query) implies exists|k: int|
        0 <= k < f.len() && #[trigger] f[k].0 == i by {
        assert(pred(n[i]));
        n.lemma_filter_contains(pred, i);
        let k = choose|k: int| 0 <= k < f.len() && f[k] == n[i];
        assert(f[k].0 == i);
    }
}

/// An item added to the list is the selected entry, unless the list is
/// reversed and empty (a reversed empty list takes no entry).
pub proof fn lemma_added_item_selected(old: ItemEditorState, new: ItemEditorState, item: Bl3Item)
    requires
        item_added(old, new, item),
        old.items@.len() < usize::MAX,
        !(old.item_list_is_reverse_order && old.items@.len() == 0),
    ensures
        has_selected(new),
        new.items@[new.selected_item_index as int].item == item,
{
    if !old.item_list_is_reverse_order {
        assert(new.items@.last() == new.items@[new.selected_item_index as int]);
    }
}

/// The search looks only at the query without its surrounding whitespace:
/// two queries that trim to the same text find the same entries.
pub proof fn lemma_search_ignores_surrounding_whitespace(
    items: Seq<Bl3Item>,
    q1: Seq<char>,
    q2: Seq<char>,
)
    requires
        trimmed(q1) == trimmed(q2),
    ensures
        filtered(items, q1) == filtered(items, q2),
{
    let p1 = |p: (usize, Bl3Item)| item_matches(p.1, q1);
    let p2 = |p: (usize, Bl3Item)| item_matches(p.1, q2);
    assert(p1 =~= p2);
}

/// Removing the entry at the place where one was just inserted gives back
/// the list and the rest of the page.
pub proof fn lemma_remove_undoes_insert(
    s0: ItemEditorState,
    s1: ItemEditorState,
    s2: ItemEditorState,
    index: usize,
    item: Bl3Item,
)
    requires
        index < s0.items@.len(),
        item_inserted(s0, index, item, s1),
        item_removed(s1, index, s2),
    ensures
        s2.items@ == s0.items@,
        s2 == (ItemEditorState { items: s2.items, ..s0 }),
{
    let a = s0.items@;
    let b = s1.items@;
    assert forall|k: int| 0 <= k < a.len() implies #[trigger] b.remove(index as int)[k] == a[k] by {
        if k < index {
            assert(b.take(index as int)[k] == a.take(index as int)[k]);
        } else {
            assert(b.skip(index + 1)[k - index] == a.skip(index as int)[k - index]);
        }
    }
    assert(b.remove(index as int) =~= a);
}

/// Removing the last entry just after one was appended gives back the list
/// and the rest of the page.
pub proof fn lemma_remove_undoes_append(
    s0: ItemEditorState,
    s1: ItemEditorState,
    s2: ItemEditorState,
    item: Bl3Item,
)
    requires
        s0.items@.len() < usize::MAX,
        item_appended(s0, item, s1),
        item_removed(s1, s0.items@.len() as usize, s2),
    ensures
        s2.items@ == s0.items@,
        s2 == (ItemEditorState { items: s2.items, ..s0 }),
{
    assert(s1.items@.remove(s0.items@.len() as int) =~= s1.items@.drop_last());
}

/// The query (once trimmed) occurs in one of the texts an item is searched
/// by: its lowercased balance name (or, with no name, its lowercased short
/// identifier), its manufacturer in lowercase title case, "level N", or the
/// lowercased item type, rarity or weapon type of its parts section.
pub open spec fn occurs_in_searched_text(item: Bl3Item, q: Seq<char>) -> bool {
    ||| (item.balance_part.name matches Some(n) && seq_contains(lowercase_of(n@), q))
    ||| (item.balance_part.name is None && (item.balance_part.short_ident matches Some(n)
        && seq_contains(lowercase_of(n@), q)))
    ||| (item.manufacturer_part.short_ident matches Some(m) && seq_contains(
        lowercase_of(title_case_of(m@)),
        q,
    ))
    ||| seq_contains("level "@ + decimal(item.level as nat), q)
    ||| (item.item_parts matches Some(ip) && seq_contains(lowercase_of(ip.item_type@), q))
    ||| (item.item_parts matches Some(ip) && seq_contains(lowercase_of(ip.rarity@), q))
    ||| (item.item_parts matches Some(ip) && (ip.weapon_type matches Some(w) && seq_contains(
        lowercase_of(w@),
        q,
    )))
}

/// An item is found exactly when the trimmed query is empty or occurs in
/// one of the texts it is searched by (the rarity, for one, whatever the
/// item's weapon type); the texts `search_texts` gives find it just the
/// same; and a found entry of a list is among what the search lists, at its
/// own position.
pub proof fn lemma_search_finds_by_each_text(
    items: Seq<Bl3Item>,
    i: int,
    query: Seq<char>,
    t: SearchTexts,
)
    requires
        items.len() <= usize::MAX,
        0 <= i < items.len(),
        search_texts_of(items[i], t),
    ensures
        item_matches(items[i], query) == (trimmed(query).len() == 0 || occurs_in_searched_text(
            items[i],
            trimmed(query),
        )),
        texts_found(t, query) == item_matches(items[i], query),
        item_matches(items[i], query) ==> exists|k: int|
            0 <= k < filtered(items, query).len() && #[trigger] filtered(items, query)[k] == (
            i as usize,
            items[i],
        ),
{
    lemma_search_finds_exactly(items, query);
    if item_matches(items[i], query) {
        let k = choose|k: int| 0 <= k < filtered(items, query).len() && #[trigger] filtered(
            items,
            query,
        )[k].0 == i;
        assert(filtered(items, query)[k] == (i as usize, items[i]));
    }
}

/// Pressing a current part with reordering on selects exactly that part
/// (its category and its place) in the selected entry's panel; moving up
/// then moves that part.
pub proof fn lemma_pressed_part_is_the_one_moved(
    s0: ItemEditorState,
    s1: ItemEditorState,
    s2: ItemEditorState,
    index: CurrentPartTypeIndex,
    r1: ItemEditorInteractionResponse,
    r2: ItemEditorInteractionResponse,
)
    requires
        has_selected(s0),
        update_post(ItemEditorInteractionMessage::CurrentPartPressed(true, index), s0, s1, r1),
        update_post(ItemEditorInteractionMessage::ReorderCurrentPartsMoveUpPressed, s1, s2, r2),
    ensures
        s1.items@[s0.selected_item_index as int].editor.current_parts.part_type_index == index,
        s1.selected_item_index == s0.selected_item_index,
        r2.request == Some(
            CoreRequest::MovePart {
                item_index: s0.selected_item_index,
                direction: PartMove::Up,
                part_index: index.part_index,
            },
        ),
{
}

/// Pressing a current anointment asks the core to take that anointment off
/// as an anointment; pressing a current part (reordering off) asks it to
/// take the part off as a part.
pub proof fn lemma_removal_kind_follows_the_panel(
    s0: ItemEditorState,
    s1: ItemEditorState,
    index: CurrentPartTypeIndex,
    anointment: bool,
    r: ItemEditorInteractionResponse,
)
    requires
        has_selected(s0),
        index.category_index < s0.items@[s0.selected_item_index as int].editor.current_parts.parts@.len(),
        index.part_index < s0.items@[s0.selected_item_index as int].editor.current_parts.parts@[index.category_index as int]@.len(),
        update_post(
            if anointment {
                ItemEditorInteractionMessage::CurrentAnointmentPressed(index)
            } else {
                ItemEditorInteractionMessage::CurrentPartPressed(false, index)
            },
            s0,
            s1,
            r,
        ),
    ensures
        s1 == s0,
        r.request == Some(
            CoreRequest::RemovePart {
                item_index: s0.selected_item_index,
                part_name: s0.items@[s0.selected_item_index as int].editor.current_parts.parts@[index.category_index as int]@[index.part_index as int],
                anointment,
            },
        ),
{
}

/// Deleting moves the selection one place up unless it is at the top; in
/// particular deleting the selected last entry of a list of two or more
/// selects the entry before it and shows it in the editor.
pub proof fn lemma_delete_moves_selection_up(
    s0: ItemEditorState,
    s1: ItemEditorState,
    id: usize,
    r: ItemEditorInteractionResponse,
)
    requires
        update_post(ItemEditorInteractionMessage::DeleteItem(id), s0, s1, r),
    ensures
        s0.selected_item_index > 0 ==> s1.selected_item_index + 1 == s0.selected_item_index,
        s0.selected_item_index == 0 ==> s1.selected_item_index == 0,
        (s0.items@.len() >= 2 && id as int == s0.items@.len() - 1 && s0.selected_item_index
            == id) ==> {
            &&& has_selected(s1)
            &&& s1.items@[s1.selected_item_index as int] == s0.items@[id - 1]
            &&& r.error is None
            &&& r.effects@ == seq![
                UiEffect::RemoveItemFromFile(id),
                UiEffect::MapItemToEditor((id - 1) as usize, ErrorContext::MapAfterDelete),
            ]
        },
{
}

/// On the Lootlemon tab the page lists the catalogue entries its search
/// finds, or says that the search found nothing, whatever the file holds;
/// the invitation to get started shows only on the items tab of an empty
/// file.
pub proof fn lemma_catalogue_always_listed(s: ItemEditorState, v: ItemEditorViewModel)
    requires
        shows(s, v),
    ensures
        s.item_list_tab_type == ItemListTabType::Lootlemon ==> v.body == if filtered(
            lootlemon_list_items(s.lootlemon_items.items@),
            s.search_lootlemon_items_input@,
        ).len() == 0 {
            ItemListBody::NoSearchResults
        } else {
            ItemListBody::Entries
        },
        v.body == ItemListBody::GetStarted <==> (s.item_list_tab_type == ItemListTabType::Items
            && s.items@.len() == 0),
{
}

} // verus!
