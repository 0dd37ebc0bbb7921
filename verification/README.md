# bl3_save_edit_ui

The item editor page of a Borderlands 3 save editor, as a verified library.

- `src/` holds the page's rules, proved with Verus: the item list and its
  selection (`state`, `steps`), the handling of every message of the page
  (`interaction`), the finishing of the work that the save editor's core does
  for a message (`completion`, with the requests and replies in `response`),
  the item search (`filter`, on the text routines of `text`), what the page
  shows (`view_model`), the look of the list buttons (`button_style`), and
  the properties that hold across operations (`laws`).
- `app/` holds what runs around it: the directory dialog, the toolkit's button
  style sheet, and the loop that hands the library's requests to the core and
  applies its effects to the open file.
- `tests/` runs the library on concrete pages.
