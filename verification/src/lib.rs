//! The item editor of a Borderlands 3 save editor: its item list, search,
//! selection and editing rules, kept apart from the widgets that draw them.
pub mod button_style;
pub mod completion;
pub mod filter;
pub mod interaction;
pub mod item;
pub mod laws;
pub mod response;
pub mod state;
pub mod steps;
pub mod tab_type;
pub mod text;
pub mod view_model;
