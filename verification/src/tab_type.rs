//! Which of the two item lists the editor shows.
use vstd::prelude::*;

verus! {

/// The item list tab: the items of the open file, or the Lootlemon catalogue.
#[derive(Debug, Clone, Copy, PartialEq, Eq, Structural)]
pub enum ItemListTabType {
    Items,
    Lootlemon,
}

impl ItemListTabType {
    /// The tab's caption.
    pub fn label(&self) -> (r: String)
        ensures
            *self == ItemListTabType::Items ==> r@ == "Items"@,
            *self == ItemListTabType::Lootlemon ==> r@ == "Lootlemon Items"@,
    {
        match self {
            ItemListTabType::Items => String::from_str("Items"),
            ItemListTabType::Lootlemon => String::from_str("Lootlemon Items"),
        }
    }
}

impl Default for ItemListTabType {
    /// The item list opens on the file's own items.
    fn default() -> (r: Self)
        ensures
            r == ItemListTabType::Items,
    {
        ItemListTabType::Items
    }
}

} // verus!
