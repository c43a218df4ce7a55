use vstd::prelude::*;

verus! {

/// What an optional text holds, as a sequence of characters.
pub open spec fn text_of(o: Option<String>) -> Option<Seq<char>> {
    match o {
        Some(s) => Some(s@),
        None => None,
    }
}

/// The persisted resource. `id` is the 128-bit value of the identifier;
/// both timestamps count microseconds since the Unix epoch.
#[derive(Debug, PartialEq, Eq)]
pub struct Item {
    pub id: u128,
    pub name: String,
    pub description: Option<String>,
    pub created_at: i64,
    pub updated_at: i64,
}

/// Mathematical model of an [`Item`].
pub struct ItemView {
    pub id: u128,
    pub name: Seq<char>,
    pub description: Option<Seq<char>>,
    pub created_at: i64,
    pub updated_at: i64,
}

/// What holds of every item that the service persists: it has a name, and
/// it was not updated before it was created.
pub open spec fn valid_item(item: ItemView) -> bool {
    item.name.len() > 0 && item.created_at <= item.updated_at
}

impl View for Item {
    type V = ItemView;

    open spec fn view(&self) -> ItemView {
        ItemView {
            id: self.id,
            name: self.name@,
            description: text_of(self.description),
            created_at: self.created_at,
            updated_at: self.updated_at,
        }
    }
}

/// Input of a create request.
#[derive(Debug, PartialEq, Eq)]
pub struct CreateItem {
    pub name: String,
    pub description: Option<String>,
}

/// Input of an update request. An absent field (`None`) leaves the stored
/// value as it is. For `description`, `Some(None)` clears the stored text and
/// `Some(Some(text))` replaces it.
#[derive(Debug, PartialEq, Eq)]
pub struct UpdateItem {
    pub name: Option<String>,
    pub description: Option<Option<String>>,
}

/// Mathematical model of an [`UpdateItem`].
pub struct UpdateItemView {
    pub name: Option<Seq<char>>,
    pub description: Option<Option<Seq<char>>>,
}

impl View for UpdateItem {
    type V = UpdateItemView;

    open spec fn view(&self) -> UpdateItemView {
        UpdateItemView {
            name: text_of(self.name),
            description: match self.description {
                Some(d) => Some(text_of(d)),
                None => None,
            },
        }
    }
}

/// The field values that an update writes for the row `id`.
#[derive(Debug, PartialEq, Eq)]
pub struct ItemChange {
    pub id: u128,
    pub name: String,
    pub description: Option<String>,
}

/// Mathematical model of an [`ItemChange`].
pub struct ItemChangeView {
    pub id: u128,
    pub name: Seq<char>,
    pub description: Option<Seq<char>>,
}

impl View for ItemChange {
    type V = ItemChangeView;

    open spec fn view(&self) -> ItemChangeView {
        ItemChangeView { id: self.id, name: self.name@, description: text_of(self.description) }
    }
}

/// What a successful delete hands back.
#[derive(Debug, PartialEq, Eq)]
pub struct DeleteConfirmation {
    pub message: String,
    pub id: u128,
}

/// A copy of an optional text.
fn clone_text(o: &Option<String>) -> (r: Option<String>)
    ensures
        r == *o,
{
    match o {
        Some(s) => Some(s.clone()),
        None => None,
    }
}

impl Clone for Item {
    /// A copy of the item, field by field.
    fn clone(&self) -> (r: Item)
        ensures
            r == *self,
    {
        Item {
            id: self.id,
            name: self.name.clone(),
            description: clone_text(&self.description),
            created_at: self.created_at,
            updated_at: self.updated_at,
        }
    }
}

} // verus!
