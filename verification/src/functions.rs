//! The functions that the assistant may call, and the shapes of their
//! arguments.

use crate::names::{clone_name_lists, clone_names};
use crate::price::Price;
use vstd::prelude::*;

verus! {

/// The functions on offer to the assistant.
#[derive(Clone, Copy, Debug, PartialEq, Eq, Structural)]
pub enum FunctionName {
    /// Adds an item to the order
    AddItem,
    /// Removes an item from the order
    RemoveItem,
    /// Modifies an item of the order
    ModifyItem,
    /// Lists the items of the order
    ListItems,
}

impl FunctionName {
    /// The name under which the assistant calls the function.
    pub open spec fn name(&self) -> Seq<char> {
        match self {
            FunctionName::AddItem => "add_item"@,
            FunctionName::RemoveItem => "remove_item"@,
            FunctionName::ModifyItem => "modify_item"@,
            FunctionName::ListItems => "list_items"@,
        }
    }

    /// The name under which the assistant calls the function.
    pub fn to_string(&self) -> (name: String)
        ensures
            name@ == self.name(),
    {
        match self {
            FunctionName::AddItem => "add_item".to_owned(),
            FunctionName::RemoveItem => "remove_item".to_owned(),
            FunctionName::ModifyItem => "modify_item".to_owned(),
            FunctionName::ListItems => "list_items".to_owned(),
        }
    }

    /// The function that `name` names, if it names one.
    pub open spec fn named(name: Seq<char>) -> Option<FunctionName> {
        if name == FunctionName::AddItem.name() {
            Some(FunctionName::AddItem)
        } else if name == FunctionName::RemoveItem.name() {
            Some(FunctionName::RemoveItem)
        } else if name == FunctionName::ModifyItem.name() {
            Some(FunctionName::ModifyItem)
        } else if name == FunctionName::ListItems.name() {
            Some(FunctionName::ListItems)
        } else {
            None
        }
    }

    /// The function that `name` names, if it names one.
    pub fn parse(name: &String) -> (function: Option<FunctionName>)
        ensures
            function == FunctionName::named(name@),
    {
        if *name == FunctionName::AddItem.to_string() {
            Some(FunctionName::AddItem)
        } else if *name == FunctionName::RemoveItem.to_string() {
            Some(FunctionName::RemoveItem)
        } else if *name == FunctionName::ModifyItem.to_string() {
            Some(FunctionName::ModifyItem)
        } else if *name == FunctionName::ListItems.to_string() {
            Some(FunctionName::ListItems)
        } else {
            None
        }
    }

    /// No two functions share a name, so a function is found again by its name.
    pub proof fn lemma_parse_inverts_name(function: FunctionName)
        ensures
            FunctionName::named(function.name()) == Some(function),
    {
        reveal_strlit("add_item");
        reveal_strlit("remove_item");
        reveal_strlit("modify_item");
        reveal_strlit("list_items");
        assert("list_items"@.len() == 10);
        assert("remove_item"@[0] == 'r' && "modify_item"@[0] == 'm');
    }
}

/// Arguments for adding an item to the order.
#[derive(Debug, PartialEq, Eq)]
pub struct AddItemArgs {
    /// Name of the item to add
    pub item_name: String,
    /// Keys of the selected options, if any
    pub option_keys: Option<Vec<String>>,
    /// For each key the choices selected under it, if any
    pub option_values: Option<Vec<Vec<String>>>,
    /// Price of the item with its options
    pub price: Price,
}

/// What the arguments for adding an item hold.
pub struct AddItemArgsView {
    pub item_name: Seq<char>,
    pub option_keys: Option<Seq<Seq<char>>>,
    pub option_values: Option<Seq<Seq<Seq<char>>>>,
    pub price: Price,
}

/// What an optional list of names holds.
pub open spec fn names_view(names: Option<Vec<String>>) -> Option<Seq<Seq<char>>> {
    match names {
        Some(list) => Some(list.deep_view()),
        None => None,
    }
}

/// What an optional list of lists of names holds.
pub open spec fn name_lists_view(lists: Option<Vec<Vec<String>>>) -> Option<Seq<Seq<Seq<char>>>> {
    match lists {
        Some(list) => Some(list.deep_view()),
        None => None,
    }
}

/// A copy of an optional list of names.
pub fn clone_optional_names(names: &Option<Vec<String>>) -> (copy: Option<Vec<String>>)
    ensures
        names_view(copy) == names_view(*names),
{
    match names {
        Some(list) => Some(clone_names(list)),
        None => None,
    }
}

/// A copy of an optional list of lists of names.
pub fn clone_optional_name_lists(lists: &Option<Vec<Vec<String>>>) -> (copy: Option<
    Vec<Vec<String>>,
>)
    ensures
        name_lists_view(copy) == name_lists_view(*lists),
{
    match lists {
        Some(list) => Some(clone_name_lists(list)),
        None => None,
    }
}

impl View for AddItemArgs {
    type V = AddItemArgsView;

    open spec fn view(&self) -> AddItemArgsView {
        AddItemArgsView {
            item_name: self.item_name@,
            option_keys: names_view(self.option_keys),
            option_values: name_lists_view(self.option_values),
            price: self.price,
        }
    }
}

impl Clone for AddItemArgs {
    fn clone(&self) -> (copy: Self)
        ensures
            copy@ == self@,
    {
        AddItemArgs {
            item_name: self.item_name.clone(),
            option_keys: clone_optional_names(&self.option_keys),
            option_values: clone_optional_name_lists(&self.option_values),
            price: self.price,
        }
    }
}

/// Arguments for removing an item from the order.
#[derive(Debug, PartialEq, Eq)]
pub struct RemoveItemArgs {
    /// Id of the order item to remove
    pub order_id: String,
}

/// What the arguments for removing an item hold.
pub struct RemoveItemArgsView {
    pub order_id: Seq<char>,
}

impl View for RemoveItemArgs {
    type V = RemoveItemArgsView;

    open spec fn view(&self) -> RemoveItemArgsView {
        RemoveItemArgsView { order_id: self.order_id@ }
    }
}

impl Clone for RemoveItemArgs {
    fn clone(&self) -> (copy: Self)
        ensures
            copy@ == self@,
    {
        RemoveItemArgs { order_id: self.order_id.clone() }
    }
}

/// Arguments for modifying an item of the order.
#[derive(Debug, PartialEq, Eq)]
pub struct ModifyItemArgs {
    /// Id of the order item to modify
    pub order_id: String,
    /// New name of the item
    pub item_name: String,
    /// New option keys, if any
    pub option_keys: Option<Vec<String>>,
    /// New option values, if any
    pub option_values: Option<Vec<Vec<String>>>,
    /// New price
    pub price: Price,
}

/// What the arguments for modifying an item hold.
pub struct ModifyItemArgsView {
    pub order_id: Seq<char>,
    pub item_name: Seq<char>,
    pub option_keys: Option<Seq<Seq<char>>>,
    pub option_values: Option<Seq<Seq<Seq<char>>>>,
    pub price: Price,
}

impl View for ModifyItemArgs {
    type V = ModifyItemArgsView;

    open spec fn view(&self) -> ModifyItemArgsView {
        ModifyItemArgsView {
            order_id: self.order_id@,
            item_name: self.item_name@,
            option_keys: names_view(self.option_keys),
            option_values: name_lists_view(self.option_values),
            price: self.price,
        }
    }
}

impl Clone for ModifyItemArgs {
    fn clone(&self) -> (copy: Self)
        ensures
            copy@ == self@,
    {
        ModifyItemArgs {
            order_id: self.order_id.clone(),
            item_name: self.item_name.clone(),
            option_keys: clone_optional_names(&self.option_keys),
            option_values: clone_optional_name_lists(&self.option_values),
            price: self.price,
        }
    }
}

/// Arguments for listing the items of the order.
#[derive(Clone, Copy, Debug, PartialEq, Eq, Structural)]
pub struct ListItemsArgs {
    /// Number of items to keep, counted from the front; all where absent
    pub limit: Option<usize>,
}

/// The arguments of a call, in the shape of the function called.
#[derive(Debug, PartialEq, Eq)]
pub enum FunctionArgs {
    /// Arguments for adding an item
    AddItem(AddItemArgs),
    /// Arguments for removing an item
    RemoveItem(RemoveItemArgs),
    /// Arguments for modifying an item
    ModifyItem(ModifyItemArgs),
    /// Arguments for listing items
    ListItems(ListItemsArgs),
}

/// What the arguments of a call hold.
pub enum FunctionArgsView {
    AddItem(AddItemArgsView),
    RemoveItem(RemoveItemArgsView),
    ModifyItem(ModifyItemArgsView),
    ListItems(ListItemsArgs),
}

impl View for FunctionArgs {
    type V = FunctionArgsView;

    open spec fn view(&self) -> FunctionArgsView {
        match self {
            FunctionArgs::AddItem(args) => FunctionArgsView::AddItem(args@),
            FunctionArgs::RemoveItem(args) => FunctionArgsView::RemoveItem(args@),
            FunctionArgs::ModifyItem(args) => FunctionArgsView::ModifyItem(args@),
            FunctionArgs::ListItems(args) => FunctionArgsView::ListItems(*args),
        }
    }
}

impl Clone for FunctionArgs {
    fn clone(&self) -> (copy: Self)
        ensures
            copy@ == self@,
    {
        match self {
            FunctionArgs::AddItem(args) => FunctionArgs::AddItem(args.clone()),
            FunctionArgs::RemoveItem(args) => FunctionArgs::RemoveItem(args.clone()),
            FunctionArgs::ModifyItem(args) => FunctionArgs::ModifyItem(args.clone()),
            FunctionArgs::ListItems(args) => FunctionArgs::ListItems(*args),
        }
    }
}

} // verus!
