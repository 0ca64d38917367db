//! The menu and the rules that decide whether an order item is usable.

use crate::name_map::{keys, lemma_view_keys, lookup, NameMap};
use crate::names::{
    first, first_index, lemma_first_index, lemma_first_index_is, lemma_first_is, lemma_first_none,
};
use crate::order::{OrderItem, OrderItemView};
use crate::price::Price;
use vstd::prelude::*;
use vstd::string::StringExecFns;

verus! {

/// Price configuration for a choice of an option.
#[derive(Clone, Copy, Debug, PartialEq, Eq, Structural)]
pub struct Choice {
    /// Additional price for this choice
    pub price: Price,
}

impl View for Choice {
    type V = Choice;

    open spec fn view(&self) -> Choice {
        *self
    }
}

/// When an option has to be present on an order item.
#[derive(Debug)]
pub enum RequirementConfig {
    /// Required always, or never
    Simple(bool),
    /// Required depending on what is selected under another option
    Dependent { option: String, value: String },
}

/// What a requirement holds.
pub enum RequirementView {
    Simple(bool),
    Dependent { option: Seq<char>, value: Seq<char> },
}

impl View for RequirementConfig {
    type V = RequirementView;

    open spec fn view(&self) -> RequirementView {
        match self {
            RequirementConfig::Simple(required) => RequirementView::Simple(*required),
            RequirementConfig::Dependent { option, value } => RequirementView::Dependent {
                option: option@,
                value: value@,
            },
        }
    }
}

/// Configuration of a customization option.
#[derive(Debug)]
pub struct OptionConfig {
    /// Whether and how the option is required
    pub required: RequirementConfig,
    /// Least number of choices that may be selected
    pub minimum: u32,
    /// Greatest number of choices that may be selected
    pub maximum: u32,
    /// The choices of this option, by name
    pub choices: NameMap<Choice>,
}

/// What an option's configuration holds.
pub struct OptionConfigView {
    pub required: RequirementView,
    pub minimum: nat,
    pub maximum: nat,
    pub choices: Seq<(Seq<char>, Choice)>,
}

impl View for OptionConfig {
    type V = OptionConfigView;

    open spec fn view(&self) -> OptionConfigView {
        OptionConfigView {
            required: self.required@,
            minimum: self.minimum as nat,
            maximum: self.maximum as nat,
            choices: self.choices@,
        }
    }
}

/// A single item on the menu.
#[derive(Debug)]
pub struct MenuItem {
    /// Name of the menu item
    pub item_name: String,
    /// Category of the item
    pub item_type: String,
    /// Description of the item
    pub description: String,
    /// The customization options of this item, by name
    pub options: NameMap<OptionConfig>,
}

/// What a menu item holds.
pub struct MenuItemView {
    pub item_name: Seq<char>,
    pub item_type: Seq<char>,
    pub description: Seq<char>,
    pub options: Seq<(Seq<char>, OptionConfigView)>,
}

impl View for MenuItem {
    type V = MenuItemView;

    open spec fn view(&self) -> MenuItemView {
        MenuItemView {
            item_name: self.item_name@,
            item_type: self.item_type@,
            description: self.description@,
            options: self.options@,
        }
    }
}

/// The whole menu.
#[derive(Debug)]
pub struct Menu {
    /// The items on offer, in catalog order
    pub items: Vec<MenuItem>,
}

/// What a menu holds.
pub struct MenuView {
    pub items: Seq<MenuItemView>,
}

impl View for Menu {
    type V = MenuView;

    open spec fn view(&self) -> MenuView {
        MenuView { items: self.items@.map_values(|item: MenuItem| item@) }
    }
}

/// Verdict of validating an order item against the menu.
#[derive(Debug, PartialEq, Eq)]
pub enum ItemStatus {
    /// Item is missing required options
    Incomplete(String),
    /// Item meets all requirements
    Complete(String),
    /// Item has invalid options
    Invalid(String),
}

/// What a verdict holds.
pub enum ItemStatusView {
    Incomplete(Seq<char>),
    Complete(Seq<char>),
    Invalid(Seq<char>),
}

impl View for ItemStatus {
    type V = ItemStatusView;

    open spec fn view(&self) -> ItemStatusView {
        match self {
            ItemStatus::Incomplete(reason) => ItemStatusView::Incomplete(reason@),
            ItemStatus::Complete(reason) => ItemStatusView::Complete(reason@),
            ItemStatus::Invalid(reason) => ItemStatusView::Invalid(reason@),
        }
    }
}

impl Clone for ItemStatus {
    fn clone(&self) -> (copy: Self)
        ensures
            copy@ == self@,
    {
        match self {
            ItemStatus::Incomplete(reason) => ItemStatus::Incomplete(reason.clone()),
            ItemStatus::Complete(reason) => ItemStatus::Complete(reason.clone()),
            ItemStatus::Invalid(reason) => ItemStatus::Invalid(reason.clone()),
        }
    }
}

/// What an optional verdict holds.
pub open spec fn status_view(status: Option<ItemStatus>) -> Option<ItemStatusView> {
    match status {
        Some(verdict) => Some(verdict@),
        None => None,
    }
}

/// The names of the menu's items, in catalog order.
pub open spec fn item_names(menu: MenuView) -> Seq<Seq<char>> {
    menu.items.map_values(|item: MenuItemView| item.item_name)
}

/// The first item of the menu that has the given name.
pub open spec fn find_item(menu: MenuView, name: Seq<char>) -> Option<MenuItemView> {
    match first_index(item_names(menu), name) {
        Some(i) => Some(menu.items[i]),
        None => None,
    }
}

/// Whether the value at a given index is none of the configured choices.
pub open spec fn is_unknown_choice(choices: Seq<Seq<char>>, values: Seq<Seq<char>>) -> spec_fn(
    int,
) -> bool {
    |j: int| !choices.contains(values[j])
}

/// What is wrong with the choices selected under one option key, if anything:
/// the key is no option of the menu item, a value is none of the option's
/// choices (the first such value is reported), or there are too few or too
/// many values.
pub open spec fn selection_verdict(
    entry: MenuItemView,
    key: Seq<char>,
    values: Seq<Seq<char>>,
) -> Option<ItemStatusView> {
    match lookup(entry.options, key) {
        None => Some(ItemStatusView::Invalid("option does not exist: "@ + key)),
        Some(option) => match first(
            values.len() as int,
            is_unknown_choice(keys(option.choices), values),
        ) {
            Some(j) => Some(
                ItemStatusView::Invalid("invalid choice for option "@ + key + ": "@ + values[j]),
            ),
            None => if values.len() < option.minimum {
                Some(ItemStatusView::Incomplete("too few options"@))
            } else if values.len() > option.maximum {
                Some(ItemStatusView::Invalid("too many options"@))
            } else {
                None
            },
        },
    }
}

/// What is wrong about the presence of the menu option `name` on the order
/// item, if anything.
///
/// An option that is always required has to be among the item's keys. An
/// option that depends on another one needs that other option among the
/// item's keys; where the other option is there and the trigger value is
/// selected under it, the option itself has to be among the keys too.
pub open spec fn requirement_verdict(
    name: Seq<char>,
    required: RequirementView,
    item: OrderItemView,
) -> Option<ItemStatusView> {
    match required {
        RequirementView::Simple(always) => if always && !item.option_keys.contains(name) {
            Some(ItemStatusView::Incomplete("required option missing "@ + name))
        } else {
            None
        },
        RequirementView::Dependent { option, value } => match first_index(
            item.option_keys,
            option,
        ) {
            None => Some(ItemStatusView::Incomplete("dependent option missing "@ + option)),
            Some(k) => if item.option_values[k].contains(value) && !item.option_keys.contains(
                name,
            ) {
                Some(ItemStatusView::Incomplete("dependent option missing "@ + name))
            } else {
                None
            },
        },
    }
}

/// Whether something is wrong with the item's selection at a given index.
pub open spec fn selection_fails(entry: MenuItemView, item: OrderItemView) -> spec_fn(int) -> bool {
    |i: int| selection_verdict(entry, item.option_keys[i], item.option_values[i]) is Some
}

/// Whether the requirement of the menu option at a given index is not met.
pub open spec fn requirement_fails(entry: MenuItemView, item: OrderItemView) -> spec_fn(
    int,
) -> bool {
    |j: int| requirement_verdict(entry.options[j].0, entry.options[j].1.required, item) is Some
}

/// The verdict on an order item. The first check that fails decides: the
/// lengths of keys and values, the existence of the menu item, the
/// selections in the item's order, then the requirements of the menu item's
/// options in the menu's order.
pub open spec fn verdict(menu: MenuView, item: OrderItemView) -> ItemStatusView {
    if item.option_keys.len() != item.option_values.len() {
        ItemStatusView::Invalid("option keys and values do not match"@)
    } else {
        match find_item(menu, item.item_name) {
            None => ItemStatusView::Invalid("item does not exist: "@ + item.item_name),
            Some(entry) => match first(
                item.option_keys.len() as int,
                selection_fails(entry, item),
            ) {
                Some(i) => selection_verdict(
                    entry,
                    item.option_keys[i],
                    item.option_values[i],
                ).unwrap(),
                None => match first(entry.options.len() as int, requirement_fails(entry, item)) {
                    Some(j) => requirement_verdict(
                        entry.options[j].0,
                        entry.options[j].1.required,
                        item,
                    ).unwrap(),
                    None => ItemStatusView::Complete("item is valid"@),
                },
            },
        }
    }
}

/// `prefix` followed by `name`.
fn message(prefix: &str, name: &String) -> (text: String)
    ensures
        text@ == prefix@ + name@,
{
    prefix.to_owned().concat(name.as_str())
}

/// Checks the choices selected under one option key.
fn check_selection(entry: &MenuItem, key: &String, values: &Vec<String>) -> (found: Option<
    ItemStatus,
>)
    ensures
        status_view(found) == selection_verdict(entry@, key@, values.deep_view()),
{
    proof {
        lemma_view_keys(entry.options);
        entry.options.lemma_lengths();
        lemma_first_index(entry.options.names(), key@);
    }
    let option = match entry.options.get(key) {
        Some(option) => option,
        None => {
            return Some(ItemStatus::Invalid(message("option does not exist: ", key)));
        },
    };
    proof {
        lemma_view_keys(option.choices);
    }
    let ghost unknown = is_unknown_choice(keys(option@.choices), values.deep_view());
    let mut j: usize = 0;
    while j < values.len()
        invariant
            j <= values.len(),
            unknown == is_unknown_choice(keys(option@.choices), values.deep_view()),
            keys(option@.choices) == option.choices.names(),
            lookup(entry@.options, key@) == Some(option@),
            forall|k: int| 0 <= k < j ==> !#[trigger] unknown(k),
        decreases values.len() - j,
    {
        if !option.choices.contains_key(&values[j]) {
            proof {
                lemma_first_is(values.len() as int, unknown, j as int);
            }
            let text = message("invalid choice for option ", key).concat(": ").concat(
                values[j].as_str(),
            );
            return Some(ItemStatus::Invalid(text));
        }
        j += 1;
    }
    proof {
        lemma_first_none(values.len() as int, unknown);
    }
    if (values.len() as u64) < (option.minimum as u64) {
        Some(ItemStatus::Incomplete("too few options".to_owned()))
    } else if (values.len() as u64) > (option.maximum as u64) {
        Some(ItemStatus::Invalid("too many options".to_owned()))
    } else {
        None
    }
}

/// Checks whether the requirement of one menu option is met by the item.
fn check_requirement(name: &String, config: &OptionConfig, item: &OrderItem) -> (found: Option<
    ItemStatus,
>)
    requires
        item.option_keys.len() == item.option_values.len(),
    ensures
        status_view(found) == requirement_verdict(name@, config@.required, item@),
{
    match &config.required {
        RequirementConfig::Simple(always) => {
            if *always && !crate::names::contains(&item.option_keys, name) {
                Some(ItemStatus::Incomplete(message("required option missing ", name)))
            } else {
                None
            }
        },
        RequirementConfig::Dependent { option, value } => {
            proof {
                lemma_first_index(item@.option_keys, option@);
            }
            match crate::names::position(&item.option_keys, option) {
                None => Some(ItemStatus::Incomplete(message("dependent option missing ", option))),
                Some(k) => {
                    if crate::names::contains(&item.option_values[k], value)
                        && !crate::names::contains(&item.option_keys, name) {
                        Some(ItemStatus::Incomplete(message("dependent option missing ", name)))
                    } else {
                        None
                    }
                },
            }
        },
    }
}

/// Whether the bounds of an option are in order and none of its choices is
/// named twice.
pub open spec fn option_well_formed(option: OptionConfigView) -> bool {
    &&& option.minimum <= option.maximum
    &&& keys(option.choices).no_duplicates()
}

/// Whether none of the item's options is named twice and each of them is
/// well formed.
pub open spec fn item_well_formed(item: MenuItemView) -> bool {
    &&& keys(item.options).no_duplicates()
    &&& forall|j: int| 0 <= j < item.options.len() ==> option_well_formed(#[trigger] item.options[j].1)
}

/// Whether no two items of the menu share a name and each of them is well
/// formed.
pub open spec fn menu_well_formed(menu: MenuView) -> bool {
    &&& item_names(menu).no_duplicates()
    &&& forall|i: int| 0 <= i < menu.items.len() ==> item_well_formed(#[trigger] menu.items[i])
}

impl OptionConfig {
    /// Whether the bounds are in order. That no choice is named twice holds
    /// of every map of choices.
    pub fn is_well_formed(&self) -> (ok: bool)
        ensures
            ok == option_well_formed(self@),
    {
        self.choices.names_are_distinct();
        proof {
            lemma_view_keys(self.choices);
        }
        self.minimum <= self.maximum
    }
}

impl MenuItem {
    /// Whether each option is well formed. That no option is named twice
    /// holds of every map of options.
    pub fn is_well_formed(&self) -> (ok: bool)
        ensures
            ok == item_well_formed(self@),
    {
        self.options.names_are_distinct();
        let count = self.options.len();
        proof {
            lemma_view_keys(self.options);
        }
        let mut j: usize = 0;
        while j < count
            invariant
                j <= count,
                count == self.options.names().len(),
                count == self.options.values().len(),
                forall|k: int| 0 <= k < j ==> option_well_formed(#[trigger] self@.options[k].1),
            decreases count - j,
        {
            if !self.options.value_at(j).is_well_formed() {
                assert(!option_well_formed(self@.options[j as int].1));
                return false;
            }
            j += 1;
        }
        true
    }
}

impl Menu {
    /// A menu of the given items.
    pub fn new(items: Vec<MenuItem>) -> (menu: Menu)
        ensures
            menu.items == items,
    {
        Menu { items }
    }

    /// The place of the first item of the menu that has the given name.
    pub fn position(&self, name: &String) -> (found: Option<usize>)
        ensures
            match found {
                Some(i) => first_index(item_names(self@), name@) == Some(i as int),
                None => first_index(item_names(self@), name@) is None,
            },
    {
        let ghost names = item_names(self@);
        let mut i: usize = 0;
        while i < self.items.len()
            invariant
                i <= self.items.len(),
                names == item_names(self@),
                forall|j: int| 0 <= j < i ==> names[j] != name@,
            decreases self.items.len() - i,
        {
            if self.items[i].item_name == *name {
                proof {
                    lemma_first_index_is(names, name@, i as int);
                }
                return Some(i);
            }
            i += 1;
        }
        proof {
            lemma_first_index(names, name@);
        }
        None
    }

    /// The first item of the menu that has the given name.
    pub fn find(&self, name: &String) -> (found: Option<&MenuItem>)
        ensures
            match find_item(self@, name@) {
                Some(entry) => found is Some && found.unwrap()@ == entry,
                None => found is None,
            },
    {
        proof {
            lemma_first_index(item_names(self@), name@);
        }
        match self.position(name) {
            Some(i) => Some(&self.items[i]),
            None => None,
        }
    }

    /// Whether the menu is well formed: no two items share a name, and the
    /// bounds of every option are in order.
    pub fn is_well_formed(&self) -> (ok: bool)
        ensures
            ok == menu_well_formed(self@),
    {
        let ghost names = item_names(self@);
        let mut i: usize = 0;
        while i < self.items.len()
            invariant
                i <= self.items.len(),
                names == item_names(self@),
                forall|k: int| 0 <= k < i ==> first_index(names, #[trigger] names[k]) == Some(k),
                forall|k: int| 0 <= k < i ==> item_well_formed(#[trigger] self@.items[k]),
            decreases self.items.len() - i,
        {
            proof {
                lemma_first_index(names, names[i as int]);
            }
            match self.position(&self.items[i].item_name) {
                Some(k) => {
                    if k != i {
                        return false;
                    }
                },
                None => {
                    return false;
                },
            }
            if !self.items[i].is_well_formed() {
                return false;
            }
            i += 1;
        }
        proof {
            assert forall|a: int, b: int| 0 <= a < b < names.len() implies names[a] != names[b] by {
                lemma_first_index(names, names[b]);
            }
        }
        true
    }

    /// Validates an order item against the menu.
    pub fn validate_item(&self, item: &OrderItem) -> (status: ItemStatus)
        ensures
            status@ == verdict(self@, item@),
    {
        if item.option_keys.len() != item.option_values.len() {
            return ItemStatus::Invalid("option keys and values do not match".to_owned());
        }
        let entry = match self.find(&item.item_name) {
            Some(entry) => entry,
            None => {
                return ItemStatus::Invalid(message("item does not exist: ", &item.item_name));
            },
        };
        let ghost selection = selection_fails(entry@, item@);
        let mut i: usize = 0;
        while i < item.option_keys.len()
            invariant
                i <= item.option_keys.len(),
                item.option_keys.len() == item.option_values.len(),
                selection == selection_fails(entry@, item@),
                find_item(self@, item@.item_name) == Some(entry@),
                forall|k: int| 0 <= k < i ==> !#[trigger] selection(k),
            decreases item.option_keys.len() - i,
        {
            match check_selection(entry, &item.option_keys[i], &item.option_values[i]) {
                Some(status) => {
                    proof {
                        lemma_first_is(item.option_keys.len() as int, selection, i as int);
                    }
                    return status;
                },
                None => {},
            }
            i += 1;
        }
        proof {
            lemma_first_none(item.option_keys.len() as int, selection);
            entry.options.lemma_lengths();
        }
        let ghost requirement = requirement_fails(entry@, item@);
        let count = entry.options.len();
        let mut j: usize = 0;
        while j < count
            invariant
                j <= count,
                count == entry.options.names().len(),
                count == entry.options.values().len(),
                item.option_keys.len() == item.option_values.len(),
                requirement == requirement_fails(entry@, item@),
                find_item(self@, item@.item_name) == Some(entry@),
                first(item@.option_keys.len() as int, selection_fails(entry@, item@)) is None,
                forall|k: int| 0 <= k < j ==> !#[trigger] requirement(k),
            decreases count - j,
        {
            match check_requirement(entry.options.name_at(j), entry.options.value_at(j), item) {
                Some(status) => {
                    proof {
                        lemma_first_is(count as int, requirement, j as int);
                    }
                    return status;
                },
                None => {},
            }
            j += 1;
        }
        proof {
            lemma_first_none(count as int, requirement);
        }
        ItemStatus::Complete("item is valid".to_owned())
    }
}

/// An order item whose keys and values differ in number is invalid, whatever
/// the menu holds.
pub proof fn lemma_mismatched_selections_are_invalid(menu: MenuView, item: OrderItemView)
    requires
        item.option_keys.len() != item.option_values.len(),
    ensures
        verdict(menu, item) == ItemStatusView::Invalid("option keys and values do not match"@),
        verdict(menu, item) is Invalid,
{
}

/// An item that names no item of the menu is invalid: never complete, never
/// incomplete. Where its keys and values agree in number, the verdict says
/// that the item does not exist.
pub proof fn lemma_unknown_item_is_invalid(menu: MenuView, item: OrderItemView)
    requires
        !item_names(menu).contains(item.item_name),
    ensures
        verdict(menu, item) is Invalid,
        item.option_keys.len() == item.option_values.len() ==> verdict(menu, item)
            == ItemStatusView::Invalid("item does not exist: "@ + item.item_name),
{
    lemma_first_index(item_names(menu), item.item_name);
}

/// Validating is a function of the menu and the item: whatever two
/// validations of the same item against the same menu return, the two
/// verdicts are the same.
pub proof fn lemma_validation_is_repeatable(
    menu: Menu,
    item: OrderItem,
    once: ItemStatus,
    again: ItemStatus,
)
    requires
        once@ == verdict(menu@, item@),
        again@ == verdict(menu@, item@),
    ensures
        once@ == again@,
{
}

/// The verdict is decided by the menu, the item's name and its selections:
/// two items that agree in these get the same verdict, whatever their ids,
/// prices and earlier verdicts are.
pub proof fn lemma_verdict_reads_selections_only(menu: MenuView, a: OrderItemView, b: OrderItemView)
    requires
        a.item_name == b.item_name,
        a.option_keys == b.option_keys,
        a.option_values == b.option_values,
    ensures
        verdict(menu, a) == verdict(menu, b),
{
    if a.option_keys.len() == a.option_values.len() {
        match find_item(menu, a.item_name) {
            Some(entry) => {
                assert forall|i: int| 0 <= i < a.option_keys.len() implies #[trigger] selection_fails(
                    entry,
                    a,
                )(i) == #[trigger] selection_fails(entry, b)(i) by {}
                crate::names::lemma_first_agrees(
                    a.option_keys.len() as int,
                    selection_fails(entry, a),
                    selection_fails(entry, b),
                );
                assert forall|j: int| 0 <= j < entry.options.len() implies #[trigger] requirement_fails(
                    entry,
                    a,
                )(j) == #[trigger] requirement_fails(entry, b)(j) by {}
                crate::names::lemma_first_agrees(
                    entry.options.len() as int,
                    requirement_fails(entry, a),
                    requirement_fails(entry, b),
                );
            },
            None => {},
        }
    }
}

/// Validating is repeatable: an item that carries the verdict of an earlier
/// validation gets the same verdict when it is validated again.
pub proof fn lemma_validating_again_agrees(menu: MenuView, item: OrderItemView)
    ensures
        verdict(
            menu,
            OrderItemView {
                id: item.id,
                item_name: item.item_name,
                option_keys: item.option_keys,
                option_values: item.option_values,
                price: item.price,
                item_status: Some(verdict(menu, item)),
            },
        ) == verdict(menu, item),
{
    lemma_verdict_reads_selections_only(
        menu,
        OrderItemView {
            id: item.id,
            item_name: item.item_name,
            option_keys: item.option_keys,
            option_values: item.option_values,
            price: item.price,
            item_status: Some(verdict(menu, item)),
        },
        item,
    );
}

} // verus!
