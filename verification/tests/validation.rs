use customer_agent::menu::{Choice, ItemStatus, Menu, MenuItem, OptionConfig, RequirementConfig};
use customer_agent::name_map::NameMap;
use customer_agent::order::OrderItem;
use customer_agent::price::Price;

fn choices(names: &[&str]) -> NameMap<Choice> {
    let mut map = NameMap::new();
    for name in names {
        map.insert(name.to_string(), Choice { price: Price::from_bits(0.5f64.to_bits()) });
    }
    map
}

fn option(required: RequirementConfig, minimum: u32, maximum: u32, names: &[&str]) -> OptionConfig {
    OptionConfig { required, minimum, maximum, choices: choices(names) }
}

fn item(name: &str, options: Vec<(&str, OptionConfig)>) -> MenuItem {
    let mut map = NameMap::new();
    for (key, config) in options {
        map.insert(key.to_string(), config);
    }
    MenuItem {
        item_name: name.to_string(),
        item_type: "main".to_string(),
        description: "".to_string(),
        options: map,
    }
}

fn burger_menu() -> Menu {
    Menu::new(vec![item(
        "Burger",
        vec![("size", option(RequirementConfig::Simple(true), 1, 1, &["small", "large"]))],
    )])
}

fn combo_menu() -> Menu {
    Menu::new(vec![
        item(
            "Burger",
            vec![("size", option(RequirementConfig::Simple(true), 1, 1, &["small", "large"]))],
        ),
        item(
            "Combo",
            vec![
                ("drink", option(RequirementConfig::Simple(false), 0, 1, &["cola", "water"])),
                (
                    "ice",
                    option(
                        RequirementConfig::Dependent {
                            option: "drink".to_string(),
                            value: "cola".to_string(),
                        },
                        0,
                        1,
                        &["yes", "no"],
                    ),
                ),
                ("sauce", option(RequirementConfig::Simple(false), 0, 2, &["ketchup", "mayo", "bbq"])),
            ],
        ),
    ])
}

fn order_item(name: &str, keys: &[&str], values: &[&[&str]]) -> OrderItem {
    OrderItem {
        id: "item-1".to_string(),
        item_name: name.to_string(),
        option_keys: keys.iter().map(|key| key.to_string()).collect(),
        option_values: values
            .iter()
            .map(|list| list.iter().map(|value| value.to_string()).collect())
            .collect(),
        price: Price::from_bits(9.99f64.to_bits()),
        item_status: None,
    }
}

#[test]
fn required_option_missing_is_incomplete() {
    let status = burger_menu().validate_item(&order_item("Burger", &[], &[]));
    assert_eq!(status, ItemStatus::Incomplete("required option missing size".to_string()));
}

#[test]
fn required_option_selected_is_complete() {
    let status = burger_menu().validate_item(&order_item("Burger", &["size"], &[&["small"]]));
    assert_eq!(status, ItemStatus::Complete("item is valid".to_string()));
}

#[test]
fn unknown_choice_is_invalid() {
    let status = burger_menu().validate_item(&order_item("Burger", &["size"], &[&["medium"]]));
    assert_eq!(status, ItemStatus::Invalid("invalid choice for option size: medium".to_string()));
}

#[test]
fn first_unknown_choice_is_reported() {
    let status = combo_menu().validate_item(&order_item(
        "Combo",
        &["sauce"],
        &[&["mayo", "mustard", "relish"]],
    ));
    assert_eq!(status, ItemStatus::Invalid("invalid choice for option sauce: mustard".to_string()));
}

#[test]
fn mismatched_keys_and_values_are_invalid() {
    let status = burger_menu().validate_item(&order_item("Burger", &["size"], &[]));
    assert_eq!(status, ItemStatus::Invalid("option keys and values do not match".to_string()));
    let status = burger_menu().validate_item(&order_item("Burger", &[], &[&["small"]]));
    assert_eq!(status, ItemStatus::Invalid("option keys and values do not match".to_string()));
}

#[test]
fn mismatched_keys_and_values_are_invalid_on_any_menu() {
    let item = order_item("Nothing", &["a", "b"], &[&["x"]]);
    let expected = ItemStatus::Invalid("option keys and values do not match".to_string());
    assert_eq!(Menu::new(vec![]).validate_item(&item), expected);
    assert_eq!(burger_menu().validate_item(&item), expected);
    assert_eq!(combo_menu().validate_item(&item), expected);
}

#[test]
fn unknown_item_is_invalid() {
    let status = burger_menu().validate_item(&order_item("Pizza", &["size"], &[&["small"]]));
    assert_eq!(status, ItemStatus::Invalid("item does not exist: Pizza".to_string()));
}

#[test]
fn unknown_item_without_selections_is_invalid() {
    let status = burger_menu().validate_item(&order_item("Pizza", &[], &[]));
    assert_eq!(status, ItemStatus::Invalid("item does not exist: Pizza".to_string()));
    let status = Menu::new(vec![]).validate_item(&order_item("Burger", &[], &[]));
    assert_eq!(status, ItemStatus::Invalid("item does not exist: Burger".to_string()));
}

#[test]
fn item_names_are_matched_exactly() {
    let status = burger_menu().validate_item(&order_item("burger", &["size"], &[&["small"]]));
    assert_eq!(status, ItemStatus::Invalid("item does not exist: burger".to_string()));
}

#[test]
fn unknown_option_is_invalid() {
    let status = burger_menu().validate_item(&order_item("Burger", &["color"], &[&["red"]]));
    assert_eq!(status, ItemStatus::Invalid("option does not exist: color".to_string()));
}

#[test]
fn too_few_choices_are_incomplete() {
    let status = burger_menu().validate_item(&order_item("Burger", &["size"], &[&[]]));
    assert_eq!(status, ItemStatus::Incomplete("too few options".to_string()));
}

#[test]
fn too_many_choices_are_invalid() {
    let status =
        burger_menu().validate_item(&order_item("Burger", &["size"], &[&["small", "large"]]));
    assert_eq!(status, ItemStatus::Invalid("too many options".to_string()));
}

#[test]
fn bounds_are_inclusive() {
    let menu = combo_menu();
    let none = order_item("Combo", &["drink", "sauce"], &[&["water"], &[]]);
    assert_eq!(menu.validate_item(&none), ItemStatus::Complete("item is valid".to_string()));
    let two = order_item("Combo", &["drink", "sauce"], &[&["water"], &["mayo", "bbq"]]);
    assert_eq!(menu.validate_item(&two), ItemStatus::Complete("item is valid".to_string()));
    let three = order_item("Combo", &["drink", "sauce"], &[&["water"], &["mayo", "bbq", "ketchup"]]);
    assert_eq!(menu.validate_item(&three), ItemStatus::Invalid("too many options".to_string()));
}

#[test]
fn first_failing_selection_decides() {
    let status = combo_menu().validate_item(&order_item(
        "Combo",
        &["drink", "color", "sauce"],
        &[&["cola", "water"], &["red"], &["mustard"]],
    ));
    assert_eq!(status, ItemStatus::Invalid("too many options".to_string()));
    let status = combo_menu().validate_item(&order_item(
        "Combo",
        &["color", "drink"],
        &[&["red"], &["cola", "water"]],
    ));
    assert_eq!(status, ItemStatus::Invalid("option does not exist: color".to_string()));
}

#[test]
fn selections_are_checked_before_requirements() {
    let status = burger_menu().validate_item(&order_item("Burger", &["color"], &[&["red"]]));
    assert_eq!(status, ItemStatus::Invalid("option does not exist: color".to_string()));
}

#[test]
fn dependent_option_needs_the_option_it_depends_on() {
    let status = combo_menu().validate_item(&order_item("Combo", &[], &[]));
    assert_eq!(status, ItemStatus::Incomplete("dependent option missing drink".to_string()));
    let status = combo_menu().validate_item(&order_item("Combo", &["sauce"], &[&["mayo"]]));
    assert_eq!(status, ItemStatus::Incomplete("dependent option missing drink".to_string()));
}

#[test]
fn dependent_option_without_the_other_is_incomplete_even_when_selected() {
    let status = combo_menu().validate_item(&order_item("Combo", &["ice"], &[&["yes"]]));
    assert_eq!(status, ItemStatus::Incomplete("dependent option missing drink".to_string()));
}

#[test]
fn dependent_option_is_not_needed_without_the_trigger_value() {
    let status = combo_menu().validate_item(&order_item("Combo", &["drink"], &[&["water"]]));
    assert_eq!(status, ItemStatus::Complete("item is valid".to_string()));
    let status = combo_menu().validate_item(&order_item("Combo", &["drink"], &[&[]]));
    assert_eq!(status, ItemStatus::Complete("item is valid".to_string()));
}

#[test]
fn dependent_option_is_needed_with_the_trigger_value() {
    let status = combo_menu().validate_item(&order_item("Combo", &["drink"], &[&["cola"]]));
    assert_eq!(status, ItemStatus::Incomplete("dependent option missing ice".to_string()));
}

#[test]
fn dependent_option_selected_with_the_trigger_value_is_complete() {
    let status = combo_menu().validate_item(&order_item(
        "Combo",
        &["drink", "ice"],
        &[&["cola"], &["yes"]],
    ));
    assert_eq!(status, ItemStatus::Complete("item is valid".to_string()));
}

#[test]
fn option_that_is_never_required_may_be_absent() {
    let menu = Menu::new(vec![item(
        "Fries",
        vec![("salt", option(RequirementConfig::Simple(false), 1, 1, &["yes", "no"]))],
    )]);
    let status = menu.validate_item(&order_item("Fries", &[], &[]));
    assert_eq!(status, ItemStatus::Complete("item is valid".to_string()));
}

#[test]
fn first_unmet_requirement_in_menu_order_decides() {
    let menu = Menu::new(vec![item(
        "Wrap",
        vec![
            ("filling", option(RequirementConfig::Simple(true), 1, 1, &["chicken", "tofu"])),
            ("size", option(RequirementConfig::Simple(true), 1, 1, &["small", "large"])),
        ],
    )]);
    let status = menu.validate_item(&order_item("Wrap", &[], &[]));
    assert_eq!(status, ItemStatus::Incomplete("required option missing filling".to_string()));
    let status = menu.validate_item(&order_item("Wrap", &["filling"], &[&["tofu"]]));
    assert_eq!(status, ItemStatus::Incomplete("required option missing size".to_string()));
}

#[test]
fn first_item_of_a_name_is_the_one_that_counts() {
    let menu = Menu::new(vec![
        item("Tea", vec![("milk", option(RequirementConfig::Simple(true), 1, 1, &["yes", "no"]))]),
        item("Tea", vec![]),
    ]);
    let status = menu.validate_item(&order_item("Tea", &[], &[]));
    assert_eq!(status, ItemStatus::Incomplete("required option missing milk".to_string()));
    let found = menu.find(&"Tea".to_string()).expect("the menu has tea");
    assert_eq!(found.options.len(), 1);
    assert!(menu.find(&"Coffee".to_string()).is_none());
}

#[test]
fn validating_twice_gives_the_same_verdict() {
    let menu = combo_menu();
    let items = vec![
        order_item("Combo", &["drink"], &[&["cola"]]),
        order_item("Combo", &["drink", "ice"], &[&["cola"], &["maybe"]]),
        order_item("Burger", &["size"], &[&["small"]]),
        order_item("Pizza", &[], &[]),
        order_item("Burger", &["size"], &[]),
    ];
    for item in items {
        let first = menu.validate_item(&item);
        let second = menu.validate_item(&item);
        assert_eq!(first, second);
        let mut carrying = item.clone();
        carrying.item_status = Some(first.clone());
        carrying.id = "another-id".to_string();
        carrying.price = Price::from_bits(1.0f64.to_bits());
        assert_eq!(menu.validate_item(&carrying), first);
    }
}

#[test]
fn price_keeps_its_bits() {
    let price = Price::from_bits(9.99f64.to_bits());
    assert_eq!(f64::from_bits(price.to_bits()), 9.99);
    assert_eq!(price, Price { bits: 9.99f64.to_bits() });
}

#[test]
fn menus_with_ordered_bounds_and_distinct_names_are_well_formed() {
    assert!(Menu::new(vec![]).is_well_formed());
    assert!(burger_menu().is_well_formed());
    assert!(combo_menu().is_well_formed());
}

#[test]
fn menu_with_two_items_of_one_name_is_not_well_formed() {
    let menu = Menu::new(vec![item("Tea", vec![]), item("Coffee", vec![]), item("Tea", vec![])]);
    assert!(!menu.is_well_formed());
}

#[test]
fn menu_with_bounds_out_of_order_is_not_well_formed() {
    let bad = option(RequirementConfig::Simple(false), 2, 1, &["a", "b"]);
    assert!(!bad.is_well_formed());
    let good = option(RequirementConfig::Simple(false), 1, 1, &["a", "b"]);
    assert!(good.is_well_formed());
    let entry = item("Tea", vec![("milk", good), ("sugar", bad)]);
    assert!(!entry.is_well_formed());
    assert!(!Menu::new(vec![item("Coffee", vec![]), entry]).is_well_formed());
}
