use customer_agent::chat::{
    add_item, handle_add_function, handle_function_call, handle_list_function,
    handle_modify_function, handle_remove_function, has_item, unused_id, validate_order,
    FunctionCall,
};
use customer_agent::error::DispatchError;
use customer_agent::functions::{
    AddItemArgs, FunctionArgs, FunctionName, ListItemsArgs, ModifyItemArgs, RemoveItemArgs,
};
use customer_agent::menu::{Choice, ItemStatus, Menu, MenuItem, OptionConfig, RequirementConfig};
use customer_agent::name_map::NameMap;
use customer_agent::order::{ChatMessage, ChatRole, Order, OrderItem, OrderItemResponse};
use customer_agent::price::Price;

fn burger_menu() -> Menu {
    let mut choices = NameMap::new();
    choices.insert("small".to_string(), Choice { price: Price::from_bits(0.0f64.to_bits()) });
    choices.insert("large".to_string(), Choice { price: Price::from_bits(1.5f64.to_bits()) });
    let mut options = NameMap::new();
    options.insert(
        "size".to_string(),
        OptionConfig { required: RequirementConfig::Simple(true), minimum: 1, maximum: 1, choices },
    );
    Menu::new(vec![MenuItem {
        item_name: "Burger".to_string(),
        item_type: "main".to_string(),
        description: "A burger".to_string(),
        options,
    }])
}

fn strings(list: &[&str]) -> Vec<String> {
    list.iter().map(|name| name.to_string()).collect()
}

fn add_burger(keys: Option<&[&str]>, values: Option<&[&[&str]]>) -> FunctionCall {
    FunctionCall {
        name: "add_item".to_string(),
        arguments: Some(FunctionArgs::AddItem(AddItemArgs {
            item_name: "Burger".to_string(),
            option_keys: keys.map(strings),
            option_values: values.map(|lists| lists.iter().map(|list| strings(list)).collect()),
            price: Price::from_bits(5.25f64.to_bits()),
        })),
    }
}

fn remove(id: &str) -> FunctionCall {
    FunctionCall {
        name: "remove_item".to_string(),
        arguments: Some(FunctionArgs::RemoveItem(RemoveItemArgs { order_id: id.to_string() })),
    }
}

fn list(limit: Option<usize>) -> FunctionCall {
    FunctionCall {
        name: "list_items".to_string(),
        arguments: Some(FunctionArgs::ListItems(ListItemsArgs { limit })),
    }
}

fn item(id: &str, name: &str) -> OrderItem {
    OrderItem {
        id: id.to_string(),
        item_name: name.to_string(),
        option_keys: strings(&["size"]),
        option_values: vec![strings(&["small"])],
        price: Price::from_bits(5.25f64.to_bits()),
        item_status: None,
    }
}

fn order_of(items: Vec<OrderItem>) -> Order {
    let mut order = Order::new("order-1".to_string());
    order.order = items;
    order.messages.push(ChatMessage { role: ChatRole::User, content: "hello".to_string() });
    order.thread_id = Some("thread-1".to_string());
    order
}

#[test]
fn new_order_is_empty() {
    let order = Order::new("order-7".to_string());
    assert_eq!(order.order_id, "order-7");
    assert!(order.order.is_empty());
    assert!(order.messages.is_empty());
    assert_eq!(order.thread_id, None);
}

#[test]
fn scenario_add_without_options_is_incomplete() {
    let mut order = Order::new("order-1".to_string());
    let result = handle_function_call(&add_burger(Some(&[]), Some(&[])), &burger_menu(), &mut order);
    assert_eq!(result, Ok(()));
    assert_eq!(order.order.len(), 1);
    assert_eq!(
        order.order[0].item_status,
        Some(ItemStatus::Incomplete("required option missing size".to_string()))
    );
}

#[test]
fn scenario_add_with_known_choice_is_complete() {
    let mut order = Order::new("order-1".to_string());
    let call = add_burger(Some(&["size"]), Some(&[&["small"]]));
    assert_eq!(handle_function_call(&call, &burger_menu(), &mut order), Ok(()));
    assert_eq!(order.order.len(), 1);
    assert_eq!(
        order.order[0].item_status,
        Some(ItemStatus::Complete("item is valid".to_string()))
    );
}

#[test]
fn scenario_add_with_unknown_choice_is_invalid() {
    let mut order = Order::new("order-1".to_string());
    let call = add_burger(Some(&["size"]), Some(&[&["medium"]]));
    assert_eq!(handle_function_call(&call, &burger_menu(), &mut order), Ok(()));
    assert_eq!(
        order.order[0].item_status,
        Some(ItemStatus::Invalid("invalid choice for option size: medium".to_string()))
    );
}

#[test]
fn add_appends_an_item_with_the_given_fields() {
    let mut order = order_of(vec![item("a", "Burger")]);
    let call = add_burger(Some(&["size"]), Some(&[&["large"]]));
    assert_eq!(handle_function_call(&call, &burger_menu(), &mut order), Ok(()));
    assert_eq!(order.order.len(), 2);
    assert_eq!(order.order[0].id, "a");
    let added = &order.order[1];
    assert_eq!(added.item_name, "Burger");
    assert_eq!(added.option_keys, strings(&["size"]));
    assert_eq!(added.option_values, vec![strings(&["large"])]);
    assert_eq!(f64::from_bits(added.price.to_bits()), 5.25);
    assert_eq!(order.order_id, "order-1");
    assert_eq!(order.thread_id, Some("thread-1".to_string()));
    assert_eq!(order.messages.len(), 1);
}

#[test]
fn add_defaults_absent_options_to_empty_lists() {
    let mut order = Order::new("order-1".to_string());
    assert_eq!(handle_function_call(&add_burger(None, None), &burger_menu(), &mut order), Ok(()));
    assert!(order.order[0].option_keys.is_empty());
    assert!(order.order[0].option_values.is_empty());
    assert_eq!(
        order.order[0].item_status,
        Some(ItemStatus::Incomplete("required option missing size".to_string()))
    );
}

#[test]
fn add_with_keys_but_no_values_is_invalid() {
    let mut order = Order::new("order-1".to_string());
    let call = add_burger(Some(&["size"]), None);
    assert_eq!(handle_function_call(&call, &burger_menu(), &mut order), Ok(()));
    assert_eq!(
        order.order[0].item_status,
        Some(ItemStatus::Invalid("option keys and values do not match".to_string()))
    );
}

#[test]
fn added_items_get_fresh_ids() {
    let mut order = Order::new("order-1".to_string());
    let menu = burger_menu();
    for _ in 0..5 {
        assert_eq!(handle_function_call(&add_burger(None, None), &menu, &mut order), Ok(()));
    }
    for (i, item) in order.order.iter().enumerate() {
        assert_eq!(item.id.chars().count(), 36);
        assert_eq!(item.id.matches('-').count(), 4);
        for other in &order.order[i + 1..] {
            assert_ne!(item.id, other.id);
        }
    }
}

#[test]
fn add_item_uses_the_id_it_is_given() {
    let mut order = order_of(vec![item("a", "Burger")]);
    let args = AddItemArgs {
        item_name: "Fries".to_string(),
        option_keys: None,
        option_values: Some(vec![strings(&["x"])]),
        price: Price::from_bits(2.0f64.to_bits()),
    };
    add_item(&args, "b".to_string(), &mut order);
    assert_eq!(order.order.len(), 2);
    assert_eq!(
        order.order[1],
        OrderItem {
            id: "b".to_string(),
            item_name: "Fries".to_string(),
            option_keys: vec![],
            option_values: vec![strings(&["x"])],
            price: Price::from_bits(2.0f64.to_bits()),
            item_status: None,
        }
    );
}

#[test]
fn handle_add_function_leaves_the_new_item_without_verdict() {
    let mut order = Order::new("order-1".to_string());
    let call = add_burger(None, None);
    assert_eq!(handle_add_function(call.arguments.as_ref().unwrap(), &mut order), Ok(()));
    assert_eq!(order.order.len(), 1);
    assert_eq!(order.order[0].item_status, None);
}

#[test]
fn unknown_function_is_refused() {
    let mut order = order_of(vec![item("a", "Burger")]);
    let before = order.clone();
    let call = FunctionCall {
        name: "clear_items".to_string(),
        arguments: Some(FunctionArgs::ListItems(ListItemsArgs { limit: Some(0) })),
    };
    assert_eq!(
        handle_function_call(&call, &burger_menu(), &mut order),
        Err(DispatchError::UnknownFunction)
    );
    assert_eq!(order, before);
    let call = FunctionCall { name: "AddItem".to_string(), arguments: None };
    assert_eq!(
        handle_function_call(&call, &burger_menu(), &mut order),
        Err(DispatchError::UnknownFunction)
    );
    assert_eq!(order, before);
}

#[test]
fn undecoded_arguments_are_refused() {
    let mut order = order_of(vec![item("a", "Burger")]);
    let before = order.clone();
    for name in ["add_item", "remove_item", "modify_item", "list_items"] {
        let call = FunctionCall { name: name.to_string(), arguments: None };
        assert_eq!(
            handle_function_call(&call, &burger_menu(), &mut order),
            Err(DispatchError::BadArguments)
        );
        assert_eq!(order, before);
    }
}

#[test]
fn arguments_of_another_shape_are_refused() {
    let mut order = order_of(vec![item("a", "Burger")]);
    let before = order.clone();
    let call = FunctionCall { name: "list_items".to_string(), arguments: remove("a").arguments };
    assert_eq!(
        handle_function_call(&call, &burger_menu(), &mut order),
        Err(DispatchError::BadArguments)
    );
    assert_eq!(order, before);
    let call = FunctionCall { name: "remove_item".to_string(), arguments: list(Some(0)).arguments };
    assert_eq!(
        handle_function_call(&call, &burger_menu(), &mut order),
        Err(DispatchError::BadArguments)
    );
    assert_eq!(order, before);
}

#[test]
fn handlers_refuse_arguments_of_another_shape() {
    let mut order = order_of(vec![item("a", "Burger")]);
    let before = order.clone();
    let remove_args = remove("a").arguments.unwrap();
    let list_args = list(Some(0)).arguments.unwrap();
    assert_eq!(handle_add_function(&remove_args, &mut order), Err(DispatchError::BadArguments));
    assert_eq!(handle_remove_function(&list_args, &mut order), Err(DispatchError::BadArguments));
    assert_eq!(handle_modify_function(&list_args, &mut order), Err(DispatchError::BadArguments));
    assert_eq!(handle_list_function(&remove_args, &mut order), Err(DispatchError::BadArguments));
    assert_eq!(order, before);
}

#[test]
fn remove_takes_out_the_item_of_that_id() {
    let mut order = order_of(vec![item("a", "Burger"), item("b", "Burger"), item("c", "Burger")]);
    assert_eq!(handle_function_call(&remove("b"), &burger_menu(), &mut order), Ok(()));
    let ids: Vec<&str> = order.order.iter().map(|item| item.id.as_str()).collect();
    assert_eq!(ids, vec!["a", "c"]);
}

#[test]
fn remove_takes_out_every_item_of_that_id() {
    let mut order = order_of(vec![item("a", "Burger"), item("b", "Burger"), item("a", "Burger")]);
    let args = remove("a").arguments.unwrap();
    assert_eq!(handle_remove_function(&args, &mut order), Ok(()));
    assert_eq!(order.order, vec![item("b", "Burger")]);
}

#[test]
fn remove_of_an_unknown_id_changes_nothing() {
    let mut order = order_of(vec![item("a", "Burger"), item("b", "Burger")]);
    let menu = burger_menu();
    validate_order(&menu, &mut order);
    let before = order.clone();
    assert_eq!(handle_function_call(&remove("nonexistent"), &menu, &mut order), Ok(()));
    assert_eq!(order, before);
}

#[test]
fn remove_is_idempotent() {
    let mut order = order_of(vec![item("a", "Burger"), item("b", "Pizza"), item("c", "Burger")]);
    let menu = burger_menu();
    assert_eq!(handle_function_call(&remove("b"), &menu, &mut order), Ok(()));
    let once = order.clone();
    assert_eq!(once.order.len(), 2);
    assert_eq!(handle_function_call(&remove("b"), &menu, &mut order), Ok(()));
    assert_eq!(order, once);
}

#[test]
fn modify_overwrites_the_item_in_place() {
    let mut order = order_of(vec![item("a", "Burger"), item("b", "Burger"), item("c", "Burger")]);
    let menu = burger_menu();
    validate_order(&menu, &mut order);
    let call = FunctionCall {
        name: "modify_item".to_string(),
        arguments: Some(FunctionArgs::ModifyItem(ModifyItemArgs {
            order_id: "b".to_string(),
            item_name: "Pizza".to_string(),
            option_keys: None,
            option_values: None,
            price: Price::from_bits(8.0f64.to_bits()),
        })),
    };
    assert_eq!(handle_function_call(&call, &menu, &mut order), Ok(()));
    assert_eq!(order.order.len(), 3);
    let ids: Vec<&str> = order.order.iter().map(|item| item.id.as_str()).collect();
    assert_eq!(ids, vec!["a", "b", "c"]);
    assert_eq!(
        order.order[1],
        OrderItem {
            id: "b".to_string(),
            item_name: "Pizza".to_string(),
            option_keys: vec![],
            option_values: vec![],
            price: Price::from_bits(8.0f64.to_bits()),
            item_status: Some(ItemStatus::Invalid("item does not exist: Pizza".to_string())),
        }
    );
    let complete = Some(ItemStatus::Complete("item is valid".to_string()));
    assert_eq!(order.order[0].item_status, complete);
    assert_eq!(order.order[2].item_status, complete);
    assert_eq!(order.order[0].item_name, "Burger");
}

#[test]
fn modify_changes_the_first_item_of_that_id_only() {
    let mut order = order_of(vec![item("a", "Burger"), item("a", "Burger")]);
    let args = FunctionArgs::ModifyItem(ModifyItemArgs {
        order_id: "a".to_string(),
        item_name: "Fries".to_string(),
        option_keys: Some(strings(&["salt"])),
        option_values: Some(vec![strings(&["yes"])]),
        price: Price::from_bits(2.0f64.to_bits()),
    });
    assert_eq!(handle_modify_function(&args, &mut order), Ok(()));
    assert_eq!(order.order[0].item_name, "Fries");
    assert_eq!(order.order[0].option_keys, strings(&["salt"]));
    assert_eq!(order.order[0].item_status, None);
    assert_eq!(order.order[1], item("a", "Burger"));
}

#[test]
fn modify_of_an_unknown_id_is_refused() {
    let mut order = order_of(vec![item("a", "Burger")]);
    let before = order.clone();
    let call = FunctionCall {
        name: "modify_item".to_string(),
        arguments: Some(FunctionArgs::ModifyItem(ModifyItemArgs {
            order_id: "z".to_string(),
            item_name: "Burger".to_string(),
            option_keys: None,
            option_values: None,
            price: Price::from_bits(1.0f64.to_bits()),
        })),
    };
    assert_eq!(
        handle_function_call(&call, &burger_menu(), &mut order),
        Err(DispatchError::ItemNotFound)
    );
    assert_eq!(order, before);
}

#[test]
fn list_with_limit_zero_empties_the_order() {
    let mut order = order_of(vec![item("a", "Burger"), item("b", "Burger")]);
    assert_eq!(handle_function_call(&list(Some(0)), &burger_menu(), &mut order), Ok(()));
    assert!(order.order.is_empty());
}

#[test]
fn list_with_a_limit_keeps_the_first_items() {
    let mut order = order_of(vec![item("a", "Burger"), item("b", "Burger"), item("c", "Burger")]);
    assert_eq!(handle_list_function(&list(Some(2)).arguments.unwrap(), &mut order), Ok(()));
    assert_eq!(order.order, vec![item("a", "Burger"), item("b", "Burger")]);
}

#[test]
fn list_with_a_limit_not_below_the_length_changes_nothing() {
    let mut order = order_of(vec![item("a", "Burger"), item("b", "Burger")]);
    let before = order.clone();
    for limit in [2, 3, usize::MAX] {
        assert_eq!(handle_list_function(&list(Some(limit)).arguments.unwrap(), &mut order), Ok(()));
        assert_eq!(order, before);
    }
}

#[test]
fn list_without_a_limit_changes_nothing_but_verdicts() {
    let mut order = order_of(vec![item("a", "Burger"), item("b", "Pizza")]);
    assert_eq!(handle_function_call(&list(None), &burger_menu(), &mut order), Ok(()));
    assert_eq!(order.order.len(), 2);
    assert_eq!(
        order.order[0].item_status,
        Some(ItemStatus::Complete("item is valid".to_string()))
    );
    assert_eq!(
        order.order[1].item_status,
        Some(ItemStatus::Invalid("item does not exist: Pizza".to_string()))
    );
}

#[test]
fn every_item_is_validated_after_a_call() {
    let mut order = order_of(vec![item("a", "Burger"), item("b", "Pizza")]);
    order.order[0].item_status = Some(ItemStatus::Invalid("stale".to_string()));
    assert_eq!(handle_function_call(&remove("none"), &burger_menu(), &mut order), Ok(()));
    assert_eq!(
        order.order[0].item_status,
        Some(ItemStatus::Complete("item is valid".to_string()))
    );
    assert_eq!(
        order.order[1].item_status,
        Some(ItemStatus::Invalid("item does not exist: Pizza".to_string()))
    );
}

#[test]
fn function_names_are_parsed_and_written() {
    let all = [
        (FunctionName::AddItem, "add_item"),
        (FunctionName::RemoveItem, "remove_item"),
        (FunctionName::ModifyItem, "modify_item"),
        (FunctionName::ListItems, "list_items"),
    ];
    for (function, name) in all {
        assert_eq!(function.to_string(), name);
        assert_eq!(FunctionName::parse(&name.to_string()), Some(function));
    }
    assert_eq!(FunctionName::parse(&"".to_string()), None);
    assert_eq!(FunctionName::parse(&"add_item ".to_string()), None);
    assert_eq!(FunctionName::parse(&"Add_Item".to_string()), None);
}

#[test]
fn errors_and_roles_are_written_out() {
    assert_eq!(DispatchError::UnknownFunction.to_string(), "unknown function");
    assert_eq!(DispatchError::BadArguments.to_string(), "invalid function arguments");
    assert_eq!(DispatchError::ItemNotFound.to_string(), "item not found");
    assert_eq!(ChatRole::User.to_string(), "user");
    assert_eq!(ChatRole::Assistant.to_string(), "assistant");
    assert_eq!(ChatRole::parse(&"user".to_string()), Some(ChatRole::User));
    assert_eq!(ChatRole::parse(&"assistant".to_string()), Some(ChatRole::Assistant));
    assert_eq!(ChatRole::parse(&"system".to_string()), None);
    assert_eq!(ChatRole::parse(&"User".to_string()), None);
}

#[test]
fn has_item_tells_whether_an_id_is_taken() {
    let order = order_of(vec![item("a", "Burger"), item("b", "Burger")]);
    assert!(has_item(&order, &"a".to_string()));
    assert!(has_item(&order, &"b".to_string()));
    assert!(!has_item(&order, &"c".to_string()));
    assert!(!has_item(&Order::new("order-1".to_string()), &"a".to_string()));
}

#[test]
fn unused_id_keeps_a_candidate_that_is_free() {
    let order = order_of(vec![item("a", "Burger"), item("b", "Burger")]);
    assert_eq!(unused_id("c".to_string(), &order), "c");
    assert_eq!(unused_id("a".to_string(), &Order::new("order-1".to_string())), "a");
}

#[test]
fn unused_id_extends_a_candidate_that_is_taken() {
    let order = order_of(vec![item("a", "Burger"), item("a-", "Burger"), item("b", "Burger")]);
    assert_eq!(unused_id("a".to_string(), &order), "a--");
    assert_eq!(unused_id("b".to_string(), &order), "b-");
    assert_eq!(unused_id("a-".to_string(), &order), "a--");
}

#[test]
fn shown_item_is_the_item_without_its_verdict() {
    let mut burger = item("a", "Burger");
    burger.item_status = Some(ItemStatus::Complete("item is valid".to_string()));
    let expected = OrderItemResponse {
        id: "a".to_string(),
        item_name: "Burger".to_string(),
        option_keys: strings(&["size"]),
        option_values: vec![strings(&["small"])],
        price: Price::from_bits(5.25f64.to_bits()),
    };
    assert_eq!(OrderItemResponse::from(burger.clone()), expected);
    let shown: OrderItemResponse = burger.into();
    assert_eq!(shown, expected);
}

#[test]
fn copies_of_orders_are_equal_to_them() {
    let mut order = order_of(vec![item("a", "Burger"), item("b", "Pizza")]);
    validate_order(&burger_menu(), &mut order);
    let copy = order.clone();
    assert_eq!(copy, order);
    assert_eq!(copy.order[1].item_status, order.order[1].item_status);
    assert_eq!(copy.messages, order.messages);
}
