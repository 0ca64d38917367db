//! The dispatcher: applies a function call of the assistant to an order and
//! validates every item of the order again.

use crate::error::DispatchError;
use crate::functions::{
    AddItemArgs, AddItemArgsView, FunctionArgs, FunctionArgsView, FunctionName, ListItemsArgs,
    ModifyItemArgsView,
};
use crate::menu::{verdict, Menu, MenuView};
use crate::names::{
    clone_name_lists, clone_names, first_index, lemma_first_index, lemma_first_index_is,
};
use crate::order::{item_views, Order, OrderItem, OrderItemView, OrderView};
use vstd::prelude::*;
use vstd::string::StringExecFns;

verus! {

/// A function call of the assistant: the name it called, and the arguments
/// it gave.
#[derive(Debug, PartialEq, Eq)]
pub struct FunctionCall {
    /// The name that the assistant called
    pub name: String,
    /// The arguments, absent where the payload did not have the shape that
    /// the function of that name asks for
    pub arguments: Option<FunctionArgs>,
}

/// What a function call holds.
pub struct FunctionCallView {
    pub name: Seq<char>,
    pub arguments: Option<FunctionArgsView>,
}

impl View for FunctionCall {
    type V = FunctionCallView;

    open spec fn view(&self) -> FunctionCallView {
        FunctionCallView {
            name: self.name@,
            arguments: match self.arguments {
                Some(args) => Some(args@),
                None => None,
            },
        }
    }
}

/// The names in an optional list, none where it is absent.
pub open spec fn names_or_none(names: Option<Seq<Seq<char>>>) -> Seq<Seq<char>> {
    match names {
        Some(list) => list,
        None => Seq::empty(),
    }
}

/// The lists in an optional list of lists, none where it is absent.
pub open spec fn lists_or_none(lists: Option<Seq<Seq<Seq<char>>>>) -> Seq<Seq<Seq<char>>> {
    match lists {
        Some(list) => list,
        None => Seq::empty(),
    }
}

/// The item that a call to add an item creates under the id `id`.
pub open spec fn new_item(id: Seq<char>, args: AddItemArgsView) -> OrderItemView {
    OrderItemView {
        id,
        item_name: args.item_name,
        option_keys: names_or_none(args.option_keys),
        option_values: lists_or_none(args.option_values),
        price: args.price,
        item_status: None,
    }
}

/// Whether an item has another id than `id`.
pub open spec fn has_other_id(id: Seq<char>) -> spec_fn(OrderItemView) -> bool {
    |item: OrderItemView| item.id != id
}

/// The items without those of the id `id`, in their order.
pub open spec fn without(items: Seq<OrderItemView>, id: Seq<char>) -> Seq<OrderItemView> {
    items.filter(has_other_id(id))
}

/// The ids of the items, in their order.
pub open spec fn item_ids(items: Seq<OrderItemView>) -> Seq<Seq<char>> {
    items.map_values(|item: OrderItemView| item.id)
}

/// The item after a call to modify it: name, selections and price are those
/// of the call, id and verdict stay.
pub open spec fn overwritten(item: OrderItemView, args: ModifyItemArgsView) -> OrderItemView {
    OrderItemView {
        id: item.id,
        item_name: args.item_name,
        option_keys: names_or_none(args.option_keys),
        option_values: lists_or_none(args.option_values),
        price: args.price,
        item_status: item.item_status,
    }
}

/// The items after a call to modify one of them: the first item of the id
/// that the call names is overwritten in place. Nothing where no item has
/// that id.
pub open spec fn modified(items: Seq<OrderItemView>, args: ModifyItemArgsView) -> Option<
    Seq<OrderItemView>,
> {
    match first_index(item_ids(items), args.order_id) {
        Some(i) => Some(items.update(i, overwritten(items[i], args))),
        None => None,
    }
}

/// The items after a call to list them: the first `limit` of them where a
/// limit below their number is given, all of them else.
pub open spec fn listed(items: Seq<OrderItemView>, args: ListItemsArgs) -> Seq<OrderItemView> {
    match args.limit {
        Some(limit) => if limit <= items.len() {
            items.take(limit as int)
        } else {
            items
        },
        None => items,
    }
}

/// The item with the verdict that the menu gives on it.
pub open spec fn with_verdict(menu: MenuView, item: OrderItemView) -> OrderItemView {
    OrderItemView {
        id: item.id,
        item_name: item.item_name,
        option_keys: item.option_keys,
        option_values: item.option_values,
        price: item.price,
        item_status: Some(verdict(menu, item)),
    }
}

/// The items, each with the verdict that the menu gives on it.
pub open spec fn validated(menu: MenuView, items: Seq<OrderItemView>) -> Seq<OrderItemView> {
    items.map_values(|item: OrderItemView| with_verdict(menu, item))
}

/// What the function `function` does to the items when called with `args`;
/// `fresh` is the id that a new item gets.
pub open spec fn mutated(
    function: FunctionName,
    args: FunctionArgsView,
    items: Seq<OrderItemView>,
    fresh: Seq<char>,
) -> Result<Seq<OrderItemView>, DispatchError> {
    match (function, args) {
        (FunctionName::AddItem, FunctionArgsView::AddItem(add)) => Ok(
            items.push(new_item(fresh, add)),
        ),
        (FunctionName::RemoveItem, FunctionArgsView::RemoveItem(remove)) => Ok(
            without(items, remove.order_id),
        ),
        (FunctionName::ModifyItem, FunctionArgsView::ModifyItem(modify)) => match modified(
            items,
            modify,
        ) {
            Some(after) => Ok(after),
            None => Err(DispatchError::ItemNotFound),
        },
        (FunctionName::ListItems, FunctionArgsView::ListItems(list)) => Ok(listed(items, list)),
        _ => Err(DispatchError::BadArguments),
    }
}

/// What a function call does to the items of an order: the name decides the
/// function, the function changes the items, and every item that is then in
/// the order gets its verdict anew. `fresh` is the id that a new item gets.
pub open spec fn dispatched(
    call: FunctionCallView,
    menu: MenuView,
    items: Seq<OrderItemView>,
    fresh: Seq<char>,
) -> Result<Seq<OrderItemView>, DispatchError> {
    match FunctionName::named(call.name) {
        None => Err(DispatchError::UnknownFunction),
        Some(function) => match call.arguments {
            None => Err(DispatchError::BadArguments),
            Some(args) => match mutated(function, args, items, fresh) {
                Ok(after) => Ok(validated(menu, after)),
                Err(error) => Err(error),
            },
        },
    }
}

/// Whether the call is one that adds an item: by its name and by the shape
/// of its arguments.
pub open spec fn adds(call: FunctionCallView) -> bool {
    &&& FunctionName::named(call.name) == Some(FunctionName::AddItem)
    &&& call.arguments is Some
    &&& call.arguments.unwrap() is AddItem
}

/// The order with other items.
pub open spec fn with_items(order: OrderView, items: Seq<OrderItemView>) -> OrderView {
    OrderView {
        order_id: order.order_id,
        order: items,
        messages: order.messages,
        thread_id: order.thread_id,
    }
}

/// Draws a random identifier with `uuid::Uuid::new_v4` and writes it out with
/// the `Display` of `uuid::Uuid`. Nothing is claimed of the identifier: which
/// one comes out is left to chance.
#[verifier::external_body]
fn random_id() -> (id: String) {
    uuid::Uuid::new_v4().to_string()
}

/// The length of the longest of the names.
pub open spec fn longest(names: Seq<Seq<char>>) -> nat
    decreases names.len(),
{
    if names.len() == 0 {
        0
    } else if names.last().len() >= longest(names.drop_last()) {
        names.last().len()
    } else {
        longest(names.drop_last())
    }
}

/// No name is longer than the longest.
pub proof fn lemma_longest(names: Seq<Seq<char>>)
    ensures
        forall|i: int| 0 <= i < names.len() ==> (#[trigger] names[i]).len() <= longest(names),
    decreases names.len(),
{
    if names.len() > 0 {
        lemma_longest(names.drop_last());
        assert forall|i: int| 0 <= i < names.len() implies (#[trigger] names[i]).len() <= longest(
            names,
        ) by {
            if i < names.len() - 1 {
                assert(names.drop_last()[i] == names[i]);
            }
        }
    }
}

/// Whether an item of the order has the id `id`.
pub fn has_item(order: &Order, id: &String) -> (found: bool)
    ensures
        found == item_ids(order@.order).contains(id@),
{
    let ghost ids = item_ids(order@.order);
    let mut i: usize = 0;
    while i < order.order.len()
        invariant
            i <= order.order.len(),
            ids == item_ids(order@.order),
            forall|j: int| 0 <= j < i ==> ids[j] != id@,
        decreases order.order.len() - i,
    {
        if order.order[i].id == *id {
            assert(ids[i as int] == id@);
            return true;
        }
        i += 1;
    }
    false
}

/// An id that no item of the order has: `candidate` itself where no item has
/// it, else `candidate` with as many hyphens behind it as it takes.
pub fn unused_id(candidate: String, order: &Order) -> (id: String)
    ensures
        !item_ids(order@.order).contains(id@),
        !item_ids(order@.order).contains(candidate@) ==> id@ == candidate@,
{
    let ghost ids = item_ids(order@.order);
    proof {
        lemma_longest(ids);
    }
    let mut id = candidate;
    while has_item(order, &id)
        invariant
            ids == item_ids(order@.order),
            forall|i: int| 0 <= i < ids.len() ==> (#[trigger] ids[i]).len() <= longest(ids),
            !ids.contains(candidate@) ==> id@ == candidate@,
        decreases longest(ids) + 1 - id@.len(),
    {
        proof {
            reveal_strlit("-");
            let at = choose|i: int| 0 <= i < ids.len() && ids[i] == id@;
            assert(ids[at].len() <= longest(ids));
        }
        id = id.concat("-");
    }
    id
}

/// A copy of an optional list of names, empty where it is absent.
fn names_or_empty(names: &Option<Vec<String>>) -> (list: Vec<String>)
    ensures
        list.deep_view() == names_or_none(crate::functions::names_view(*names)),
{
    match names {
        Some(list) => clone_names(list),
        None => Vec::new(),
    }
}

/// A copy of an optional list of lists of names, empty where it is absent.
fn lists_or_empty(lists: &Option<Vec<Vec<String>>>) -> (list: Vec<Vec<String>>)
    ensures
        list.deep_view() == lists_or_none(crate::functions::name_lists_view(*lists)),
{
    match lists {
        Some(list) => clone_name_lists(list),
        None => Vec::new(),
    }
}

/// Appends to the order the item that `args` describe, under the id `id`
/// and without a verdict.
pub fn add_item(args: &AddItemArgs, id: String, order: &mut Order)
    ensures
        final(order)@ == with_items(old(order)@, old(order)@.order.push(new_item(id@, args@))),
{
    let item = OrderItem {
        id,
        item_name: args.item_name.clone(),
        option_keys: names_or_empty(&args.option_keys),
        option_values: lists_or_empty(&args.option_values),
        price: args.price,
        item_status: None,
    };
    order.order.push(item);
    assert(item_views(order.order@) =~= item_views(old(order).order@).push(item@));
}

/// Adds an item to the order, under an id that is drawn at random and that
/// no item of the order has yet.
///
/// The new item stands behind all others and has no verdict yet. Arguments
/// of another shape are refused and leave the order as it was.
pub fn handle_add_function(function_args: &FunctionArgs, order: &mut Order) -> (result: Result<
    (),
    DispatchError,
>)
    ensures
        match function_args@ {
            FunctionArgsView::AddItem(args) => {
                &&& result is Ok
                &&& final(order)@ == with_items(
                    old(order)@,
                    old(order)@.order.push(new_item(final(order)@.order.last().id, args)),
                )
                &&& !item_ids(old(order)@.order).contains(final(order)@.order.last().id)
            },
            _ => result == Err::<(), DispatchError>(DispatchError::BadArguments) && final(order)@
                == old(order)@,
        },
{
    match function_args {
        FunctionArgs::AddItem(args) => {
            let id = unused_id(random_id(), order);
            add_item(args, id, order);
            Ok(())
        },
        _ => Err(DispatchError::BadArguments),
    }
}

/// Removes from the order every item of the id that the arguments name.
///
/// An id that no item has is no error: the order then stays as it was.
/// Arguments of another shape are refused and leave the order as it was.
pub fn handle_remove_function(function_args: &FunctionArgs, order: &mut Order) -> (result: Result<
    (),
    DispatchError,
>)
    ensures
        match function_args@ {
            FunctionArgsView::RemoveItem(args) => {
                &&& result is Ok
                &&& final(order)@ == with_items(
                    old(order)@,
                    without(old(order)@.order, args.order_id),
                )
            },
            _ => result == Err::<(), DispatchError>(DispatchError::BadArguments) && final(order)@
                == old(order)@,
        },
{
    match function_args {
        FunctionArgs::RemoveItem(args) => {
            let ghost before = item_views(order.order@);
            let ghost other = has_other_id(args.order_id@);
            let mut kept: Vec<OrderItem> = Vec::new();
            let mut i: usize = 0;
            assert(before.take(0).filter(other) =~= Seq::empty()) by {
                reveal(Seq::filter);
            }
            while i < order.order.len()
                invariant
                    i <= order.order.len(),
                    before == item_views(order.order@),
                    other == has_other_id(args.order_id@),
                    item_views(kept@) == before.take(i as int).filter(other),
                decreases order.order.len() - i,
            {
                let ghost so_far = item_views(kept@);
                assert(before.take(i + 1).drop_last() =~= before.take(i as int));
                assert(before.take(i + 1).filter(other) == if other(before[i as int]) {
                    so_far.push(before[i as int])
                } else {
                    so_far
                }) by {
                    reveal(Seq::filter);
                }
                if order.order[i].id != args.order_id {
                    kept.push(order.order[i].clone());
                }
                i += 1;
            }
            assert(before.take(i as int) =~= before);
            order.order = kept;
            Ok(())
        },
        _ => Err(DispatchError::BadArguments),
    }
}

/// Overwrites the first item of the id that the arguments name with the
/// name, the selections and the price that they give.
///
/// The item keeps its id, its place and its verdict; no other item changes.
/// Where no item has that id, or the arguments have another shape, the
/// call is refused and the order stays as it was.
pub fn handle_modify_function(function_args: &FunctionArgs, order: &mut Order) -> (result: Result<
    (),
    DispatchError,
>)
    ensures
        match function_args@ {
            FunctionArgsView::ModifyItem(args) => match modified(old(order)@.order, args) {
                Some(after) => result is Ok && final(order)@ == with_items(old(order)@, after),
                None => result == Err::<(), DispatchError>(DispatchError::ItemNotFound) && final(order)@ == old(order)@,
            },
            _ => result == Err::<(), DispatchError>(DispatchError::BadArguments) && final(order)@
                == old(order)@,
        },
{
    match function_args {
        FunctionArgs::ModifyItem(args) => {
            let ghost ids = item_ids(item_views(order.order@));
            let mut i: usize = 0;
            while i < order.order.len()
                invariant
                    i <= order.order.len(),
                    *order == *old(order),
                    function_args@ == FunctionArgsView::ModifyItem(args@),
                    ids == item_ids(item_views(order.order@)),
                    forall|j: int| 0 <= j < i ==> ids[j] != args.order_id@,
                decreases order.order.len() - i,
            {
                if order.order[i].id == args.order_id {
                    proof {
                        lemma_first_index_is(ids, args.order_id@, i as int);
                    }
                    let item = OrderItem {
                        id: order.order[i].id.clone(),
                        item_name: args.item_name.clone(),
                        option_keys: names_or_empty(&args.option_keys),
                        option_values: lists_or_empty(&args.option_values),
                        price: args.price,
                        item_status: match &order.order[i].item_status {
                            Some(status) => Some(status.clone()),
                            None => None,
                        },
                    };
                    let ghost before = item_views(order.order@);
                    order.order[i] = item;
                    assert(item_views(order.order@) =~= before.update(
                        i as int,
                        overwritten(before[i as int], args@),
                    ));
                    return Ok(());
                }
                i += 1;
            }
            proof {
                lemma_first_index(ids, args.order_id@);
            }
            Err(DispatchError::ItemNotFound)
        },
        _ => Err(DispatchError::BadArguments),
    }
}

/// Cuts the order down to its first `limit` items where the arguments give
/// a limit, and leaves it as it is where they give none or one that is not
/// below the number of items. Arguments of another shape are refused.
pub fn handle_list_function(function_args: &FunctionArgs, order: &mut Order) -> (result: Result<
    (),
    DispatchError,
>)
    ensures
        match function_args@ {
            FunctionArgsView::ListItems(args) => {
                &&& result is Ok
                &&& final(order)@ == with_items(old(order)@, listed(old(order)@.order, args))
            },
            _ => result == Err::<(), DispatchError>(DispatchError::BadArguments) && final(order)@
                == old(order)@,
        },
{
    match function_args {
        FunctionArgs::ListItems(ListItemsArgs { limit }) => {
            let ghost before = item_views(order.order@);
            match limit {
                Some(limit) => {
                    order.order.truncate(*limit);
                    assert(item_views(order.order@) =~= listed(before, function_args@->ListItems_0));
                },
                None => {},
            }
            Ok(())
        },
        _ => Err(DispatchError::BadArguments),
    }
}

/// Validates every item of the order against the menu and writes each
/// verdict into its item.
pub fn validate_order(menu: &Menu, order: &mut Order)
    ensures
        final(order)@ == with_items(old(order)@, validated(menu@, old(order)@.order)),
{
    let ghost before = item_views(order.order@);
    let mut i: usize = 0;
    while i < order.order.len()
        invariant
            i <= order.order.len(),
            order.order.len() == before.len(),
            order.order_id == old(order).order_id,
            order.messages == old(order).messages,
            order.thread_id == old(order).thread_id,
            forall|j: int| 0 <= j < i ==> order.order[j]@ == with_verdict(menu@, before[j]),
            forall|j: int| i <= j < before.len() ==> order.order[j]@ == before[j],
        decreases order.order.len() - i,
    {
        let status = menu.validate_item(&order.order[i]);
        let mut item = order.order[i].clone();
        item.item_status = Some(status);
        order.order[i] = item;
        i += 1;
    }
    assert(item_views(order.order@) =~= validated(menu@, before));
}

/// Applies a function call of the assistant to the order.
///
/// The name decides the function: a name that names none is refused as
/// unknown. Absent arguments, or arguments in the shape of another function,
/// are refused as bad. Where the function then succeeds, every item of the
/// order is validated against the menu and holds its verdict. A call that is
/// refused leaves the order as it was.
pub fn handle_function_call(function_call: &FunctionCall, menu: &Menu, order: &mut Order) -> (result:
    Result<(), DispatchError>)
    ensures
        match dispatched(
            function_call@,
            menu@,
            old(order)@.order,
            final(order)@.order.last().id,
        ) {
            Ok(after) => result is Ok && final(order)@ == with_items(old(order)@, after),
            Err(error) => result == Err::<(), DispatchError>(error) && final(order)@ == old(order)@,
        },
        adds(function_call@) ==> !item_ids(old(order)@.order).contains(
            final(order)@.order.last().id,
        ),
{
    let function = match FunctionName::parse(&function_call.name) {
        Some(function) => function,
        None => {
            return Err(DispatchError::UnknownFunction);
        },
    };
    let args = match &function_call.arguments {
        Some(args) => args,
        None => {
            return Err(DispatchError::BadArguments);
        },
    };
    let applied = match (function, args) {
        (FunctionName::AddItem, FunctionArgs::AddItem(_)) => handle_add_function(args, order),
        (FunctionName::RemoveItem, FunctionArgs::RemoveItem(_)) => handle_remove_function(
            args,
            order,
        ),
        (FunctionName::ModifyItem, FunctionArgs::ModifyItem(_)) => handle_modify_function(
            args,
            order,
        ),
        (FunctionName::ListItems, FunctionArgs::ListItems(_)) => handle_list_function(args, order),
        _ => Err(DispatchError::BadArguments),
    };
    match applied {
        Ok(()) => {
            validate_order(menu, order);
            Ok(())
        },
        Err(error) => Err(error),
    }
}

/// Validating keeps the items in place and keeps their ids.
pub proof fn lemma_validated_keeps_ids(menu: MenuView, items: Seq<OrderItemView>)
    ensures
        validated(menu, items).len() == items.len(),
        item_ids(validated(menu, items)) == item_ids(items),
{
}

/// Validating a validated order changes nothing.
pub proof fn lemma_validated_twice(menu: MenuView, items: Seq<OrderItemView>)
    ensures
        validated(menu, validated(menu, items)) == validated(menu, items),
{
    assert forall|i: int| 0 <= i < items.len() implies with_verdict(
        menu,
        #[trigger] validated(menu, items)[i],
    ) == with_verdict(menu, items[i]) by {
        crate::menu::lemma_validating_again_agrees(menu, items[i]);
    }
}

/// Removing by id a second time changes nothing.
pub proof fn lemma_without_twice(items: Seq<OrderItemView>, id: Seq<char>)
    ensures
        without(without(items, id), id) == without(items, id),
    decreases items.len(),
{
    reveal(Seq::filter);
    if items.len() > 0 {
        let other = has_other_id(id);
        let rest = items.drop_last().filter(other);
        lemma_without_twice(items.drop_last(), id);
        if other(items.last()) {
            assert(rest.push(items.last()).drop_last() =~= rest);
        }
    }
}

/// Removing by id and validating can be done in either order.
pub proof fn lemma_without_validated(menu: MenuView, items: Seq<OrderItemView>, id: Seq<char>)
    ensures
        without(validated(menu, items), id) == validated(menu, without(items, id)),
    decreases items.len(),
{
    reveal(Seq::filter);
    if items.len() > 0 {
        lemma_without_validated(menu, items.drop_last(), id);
        assert(validated(menu, items).drop_last() =~= validated(menu, items.drop_last()));
    }
}

/// Removing an item is idempotent: a call that removes an id, made again on
/// the order that the first call left, leaves that order as it is.
pub proof fn lemma_remove_item_is_idempotent(
    call: FunctionCallView,
    menu: MenuView,
    items: Seq<OrderItemView>,
    fresh: Seq<char>,
    again: Seq<char>,
)
    requires
        FunctionName::named(call.name) == Some(FunctionName::RemoveItem),
        call.arguments is Some,
        call.arguments.unwrap() is RemoveItem,
    ensures
        dispatched(call, menu, items, fresh) is Ok,
        dispatched(call, menu, dispatched(call, menu, items, fresh).unwrap(), again) == dispatched(
            call,
            menu,
            items,
            fresh,
        ),
{
    let id = call.arguments.unwrap()->RemoveItem_0.order_id;
    lemma_without_validated(menu, without(items, id), id);
    lemma_without_twice(items, id);
    lemma_validated_twice(menu, without(items, id));
}

/// Removing an id that no item has changes nothing.
pub proof fn lemma_without_unknown_id(items: Seq<OrderItemView>, id: Seq<char>)
    requires
        !item_ids(items).contains(id),
    ensures
        without(items, id) == items,
    decreases items.len(),
{
    reveal(Seq::filter);
    if items.len() > 0 {
        let last = items.len() - 1;
        assert forall|i: int| 0 <= i < last implies item_ids(items.drop_last())[i] != id by {
            assert(item_ids(items)[i] == items[i].id);
        }
        lemma_without_unknown_id(items.drop_last(), id);
        assert(item_ids(items)[last] == items.last().id);
    }
}

/// A call that removes an id that no item has succeeds, and leaves an order
/// whose items hold their verdicts as it is.
pub proof fn lemma_remove_unknown_item_changes_nothing(
    call: FunctionCallView,
    menu: MenuView,
    items: Seq<OrderItemView>,
    fresh: Seq<char>,
)
    requires
        FunctionName::named(call.name) == Some(FunctionName::RemoveItem),
        call.arguments is Some,
        call.arguments.unwrap() is RemoveItem,
        !item_ids(items).contains(call.arguments.unwrap()->RemoveItem_0.order_id),
        items == validated(menu, items),
    ensures
        dispatched(call, menu, items, fresh) == Ok::<Seq<OrderItemView>, DispatchError>(items),
{
    lemma_without_unknown_id(items, call.arguments.unwrap()->RemoveItem_0.order_id);
}

/// A call that lists the items without a limit, or with one that is not
/// below their number, leaves an order whose items hold their verdicts as it
/// is; with the limit 0 it empties the order.
pub proof fn lemma_list_call_limits(
    call: FunctionCallView,
    menu: MenuView,
    items: Seq<OrderItemView>,
    fresh: Seq<char>,
)
    requires
        FunctionName::named(call.name) == Some(FunctionName::ListItems),
        call.arguments is Some,
        call.arguments.unwrap() is ListItems,
    ensures
        dispatched(call, menu, items, fresh) is Ok,
        call.arguments.unwrap()->ListItems_0.limit == Some(0usize) ==> dispatched(
            call,
            menu,
            items,
            fresh,
        ).unwrap().len() == 0,
        (call.arguments.unwrap()->ListItems_0.limit is None || call.arguments.unwrap()->ListItems_0.limit.unwrap()
            >= items.len()) && items == validated(menu, items) ==> dispatched(
            call,
            menu,
            items,
            fresh,
        ) == Ok::<Seq<OrderItemView>, DispatchError>(items),
{
    lemma_list_items_limits(items, call.arguments.unwrap()->ListItems_0);
}

/// Modifying an item keeps the number of items, the place and the id of the
/// item that it changes, and every other item.
pub proof fn lemma_modify_item_keeps_place(items: Seq<OrderItemView>, args: ModifyItemArgsView)
    requires
        modified(items, args) is Some,
    ensures
        modified(items, args).unwrap().len() == items.len(),
        item_ids(modified(items, args).unwrap()) == item_ids(items),
        first_index(item_ids(items), args.order_id) is Some,
        ({
            let at = first_index(item_ids(items), args.order_id).unwrap();
            let after = modified(items, args).unwrap();
            &&& 0 <= at < items.len()
            &&& after[at].id == args.order_id
            &&& after[at] == overwritten(items[at], args)
            &&& forall|j: int| 0 <= j < items.len() && j != at ==> after[j] == items[j]
        }),
{
    lemma_first_index(item_ids(items), args.order_id);
}

/// A call that modifies an item, validation included, keeps the number of
/// items and the id at every place.
pub proof fn lemma_modify_call_keeps_ids(
    call: FunctionCallView,
    menu: MenuView,
    items: Seq<OrderItemView>,
    fresh: Seq<char>,
)
    requires
        FunctionName::named(call.name) == Some(FunctionName::ModifyItem),
        dispatched(call, menu, items, fresh) is Ok,
    ensures
        dispatched(call, menu, items, fresh).unwrap().len() == items.len(),
        item_ids(dispatched(call, menu, items, fresh).unwrap()) == item_ids(items),
{
    let args = call.arguments.unwrap()->ModifyItem_0;
    lemma_modify_item_keeps_place(items, args);
    lemma_validated_keeps_ids(menu, modified(items, args).unwrap());
}

/// Listing with the limit 0 empties the order; listing with a limit that is
/// not below the number of items, or without one, changes nothing.
pub proof fn lemma_list_items_limits(items: Seq<OrderItemView>, args: ListItemsArgs)
    ensures
        args.limit == Some(0usize) ==> listed(items, args) == Seq::<OrderItemView>::empty(),
        args.limit is Some && args.limit.unwrap() >= items.len() ==> listed(items, args) == items,
        args.limit is None ==> listed(items, args) == items,
        args.limit is Some && args.limit.unwrap() <= items.len() ==> listed(items, args).len()
            == args.limit.unwrap(),
{
}

/// What is left after removing by id was there before.
pub proof fn lemma_without_members(items: Seq<OrderItemView>, id: Seq<char>)
    ensures
        forall|j: int|
            0 <= j < without(items, id).len() ==> items.contains(#[trigger] without(items, id)[j]),
    decreases items.len(),
{
    reveal(Seq::filter);
    if items.len() > 0 {
        let rest = without(items.drop_last(), id);
        lemma_without_members(items.drop_last(), id);
        assert forall|j: int| 0 <= j < without(items, id).len() implies items.contains(
            #[trigger] without(items, id)[j],
        ) by {
            if j < rest.len() {
                assert(items.drop_last().contains(rest[j]));
                let i = choose|i: int|
                    0 <= i < items.drop_last().len() && items.drop_last()[i] == rest[j];
                assert(items[i] == rest[j]);
            } else {
                assert(items[items.len() - 1] == without(items, id)[j]);
            }
        }
    }
}

/// Removing by id leaves the ids distinct where they were.
pub proof fn lemma_without_keeps_ids_distinct(items: Seq<OrderItemView>, id: Seq<char>)
    requires
        item_ids(items).no_duplicates(),
    ensures
        item_ids(without(items, id)).no_duplicates(),
    decreases items.len(),
{
    reveal(Seq::filter);
    if items.len() > 0 {
        let last = items.len() - 1;
        let rest = without(items.drop_last(), id);
        assert forall|a: int, b: int| 0 <= a < b < last implies item_ids(items.drop_last())[a]
            != item_ids(items.drop_last())[b] by {
            assert(item_ids(items)[a] != item_ids(items)[b]);
        }
        lemma_without_keeps_ids_distinct(items.drop_last(), id);
        lemma_without_members(items.drop_last(), id);
        let after = without(items, id);
        assert forall|a: int, b: int| 0 <= a < b < after.len() implies item_ids(after)[a]
            != item_ids(after)[b] by {
            if b < rest.len() {
                assert(item_ids(rest)[a] != item_ids(rest)[b]);
            } else {
                assert(items.drop_last().contains(rest[a]));
                let i = choose|i: int| 0 <= i < last && items.drop_last()[i] == rest[a];
                assert(item_ids(items)[i] != item_ids(items)[last]);
            }
        }
    }
}

/// The ids of an order stay distinct: where no two items share an id, and
/// the id that a new item gets is none of theirs, no two items share an id
/// after a call either.
pub proof fn lemma_dispatch_keeps_ids_distinct(
    call: FunctionCallView,
    menu: MenuView,
    items: Seq<OrderItemView>,
    fresh: Seq<char>,
)
    requires
        item_ids(items).no_duplicates(),
        adds(call) ==> !item_ids(items).contains(fresh),
        dispatched(call, menu, items, fresh) is Ok,
    ensures
        item_ids(dispatched(call, menu, items, fresh).unwrap()).no_duplicates(),
{
    let function = FunctionName::named(call.name).unwrap();
    let args = call.arguments.unwrap();
    let after = mutated(function, args, items, fresh).unwrap();
    lemma_validated_keeps_ids(menu, after);
    match (function, args) {
        (FunctionName::AddItem, FunctionArgsView::AddItem(add)) => {
            assert(item_ids(after) =~= item_ids(items).push(fresh));
        },
        (FunctionName::RemoveItem, FunctionArgsView::RemoveItem(remove)) => {
            lemma_without_keeps_ids_distinct(items, remove.order_id);
        },
        (FunctionName::ModifyItem, FunctionArgsView::ModifyItem(modify)) => {
            lemma_modify_item_keeps_place(items, modify);
        },
        (FunctionName::ListItems, FunctionArgsView::ListItems(list)) => {
            assert forall|a: int, b: int| 0 <= a < b < after.len() implies item_ids(after)[a]
                != item_ids(after)[b] by {
                assert(item_ids(items)[a] != item_ids(items)[b]);
            }
        },
        _ => {},
    }
}

} // verus!
