//! The order: its line items, the conversation transcript and the handle of
//! the assistant session that serves it.

use crate::menu::{status_view, ItemStatus, ItemStatusView};
use crate::names::{clone_name_lists, clone_names};
use crate::price::Price;
use vstd::prelude::*;

verus! {

/// Who wrote a message of the transcript.
#[derive(Clone, Copy, Debug, PartialEq, Eq, Structural)]
pub enum ChatRole {
    /// Message from the user
    User,
    /// Message from the AI assistant
    Assistant,
}

impl ChatRole {
    /// The role's name on the wire: `user` or `assistant`.
    pub fn to_string(&self) -> (name: String)
        ensures
            name@ == self.name(),
    {
        match self {
            ChatRole::User => "user".to_owned(),
            ChatRole::Assistant => "assistant".to_owned(),
        }
    }

    /// The role's name on the wire.
    pub open spec fn name(&self) -> Seq<char> {
        match self {
            ChatRole::User => "user"@,
            ChatRole::Assistant => "assistant"@,
        }
    }

    /// The role that `name` names, if it names one.
    pub open spec fn named(name: Seq<char>) -> Option<ChatRole> {
        if name == ChatRole::User.name() {
            Some(ChatRole::User)
        } else if name == ChatRole::Assistant.name() {
            Some(ChatRole::Assistant)
        } else {
            None
        }
    }

    /// The role that `name` names, if it names one.
    pub fn parse(name: &String) -> (role: Option<ChatRole>)
        ensures
            role == ChatRole::named(name@),
    {
        if *name == ChatRole::User.to_string() {
            Some(ChatRole::User)
        } else if *name == ChatRole::Assistant.to_string() {
            Some(ChatRole::Assistant)
        } else {
            None
        }
    }

    /// The two roles have different names, so a role is found again by its
    /// name.
    pub proof fn lemma_parse_inverts_name(role: ChatRole)
        ensures
            ChatRole::named(role.name()) == Some(role),
    {
        reveal_strlit("user");
        reveal_strlit("assistant");
        assert("assistant"@.len() == 9);
    }
}

/// One message of the transcript.
#[derive(Debug, PartialEq, Eq)]
pub struct ChatMessage {
    /// Who wrote the message
    pub role: ChatRole,
    /// The content of the message
    pub content: String,
}

/// What a message holds.
pub struct ChatMessageView {
    pub role: ChatRole,
    pub content: Seq<char>,
}

impl View for ChatMessage {
    type V = ChatMessageView;

    open spec fn view(&self) -> ChatMessageView {
        ChatMessageView { role: self.role, content: self.content@ }
    }
}

impl Clone for ChatMessage {
    fn clone(&self) -> (copy: Self)
        ensures
            copy@ == self@,
    {
        ChatMessage { role: self.role, content: self.content.clone() }
    }
}

/// One line item of an order.
#[derive(Debug, PartialEq, Eq)]
pub struct OrderItem {
    /// Identifier of the item, unique within its order
    pub id: String,
    /// Name of the menu item
    pub item_name: String,
    /// Keys of the selected options
    pub option_keys: Vec<String>,
    /// For each key, at the same index, the choices selected under it
    pub option_values: Vec<Vec<String>>,
    /// Price including options, as the assistant supplied it
    pub price: Price,
    /// Verdict of the last validation, absent until the first one
    pub item_status: Option<ItemStatus>,
}

/// What a line item holds.
pub struct OrderItemView {
    pub id: Seq<char>,
    pub item_name: Seq<char>,
    pub option_keys: Seq<Seq<char>>,
    pub option_values: Seq<Seq<Seq<char>>>,
    pub price: Price,
    pub item_status: Option<ItemStatusView>,
}

impl View for OrderItem {
    type V = OrderItemView;

    open spec fn view(&self) -> OrderItemView {
        OrderItemView {
            id: self.id@,
            item_name: self.item_name@,
            option_keys: self.option_keys.deep_view(),
            option_values: self.option_values.deep_view(),
            price: self.price,
            item_status: status_view(self.item_status),
        }
    }
}

impl Clone for OrderItem {
    fn clone(&self) -> (copy: Self)
        ensures
            copy@ == self@,
    {
        OrderItem {
            id: self.id.clone(),
            item_name: self.item_name.clone(),
            option_keys: clone_names(&self.option_keys),
            option_values: clone_name_lists(&self.option_values),
            price: self.price,
            item_status: match &self.item_status {
                Some(verdict) => Some(verdict.clone()),
                None => None,
            },
        }
    }
}

/// A line item as it is shown to the customer: the item without its verdict.
#[derive(Debug, PartialEq, Eq)]
pub struct OrderItemResponse {
    /// Identifier of the item
    pub id: String,
    /// Name of the menu item
    pub item_name: String,
    /// Keys of the selected options
    pub option_keys: Vec<String>,
    /// For each key, at the same index, the choices selected under it
    pub option_values: Vec<Vec<String>>,
    /// Price including options
    pub price: Price,
}

/// What a shown line item holds.
pub struct OrderItemResponseView {
    pub id: Seq<char>,
    pub item_name: Seq<char>,
    pub option_keys: Seq<Seq<char>>,
    pub option_values: Seq<Seq<Seq<char>>>,
    pub price: Price,
}

impl View for OrderItemResponse {
    type V = OrderItemResponseView;

    open spec fn view(&self) -> OrderItemResponseView {
        OrderItemResponseView {
            id: self.id@,
            item_name: self.item_name@,
            option_keys: self.option_keys.deep_view(),
            option_values: self.option_values.deep_view(),
            price: self.price,
        }
    }
}

/// What is shown of a line item: all but its verdict.
pub open spec fn shown(item: OrderItemView) -> OrderItemResponseView {
    OrderItemResponseView {
        id: item.id,
        item_name: item.item_name,
        option_keys: item.option_keys,
        option_values: item.option_values,
        price: item.price,
    }
}

impl From<OrderItem> for OrderItemResponse {
    fn from(item: OrderItem) -> (response: OrderItemResponse) {
        OrderItemResponse {
            id: item.id,
            item_name: item.item_name,
            option_keys: item.option_keys,
            option_values: item.option_values,
            price: item.price,
        }
    }
}

impl vstd::std_specs::convert::FromSpecImpl<OrderItem> for OrderItemResponse {
    open spec fn obeys_from_spec() -> bool {
        true
    }

    open spec fn from_spec(item: OrderItem) -> OrderItemResponse {
        OrderItemResponse {
            id: item.id,
            item_name: item.item_name,
            option_keys: item.option_keys,
            option_values: item.option_values,
            price: item.price,
        }
    }
}

/// Converting a line item gives what is shown of it.
pub proof fn lemma_response_shows_item(item: OrderItem)
    ensures
        <OrderItemResponse as vstd::std_specs::convert::FromSpec<OrderItem>>::from_spec(item)@
            == shown(item@),
{
}

/// What a list of line items holds.
pub open spec fn item_views(items: Seq<OrderItem>) -> Seq<OrderItemView> {
    items.map_values(|item: OrderItem| item@)
}

/// What a transcript holds.
pub open spec fn message_views(messages: Seq<ChatMessage>) -> Seq<ChatMessageView> {
    messages.map_values(|message: ChatMessage| message@)
}

/// What an optional session handle holds.
pub open spec fn handle_view(handle: Option<String>) -> Option<Seq<char>> {
    match handle {
        Some(text) => Some(text@),
        None => None,
    }
}

/// A copy of a list of line items.
pub fn clone_items(items: &Vec<OrderItem>) -> (copy: Vec<OrderItem>)
    ensures
        item_views(copy@) == item_views(items@),
{
    let mut copy: Vec<OrderItem> = Vec::new();
    let mut i: usize = 0;
    while i < items.len()
        invariant
            i <= items.len(),
            copy.len() == i,
            forall|j: int| 0 <= j < i ==> copy[j]@ == items[j]@,
        decreases items.len() - i,
    {
        copy.push(items[i].clone());
        i += 1;
    }
    copy
}

/// A copy of a transcript.
pub fn clone_messages(messages: &Vec<ChatMessage>) -> (copy: Vec<ChatMessage>)
    ensures
        message_views(copy@) == message_views(messages@),
{
    let mut copy: Vec<ChatMessage> = Vec::new();
    let mut i: usize = 0;
    while i < messages.len()
        invariant
            i <= messages.len(),
            copy.len() == i,
            forall|j: int| 0 <= j < i ==> copy[j]@ == messages[j]@,
        decreases messages.len() - i,
    {
        copy.push(messages[i].clone());
        i += 1;
    }
    copy
}

/// A customer's order.
#[derive(Debug, PartialEq, Eq)]
pub struct Order {
    /// Identifier of the order
    pub order_id: String,
    /// The line items, in the order in which they were added
    pub order: Vec<OrderItem>,
    /// The conversation so far
    pub messages: Vec<ChatMessage>,
    /// Handle of the assistant session that serves this order, absent until
    /// the first exchange
    pub thread_id: Option<String>,
}

/// What an order holds.
pub struct OrderView {
    pub order_id: Seq<char>,
    pub order: Seq<OrderItemView>,
    pub messages: Seq<ChatMessageView>,
    pub thread_id: Option<Seq<char>>,
}

impl View for Order {
    type V = OrderView;

    open spec fn view(&self) -> OrderView {
        OrderView {
            order_id: self.order_id@,
            order: item_views(self.order@),
            messages: message_views(self.messages@),
            thread_id: handle_view(self.thread_id),
        }
    }
}

impl Clone for Order {
    fn clone(&self) -> (copy: Self)
        ensures
            copy@ == self@,
    {
        Order {
            order_id: self.order_id.clone(),
            order: clone_items(&self.order),
            messages: clone_messages(&self.messages),
            thread_id: match &self.thread_id {
                Some(handle) => Some(handle.clone()),
                None => None,
            },
        }
    }
}

impl Order {
    /// An empty order with the given id: no items, no messages, no session.
    pub fn new(order_id: String) -> (order: Order)
        ensures
            order@ == (OrderView {
                order_id: order_id@,
                order: Seq::empty(),
                messages: Seq::empty(),
                thread_id: None,
            }),
    {
        let order = Order { order_id, order: Vec::new(), messages: Vec::new(), thread_id: None };
        assert(order@.order =~= Seq::empty());
        assert(order@.messages =~= Seq::empty());
        order
    }
}

} // verus!
