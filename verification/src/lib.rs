//! Conversational order management.
//!
//! A customer talks to an assistant that keeps an order against a menu. This
//! library holds what decides anything about that order:
//!
//! * `menu`: the menu and the rules by which an order item is complete,
//!   incomplete or invalid;
//! * `order`: the order, its items and its transcript;
//! * `functions`: the functions that the assistant may call, and the shapes
//!   of their arguments;
//! * `chat`: the dispatcher that applies a function call to an order and
//!   validates the order again;
//! * `turn`: one conversational turn as a state machine, driven from outside
//!   by whoever talks to the assistant service;
//! * `error`: the errors of the dispatcher and of a turn;
//! * `name_map`, `names`, `price`: maps keyed by name, searches in lists of
//!   names, and prices.
//!
//! Every type has a view, a plain mathematical value, and every function
//! says what it does in terms of these views.

pub mod chat;
pub mod error;
pub mod functions;
pub mod menu;
pub mod name_map;
pub mod names;
pub mod order;
pub mod price;
pub mod turn;
