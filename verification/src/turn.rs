//! One conversational turn as a state machine. The machine decides; its
//! driver talks to the assistant service, does what the machine asks for and
//! hands back what the service answered.

use crate::chat::{
    adds, dispatched, handle_function_call, item_ids, lemma_dispatch_keeps_ids_distinct, with_items,
    FunctionCall, FunctionCallView,
};
use crate::error::{DispatchError, TurnError, TurnErrorView};
use crate::menu::{Menu, MenuView};
use crate::order::{ChatMessage, ChatMessageView, ChatRole, Order, OrderItemView, OrderView};
use vstd::prelude::*;
use vstd::string::StringExecFns;

verus! {

/// Seconds to wait before the service is asked again about a turn that it
/// has not settled yet.
pub const POLL_INTERVAL_SECONDS: u64 = 1;

/// A function call that the assistant wants run, under the id by which the
/// service knows it.
#[derive(Debug, PartialEq, Eq)]
pub struct ToolCall {
    /// Id of the call
    pub id: String,
    /// The function called, with its arguments
    pub function: FunctionCall,
}

/// What a tool call holds.
pub struct ToolCallView {
    pub id: Seq<char>,
    pub function: FunctionCallView,
}

impl View for ToolCall {
    type V = ToolCallView;

    open spec fn view(&self) -> ToolCallView {
        ToolCallView { id: self.id@, function: self.function@ }
    }
}

/// What a list of tool calls holds.
pub open spec fn call_views(calls: Seq<ToolCall>) -> Seq<ToolCallView> {
    calls.map_values(|call: ToolCall| call@)
}

/// What a tool call came to: the order as the call left it, or the reason
/// for which the call was refused.
#[derive(Debug, PartialEq, Eq)]
pub struct ToolOutput {
    /// Id of the call that this answers
    pub tool_call_id: String,
    /// The order after the call, or why the call was refused
    pub output: Result<Order, DispatchError>,
}

/// What a tool output holds.
pub struct ToolOutputView {
    pub tool_call_id: Seq<char>,
    pub output: Result<OrderView, DispatchError>,
}

impl View for ToolOutput {
    type V = ToolOutputView;

    open spec fn view(&self) -> ToolOutputView {
        ToolOutputView {
            tool_call_id: self.tool_call_id@,
            output: match self.output {
                Ok(order) => Ok(order@),
                Err(error) => Err(error),
            },
        }
    }
}

/// What a list of tool outputs holds.
pub open spec fn output_views(outputs: Seq<ToolOutput>) -> Seq<ToolOutputView> {
    outputs.map_values(|output: ToolOutput| output@)
}

/// What the service says of a turn when asked.
#[derive(Debug, PartialEq, Eq)]
pub enum RunStatus {
    /// The turn waits to be run
    Queued,
    /// The turn is being run
    InProgress,
    /// The turn is being cancelled
    Cancelling,
    /// The turn is complete
    Completed,
    /// The turn waits for these function calls to be run and answered
    RequiresAction(Vec<ToolCall>),
    /// Any other status, by its name
    Other(String),
}

/// What a status holds.
pub enum RunStatusView {
    Queued,
    InProgress,
    Cancelling,
    Completed,
    RequiresAction(Seq<ToolCallView>),
    Other(Seq<char>),
}

impl View for RunStatus {
    type V = RunStatusView;

    open spec fn view(&self) -> RunStatusView {
        match self {
            RunStatus::Queued => RunStatusView::Queued,
            RunStatus::InProgress => RunStatusView::InProgress,
            RunStatus::Cancelling => RunStatusView::Cancelling,
            RunStatus::Completed => RunStatusView::Completed,
            RunStatus::RequiresAction(calls) => RunStatusView::RequiresAction(call_views(calls@)),
            RunStatus::Other(name) => RunStatusView::Other(name@),
        }
    }
}

/// Where a turn stands.
#[derive(Debug, PartialEq, Eq)]
pub enum TurnState {
    /// The order has no session yet: one is being opened
    SessionInit,
    /// The user's message is being forwarded; once it is `posted`, the turn
    /// is being requested
    Active { thread_id: String, posted: bool },
    /// The turn runs at the service. While `reporting`, the outputs of the
    /// function calls that it asked for are being handed in
    Polling { thread_id: String, run_id: String, reporting: bool },
    /// The turn is complete and the assistant's reply is being fetched
    Finalizing { thread_id: String },
    /// The turn is over and the reply is in the transcript
    Done,
    /// The turn failed
    Failed(TurnError),
}

/// What a state holds.
pub enum TurnStateView {
    SessionInit,
    Active { thread_id: Seq<char>, posted: bool },
    Polling { thread_id: Seq<char>, run_id: Seq<char>, reporting: bool },
    Finalizing { thread_id: Seq<char> },
    Done,
    Failed(TurnErrorView),
}

impl View for TurnState {
    type V = TurnStateView;

    open spec fn view(&self) -> TurnStateView {
        match self {
            TurnState::SessionInit => TurnStateView::SessionInit,
            TurnState::Active { thread_id, posted } => TurnStateView::Active {
                thread_id: thread_id@,
                posted: *posted,
            },
            TurnState::Polling { thread_id, run_id, reporting } => TurnStateView::Polling {
                thread_id: thread_id@,
                run_id: run_id@,
                reporting: *reporting,
            },
            TurnState::Finalizing { thread_id } => TurnStateView::Finalizing {
                thread_id: thread_id@,
            },
            TurnState::Done => TurnStateView::Done,
            TurnState::Failed(error) => TurnStateView::Failed(error@),
        }
    }
}

/// What the service answered to the last thing that was asked of it.
#[derive(Debug, PartialEq, Eq)]
pub enum TurnEvent {
    /// A session was opened, under this handle
    SessionCreated(String),
    /// The user's message has reached the session
    MessagePosted,
    /// A turn was started, under this handle
    TurnStarted(String),
    /// The turn has this status
    Polled(RunStatus),
    /// The outputs of the function calls were taken
    OutputsSubmitted,
    /// The latest message of the session, if it holds one that is text
    LatestMessage(Option<String>),
    /// The service could not be reached or failed to answer
    ServiceFailed(String),
}

/// What an event holds.
pub enum TurnEventView {
    SessionCreated(Seq<char>),
    MessagePosted,
    TurnStarted(Seq<char>),
    Polled(RunStatusView),
    OutputsSubmitted,
    LatestMessage(Option<Seq<char>>),
    ServiceFailed(Seq<char>),
}

impl View for TurnEvent {
    type V = TurnEventView;

    open spec fn view(&self) -> TurnEventView {
        match self {
            TurnEvent::SessionCreated(handle) => TurnEventView::SessionCreated(handle@),
            TurnEvent::MessagePosted => TurnEventView::MessagePosted,
            TurnEvent::TurnStarted(handle) => TurnEventView::TurnStarted(handle@),
            TurnEvent::Polled(status) => TurnEventView::Polled(status@),
            TurnEvent::OutputsSubmitted => TurnEventView::OutputsSubmitted,
            TurnEvent::LatestMessage(text) => TurnEventView::LatestMessage(
                match text {
                    Some(text) => Some(text@),
                    None => None,
                },
            ),
            TurnEvent::ServiceFailed(detail) => TurnEventView::ServiceFailed(detail@),
        }
    }
}

/// What the driver is to do next.
#[derive(Debug, PartialEq, Eq)]
pub enum TurnAction {
    /// Open a session with the service
    CreateSession,
    /// Post the user's message to the session
    PostUserMessage { thread_id: String, content: String },
    /// Start a turn in the session
    StartTurn { thread_id: String },
    /// Wait for so many seconds, then ask for the status of the turn
    PollTurn { thread_id: String, run_id: String, delay_seconds: u64 },
    /// Hand in the outputs of the function calls, all in one report
    SubmitToolOutputs { thread_id: String, run_id: String, outputs: Vec<ToolOutput> },
    /// Fetch the latest message of the session
    FetchLatestMessage { thread_id: String },
    /// Nothing more: the turn is done or has failed, as its state says
    Finish,
}

/// What an action holds.
pub enum TurnActionView {
    CreateSession,
    PostUserMessage { thread_id: Seq<char>, content: Seq<char> },
    StartTurn { thread_id: Seq<char> },
    PollTurn { thread_id: Seq<char>, run_id: Seq<char>, delay_seconds: u64 },
    SubmitToolOutputs { thread_id: Seq<char>, run_id: Seq<char>, outputs: Seq<ToolOutputView> },
    FetchLatestMessage { thread_id: Seq<char> },
    Finish,
}

impl View for TurnAction {
    type V = TurnActionView;

    open spec fn view(&self) -> TurnActionView {
        match self {
            TurnAction::CreateSession => TurnActionView::CreateSession,
            TurnAction::PostUserMessage { thread_id, content } => TurnActionView::PostUserMessage {
                thread_id: thread_id@,
                content: content@,
            },
            TurnAction::StartTurn { thread_id } => TurnActionView::StartTurn {
                thread_id: thread_id@,
            },
            TurnAction::PollTurn { thread_id, run_id, delay_seconds } => TurnActionView::PollTurn {
                thread_id: thread_id@,
                run_id: run_id@,
                delay_seconds: *delay_seconds,
            },
            TurnAction::SubmitToolOutputs {
                thread_id,
                run_id,
                outputs,
            } => TurnActionView::SubmitToolOutputs {
                thread_id: thread_id@,
                run_id: run_id@,
                outputs: output_views(outputs@),
            },
            TurnAction::FetchLatestMessage { thread_id } => TurnActionView::FetchLatestMessage {
                thread_id: thread_id@,
            },
            TurnAction::Finish => TurnActionView::Finish,
        }
    }
}

/// A conversational turn: where it stands, and the user's message that it
/// is about.
#[derive(Debug, PartialEq, Eq)]
pub struct Turn {
    /// Where the turn stands
    pub state: TurnState,
    /// The user's message
    pub message: String,
}

/// What a turn holds.
pub struct TurnView {
    pub state: TurnStateView,
    pub message: Seq<char>,
}

impl View for Turn {
    type V = TurnView;

    open spec fn view(&self) -> TurnView {
        TurnView { state: self.state@, message: self.message@ }
    }
}

/// The order with one more message at the end of its transcript.
pub open spec fn with_message(order: OrderView, role: ChatRole, content: Seq<char>) -> OrderView {
    OrderView {
        order_id: order.order_id,
        order: order.order,
        messages: order.messages.push(ChatMessageView { role, content }),
        thread_id: order.thread_id,
    }
}

/// The order with a session handle.
pub open spec fn with_thread(order: OrderView, handle: Seq<char>) -> OrderView {
    OrderView {
        order_id: order.order_id,
        order: order.order,
        messages: order.messages,
        thread_id: Some(handle),
    }
}

/// The words with which the assistant opens the conversation at a location.
pub open spec fn welcome(location: Seq<char>) -> Seq<char> {
    "Welcome to "@ + location + ", what can I get started for you"@
}

/// The order as a run of function calls left it, given the order before the
/// first call and what each call came to: the order that the last call that
/// was not refused left, or the order before where every call was refused.
pub open spec fn order_after(before: OrderView, outputs: Seq<ToolOutputView>) -> OrderView
    decreases outputs.len(),
{
    if outputs.len() == 0 {
        before
    } else {
        match outputs.last().output {
            Ok(after) => after,
            Err(_) => order_after(before, outputs.drop_last()),
        }
    }
}

/// Whether `output` is what the dispatcher makes of `call` on the order
/// `before`: it carries the call's id, and either the order with the items
/// that the call leaves, each with its verdict, or the error with which the
/// call is refused. An item that the call adds has an id that no item had
/// before.
pub open spec fn answers(
    menu: MenuView,
    before: OrderView,
    call: ToolCallView,
    output: ToolOutputView,
) -> bool {
    &&& output.tool_call_id == call.id
    &&& match output.output {
        Ok(after) => {
            &&& after == with_items(before, after.order)
            &&& dispatched(call.function, menu, before.order, after.order.last().id) == Ok::<
                Seq<OrderItemView>,
                DispatchError,
            >(after.order)
            &&& adds(call.function) ==> !item_ids(before.order).contains(after.order.last().id)
        },
        Err(error) => forall|fresh: Seq<char>| #[trigger]
            dispatched(call.function, menu, before.order, fresh) == Err::<
                Seq<OrderItemView>,
                DispatchError,
            >(error),
    }
}

/// Whether `outputs` are what the dispatcher makes of `calls`, run one after
/// the other in their order, each on the order that the calls before it left.
pub open spec fn executed(
    menu: MenuView,
    before: OrderView,
    calls: Seq<ToolCallView>,
    outputs: Seq<ToolOutputView>,
) -> bool {
    &&& outputs.len() == calls.len()
    &&& forall|i: int|
        0 <= i < calls.len() ==> answers(
            menu,
            order_after(before, outputs.take(i)),
            #[trigger] calls[i],
            outputs[i],
        )
}

/// What follows from a status of the turn `run_id` in the session
/// `thread_id`: the state that the turn takes, what the driver is to do, and
/// the order that is left.
///
/// A complete turn is finalized. One that is queued, in progress or being
/// cancelled is asked about again after the poll interval. One that asks for
/// function calls has them run and their outputs handed in; if it names no
/// call, that is a protocol violation. Any other status fails the turn.
pub open spec fn polled(
    menu: MenuView,
    thread_id: Seq<char>,
    run_id: Seq<char>,
    status: RunStatusView,
    order: OrderView,
    next: TurnStateView,
    action: TurnActionView,
    after: OrderView,
) -> bool {
    match status {
        RunStatusView::Completed => {
            &&& next == TurnStateView::Finalizing { thread_id }
            &&& action == TurnActionView::FetchLatestMessage { thread_id }
            &&& after == order
        },
        RunStatusView::Queued | RunStatusView::InProgress | RunStatusView::Cancelling => {
            &&& next == TurnStateView::Polling { thread_id, run_id, reporting: false }
            &&& action == TurnActionView::PollTurn {
                thread_id,
                run_id,
                delay_seconds: POLL_INTERVAL_SECONDS,
            }
            &&& after == order
        },
        RunStatusView::RequiresAction(calls) => if calls.len() == 0 {
            &&& next == TurnStateView::Failed(TurnErrorView::ProtocolViolation)
            &&& action == TurnActionView::Finish
            &&& after == order
        } else {
            &&& next == TurnStateView::Polling { thread_id, run_id, reporting: true }
            &&& action is SubmitToolOutputs
            &&& action->SubmitToolOutputs_thread_id == thread_id
            &&& action->SubmitToolOutputs_run_id == run_id
            &&& executed(menu, order, calls, action->outputs)
            &&& after == order_after(order, action->outputs)
        },
        RunStatusView::Other(name) => {
            &&& next == TurnStateView::Failed(TurnErrorView::UpstreamFailed(name))
            &&& action == TurnActionView::Finish
            &&& after == order
        },
    }
}

/// How a turn begins: with the user's message `message`, at the location
/// `location`, on the order `order`.
///
/// An order without a session gets the assistant's welcome into its
/// transcript and a session is asked for. An order with a session gets the
/// user's message into its transcript and the message is forwarded.
pub open spec fn began(
    message: Seq<char>,
    location: Seq<char>,
    order: OrderView,
    turn: TurnView,
    action: TurnActionView,
    after: OrderView,
) -> bool {
    &&& turn.message == message
    &&& match order.thread_id {
        None => {
            &&& turn.state == TurnStateView::SessionInit
            &&& action == TurnActionView::CreateSession
            &&& after == with_message(order, ChatRole::Assistant, welcome(location))
        },
        Some(thread_id) => {
            &&& turn.state == TurnStateView::Active { thread_id, posted: false }
            &&& action == TurnActionView::PostUserMessage { thread_id, content: message }
            &&& after == with_message(order, ChatRole::User, message)
        },
    }
}

/// Whether the turn failed against the protocol and left the order as it was.
pub open spec fn violated(
    order: OrderView,
    next: TurnStateView,
    action: TurnActionView,
    after: OrderView,
) -> bool {
    &&& next == TurnStateView::Failed(TurnErrorView::ProtocolViolation)
    &&& action == TurnActionView::Finish
    &&& after == order
}

/// How a turn goes on: from the turn `turn` and the order `order`, when the
/// service answered `event`, to the turn `next`, the order `after` and what
/// the driver is to do, `action`.
///
/// A turn that is done or has failed stays so. A failure of the service
/// fails the turn. Otherwise each state takes the answer that it waits for;
/// any other answer is a protocol violation.
pub open spec fn advanced(
    menu: MenuView,
    turn: TurnView,
    event: TurnEventView,
    order: OrderView,
    next: TurnView,
    action: TurnActionView,
    after: OrderView,
) -> bool {
    &&& next.message == turn.message
    &&& match (turn.state, event) {
        (TurnStateView::Done, _) | (TurnStateView::Failed(_), _) => {
            &&& next.state == turn.state
            &&& action == TurnActionView::Finish
            &&& after == order
        },
        (_, TurnEventView::ServiceFailed(detail)) => {
            &&& next.state == TurnStateView::Failed(TurnErrorView::ServiceError(detail))
            &&& action == TurnActionView::Finish
            &&& after == order
        },
        (TurnStateView::SessionInit, TurnEventView::SessionCreated(thread_id)) => if order.thread_id is None {
            &&& next.state == TurnStateView::Active { thread_id, posted: false }
            &&& action == TurnActionView::PostUserMessage { thread_id, content: turn.message }
            &&& after == with_message(with_thread(order, thread_id), ChatRole::User, turn.message)
        } else {
            violated(order, next.state, action, after)
        },
        (TurnStateView::Active { thread_id, posted }, TurnEventView::MessagePosted) => if !posted {
            &&& next.state == TurnStateView::Active { thread_id, posted: true }
            &&& action == TurnActionView::StartTurn { thread_id }
            &&& after == order
        } else {
            violated(order, next.state, action, after)
        },
        (TurnStateView::Active { thread_id, posted }, TurnEventView::TurnStarted(run_id)) => if posted {
            &&& next.state == TurnStateView::Polling { thread_id, run_id, reporting: false }
            &&& action == TurnActionView::PollTurn { thread_id, run_id, delay_seconds: 0 }
            &&& after == order
        } else {
            violated(order, next.state, action, after)
        },
        (
            TurnStateView::Polling { thread_id, run_id, reporting },
            TurnEventView::Polled(status),
        ) => if !reporting {
            polled(menu, thread_id, run_id, status, order, next.state, action, after)
        } else {
            violated(order, next.state, action, after)
        },
        (
            TurnStateView::Polling { thread_id, run_id, reporting },
            TurnEventView::OutputsSubmitted,
        ) => if reporting {
            &&& next.state == TurnStateView::Polling { thread_id, run_id, reporting: false }
            &&& action == TurnActionView::PollTurn { thread_id, run_id, delay_seconds: 0 }
            &&& after == order
        } else {
            violated(order, next.state, action, after)
        },
        (TurnStateView::Finalizing { thread_id }, TurnEventView::LatestMessage(reply)) => {
            &&& next.state == TurnStateView::Done
            &&& action == TurnActionView::Finish
            &&& after == match reply {
                Some(content) => with_message(order, ChatRole::Assistant, content),
                None => order,
            }
        },
        _ => violated(order, next.state, action, after),
    }
}

/// Runs the function calls one after the other on the order and collects
/// what each came to.
pub fn run_tool_calls(calls: &Vec<ToolCall>, menu: &Menu, order: &mut Order) -> (outputs: Vec<
    ToolOutput,
>)
    ensures
        executed(menu@, old(order)@, call_views(calls@), output_views(outputs@)),
        final(order)@ == order_after(old(order)@, output_views(outputs@)),
{
    let ghost before = order@;
    let mut outputs: Vec<ToolOutput> = Vec::new();
    let mut i: usize = 0;
    while i < calls.len()
        invariant
            i <= calls.len(),
            outputs.len() == i,
            order@ == order_after(before, output_views(outputs@)),
            forall|k: int|
                0 <= k < i ==> answers(
                    menu@,
                    order_after(before, output_views(outputs@).take(k)),
                    #[trigger] call_views(calls@)[k],
                    output_views(outputs@)[k],
                ),
        decreases calls.len() - i,
    {
        let ghost so_far = output_views(outputs@);
        let result = handle_function_call(&calls[i].function, menu, order);
        let output = ToolOutput {
            tool_call_id: calls[i].id.clone(),
            output: match result {
                Ok(()) => Ok(order.clone()),
                Err(error) => Err(error),
            },
        };
        outputs.push(output);
        proof {
            let now = output_views(outputs@);
            assert(now.take(i as int) =~= so_far);
            assert forall|k: int| 0 <= k < i implies answers(
                menu@,
                order_after(before, now.take(k)),
                #[trigger] call_views(calls@)[k],
                now[k],
            ) by {
                assert(now.take(k) =~= so_far.take(k));
            }
        }
        i += 1;
    }
    outputs
}

impl Turn {
    /// Begins a turn on the order, with the user's message and the location
    /// at which the order is placed.
    pub fn handle_message(message: &str, location: &String, order: &mut Order) -> (begun: (
        Turn,
        TurnAction,
    ))
        ensures
            began(message@, location@, old(order)@, begun.0@, begun.1@, final(order)@),
    {
        let thread_id = match &order.thread_id {
            Some(thread_id) => Some(thread_id.clone()),
            None => None,
        };
        match thread_id {
            None => {
                let content = "Welcome to ".to_owned().concat(location.as_str()).concat(
                    ", what can I get started for you",
                );
                order.messages.push(ChatMessage { role: ChatRole::Assistant, content });
                assert(order@.messages =~= old(order)@.messages.push(
                    ChatMessageView { role: ChatRole::Assistant, content: welcome(location@) },
                ));
                (
                    Turn { state: TurnState::SessionInit, message: message.to_owned() },
                    TurnAction::CreateSession,
                )
            },
            Some(thread_id) => {
                order.messages.push(
                    ChatMessage { role: ChatRole::User, content: message.to_owned() },
                );
                assert(order@.messages =~= old(order)@.messages.push(
                    ChatMessageView { role: ChatRole::User, content: message@ },
                ));
                (
                    Turn {
                        state: TurnState::Active { thread_id: thread_id.clone(), posted: false },
                        message: message.to_owned(),
                    },
                    TurnAction::PostUserMessage { thread_id, content: message.to_owned() },
                )
            },
        }
    }

    /// Decides what follows from a status of the turn `run_id` in the session
    /// `thread_id`, and runs the function calls that the status asks for.
    pub fn poll_thread(
        thread_id: String,
        run_id: String,
        status: RunStatus,
        menu: &Menu,
        order: &mut Order,
    ) -> (decided: (TurnState, TurnAction))
        ensures
            polled(
                menu@,
                thread_id@,
                run_id@,
                status@,
                old(order)@,
                decided.0@,
                decided.1@,
                final(order)@,
            ),
    {
        match status {
            RunStatus::Completed => (
                TurnState::Finalizing { thread_id: thread_id.clone() },
                TurnAction::FetchLatestMessage { thread_id },
            ),
            RunStatus::Queued | RunStatus::InProgress | RunStatus::Cancelling => (
                TurnState::Polling {
                    thread_id: thread_id.clone(),
                    run_id: run_id.clone(),
                    reporting: false,
                },
                TurnAction::PollTurn { thread_id, run_id, delay_seconds: POLL_INTERVAL_SECONDS },
            ),
            RunStatus::RequiresAction(calls) => {
                if calls.len() == 0 {
                    (TurnState::Failed(TurnError::ProtocolViolation), TurnAction::Finish)
                } else {
                    let outputs = run_tool_calls(&calls, menu, order);
                    (
                        TurnState::Polling {
                            thread_id: thread_id.clone(),
                            run_id: run_id.clone(),
                            reporting: true,
                        },
                        TurnAction::SubmitToolOutputs { thread_id, run_id, outputs },
                    )
                }
            },
            RunStatus::Other(name) => (
                TurnState::Failed(TurnError::UpstreamFailed(name)),
                TurnAction::Finish,
            ),
        }
    }

    /// Takes the turn one step on: `event` is what the service answered to
    /// the action that the step before asked for.
    pub fn advance(self, event: TurnEvent, menu: &Menu, order: &mut Order) -> (stepped: (
        Turn,
        TurnAction,
    ))
        ensures
            advanced(
                menu@,
                self@,
                event@,
                old(order)@,
                stepped.0@,
                stepped.1@,
                final(order)@,
            ),
    {
        let Turn { state, message } = self;
        match (state, event) {
            (TurnState::Done, _) => (Turn { state: TurnState::Done, message }, TurnAction::Finish),
            (TurnState::Failed(error), _) => (
                Turn { state: TurnState::Failed(error), message },
                TurnAction::Finish,
            ),
            (_, TurnEvent::ServiceFailed(detail)) => (
                Turn { state: TurnState::Failed(TurnError::ServiceError(detail)), message },
                TurnAction::Finish,
            ),
            (TurnState::SessionInit, TurnEvent::SessionCreated(thread_id)) => {
                if order.thread_id.is_none() {
                    order.thread_id = Some(thread_id.clone());
                    order.messages.push(
                        ChatMessage { role: ChatRole::User, content: message.clone() },
                    );
                    assert(order@.messages =~= old(order)@.messages.push(
                        ChatMessageView { role: ChatRole::User, content: message@ },
                    ));
                    (
                        Turn {
                            state: TurnState::Active { thread_id: thread_id.clone(), posted: false },
                            message: message.clone(),
                        },
                        TurnAction::PostUserMessage { thread_id, content: message },
                    )
                } else {
                    (
                        Turn { state: TurnState::Failed(TurnError::ProtocolViolation), message },
                        TurnAction::Finish,
                    )
                }
            },
            (TurnState::Active { thread_id, posted: false }, TurnEvent::MessagePosted) => (
                Turn {
                    state: TurnState::Active { thread_id: thread_id.clone(), posted: true },
                    message,
                },
                TurnAction::StartTurn { thread_id },
            ),
            (TurnState::Active { thread_id, posted: true }, TurnEvent::TurnStarted(run_id)) => (
                Turn {
                    state: TurnState::Polling {
                        thread_id: thread_id.clone(),
                        run_id: run_id.clone(),
                        reporting: false,
                    },
                    message,
                },
                TurnAction::PollTurn { thread_id, run_id, delay_seconds: 0 },
            ),
            (
                TurnState::Polling { thread_id, run_id, reporting: false },
                TurnEvent::Polled(status),
            ) => {
                let (state, action) = Turn::poll_thread(thread_id, run_id, status, menu, order);
                (Turn { state, message }, action)
            },
            (
                TurnState::Polling { thread_id, run_id, reporting: true },
                TurnEvent::OutputsSubmitted,
            ) => (
                Turn {
                    state: TurnState::Polling {
                        thread_id: thread_id.clone(),
                        run_id: run_id.clone(),
                        reporting: false,
                    },
                    message,
                },
                TurnAction::PollTurn { thread_id, run_id, delay_seconds: 0 },
            ),
            (TurnState::Finalizing { thread_id }, TurnEvent::LatestMessage(reply)) => {
                match reply {
                    Some(content) => {
                        order.messages.push(ChatMessage { role: ChatRole::Assistant, content });
                        assert(order@.messages =~= old(order)@.messages.push(
                            ChatMessageView { role: ChatRole::Assistant, content: content@ },
                        ));
                    },
                    None => {},
                }
                (Turn { state: TurnState::Done, message }, TurnAction::Finish)
            },
            _ => (
                Turn { state: TurnState::Failed(TurnError::ProtocolViolation), message },
                TurnAction::Finish,
            ),
        }
    }
}

/// Function calls change the items of an order and nothing else: its id,
/// its transcript and its session handle are after the calls what they were
/// before.
pub proof fn lemma_tool_calls_change_items_only(
    menu: MenuView,
    before: OrderView,
    calls: Seq<ToolCallView>,
    outputs: Seq<ToolOutputView>,
)
    requires
        executed(menu, before, calls, outputs),
    ensures
        order_after(before, outputs) == with_items(before, order_after(before, outputs).order),
    decreases outputs.len(),
{
    if outputs.len() > 0 {
        let last = outputs.len() - 1;
        let earlier = outputs.drop_last();
        assert forall|i: int| 0 <= i < last implies answers(
            menu,
            order_after(before, earlier.take(i)),
            #[trigger] calls.drop_last()[i],
            earlier[i],
        ) by {
            assert(earlier.take(i) =~= outputs.take(i));
        }
        lemma_tool_calls_change_items_only(menu, before, calls.drop_last(), earlier);
        assert(answers(menu, order_after(before, earlier), calls[last], outputs[last]));
    }
}

/// The session handle of an order is set once: a step of a turn leaves a
/// handle that is there as it is, and never takes one away.
pub proof fn lemma_session_handle_is_kept(
    menu: MenuView,
    turn: TurnView,
    event: TurnEventView,
    order: OrderView,
    next: TurnView,
    action: TurnActionView,
    after: OrderView,
)
    requires
        advanced(menu, turn, event, order, next, action, after),
    ensures
        order.thread_id is Some ==> after.thread_id == order.thread_id,
        after.thread_id is None ==> order.thread_id is None,
        after.order_id == order.order_id,
{
    match (turn.state, event) {
        (TurnStateView::Polling { thread_id, run_id, reporting }, TurnEventView::Polled(status)) => {
            match status {
                RunStatusView::RequiresAction(calls) => {
                    if !reporting && calls.len() > 0 {
                        lemma_tool_calls_change_items_only(menu, order, calls, action->outputs);
                    }
                },
                _ => {},
            }
        },
        _ => {},
    }
}

/// A step of a turn never drops a message: the transcript before the step is
/// the beginning of the transcript after it, and at most one message is new.
pub proof fn lemma_transcript_grows(
    menu: MenuView,
    turn: TurnView,
    event: TurnEventView,
    order: OrderView,
    next: TurnView,
    action: TurnActionView,
    after: OrderView,
)
    requires
        advanced(menu, turn, event, order, next, action, after),
    ensures
        order.messages.len() <= after.messages.len() <= order.messages.len() + 1,
        after.messages.take(order.messages.len() as int) == order.messages,
{
    match (turn.state, event) {
        (TurnStateView::Polling { thread_id, run_id, reporting }, TurnEventView::Polled(status)) => {
            match status {
                RunStatusView::RequiresAction(calls) => {
                    if !reporting && calls.len() > 0 {
                        lemma_tool_calls_change_items_only(menu, order, calls, action->outputs);
                    }
                },
                _ => {},
            }
        },
        _ => {},
    }
}

/// Function calls leave the ids of an order distinct where they were.
pub proof fn lemma_tool_calls_keep_ids_distinct(
    menu: MenuView,
    before: OrderView,
    calls: Seq<ToolCallView>,
    outputs: Seq<ToolOutputView>,
)
    requires
        executed(menu, before, calls, outputs),
        item_ids(before.order).no_duplicates(),
    ensures
        item_ids(order_after(before, outputs).order).no_duplicates(),
    decreases outputs.len(),
{
    if outputs.len() > 0 {
        let last = outputs.len() - 1;
        let earlier = outputs.drop_last();
        assert forall|i: int| 0 <= i < last implies answers(
            menu,
            order_after(before, earlier.take(i)),
            #[trigger] calls.drop_last()[i],
            earlier[i],
        ) by {
            assert(earlier.take(i) =~= outputs.take(i));
        }
        lemma_tool_calls_keep_ids_distinct(menu, before, calls.drop_last(), earlier);
        match outputs[last].output {
            Ok(after) => {
                lemma_dispatch_keeps_ids_distinct(
                    calls[last].function,
                    menu,
                    order_after(before, earlier).order,
                    after.order.last().id,
                );
            },
            Err(_) => {},
        }
    }
}

/// The ids of the items of an order are unique: where no two items share an
/// id before a step of a turn, no two share one after it.
pub proof fn lemma_item_ids_stay_distinct(
    menu: MenuView,
    turn: TurnView,
    event: TurnEventView,
    order: OrderView,
    next: TurnView,
    action: TurnActionView,
    after: OrderView,
)
    requires
        advanced(menu, turn, event, order, next, action, after),
        item_ids(order.order).no_duplicates(),
    ensures
        item_ids(after.order).no_duplicates(),
{
    match (turn.state, event) {
        (TurnStateView::Polling { thread_id, run_id, reporting }, TurnEventView::Polled(status)) => {
            match status {
                RunStatusView::RequiresAction(calls) => {
                    if !reporting && calls.len() > 0 {
                        lemma_tool_calls_keep_ids_distinct(menu, order, calls, action->outputs);
                    }
                },
                _ => {},
            }
        },
        _ => {},
    }
}

} // verus!
