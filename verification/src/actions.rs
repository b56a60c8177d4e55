//! What the hub asks its caller to do: deliver an envelope, sample the
//! process, or carry a question to the completion service.

use vstd::prelude::*;
use crate::ai::{AiRequest, AiRequestView};
use crate::protocol::{Outgoing, OutgoingView};

verus! {

/// A question that is on its way to the completion service.
#[derive(Debug, Clone, PartialEq, Eq)]
pub struct PendingQuery {
    /// The identity of the asking connection.
    pub asker: u128,
    /// The asker's display name when the question was put.
    pub from: String,
    /// The prompt as the asker wrote it.
    pub prompt: String,
    /// What is to be sent.
    pub request: AiRequest,
}

/// The view of a [`PendingQuery`].
pub struct PendingQueryView {
    pub asker: u128,
    pub from: Seq<char>,
    pub prompt: Seq<char>,
    pub request: AiRequestView,
}

impl View for PendingQuery {
    type V = PendingQueryView;

    open spec fn view(&self) -> PendingQueryView {
        PendingQueryView {
            asker: self.asker,
            from: self.from@,
            prompt: self.prompt@,
            request: self.request@,
        }
    }
}

/// One thing for the caller to do.
#[derive(Debug, Clone, PartialEq, Eq)]
pub enum Action {
    /// Deliver the envelope to one client.
    Unicast { to: u128, payload: Outgoing },
    /// Deliver the envelope to every registered client but `except`.
    Broadcast { payload: Outgoing, except: Option<u128> },
    /// Answer a transport-level ping of `to` with the ping's data.
    Pong { to: u128, data: Vec<u8> },
    /// Sample the process's memory and report the status to `to`.
    SampleMemory { to: u128 },
    /// Send the request and bring back what became of it.
    QueryAi { query: PendingQuery },
}

/// The view of an [`Action`].
pub enum ActionView {
    Unicast { to: u128, payload: OutgoingView },
    Broadcast { payload: OutgoingView, except: Option<u128> },
    Pong { to: u128, data: Seq<u8> },
    SampleMemory { to: u128 },
    QueryAi { query: PendingQueryView },
}

impl View for Action {
    type V = ActionView;

    open spec fn view(&self) -> ActionView {
        match *self {
            Action::Unicast { to, payload } => ActionView::Unicast { to, payload: payload@ },
            Action::Broadcast { payload, except } => ActionView::Broadcast {
                payload: payload@,
                except,
            },
            Action::Pong { to, data } => ActionView::Pong { to, data: data@ },
            Action::SampleMemory { to } => ActionView::SampleMemory { to },
            Action::QueryAi { query } => ActionView::QueryAi { query: query@ },
        }
    }
}

/// The views of a list of actions, in the list's order.
pub open spec fn actions_view(actions: Seq<Action>) -> Seq<ActionView> {
    Seq::new(actions.len(), |i: int| actions[i]@)
}

/// The error envelope that carries `message`.
pub open spec fn error_to(to: u128, message: Seq<char>) -> ActionView {
    ActionView::Unicast { to, payload: OutgoingView::Error { message } }
}

/// No action.
pub fn nothing() -> (r: Vec<Action>)
    ensures
        actions_view(r@) == Seq::<ActionView>::empty(),
{
    let r: Vec<Action> = Vec::new();
    assert(actions_view(r@) =~= Seq::<ActionView>::empty());
    r
}

/// The one action `a`.
pub fn only(a: Action) -> (r: Vec<Action>)
    ensures
        actions_view(r@) == seq![a@],
{
    let mut r: Vec<Action> = Vec::new();
    r.push(a);
    assert(actions_view(r@) =~= seq![a@]);
    r
}

/// The action `a`, then the action `b`.
pub fn both(a: Action, b: Action) -> (r: Vec<Action>)
    ensures
        actions_view(r@) == seq![a@, b@],
{
    let mut r: Vec<Action> = Vec::new();
    r.push(a);
    r.push(b);
    assert(actions_view(r@) =~= seq![a@, b@]);
    r
}

} // verus!
