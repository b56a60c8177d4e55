//! The protocol dispatcher: what each request does to the hub and which
//! envelopes go to whom.
//!
//! A handler changes the state and answers with the actions to perform. It
//! never delivers anything itself, so a request that is rejected reaches
//! nobody but its sender.

use vstd::prelude::*;
use vstd::string::*;
use crate::actions::{actions_view, both, error_to, nothing, only, Action, ActionView,
    PendingQuery, PendingQueryView};
use crate::ai::{outcome_result, HttpOutcome};
use crate::limiter::{after_check, verdict};
use crate::protocol::{text_view, Incoming, Outgoing, OutgoingView, StatusReport,
    StatusReportView};
use crate::registry::{hyphenated, identity_text, ClientView};
use crate::state::{bumped, is_listing, mebibytes_x100, messages_per_second_x100, rate_x100, uptime_at, AppState, HubView, Stamp,
    MAX_NAME_CHARS, MIN_NAME_CHARS};
use crate::text::{all_name_chars, decimal, only_name_chars, to_decimal, trim, trimmed};

verus! {

/// The longest chat message that is broadcast, in characters.
pub const MAX_CHAT_CHARS: usize = 500;

/// Why a request was rejected.
#[derive(Debug, Clone, Copy, PartialEq, Eq, Structural)]
pub enum ProtocolError {
    /// The frame was not a request of a known type.
    Malformed,
    /// The chat text is empty once trimmed.
    EmptyMessage,
    /// The chat text is longer than [`MAX_CHAT_CHARS`] once trimmed.
    MessageTooLong,
    /// The sender is not registered.
    UnknownUser,
    /// The sender has used up the window's messages.
    RateLimited { wait_secs: u64 },
    /// The name is shorter than 2 or longer than 32 characters once
    /// trimmed.
    NameLength,
    /// The name holds a character that names may not hold.
    NameCharset,
}

impl ProtocolError {
    /// The sentence shown to the sender.
    pub open spec fn message_text(self) -> Seq<char> {
        match self {
            ProtocolError::Malformed => "Bericht moet geldig JSON zijn."@,
            ProtocolError::EmptyMessage => "Message cannot be empty."@,
            ProtocolError::MessageTooLong => "Message is too long (max 500 characters)."@,
            ProtocolError::UnknownUser => "Unknown user"@,
            ProtocolError::RateLimited { wait_secs } => "Rate limit exceeded. Please wait "@
                + decimal(wait_secs as nat) + " seconds."@,
            ProtocolError::NameLength => "Naam moet tussen 2 en 32 tekens zijn."@,
            ProtocolError::NameCharset => "Naam mag alleen letters, cijfers, spaties, - en _ bevatten."@,
        }
    }

    /// The sentence shown to the sender.
    pub fn message(&self) -> (r: String)
        ensures
            r@ == self.message_text(),
    {
        match self {
            ProtocolError::Malformed => String::from_str("Bericht moet geldig JSON zijn."),
            ProtocolError::EmptyMessage => String::from_str("Message cannot be empty."),
            ProtocolError::MessageTooLong => String::from_str(
                "Message is too long (max 500 characters).",
            ),
            ProtocolError::UnknownUser => String::from_str("Unknown user"),
            ProtocolError::RateLimited { wait_secs } => {
                let secs = to_decimal(*wait_secs);
                String::from_str("Rate limit exceeded. Please wait ").concat(secs.as_str()).concat(
                    " seconds.",
                )
            },
            ProtocolError::NameLength => String::from_str("Naam moet tussen 2 en 32 tekens zijn."),
            ProtocolError::NameCharset => String::from_str(
                "Naam mag alleen letters, cijfers, spaties, - en _ bevatten.",
            ),
        }
    }
}

/// Why a chat message with the trimmed text `text` is rejected at `now`,
/// if it is: the first fault in the order empty, too long, unknown
/// sender, rate limit.
pub open spec fn chat_fault(hub: HubView, id: u128, text: Seq<char>, now: u64) -> Option<
    ProtocolError,
> {
    if text.len() == 0 {
        Some(ProtocolError::EmptyMessage)
    } else if text.len() > MAX_CHAT_CHARS {
        Some(ProtocolError::MessageTooLong)
    } else if !hub.has(id) {
        Some(ProtocolError::UnknownUser)
    } else if hub.rate_limit.enabled {
        match verdict(hub.clients[id].stamps, hub.rate_limit.messages_per_minute, now) {
            Ok(_) => None,
            Err(wait_secs) => Some(ProtocolError::RateLimited { wait_secs }),
        }
    } else {
        None
    }
}

/// The hub after a chat message was handled. A text that fails validation
/// and an unknown sender change nothing. Otherwise an enforced limiter
/// has judged the send, and an admitted message is counted.
pub open spec fn after_chat(hub: HubView, id: u128, text: Seq<char>, now: u64) -> HubView {
    if text.len() == 0 || text.len() > MAX_CHAT_CHARS || !hub.has(id) {
        hub
    } else {
        let judged = if hub.rate_limit.enabled {
            HubView {
                clients: hub.clients.insert(
                    id,
                    ClientView {
                        stamps: after_check(
                            hub.clients[id].stamps,
                            hub.rate_limit.messages_per_minute,
                            now,
                        ),
                        ..hub.clients[id]
                    },
                ),
                ..hub
            }
        } else {
            hub
        };
        if chat_fault(hub, id, text, now) is None {
            HubView { messages_sent: bumped(hub.messages_sent), ..judged }
        } else {
            judged
        }
    }
}

/// The broadcast of an admitted chat message: to every client, the sender
/// included.
pub open spec fn chat_notice(hub: HubView, id: u128, text: Seq<char>, at: u128) -> ActionView {
    ActionView::Broadcast {
        payload: OutgoingView::Chat { from: hub.clients[id].name, text, at },
        except: None,
    }
}

/// Handles a chat message whose text, once trimmed, is `text`.
pub fn chat(state: &mut AppState, id: u128, text: &str, now: Stamp) -> (r: Result<
    Vec<Action>,
    ProtocolError,
>)
    requires
        old(state)@.wf(),
    ensures
        final(state)@.wf(),
        final(state)@ == after_chat(old(state)@, id, text@, now.monotonic_ms),
        match r {
            Ok(actions) => chat_fault(old(state)@, id, text@, now.monotonic_ms) is None
                && actions_view(actions@) == seq![
                chat_notice(old(state)@, id, text@, now.unix_ms),
            ],
            Err(e) => chat_fault(old(state)@, id, text@, now.monotonic_ms) == Some(e),
        },
{
    let n = text.unicode_len();
    if n == 0 {
        return Err(ProtocolError::EmptyMessage);
    }
    if n > MAX_CHAT_CHARS {
        return Err(ProtocolError::MessageTooLong);
    }
    let limits = state.rate_limit();
    match state.take_client(id) {
        None => {
            assert(state@.clients =~= old(state)@.clients);
            Err(ProtocolError::UnknownUser)
        },
        Some(mut client) => {
            let judged = client.check_rate_limit(&limits, now.monotonic_ms);
            let from = client.name.clone();
            state.put_client(id, client);
            assert(state@.clients =~= after_chat(
                old(state)@,
                id,
                text@,
                now.monotonic_ms,
            ).clients);
            assert(state@.clients.dom() =~= old(state)@.clients.dom());
            match judged {
                Err(wait_secs) => Err(ProtocolError::RateLimited { wait_secs }),
                Ok(_) => {
                    state.increment_messages();
                    let notice = Outgoing::Chat { from, text: String::from_str(text), at: now.unix_ms };
                    Ok(only(Action::Broadcast { payload: notice, except: None }))
                },
            }
        },
    }
}

/// Why a trimmed name is rejected, if it is: the first fault in the
/// order length, characters.
pub open spec fn name_fault(name: Seq<char>) -> Option<ProtocolError> {
    if name.len() < MIN_NAME_CHARS || name.len() > MAX_NAME_CHARS {
        Some(ProtocolError::NameLength)
    } else if !all_name_chars(name) {
        Some(ProtocolError::NameCharset)
    } else {
        None
    }
}

/// The hub after a rename was handled: a valid name replaces the name of
/// a registered sender, and nothing else changes.
pub open spec fn after_rename(hub: HubView, id: u128, name: Seq<char>) -> HubView {
    if name_fault(name) is None && hub.has(id) {
        HubView { clients: hub.clients.insert(id, ClientView { name, ..hub.clients[id] }), ..hub }
    } else {
        hub
    }
}

/// The sentence that tells the others of a rename.
pub open spec fn renamed_text(old_name: Seq<char>, new_name: Seq<char>) -> Seq<char> {
    old_name + " heet nu "@ + new_name + "."@
}

/// What follows a valid rename: the sender is told its new name, and
/// everyone else is told of the change. An unregistered sender gets
/// nothing.
pub open spec fn rename_actions(hub: HubView, id: u128, name: Seq<char>, at: u128) -> Seq<
    ActionView,
> {
    if hub.has(id) {
        seq![
            ActionView::Unicast { to: id, payload: OutgoingView::AckName { name, at } },
            ActionView::Broadcast {
                payload: OutgoingView::System { text: renamed_text(hub.clients[id].name, name), at },
                except: Some(id),
            },
        ]
    } else {
        Seq::empty()
    }
}

/// Handles a rename to the name that, once trimmed, is `name`.
pub fn set_name(state: &mut AppState, id: u128, name: &str, now: Stamp) -> (r: Result<
    Vec<Action>,
    ProtocolError,
>)
    requires
        old(state)@.wf(),
    ensures
        final(state)@.wf(),
        final(state)@ == after_rename(old(state)@, id, name@),
        match r {
            Ok(actions) => name_fault(name@) is None && actions_view(actions@) == rename_actions(
                old(state)@,
                id,
                name@,
                now.unix_ms,
            ),
            Err(e) => name_fault(name@) == Some(e),
        },
{
    let n = name.unicode_len();
    if n < MIN_NAME_CHARS || n > MAX_NAME_CHARS {
        return Err(ProtocolError::NameLength);
    }
    if !only_name_chars(name) {
        return Err(ProtocolError::NameCharset);
    }
    match state.take_client(id) {
        None => {
            assert(state@.clients =~= old(state)@.clients);
            Ok(nothing())
        },
        Some(mut client) => {
            let old_name = client.name;
            client.name = String::from_str(name);
            state.put_client(id, client);
            assert(state@.clients =~= after_rename(old(state)@, id, name@).clients);
            assert(state@.clients.dom() =~= old(state)@.clients.dom());
            let ack = Outgoing::AckName { name: String::from_str(name), at: now.unix_ms };
            let text = old_name.concat(" heet nu ").concat(name).concat(".");
            let notice = Outgoing::System { text, at: now.unix_ms };
            Ok(
                both(
                    Action::Unicast { to: id, payload: ack },
                    Action::Broadcast { payload: notice, except: Some(id) },
                ),
            )
        },
    }
}

/// The figures that the hub reports at `now`, given the sampled size of
/// the process in bytes.
pub open spec fn status_report(hub: HubView, memory_bytes: u64, now: u64) -> StatusReportView {
    StatusReportView {
        version: hub.version,
        uptime_seconds: uptime_at(hub.started_at, now),
        user_count: hub.clients.dom().len() as usize,
        peak_users: hub.peak_users,
        connections_total: hub.connections_total,
        messages_sent: hub.messages_sent,
        messages_per_second_x100: rate_x100(hub.messages_sent, uptime_at(hub.started_at, now)),
        memory_mb_x100: mebibytes_x100(memory_bytes),
        ai_enabled: hub.ai.is_enabled(),
        ai_model: if hub.ai.is_enabled() {
            Some(hub.ai.config.model)
        } else {
            None
        },
    }
}

/// The answer to a status request once the process was sampled: the
/// report, to the asker alone; nothing if the asker is gone.
pub open spec fn status_actions(hub: HubView, to: u128, memory_bytes: u64, now: u64) -> Seq<
    ActionView,
> {
    if hub.has(to) {
        seq![
            ActionView::Unicast {
                to,
                payload: OutgoingView::Status { report: status_report(hub, memory_bytes, now) },
            },
        ]
    } else {
        Seq::empty()
    }
}

/// Answers a status request of `to`, for which the process was sampled at
/// `memory_bytes`.
pub fn status_reply(state: &AppState, to: u128, memory_bytes: u64, now: Stamp) -> (r: Vec<Action>)
    requires
        state@.wf(),
    ensures
        actions_view(r@) == status_actions(state@, to, memory_bytes, now.monotonic_ms),
{
    if !state.is_registered(to) {
        return nothing();
    }
    let uptime_seconds = state.uptime_seconds(now.monotonic_ms);
    let messages_sent = state.messages_sent();
    let ai_enabled = state.ai().is_enabled();
    let ai_model = if ai_enabled {
        Some(state.ai().model())
    } else {
        None
    };
    let report = StatusReport {
        version: state.version(),
        uptime_seconds,
        user_count: state.user_count(),
        peak_users: state.peak_users(),
        connections_total: state.connections_total(),
        messages_sent,
        messages_per_second_x100: messages_per_second_x100(messages_sent, uptime_seconds),
        memory_mb_x100: AppState::memory_mb(memory_bytes),
        ai_enabled,
        ai_model,
    };
    only(Action::Unicast { to, payload: Outgoing::Status { report } })
}

/// The answer to a request for the user list: a listing of the registry,
/// to the asker alone; nothing if the asker is not registered.
pub open spec fn is_list_reply(hub: HubView, id: u128, actions: Seq<ActionView>) -> bool {
    if hub.has(id) {
        &&& actions.len() == 1
        &&& actions[0] is Unicast
        &&& actions[0]->Unicast_to == id
        &&& actions[0]->Unicast_payload is ListUsers
        &&& is_listing(actions[0]->Unicast_payload->users, hub.clients)
    } else {
        actions.len() == 0
    }
}

/// Handles a request for the user list.
pub fn list_users(state: &AppState, id: u128) -> (r: Vec<Action>)
    ensures
        is_list_reply(state@, id, actions_view(r@)),
{
    if !state.is_registered(id) {
        return nothing();
    }
    let users = state.list_users();
    only(Action::Unicast { to: id, payload: Outgoing::ListUsers { users } })
}

/// The answer to a ping: a pong with the same token, to the asker alone;
/// nothing if the asker is not registered.
pub open spec fn ping_actions(hub: HubView, id: u128, token: Option<Seq<char>>, at: u128) -> Seq<
    ActionView,
> {
    if hub.has(id) {
        seq![ActionView::Unicast { to: id, payload: OutgoingView::Pong { token, at } }]
    } else {
        Seq::empty()
    }
}

/// Handles a ping.
pub fn ping(state: &AppState, id: u128, token: Option<String>, now: Stamp) -> (r: Vec<Action>)
    ensures
        actions_view(r@) == ping_actions(
            state@,
            id,
            text_view(token),
            now.unix_ms,
        ),
{
    if !state.is_registered(id) {
        return nothing();
    }
    only(Action::Unicast { to: id, payload: Outgoing::Pong { token, at: now.unix_ms } })
}

/// The name under which a question of `id` is shown: the asker's display
/// name, or `unknown` for an asker that is not registered.
pub open spec fn asker_name(hub: HubView, id: u128) -> Seq<char> {
    if hub.has(id) {
        hub.clients[id].name
    } else {
        "unknown"@
    }
}

/// The key under which the gateway counts the questions of `id`: the
/// asker's origin address, or the identity's text for an asker that is
/// not registered.
pub open spec fn user_key(hub: HubView, id: u128) -> Seq<char> {
    if hub.has(id) {
        hub.clients[id].ip
    } else {
        hyphenated(id)
    }
}

/// The hub after a question of `id` was handled: the gateway has judged
/// it, and nothing else changes.
pub open spec fn after_ask(hub: HubView, id: u128, now: u64) -> HubView {
    HubView { ai: hub.ai.after_query(user_key(hub, id), now), ..hub }
}

/// What follows a question with the prompt `raw`, which trimmed is
/// `prompt`: the request to carry to the service, or the fault, told to a
/// registered asker alone.
pub open spec fn ask_actions(
    hub: HubView,
    id: u128,
    raw: Seq<char>,
    prompt: Seq<char>,
    now: u64,
) -> Seq<ActionView> {
    match hub.ai.query_result(user_key(hub, id), prompt, now) {
        Ok(request) => seq![
            ActionView::QueryAi {
                query: PendingQueryView { asker: id, from: asker_name(hub, id), prompt: raw, request },
            },
        ],
        Err(e) => if hub.has(id) {
            seq![error_to(id, e.message())]
        } else {
            Seq::empty()
        },
    }
}

/// Handles a question with the prompt `raw`, which trimmed is `prompt`.
pub fn ask(state: &mut AppState, id: u128, raw: &str, prompt: &str, now: Stamp) -> (r: Vec<Action>)
    requires
        old(state)@.wf(),
    ensures
        final(state)@.wf(),
        final(state)@ == after_ask(old(state)@, id, now.monotonic_ms),
        actions_view(r@) == ask_actions(old(state)@, id, raw@, prompt@, now.monotonic_ms),
{
    let (registered, from, user) = match state.client(id) {
        Some(client) => (true, client.name, client.ip),
        None => (false, String::from_str("unknown"), identity_text(id)),
    };
    match state.ask_gateway(user.as_str(), prompt, now.monotonic_ms) {
        Ok(request) => only(
            Action::QueryAi {
                query: PendingQuery { asker: id, from, prompt: String::from_str(raw), request },
            },
        ),
        Err(e) => if registered {
            only(Action::Unicast { to: id, payload: Outgoing::Error { message: e.message() } })
        } else {
            nothing()
        },
    }
}

/// What follows the outcome of a question: the answer with its figures,
/// broadcast to every client, or the fault, told to the asker alone if it
/// is still registered.
pub open spec fn completion_actions(
    hub: HubView,
    query: PendingQueryView,
    outcome: HttpOutcome,
    response_ms: u64,
    at: u128,
) -> Seq<ActionView> {
    match outcome_result(hub.ai.config.timeout_secs, outcome, response_ms) {
        Ok(response) => seq![
            ActionView::Broadcast {
                payload: OutgoingView::Ai {
                    from: query.from,
                    prompt: query.prompt,
                    response: response.content,
                    response_ms: response.response_ms,
                    tokens: response.tokens,
                    cost: response.cost,
                    at,
                },
                except: None,
            },
        ],
        Err(e) => if hub.has(query.asker) {
            seq![error_to(query.asker, e.message())]
        } else {
            Seq::empty()
        },
    }
}

/// Handles what became of the question `query`, `response_ms`
/// milliseconds after it was sent.
pub fn ai_completed(
    state: &AppState,
    query: PendingQuery,
    outcome: HttpOutcome,
    response_ms: u64,
    now: Stamp,
) -> (r: Vec<Action>)
    ensures
        actions_view(r@) == completion_actions(state@, query@, outcome, response_ms, now.unix_ms),
{
    match state.ai().complete_query(outcome, response_ms) {
        Ok(response) => only(
            Action::Broadcast {
                payload: Outgoing::Ai {
                    from: query.from,
                    prompt: query.prompt,
                    response: response.content,
                    response_ms: response.response_ms,
                    tokens: response.tokens,
                    cost: response.cost,
                    at: now.unix_ms,
                },
                except: None,
            },
        ),
        Err(e) => if state.is_registered(query.asker) {
            only(
                Action::Unicast { to: query.asker, payload: Outgoing::Error { message: e.message() } },
            )
        } else {
            nothing()
        },
    }
}

/// What handling the request `incoming` of `id` at `now` amounts to, from
/// the hub `before` to the hub `after` with the answer `r`. A frame that
/// was no request is rejected as malformed. Texts are trimmed before they
/// are judged.
pub open spec fn handled(
    before: HubView,
    id: u128,
    incoming: Option<Incoming>,
    now: Stamp,
    after: HubView,
    r: Result<Vec<Action>, ProtocolError>,
) -> bool {
    match incoming {
        None => after == before && r == Err::<Vec<Action>, ProtocolError>(ProtocolError::Malformed),
        Some(Incoming::Chat { text }) => {
            &&& after == after_chat(before, id, trimmed(text@), now.monotonic_ms)
            &&& match r {
                Ok(actions) => chat_fault(before, id, trimmed(text@), now.monotonic_ms) is None
                    && actions_view(actions@) == seq![
                    chat_notice(before, id, trimmed(text@), now.unix_ms),
                ],
                Err(e) => chat_fault(before, id, trimmed(text@), now.monotonic_ms) == Some(e),
            }
        },
        Some(Incoming::SetName { name }) => {
            &&& after == after_rename(before, id, trimmed(name@))
            &&& match r {
                Ok(actions) => name_fault(trimmed(name@)) is None && actions_view(actions@)
                    == rename_actions(before, id, trimmed(name@), now.unix_ms),
                Err(e) => name_fault(trimmed(name@)) == Some(e),
            }
        },
        Some(Incoming::Status) => {
            &&& after == before
            &&& r is Ok
            &&& actions_view(r->Ok_0@) == seq![ActionView::SampleMemory { to: id }]
        },
        Some(Incoming::ListUsers) => {
            &&& after == before
            &&& r is Ok
            &&& is_list_reply(before, id, actions_view(r->Ok_0@))
        },
        Some(Incoming::Ping { token }) => {
            &&& after == before
            &&& r is Ok
            &&& actions_view(r->Ok_0@) == ping_actions(
                before,
                id,
                text_view(token),
                now.unix_ms,
            )
        },
        Some(Incoming::Ai { prompt }) => {
            &&& after == after_ask(before, id, now.monotonic_ms)
            &&& r is Ok
            &&& actions_view(r->Ok_0@) == ask_actions(
                before,
                id,
                prompt@,
                trimmed(prompt@),
                now.monotonic_ms,
            )
        },
    }
}

/// Handles one frame of the client `id`: `incoming` is the request that
/// the frame holds, or `None` where it holds none. See [`handled`].
pub fn process_message(state: &mut AppState, id: u128, incoming: Option<Incoming>, now: Stamp) -> (r:
    Result<Vec<Action>, ProtocolError>)
    requires
        old(state)@.wf(),
    ensures
        final(state)@.wf(),
        handled(old(state)@, id, incoming, now, final(state)@, r),
{
    match incoming {
        None => Err(ProtocolError::Malformed),
        Some(Incoming::Chat { text }) => {
            let text = trim(text.as_str());
            chat(state, id, text.as_str(), now)
        },
        Some(Incoming::SetName { name }) => {
            let name = trim(name.as_str());
            set_name(state, id, name.as_str(), now)
        },
        Some(Incoming::Status) => Ok(only(Action::SampleMemory { to: id })),
        Some(Incoming::ListUsers) => Ok(list_users(state, id)),
        Some(Incoming::Ping { token }) => Ok(ping(state, id, token, now)),
        Some(Incoming::Ai { prompt }) => {
            let trimmed_prompt = trim(prompt.as_str());
            Ok(ask(state, id, prompt.as_str(), trimmed_prompt.as_str(), now))
        },
    }
}

} // verus!
