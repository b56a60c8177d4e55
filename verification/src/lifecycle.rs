//! A connection's life: where it comes from, its registration, the frames
//! it sends, and its departure.
//!
//! A connection is *connecting* until [`connect`] has registered it,
//! *active* for as long as [`receive`] answers [`Step::Continue`],
//! *closing* from [`Step::Stop`] until [`disconnect`] has run, and *closed*
//! after that. A failure of one connection ends that connection alone.

use vstd::prelude::*;
use vstd::string::*;
use tokio::sync::mpsc::Sender;
use crate::actions::{actions_view, both, error_to, nothing, only, Action, ActionView};
use crate::handlers::{handled, process_message, ProtocolError};
use crate::protocol::{text_view, Incoming, OutboundFrame, Outgoing, OutgoingView};
use crate::queue::queue_of;
use crate::registry::{fresh_identity, identity_text, Client, ClientView};
use crate::state::{bumped, guest_name, larger, valid_name, AppState, HubView, Stamp};
use crate::text::{before_first, is_name_char, take_before, trim, trimmed};

verus! {

/// The first of the comma-separated fields of `s`.
pub open spec fn first_field(s: Seq<char>) -> Seq<char> {
    before_first(s, ',')
}

/// Copies the first of the comma-separated fields of `s`.
pub fn take_first_field(s: &str) -> (r: String)
    ensures
        r@ == first_field(s@),
{
    take_before(s, ',')
}

/// The origin address of a connection. `forwarded` is the trimmed first
/// field of the `X-Forwarded-For` header and `real_ip` the trimmed
/// `X-Real-IP` header, each if the header came. They count only for a
/// trusted peer, the first before the second; otherwise, and where
/// neither came, the origin is the peer's own address.
pub open spec fn origin_of(
    peer: Seq<char>,
    trusted: bool,
    forwarded: Option<Seq<char>>,
    real_ip: Option<Seq<char>>,
) -> Seq<char> {
    if !trusted {
        peer
    } else if forwarded is Some {
        forwarded->0
    } else if real_ip is Some {
        real_ip->0
    } else {
        peer
    }
}

/// Picks the origin address from the peer's address and the prepared
/// header values; see [`origin_of`].
pub fn pick_origin(
    peer: String,
    trusted: bool,
    forwarded: Option<String>,
    real_ip: Option<String>,
) -> (r: String)
    ensures
        r@ == origin_of(
            peer@,
            trusted,
            text_view(forwarded),
            text_view(real_ip),
        ),
{
    if !trusted {
        return peer;
    }
    match forwarded {
        Some(f) => f,
        None => match real_ip {
            Some(r) => r,
            None => peer,
        },
    }
}

/// What counts of the `X-Forwarded-For` header: its first field, trimmed.
pub open spec fn forwarded_origin(header: Option<String>) -> Option<Seq<char>> {
    match header {
        Some(h) => Some(trimmed(first_field(h@))),
        None => None,
    }
}

/// What counts of the `X-Real-IP` header: its value, trimmed.
pub open spec fn real_ip_origin(header: Option<String>) -> Option<Seq<char>> {
    match header {
        Some(h) => Some(trimmed(h@)),
        None => None,
    }
}

/// The origin address of a connection from `peer`. The forwarding headers
/// are believed only if the peer is loopback or the hub is set to trust
/// them from everyone.
pub fn client_origin(
    peer: String,
    peer_is_loopback: bool,
    trust_proxy_headers: bool,
    forwarded_for: Option<String>,
    real_ip: Option<String>,
) -> (r: String)
    ensures
        r@ == origin_of(
            peer@,
            peer_is_loopback || trust_proxy_headers,
            forwarded_origin(forwarded_for),
            real_ip_origin(real_ip),
        ),
{
    let forwarded = match forwarded_for {
        Some(h) => {
            let field = take_first_field(h.as_str());
            Some(trim(field.as_str()))
        },
        None => None,
    };
    let direct = match real_ip {
        Some(h) => Some(trim(h.as_str())),
        None => None,
    };
    pick_origin(peer, peer_is_loopback || trust_proxy_headers, forwarded, direct)
}

/// The sentence that tells the others of an arrival.
pub open spec fn joined_text(name: Seq<char>) -> Seq<char> {
    name + " heeft de chat betreden."@
}

/// The sentence that tells the others of a departure.
pub open spec fn left_text(name: Seq<char>) -> Seq<char> {
    name + " heeft de chat verlaten."@
}

/// The hub after the connection `id` from `ip`, whose handle leads to
/// `queue`, was registered at `now`: it bears its guest name, owns that
/// queue and has sent nothing, the connection is
/// counted, and the peak is raised to the new number of clients if that
/// is larger.
pub open spec fn after_register(
    hub: HubView,
    id: u128,
    ip: Seq<char>,
    queue: nat,
    now: Stamp,
) -> HubView {
    HubView {
        clients: hub.clients.insert(
            id,
            ClientView {
                name: guest_name(id),
                ip,
                queue,
                connected_at: now.unix_ms,
                stamps: Seq::empty(),
            },
        ),
        connections_total: bumped(hub.connections_total),
        peak_users: larger(hub.peak_users, (hub.clients.dom().len() + 1) as u64),
        ..hub
    }
}

/// What follows a registration: the newcomer is told its name, and
/// everyone else is told of the arrival.
pub open spec fn welcome(id: u128, at: u128) -> Seq<ActionView> {
    seq![
        ActionView::Unicast { to: id, payload: OutgoingView::AckName { name: guest_name(id), at } },
        ActionView::Broadcast {
            payload: OutgoingView::System { text: joined_text(guest_name(id)), at },
            except: Some(id),
        },
    ]
}

fn guest_name_of(id: u128) -> (r: String)
    ensures
        r@ == guest_name(id),
        valid_name(r@),
{
    let text = identity_text(id);
    let r = String::from_str("guest-").concat(text.as_str().substring_char(0, 6));
    proof {
        reveal_strlit("guest-");
        assert(r@.len() == 12);
        assert forall|i: int| 0 <= i < r@.len() implies is_name_char(#[trigger] r@[i]) by {
            if i >= 6 {
                assert(r@[i] == text@[i - 6]);
            }
        }
    }
    r
}

/// Registers a connection under the identity `id`, unless a client is
/// registered under it already: then nothing changes and the answer is
/// `None`.
pub fn register(
    state: &mut AppState,
    id: u128,
    ip: String,
    tx: Sender<OutboundFrame>,
    now: Stamp,
) -> (r: Option<Vec<Action>>)
    requires
        old(state)@.wf(),
    ensures
        final(state)@.wf(),
        match r {
            Some(actions) => {
                &&& !old(state)@.has(id)
                &&& final(state)@ == after_register(old(state)@, id, ip@, queue_of(tx), now)
                &&& actions_view(actions@) == welcome(id, now.unix_ms)
            },
            None => old(state)@.has(id) && final(state)@ == old(state)@,
        },
{
    if state.is_registered(id) {
        return None;
    }
    let name = guest_name_of(id);
    let client = Client::new(name.clone(), ip, tx, now.unix_ms);
    state.put_client(id, client);
    state.increment_connections();
    let ack = Outgoing::AckName { name: name.clone(), at: now.unix_ms };
    let notice = Outgoing::System { text: name.concat(" heeft de chat betreden."), at: now.unix_ms };
    Some(
        both(
            Action::Unicast { to: id, payload: ack },
            Action::Broadcast { payload: notice, except: Some(id) },
        ),
    )
}

/// Registers a connection under a freshly drawn identity. The answer is
/// the identity with the actions that follow. It is `None`, with nothing
/// changed, only where the drawn identity is in use; so a hub without
/// clients registers every connection.
pub fn connect(state: &mut AppState, ip: String, tx: Sender<OutboundFrame>, now: Stamp) -> (r:
    Option<(u128, Vec<Action>)>)
    requires
        old(state)@.wf(),
    ensures
        final(state)@.wf(),
        match r {
            Some((id, actions)) => {
                &&& !old(state)@.has(id)
                &&& final(state)@ == after_register(old(state)@, id, ip@, queue_of(tx), now)
                &&& actions_view(actions@) == welcome(id, now.unix_ms)
            },
            None => {
                &&& final(state)@ == old(state)@
                &&& exists|drawn: u128| #[trigger] old(state)@.has(drawn)
            },
        },
{
    let id = fresh_identity();
    match register(state, id, ip, tx, now) {
        Some(actions) => Some((id, actions)),
        None => {
            assert(old(state)@.has(id));
            None
        },
    }
}

/// The name under which a departure is announced: the client's current
/// name, or the guest name of the identity if no client is registered.
pub open spec fn departing_name(hub: HubView, id: u128) -> Seq<char> {
    if hub.has(id) {
        hub.clients[id].name
    } else {
        guest_name(id)
    }
}

/// The hub after the connection `id` has gone.
pub open spec fn after_disconnect(hub: HubView, id: u128) -> HubView {
    HubView { clients: hub.clients.remove(id), ..hub }
}

/// What follows a departure: everyone who is left is told of it.
pub open spec fn farewell(hub: HubView, id: u128, at: u128) -> Seq<ActionView> {
    seq![
        ActionView::Broadcast {
            payload: OutgoingView::System { text: left_text(departing_name(hub, id)), at },
            except: Some(id),
        },
    ]
}

/// Removes the connection `id` from the registry and announces its
/// departure under the name it bore last.
pub fn disconnect(state: &mut AppState, id: u128, now: Stamp) -> (r: Vec<Action>)
    requires
        old(state)@.wf(),
    ensures
        final(state)@.wf(),
        final(state)@ == after_disconnect(old(state)@, id),
        actions_view(r@) == farewell(old(state)@, id, now.unix_ms),
{
    let name = match state.take_client(id) {
        Some(client) => client.name,
        None => guest_name_of(id),
    };
    proof {
        if old(state)@.has(id) {
            assert(state@.clients.dom().len() < old(state)@.clients.dom().len());
        } else {
            assert(state@.clients.dom() =~= old(state)@.clients.dom());
        }
    }
    let notice = Outgoing::System { text: name.concat(" heeft de chat verlaten."), at: now.unix_ms };
    only(Action::Broadcast { payload: notice, except: Some(id) })
}

/// A frame that arrived from a client, or the failure to read one.
#[derive(Debug, Clone, PartialEq, Eq)]
pub enum InboundFrame {
    /// A text frame: the request it holds, or `None` where it holds none.
    Text(Option<Incoming>),
    /// A transport-level ping with its payload.
    Ping(Vec<u8>),
    /// The client closes the connection.
    Close,
    /// The transport failed.
    Failed,
    /// Any other frame.
    Other,
}

/// How the receive loop goes on after a frame.
#[derive(Debug, Clone, PartialEq, Eq)]
pub enum Step {
    /// Perform the actions and read the next frame.
    Continue(Vec<Action>),
    /// Leave the loop and disconnect.
    Stop,
}

/// What a rejected request comes to: the sentence goes to the sender alone
/// if it is registered, and to nobody otherwise.
pub open spec fn rejection(hub: HubView, id: u128, e: ProtocolError) -> Seq<ActionView> {
    if hub.has(id) {
        seq![error_to(id, e.message_text())]
    } else {
        Seq::empty()
    }
}

/// What receiving `frame` from `id` at `now` amounts to, from the hub
/// `before` to the hub `after` with the step `step`. A text frame is
/// dispatched, and a rejection is told to the sender while the connection
/// stays open. A ping is answered with its payload. A close and a failed
/// read end the loop. Other frames are passed over.
pub open spec fn received(
    before: HubView,
    id: u128,
    frame: InboundFrame,
    now: Stamp,
    after: HubView,
    step: Step,
) -> bool {
    match frame {
        InboundFrame::Text(incoming) => {
            &&& step is Continue
            &&& exists|r: Result<Vec<Action>, ProtocolError>|
                {
                    &&& #[trigger] handled(before, id, incoming, now, after, r)
                    &&& match r {
                        Ok(actions) => actions_view(step->Continue_0@) == actions_view(actions@),
                        Err(e) => actions_view(step->Continue_0@) == rejection(after, id, e),
                    }
                }
        },
        InboundFrame::Ping(payload) => {
            &&& after == before
            &&& step is Continue
            &&& actions_view(step->Continue_0@) == seq![ActionView::Pong { to: id, data: payload@ }]
        },
        InboundFrame::Close | InboundFrame::Failed => after == before && step is Stop,
        InboundFrame::Other => {
            &&& after == before
            &&& step is Continue
            &&& actions_view(step->Continue_0@) == Seq::<ActionView>::empty()
        },
    }
}

/// Takes one step of the receive loop of the connection `id`; see
/// [`received`].
pub fn receive(state: &mut AppState, id: u128, frame: InboundFrame, now: Stamp) -> (step: Step)
    requires
        old(state)@.wf(),
    ensures
        final(state)@.wf(),
        received(old(state)@, id, frame, now, final(state)@, step),
{
    match frame {
        InboundFrame::Text(incoming) => {
            let r = process_message(state, id, incoming, now);
            match r {
                Ok(actions) => {
                    let ghost witness: Result<Vec<Action>, ProtocolError> = Ok(actions);
                    assert(handled(old(state)@, id, incoming, now, state@, witness));
                    Step::Continue(actions)
                },
                Err(e) => {
                    let ghost witness: Result<Vec<Action>, ProtocolError> = Err(e);
                    assert(handled(old(state)@, id, incoming, now, state@, witness));
                    if state.is_registered(id) {
                        Step::Continue(
                            only(
                                Action::Unicast {
                                    to: id,
                                    payload: Outgoing::Error { message: e.message() },
                                },
                            ),
                        )
                    } else {
                        Step::Continue(nothing())
                    }
                },
            }
        },
        InboundFrame::Ping(payload) => Step::Continue(only(Action::Pong { to: id, data: payload })),
        InboundFrame::Close => Step::Stop,
        InboundFrame::Failed => Step::Stop,
        InboundFrame::Other => Step::Continue(nothing()),
    }
}

} // verus!
