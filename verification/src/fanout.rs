//! Delivery of serialized envelopes to the outbound queues of the
//! registered clients.
//!
//! Every delivery is one offer that does not wait. A queue that is full
//! or closed loses the envelope, and the walk goes on to the next client.

use vstd::prelude::*;
use vstd::string::*;
use crate::protocol::OutboundFrameView;
use crate::queue::Receipt;
use crate::registry::ClientView;
use crate::state::AppState;

verus! {

/// One attempt to deliver.
#[derive(Clone, Copy)]
pub struct Delivery {
    /// The client that the attempt was for.
    pub to: u128,
    /// What was offered to which queue, and whether the queue took it.
    pub receipt: Receipt,
}

/// The clients that a list of attempts went to, in the list's order.
pub open spec fn recipients(attempts: Seq<Delivery>) -> Seq<u128> {
    Seq::new(attempts.len(), |i: int| attempts[i].to)
}

/// The clients that a fan-out is for: all that are registered, but for
/// the excluded one.
pub open spec fn audience(registered: Set<u128>, except: Option<u128>) -> Set<u128> {
    match except {
        Some(id) => registered.remove(id),
        None => registered,
    }
}

/// Whether the attempt offered `frame` to the own queue of the client it
/// was for.
pub open spec fn offered_to_owner(
    clients: Map<u128, ClientView>,
    frame: OutboundFrameView,
    attempt: Delivery,
) -> bool {
    &&& clients.contains_key(attempt.to)
    &&& attempt.receipt.queue() == clients[attempt.to].queue
    &&& attempt.receipt.offered() == frame
}

/// Whether `attempts` is a fan-out of `frame` to the clients but
/// `except`: every client of the audience was attempted once and nobody
/// else, and each attempt offered that frame to the client's own queue.
/// Whether a queue took the frame is no part of it.
pub open spec fn fanned_out(
    clients: Map<u128, ClientView>,
    frame: OutboundFrameView,
    except: Option<u128>,
    attempts: Seq<Delivery>,
) -> bool {
    &&& recipients(attempts).no_duplicates()
    &&& recipients(attempts).to_set() == audience(clients.dom(), except)
    &&& forall|i: int|
        0 <= i < attempts.len() ==> offered_to_owner(clients, frame, #[trigger] attempts[i])
}

/// Offers the serialized envelope `text`, as a text frame, to every
/// registered client but `except`, once each, and reports each attempt.
/// What one queue answers has no bearing on the attempts that follow.
pub fn fan_out(state: &AppState, text: &str, except: Option<u128>) -> (r: Vec<Delivery>)
    ensures
        fanned_out(state@.clients, OutboundFrameView::Text(text@), except, r@),
{
    let ids = state.ids();
    let mut attempts: Vec<Delivery> = Vec::new();
    let mut i: usize = 0;
    while i < ids.len()
        invariant
            i <= ids.len(),
            ids@.no_duplicates(),
            ids@.to_set() == state@.clients.dom(),
            forall|a: int, b: int|
                0 <= a < b < attempts@.len() ==> attempts@[a].to != attempts@[b].to,
            forall|a: int|
                0 <= a < attempts@.len() ==> except != Some(#[trigger] attempts@[a].to) && exists|
                    j: int,
                | 0 <= j < i && ids@[j] == attempts@[a].to,
            forall|j: int|
                0 <= j < i && except != Some(#[trigger] ids@[j]) ==> exists|a: int|
                    0 <= a < attempts@.len() && attempts@[a].to == ids@[j],
            forall|a: int|
                0 <= a < attempts@.len() ==> offered_to_owner(
                    state@.clients,
                    OutboundFrameView::Text(text@),
                    #[trigger] attempts@[a],
                ),
        decreases ids.len() - i,
    {
        let id = ids[i];
        let skip = match except {
            Some(e) => e == id,
            None => false,
        };
        if !skip {
            assert(ids@.to_set().contains(id)) by {
                assert(ids@.contains(ids@[i as int]));
            }
            match state.client(id) {
                Some(client) => {
                    let receipt = client.send(String::from_str(text));
                    let ghost before = attempts@;
                    attempts.push(Delivery { to: id, receipt });
                    proof {
                        let last = before.len() as int;
                        assert(attempts@[last].to == ids@[i as int]);
                        assert forall|j: int|
                            0 <= j < i + 1 && except != Some(#[trigger] ids@[j]) implies exists|
                            a: int,
                        | 0 <= a < attempts@.len() && attempts@[a].to == ids@[j] by {
                            if j < i {
                                let a = choose|a: int|
                                    0 <= a < before.len() && before[a].to == ids@[j];
                                assert(attempts@[a].to == ids@[j]);
                            } else {
                                assert(attempts@[last].to == ids@[j]);
                            }
                        }
                        assert forall|a: int| 0 <= a < attempts@.len() implies offered_to_owner(
                            state@.clients,
                            OutboundFrameView::Text(text@),
                            #[trigger] attempts@[a],
                        ) by {
                            if a < last {
                                assert(attempts@[a] == before[a]);
                            }
                        }
                    }
                },
                None => {
                    assert(false);
                },
            }
        }
        i += 1;
    }
    proof {
        let to = recipients(attempts@);
        assert(to.no_duplicates());
        assert forall|k: u128| to.to_set().contains(k) <==> audience(
            state@.clients.dom(),
            except,
        ).contains(k) by {
            if to.to_set().contains(k) {
                let a = choose|a: int| 0 <= a < to.len() && to[a] == k;
                assert(attempts@[a].to == k);
                let j = choose|j: int| 0 <= j < i && ids@[j] == attempts@[a].to;
                assert(ids@.contains(k));
                assert(ids@.to_set().contains(k));
            }
            if audience(state@.clients.dom(), except).contains(k) {
                assert(ids@.to_set().contains(k));
                assert(ids@.contains(k));
                let j = choose|j: int| 0 <= j < ids@.len() && ids@[j] == k;
                let a = choose|a: int| 0 <= a < attempts@.len() && attempts@[a].to == ids@[j];
                assert(to[a] == k);
                assert(to.contains(k));
            }
        }
        assert(to.to_set() =~= audience(state@.clients.dom(), except));
    }
    attempts
}

/// Offers the serialized envelope `text` to every registered client but
/// `except`; the same as [`fan_out`].
pub fn broadcast(state: &AppState, text: &str, except: Option<u128>) -> (r: Vec<Delivery>)
    ensures
        fanned_out(state@.clients, OutboundFrameView::Text(text@), except, r@),
{
    fan_out(state, text, except)
}

/// Offers the serialized envelope `text`, as a text frame, to the own
/// queue of the client `to` alone. `None` means that no such client is
/// registered and nothing was offered.
pub fn send_to(state: &AppState, to: u128, text: String) -> (r: Option<Receipt>)
    ensures
        r is Some <==> state@.has(to),
        r is Some ==> r->0.queue() == state@.clients[to].queue,
        r is Some ==> r->0.offered() == OutboundFrameView::Text(text@),
{
    match state.client(to) {
        Some(client) => Some(client.send(text)),
        None => None,
    }
}

/// Offers the answer to a transport-level ping, with the ping's payload,
/// to the own queue of the client `to`. `None` means that no such client
/// is registered and nothing was offered.
pub fn pong_to(state: &AppState, to: u128, payload: Vec<u8>) -> (r: Option<Receipt>)
    ensures
        r is Some <==> state@.has(to),
        r is Some ==> r->0.queue() == state@.clients[to].queue,
        r is Some ==> r->0.offered() == OutboundFrameView::Pong(payload@),
{
    match state.client(to) {
        Some(client) => Some(client.pong(payload)),
        None => None,
    }
}

} // verus!
