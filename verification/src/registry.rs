//! The client record and the concurrent map that holds one record per live
//! connection, seen through a mathematical map from identity to record.

use vstd::prelude::*;
use std::collections::VecDeque;
use dashmap::DashMap;
use tokio::sync::mpsc::Sender;
use uuid::Uuid;
use crate::config::RateLimitConfig;
use crate::limiter::{after_check, judge, verdict, WINDOW_SECS};
use crate::protocol::{OutboundFrame, OutboundFrameView};
use crate::queue::{clone_handle, queue_of, try_enqueue, Receipt};

verus! {

/// `dashmap::DashMap`, carried as an opaque value.
#[verifier::external_type_specification]
#[verifier::external_body]
#[verifier::reject_recursive_types(K)]
#[verifier::reject_recursive_types(V)]
#[verifier::reject_recursive_types(S)]
pub struct ExDashMap<K, V, S>(dashmap::DashMap<K, V, S>);

/// How many frames a client's outbound queue holds. A frame offered to a
/// full queue is dropped for that client.
pub const OUTBOUND_QUEUE_CAPACITY: usize = 256;

/// One live connection.
pub struct Client {
    /// The display name.
    pub name: String,
    /// The origin address, fixed at connect.
    pub ip: String,
    /// The sending side of the connection's bounded outbound queue.
    pub tx: Sender<OutboundFrame>,
    /// Time of connect, in milliseconds since the Unix epoch.
    pub connected_at: u128,
    /// Times of the chat sends admitted within the window, oldest first.
    pub message_timestamps: VecDeque<u64>,
}

/// What contracts see of a [`Client`]. Of the handle they see the queue
/// that it leads to.
pub struct ClientView {
    pub name: Seq<char>,
    pub ip: Seq<char>,
    pub queue: nat,
    pub connected_at: u128,
    pub stamps: Seq<u64>,
}

impl View for Client {
    type V = ClientView;

    open spec fn view(&self) -> ClientView {
        ClientView {
            name: self.name@,
            ip: self.ip@,
            queue: queue_of(self.tx),
            connected_at: self.connected_at,
            stamps: self.message_timestamps@,
        }
    }
}

impl Clone for Client {
    /// A second record of the same client, with a handle to the same queue.
    fn clone(&self) -> (r: Client)
        ensures
            r@ == self@,
    {
        Client {
            name: self.name.clone(),
            ip: self.ip.clone(),
            tx: clone_handle(&self.tx),
            connected_at: self.connected_at,
            message_timestamps: self.message_timestamps.clone(),
        }
    }
}

impl Client {
    /// A client that has sent nothing yet.
    pub fn new(name: String, ip: String, tx: Sender<OutboundFrame>, connected_at: u128) -> (r:
        Client)
        ensures
            r@ == (ClientView {
                name: name@,
                ip: ip@,
                queue: queue_of(tx),
                connected_at,
                stamps: Seq::empty(),
            }),
    {
        Client { name, ip, tx, connected_at, message_timestamps: VecDeque::new() }
    }

    /// Judges a chat send at `now` (milliseconds on a monotonic clock).
    /// Without enforcement every send is admitted and none is recorded.
    /// With it, expired sends are evicted, and the send is admitted and
    /// recorded, or rejected with the seconds to wait.
    pub fn check_rate_limit(&mut self, config: &RateLimitConfig, now: u64) -> (r: Result<(), u64>)
        ensures
            !config.enabled ==> r == Ok::<(), u64>(()) && *final(self) == *old(self),
            config.enabled ==> r == verdict(old(self)@.stamps, config.messages_per_minute, now),
            config.enabled ==> final(self)@ == (ClientView {
                stamps: after_check(old(self)@.stamps, config.messages_per_minute, now),
                ..old(self)@
            }),
            r is Err ==> 1 <= r->Err_0 <= WINDOW_SECS,
    {
        if !config.enabled {
            return Ok(());
        }
        judge(&mut self.message_timestamps, config.messages_per_minute, now)
    }

    /// Offers a serialized envelope, as a text frame, to the client's own
    /// outbound queue without waiting. A receipt that is not `taken` means
    /// that the queue was full or closed and the envelope is dropped for
    /// this client.
    pub fn send(&self, text: String) -> (receipt: Receipt)
        ensures
            receipt.queue() == self@.queue,
            receipt.offered() == OutboundFrameView::Text(text@),
    {
        try_enqueue(&self.tx, OutboundFrame::Text(text))
    }

    /// Offers the answer to a transport-level ping, with the ping's
    /// payload, to the client's own outbound queue without waiting.
    pub fn pong(&self, payload: Vec<u8>) -> (receipt: Receipt)
        ensures
            receipt.queue() == self@.queue,
            receipt.offered() == OutboundFrameView::Pong(payload@),
    {
        try_enqueue(&self.tx, OutboundFrame::Pong(payload))
    }
}

/// What the registry holds: the record of each registered identity.
pub uninterp spec fn registered(m: DashMap<u128, Client>) -> Map<u128, ClientView>;

/// Calls `DashMap::new`.
///
/// Trusted: the new map holds nothing.
#[verifier::external_body]
pub(crate) fn registry_new() -> (m: DashMap<u128, Client>)
    ensures
        registered(m) =~= Map::empty(),
{
    DashMap::new()
}

/// Calls `DashMap::len`.
///
/// Trusted: the result is the number of keys held.
#[verifier::external_body]
pub(crate) fn registry_len(m: &DashMap<u128, Client>) -> (n: usize)
    requires
        registered(*m).dom().finite(),
    ensures
        n == registered(*m).dom().len(),
{
    m.len()
}

/// Calls `DashMap::insert` and drops the record that was replaced, if any.
///
/// Trusted: afterwards the key is bound to the new record and every other
/// key is as before.
#[verifier::external_body]
pub(crate) fn registry_insert(m: &mut DashMap<u128, Client>, id: u128, client: Client)
    ensures
        registered(*final(m)) == registered(*old(m)).insert(id, client@),
{
    m.insert(id, client);
}

/// Calls `DashMap::remove` and hands out the record without its key.
///
/// Trusted: the record comes back exactly when the key was held, and
/// afterwards the key is not held and every other key is as before.
#[verifier::external_body]
pub(crate) fn registry_remove(m: &mut DashMap<u128, Client>, id: u128) -> (r: Option<Client>)
    ensures
        registered(*final(m)) == registered(*old(m)).remove(id),
        r is Some <==> registered(*old(m)).contains_key(id),
        r is Some ==> r->0@ == registered(*old(m))[id],
{
    m.remove(&id).map(|entry| entry.1)
}

/// Calls `DashMap::get` and copies the record.
///
/// Trusted: a copy comes back exactly when the key is held, and it views
/// as the held record does.
#[verifier::external_body]
pub(crate) fn registry_get(m: &DashMap<u128, Client>, id: u128) -> (r: Option<Client>)
    ensures
        r is Some <==> registered(*m).contains_key(id),
        r is Some ==> r->0@ == registered(*m)[id],
{
    m.get(&id).map(|entry| entry.value().clone())
}

/// Calls `DashMap::iter` and collects the keys in the order of the walk.
///
/// Trusted: every held key comes exactly once, in an order that is left
/// open.
#[verifier::external_body]
pub(crate) fn registry_ids(m: &DashMap<u128, Client>) -> (r: Vec<u128>)
    ensures
        r@.no_duplicates(),
        r@.to_set() == registered(*m).dom(),
{
    m.iter().map(|entry| *entry.key()).collect()
}

/// The hyphenated lower-case text of the UUID whose 128 bits are `id`.
pub uninterp spec fn hyphenated(id: u128) -> Seq<char>;

/// Whether `c` is a digit of lower-case hexadecimal.
pub open spec fn is_lower_hex(c: char) -> bool {
    ('0' <= c && c <= '9') || ('a' <= c && c <= 'f')
}

/// Calls `Uuid::from_u128` and writes the UUID with `to_string`.
///
/// Trusted: the result is the value that the name [`hyphenated`] stands
/// for; it has 36 characters, and the first eight are hexadecimal digits
/// in lower case.
#[verifier::external_body]
pub(crate) fn identity_text(id: u128) -> (r: String)
    ensures
        r@ == hyphenated(id),
        r@.len() == 36,
        forall|i: int| 0 <= i < 8 ==> is_lower_hex(#[trigger] r@[i]),
{
    Uuid::from_u128(id).to_string()
}

/// Calls `Uuid::new_v4` and takes the 128 bits of the random UUID.
///
/// Trusted, and silent about the result, which is drawn at random.
#[verifier::external_body]
pub(crate) fn fresh_identity() -> (id: u128) {
    Uuid::new_v4().as_u128()
}

} // verus!
