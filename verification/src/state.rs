//! The hub's shared state: the registry of live clients, the counters, the
//! gateway and the settings, with their view and the invariant that every
//! operation keeps.

use vstd::prelude::*;
use vstd::string::*;
use dashmap::DashMap;
use crate::ai::{query_matches, AiClient, AiClientView, AiError, AiRequest};
use crate::config::RateLimitConfig;
use crate::limiter::elapsed;
use crate::protocol::{UserInfo, UserInfoView, users_view};
use crate::registry::{
    hyphenated, identity_text, registered, registry_get, registry_ids, registry_insert,
    registry_len, registry_new, registry_remove, Client, ClientView,
};
use crate::text::all_name_chars;

verus! {

/// A moment as the two clocks show it.
#[derive(Debug, Clone, Copy, PartialEq, Eq)]
pub struct Stamp {
    /// Milliseconds on a monotonic clock.
    pub monotonic_ms: u64,
    /// Milliseconds since the Unix epoch on the wall clock.
    pub unix_ms: u128,
}

/// The shortest display name, in characters.
pub const MIN_NAME_CHARS: usize = 2;

/// The longest display name, in characters.
pub const MAX_NAME_CHARS: usize = 32;

/// Whether `name` can be a display name: of 2 to 32 characters, each a
/// letter, a digit, a space, a hyphen or an underscore.
pub open spec fn valid_name(name: Seq<char>) -> bool {
    MIN_NAME_CHARS <= name.len() <= MAX_NAME_CHARS && all_name_chars(name)
}

/// The name that a client bears until it picks one: `guest-` and the first
/// six characters of its identity's text.
pub open spec fn guest_name(id: u128) -> Seq<char> {
    "guest-"@ + hyphenated(id).subrange(0, 6)
}

/// `n + 1`, starting over at zero past the largest value.
pub open spec fn bumped(n: u64) -> u64 {
    if n == u64::MAX {
        0
    } else {
        (n + 1) as u64
    }
}

/// The larger of two counts.
pub open spec fn larger(a: u64, b: u64) -> u64 {
    if a >= b {
        a
    } else {
        b
    }
}

/// A quotient rounded to the nearest whole number, halves away from zero.
pub open spec fn rounded_quotient(numerator: nat, denominator: nat) -> nat
    recommends
        denominator > 0,
{
    (2 * numerator + denominator) / (2 * denominator)
}

/// Bytes in a mebibyte.
pub const MEBIBYTE: u64 = 1_048_576;

/// A size in bytes as hundredths of a mebibyte, rounded to the nearest,
/// halves upwards.
pub open spec fn mebibytes_x100(bytes: u64) -> u64 {
    ((bytes as nat * 100 + 524_288) / 1_048_576) as u64
}

/// Messages per second of uptime in hundredths, rounded to the nearest and
/// capped at the largest value; zero while the uptime is zero.
pub open spec fn rate_x100(messages: u64, uptime_seconds: u64) -> u64 {
    if uptime_seconds == 0 {
        0
    } else {
        let r = rounded_quotient(messages as nat * 100, uptime_seconds as nat);
        if r > u64::MAX {
            u64::MAX
        } else {
            r as u64
        }
    }
}

/// Whole seconds from the hub's start to `now`.
pub open spec fn uptime_at(started_at: u64, now: u64) -> u64 {
    (elapsed(now, started_at) / 1000) as u64
}

/// The line of the user list for the client `c` registered under `id`.
pub open spec fn info_of(id: u128, c: ClientView) -> UserInfoView {
    UserInfoView { id: hyphenated(id), name: c.name, ip: c.ip }
}

/// Whether `users` lists every registered client exactly once, in whatever
/// order.
pub open spec fn is_listing(users: Seq<UserInfoView>, clients: Map<u128, ClientView>) -> bool {
    exists|ids: Seq<u128>|
        {
            &&& ids.no_duplicates()
            &&& ids.to_set() == clients.dom()
            &&& #[trigger] ids.len() == users.len()
            &&& forall|i: int| 0 <= i < ids.len() ==> users[i] == info_of(ids[i], clients[ids[i]])
        }
}

/// The view of an [`AppState`].
pub struct HubView {
    /// The record of each registered identity.
    pub clients: Map<u128, ClientView>,
    /// When the hub started, on the monotonic clock.
    pub started_at: u64,
    /// Chat messages broadcast so far.
    pub messages_sent: u64,
    /// Connections accepted so far.
    pub connections_total: u64,
    /// The most clients registered at once, as seen at each connect.
    pub peak_users: u64,
    pub ai: AiClientView,
    pub rate_limit: RateLimitConfig,
    pub version: Seq<char>,
}

impl HubView {
    /// The invariant of the hub: finitely many clients are registered, no
    /// more than the recorded peak, and each under a valid name.
    pub open spec fn wf(self) -> bool {
        &&& self.clients.dom().finite()
        &&& self.clients.dom().len() <= self.peak_users
        &&& forall|id: u128| #[trigger]
            self.clients.contains_key(id) ==> valid_name(self.clients[id].name)
    }

    /// Whether a client is registered under `id`.
    pub open spec fn has(self, id: u128) -> bool {
        self.clients.contains_key(id)
    }
}

/// The hub's shared state.
pub struct AppState {
    pub(crate) clients: DashMap<u128, Client>,
    pub(crate) started_at: u64,
    pub(crate) messages_sent: u64,
    pub(crate) connections_total: u64,
    pub(crate) peak_users: u64,
    pub(crate) ai: AiClient,
    pub(crate) rate_limit: RateLimitConfig,
    pub(crate) version: String,
}

impl View for AppState {
    type V = HubView;

    closed spec fn view(&self) -> HubView {
        HubView {
            clients: registered(self.clients),
            started_at: self.started_at,
            messages_sent: self.messages_sent,
            connections_total: self.connections_total,
            peak_users: self.peak_users,
            ai: self.ai@,
            rate_limit: self.rate_limit,
            version: self.version@,
        }
    }
}

impl AppState {
    /// A hub without clients that starts at `now` (milliseconds on the
    /// monotonic clock).
    pub fn new(ai_client: AiClient, rate_limit: RateLimitConfig, version: String, now: u64) -> (r:
        AppState)
        ensures
            r@ == (HubView {
                clients: Map::empty(),
                started_at: now,
                messages_sent: 0,
                connections_total: 0,
                peak_users: 0,
                ai: ai_client@,
                rate_limit,
                version: version@,
            }),
            r@.wf(),
    {
        AppState {
            clients: registry_new(),
            started_at: now,
            messages_sent: 0,
            connections_total: 0,
            peak_users: 0,
            ai: ai_client,
            rate_limit,
            version,
        }
    }

    /// The number of registered clients.
    pub fn user_count(&self) -> (r: usize)
        requires
            self@.wf(),
        ensures
            r == self@.clients.dom().len(),
    {
        registry_len(&self.clients)
    }

    /// Whole seconds from the hub's start to `now` (milliseconds on the
    /// monotonic clock).
    pub fn uptime_seconds(&self, now: u64) -> (r: u64)
        ensures
            r == uptime_at(self@.started_at, now),
    {
        if now >= self.started_at {
            (now - self.started_at) / 1000
        } else {
            0
        }
    }

    /// Chat messages broadcast so far.
    pub fn messages_sent(&self) -> (r: u64)
        ensures
            r == self@.messages_sent,
    {
        self.messages_sent
    }

    /// Counts one broadcast chat message.
    pub fn increment_messages(&mut self)
        ensures
            final(self)@ == (HubView { messages_sent: bumped(old(self)@.messages_sent), ..old(self)@ }),
    {
        self.messages_sent = if self.messages_sent == u64::MAX {
            0
        } else {
            self.messages_sent + 1
        };
    }

    /// Counts one accepted connection, and raises the peak to the number
    /// of registered clients if that is larger.
    pub fn increment_connections(&mut self)
        requires
            old(self)@.clients.dom().finite(),
        ensures
            old(self)@.clients.dom().len() <= usize::MAX,
            final(self)@ == (HubView {
                connections_total: bumped(old(self)@.connections_total),
                peak_users: larger(old(self)@.peak_users, old(self)@.clients.dom().len() as u64),
                ..old(self)@
            }),
    {
        self.connections_total = if self.connections_total == u64::MAX {
            0
        } else {
            self.connections_total + 1
        };
        let current = registry_len(&self.clients) as u64;
        if current > self.peak_users {
            self.peak_users = current;
        }
    }

    /// Connections accepted so far.
    pub fn connections_total(&self) -> (r: u64)
        ensures
            r == self@.connections_total,
    {
        self.connections_total
    }

    /// The most clients registered at once, as seen at each connect.
    pub fn peak_users(&self) -> (r: u64)
        ensures
            r == self@.peak_users,
    {
        self.peak_users
    }

    /// The settings of chat admission.
    pub fn rate_limit(&self) -> (r: RateLimitConfig)
        ensures
            r == self@.rate_limit,
    {
        self.rate_limit
    }

    /// The gateway.
    pub fn ai(&self) -> (r: &AiClient)
        ensures
            r@ == self@.ai,
    {
        &self.ai
    }

    /// Whether a client is registered under `id`.
    pub fn is_registered(&self, id: u128) -> (r: bool)
        ensures
            r == self@.has(id),
    {
        registry_get(&self.clients, id).is_some()
    }

    /// The display name of the client registered under `id`.
    pub fn name_of(&self, id: u128) -> (r: Option<String>)
        ensures
            r is Some <==> self@.has(id),
            r is Some ==> r->0@ == self@.clients[id].name,
    {
        match registry_get(&self.clients, id) {
            Some(client) => Some(client.name),
            None => None,
        }
    }

    /// Takes the record registered under `id` out of the registry.
    pub(crate) fn take_client(&mut self, id: u128) -> (r: Option<Client>)
        ensures
            final(self)@ == (HubView { clients: old(self)@.clients.remove(id), ..old(self)@ }),
            r is Some <==> old(self)@.has(id),
            r is Some ==> r->0@ == old(self)@.clients[id],
    {
        registry_remove(&mut self.clients, id)
    }

    /// Binds `id` to `client` in the registry.
    pub(crate) fn put_client(&mut self, id: u128, client: Client)
        ensures
            final(self)@ == (HubView {
                clients: old(self)@.clients.insert(id, client@),
                ..old(self)@
            }),
    {
        registry_insert(&mut self.clients, id, client);
    }

    /// A copy of the record registered under `id`.
    pub(crate) fn client(&self, id: u128) -> (r: Option<Client>)
        ensures
            r is Some <==> self@.has(id),
            r is Some ==> r->0@ == self@.clients[id],
    {
        registry_get(&self.clients, id)
    }

    /// The registered identities, each once, in whatever order the
    /// registry is walked.
    pub(crate) fn ids(&self) -> (r: Vec<u128>)
        ensures
            r@.no_duplicates(),
            r@.to_set() == self@.clients.dom(),
    {
        registry_ids(&self.clients)
    }

    /// Puts a question of `user` to the gateway; see
    /// [`AiClient::query_trimmed`].
    pub(crate) fn ask_gateway(&mut self, user: &str, prompt: &str, now: u64) -> (r: Result<
        AiRequest,
        AiError,
    >)
        ensures
            final(self)@ == (HubView { ai: old(self)@.ai.after_query(user@, now), ..old(self)@ }),
            query_matches(r, old(self)@.ai.query_result(user@, prompt@, now)),
    {
        self.ai.query_trimmed(user, prompt, now)
    }

    /// The version that the hub reports.
    pub fn version(&self) -> (r: String)
        ensures
            r@ == self@.version,
    {
        self.version.clone()
    }

    /// The size of the process in hundredths of a mebibyte, for the size
    /// in bytes that was sampled.
    pub fn memory_mb(bytes: u64) -> (r: u64)
        ensures
            r == mebibytes_x100(bytes),
    {
        let scaled: u128 = bytes as u128 * 100 + (MEBIBYTE / 2) as u128;
        (scaled / (MEBIBYTE as u128)) as u64
    }

    /// A snapshot of the registry: one line per registered client, in
    /// whatever order the registry is walked.
    pub fn list_users(&self) -> (r: Vec<UserInfo>)
        ensures
            is_listing(users_view(r@), self@.clients),
    {
        let ids = registry_ids(&self.clients);
        let mut users: Vec<UserInfo> = Vec::new();
        let mut i: usize = 0;
        while i < ids.len()
            invariant
                i <= ids.len(),
                ids@.to_set() == registered(self.clients).dom(),
                users@.len() == i,
                forall|j: int|
                    0 <= j < i ==> (#[trigger] users@[j])@ == info_of(
                        ids@[j],
                        registered(self.clients)[ids@[j]],
                    ),
            decreases ids.len() - i,
        {
            let id = ids[i];
            assert(ids@.to_set().contains(id)) by {
                assert(ids@.contains(ids@[i as int]));
            }
            match registry_get(&self.clients, id) {
                Some(client) => {
                    users.push(UserInfo { id: identity_text(id), name: client.name, ip: client.ip });
                },
                None => {
                    assert(false);
                },
            }
            i += 1;
        }
        proof {
            let listed = users_view(users@);
            assert(ids@.len() == listed.len());
            assert forall|k: int| 0 <= k < ids@.len() implies listed[k] == info_of(
                ids@[k],
                self@.clients[ids@[k]],
            ) by {
                assert(listed[k] == users@[k]@);
            }
        }
        users
    }
}

/// Messages per second of uptime in hundredths.
pub fn messages_per_second_x100(messages: u64, uptime_seconds: u64) -> (r: u64)
    ensures
        r == rate_x100(messages, uptime_seconds),
{
    if uptime_seconds == 0 {
        return 0;
    }
    let scaled: u128 = 2 * (messages as u128 * 100) + uptime_seconds as u128;
    let q: u128 = scaled / (2 * uptime_seconds as u128);
    if q > u64::MAX as u128 {
        u64::MAX
    } else {
        q as u64
    }
}

} // verus!
