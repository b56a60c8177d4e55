//! What holds of the hub across its operations.

use vstd::prelude::*;
use crate::actions::{actions_view, error_to, Action, ActionView};
use crate::ai::AiErrorView;
use crate::fanout::{fanned_out, offered_to_owner, recipients, Delivery};
use crate::handlers::{handled, name_fault, ProtocolError, MAX_CHAT_CHARS};
use crate::limiter::{admits, after_check, elapsed, expired, lemma_retained, retained, verdict,
    wait_seconds, WINDOW_MS, WINDOW_SECS};
use crate::lifecycle::{after_disconnect, after_register, received, rejection, InboundFrame, Step};
use crate::protocol::{text_view, Incoming, OutboundFrameView, OutgoingView};
use crate::registry::ClientView;
use crate::state::{HubView, Stamp};
use crate::text::trimmed;

verus! {

/// Handling a request neither registers nor removes a client, and leaves
/// every client's origin address, queue and time of connect as they were; a
/// client other than the sender is left untouched altogether.
pub proof fn law_dispatch_keeps_identities(
    before: HubView,
    id: u128,
    incoming: Option<Incoming>,
    now: Stamp,
    after: HubView,
    r: Result<Vec<Action>, ProtocolError>,
)
    requires
        handled(before, id, incoming, now, after, r),
    ensures
        after.clients.dom() == before.clients.dom(),
        forall|k: u128| #[trigger]
            before.has(k) ==> after.clients[k].ip == before.clients[k].ip
                && after.clients[k].queue == before.clients[k].queue
                && after.clients[k].connected_at == before.clients[k].connected_at,
        forall|k: u128| #[trigger] before.has(k) && k != id ==> after.clients[k] == before.clients[k],
{
    assert(after.clients.dom() =~= before.clients.dom());
}

/// A registration binds exactly one identity that was free and leaves
/// every registered client as it was; a departure frees exactly the
/// departing identity and leaves every other client as it was. So no two
/// live clients ever share an identity.
pub proof fn law_identities_are_unique(
    hub: HubView,
    id: u128,
    ip: Seq<char>,
    queue: nat,
    now: Stamp,
)
    ensures
        !hub.has(id) ==> after_register(hub, id, ip, queue, now).clients.dom()
            == hub.clients.dom().insert(id),
        forall|k: u128| #[trigger]
            hub.has(k) && k != id ==> after_register(hub, id, ip, queue, now).clients[k]
                == hub.clients[k],
        after_disconnect(hub, id).clients.dom() == hub.clients.dom().remove(id),
        forall|k: u128| #[trigger]
            hub.has(k) && k != id ==> after_disconnect(hub, id).has(k) && after_disconnect(
                hub,
                id,
            ).clients[k] == hub.clients[k],
{
}

/// A chat message that is longer than 500 characters once trimmed changes
/// nothing and is never broadcast: all that follows is the error, told to
/// the sender alone.
pub proof fn law_long_chat_is_never_broadcast(
    before: HubView,
    id: u128,
    text: String,
    now: Stamp,
    after: HubView,
    step: Step,
)
    requires
        received(before, id, InboundFrame::Text(Some(Incoming::Chat { text })), now, after, step),
        trimmed(text@).len() > MAX_CHAT_CHARS,
    ensures
        after == before,
        step is Continue,
        actions_view(step->Continue_0@) == rejection(before, id, ProtocolError::MessageTooLong),
        forall|i: int|
            0 <= i < step->Continue_0@.len() ==> !(#[trigger] actions_view(
                step->Continue_0@,
            )[i] is Broadcast),
{
    let told = actions_view(step->Continue_0@);
    assert(told.len() == step->Continue_0@.len());
    assert(told == rejection(before, id, ProtocolError::MessageTooLong));
    assert forall|i: int| 0 <= i < told.len() implies !(#[trigger] told[i] is Broadcast) by {
        assert(told[i] == error_to(id, ProtocolError::MessageTooLong.message_text()));
    }
}

/// A rename to a name that, once trimmed, is shorter than 2 or longer
/// than 32 characters, or holds a character that names may not hold,
/// leaves every stored name as it was: all that follows is the error,
/// told to the sender alone.
pub proof fn law_bad_name_changes_nothing(
    before: HubView,
    id: u128,
    name: String,
    now: Stamp,
    after: HubView,
    step: Step,
)
    requires
        received(before, id, InboundFrame::Text(Some(Incoming::SetName { name })), now, after, step),
        name_fault(trimmed(name@)) is Some,
    ensures
        after == before,
        step is Continue,
        actions_view(step->Continue_0@) == rejection(before, id, name_fault(trimmed(name@))->0),
{
}

/// While the gateway is disabled, a question changes nothing and nothing
/// is to be sent to the service: all that follows is the "not enabled"
/// error, told to a registered asker alone.
pub proof fn law_disabled_gateway_asks_nobody(
    before: HubView,
    id: u128,
    prompt: String,
    now: Stamp,
    after: HubView,
    r: Result<Vec<Action>, ProtocolError>,
)
    requires
        handled(before, id, Some(Incoming::Ai { prompt }), now, after, r),
        !before.ai.is_enabled(),
    ensures
        after == before,
        r is Ok,
        actions_view(r->Ok_0@) == rejected_question(before, id),
        forall|i: int|
            0 <= i < r->Ok_0@.len() ==> !(#[trigger] actions_view(r->Ok_0@)[i] is QueryAi),
{
    let told = actions_view(r->Ok_0@);
    assert(told.len() == r->Ok_0@.len());
    assert(told == rejected_question(before, id));
    assert forall|i: int| 0 <= i < told.len() implies !(#[trigger] told[i] is QueryAi) by {
        assert(told[i] == error_to(id, AiErrorView::Disabled.message()));
    }
}

/// What follows a question while the gateway is disabled.
pub open spec fn rejected_question(hub: HubView, id: u128) -> Seq<ActionView> {
    if hub.has(id) {
        seq![error_to(id, AiErrorView::Disabled.message())]
    } else {
        Seq::empty()
    }
}

/// A ping of a registered client is answered to that client alone, with a
/// pong that carries the ping's own token.
pub proof fn law_ping_echoes_token(
    before: HubView,
    id: u128,
    token: Option<String>,
    now: Stamp,
    after: HubView,
    r: Result<Vec<Action>, ProtocolError>,
)
    requires
        handled(before, id, Some(Incoming::Ping { token }), now, after, r),
        before.has(id),
    ensures
        after == before,
        r is Ok,
        actions_view(r->Ok_0@) == seq![
            ActionView::Unicast {
                to: id,
                payload: OutgoingView::Pong { token: text_view(token), at: now.unix_ms },
            },
        ],
{
}

/// A request that is rejected counts towards no figure of the hub and
/// leaves every client other than its sender untouched.
pub proof fn law_rejections_are_not_counted(
    before: HubView,
    id: u128,
    incoming: Option<Incoming>,
    now: Stamp,
    after: HubView,
    r: Result<Vec<Action>, ProtocolError>,
)
    requires
        handled(before, id, incoming, now, after, r),
        r is Err,
    ensures
        after.messages_sent == before.messages_sent,
        after.connections_total == before.connections_total,
        after.peak_users == before.peak_users,
        forall|k: u128| #[trigger] before.has(k) && k != id ==> after.clients[k] == before.clients[k],
{
}

/// The recorded peak never falls: a registration keeps or raises it, and
/// neither a request nor a departure touches it.
pub proof fn law_peak_never_falls(
    before: HubView,
    id: u128,
    incoming: Option<Incoming>,
    ip: Seq<char>,
    queue: nat,
    now: Stamp,
    after: HubView,
    r: Result<Vec<Action>, ProtocolError>,
)
    requires
        handled(before, id, incoming, now, after, r),
    ensures
        after.peak_users == before.peak_users,
        after_register(before, id, ip, queue, now).peak_users >= before.peak_users,
        after_disconnect(before, id).peak_users == before.peak_users,
{
}

/// In a fan-out every registered client but the excluded one is offered
/// the frame on its own queue, exactly once, and the excluded client is
/// offered nothing. This holds whatever the queues answered: a queue that
/// is full or closed loses the frame for its own client and for nobody
/// else.
pub proof fn law_fan_out_reaches_everyone(
    clients: Map<u128, ClientView>,
    frame: OutboundFrameView,
    except: Option<u128>,
    attempts: Seq<Delivery>,
    k: u128,
)
    requires
        fanned_out(clients, frame, except, attempts),
        clients.contains_key(k),
    ensures
        except != Some(k) ==> exists|i: int|
            {
                &&& 0 <= i < attempts.len()
                &&& #[trigger] attempts[i].to == k
                &&& attempts[i].receipt.queue() == clients[k].queue
                &&& attempts[i].receipt.offered() == frame
                &&& forall|j: int| 0 <= j < attempts.len() && attempts[j].to == k ==> j == i
            },
        except == Some(k) ==> forall|i: int| 0 <= i < attempts.len() ==> attempts[i].to != k,
{
    let to = recipients(attempts);
    if except != Some(k) {
        assert(to.to_set().contains(k));
        assert(to.contains(k));
        let i = choose|i: int| 0 <= i < to.len() && to[i] == k;
        assert(attempts[i].to == k);
        assert(offered_to_owner(clients, frame, attempts[i]));
        assert forall|j: int| 0 <= j < attempts.len() && attempts[j].to == k implies j == i by {
            assert(to[j] == to[i]);
        }
    } else {
        assert forall|i: int| 0 <= i < attempts.len() implies attempts[i].to != k by {
            if attempts[i].to == k {
                assert(to[i] == k);
                assert(to.contains(k));
                assert(to.to_set().contains(k));
            }
        }
    }
}

/// The kind of a failure, without what it carries.
pub open spec fn kind_of(e: AiErrorView) -> int {
    match e {
        AiErrorView::Disabled => 0,
        AiErrorView::RateLimited { .. } => 1,
        AiErrorView::EmptyPrompt => 2,
        AiErrorView::PromptTooLong => 3,
        AiErrorView::TimedOut { .. } => 4,
        AiErrorView::Unavailable => 5,
        AiErrorView::BadStatus { .. } => 6,
        AiErrorView::Unparsable => 7,
    }
}

/// The sentences of a failure begin as its kind's fixed words do.
proof fn lemma_message_heads(e: AiErrorView)
    ensures
        e.message().len() >= 12,
        kind_of(e) == 0 ==> e.message()[0] == 'A' && e.message()[3] == 'i',
        kind_of(e) == 1 ==> e.message()[0] == 'R',
        kind_of(e) == 2 ==> e.message()[0] == 'G',
        kind_of(e) == 3 ==> e.message()[0] == 'V',
        kind_of(e) == 4 ==> e.message()[0] == 'A' && e.message()[3] == 'r',
        kind_of(e) == 5 ==> e.message()[0] == 'A' && e.message()[3] == 's' && e.message()[11]
            == 't',
        kind_of(e) == 6 ==> e.message()[0] == 'A' && e.message()[3] == 's' && e.message()[11]
            == 'e',
        kind_of(e) == 7 ==> e.message()[0] == 'K',
{
    reveal_strlit("AI is niet geactiveerd op deze server.");
    reveal_strlit("Rate limit bereikt (max ");
    reveal_strlit("Geef een vraag op. Gebruik: /ai <vraag>");
    reveal_strlit("Vraag is te lang (max 1000 tekens).");
    reveal_strlit("AI request timed out after ");
    reveal_strlit("AI service tijdelijk niet beschikbaar.");
    reveal_strlit("AI service error: ");
    reveal_strlit("Kon AI antwoord niet verwerken.");
}

/// Failures of different kinds are told in different sentences.
pub proof fn law_failures_read_differently(a: AiErrorView, b: AiErrorView)
    requires
        kind_of(a) != kind_of(b),
    ensures
        a.message() != b.message(),
{
    lemma_message_heads(a);
    lemma_message_heads(b);
}

/// Whether the times never go back.
pub open spec fn nondecreasing(times: Seq<u64>) -> bool {
    forall|i: int, j: int| 0 <= i <= j < times.len() ==> times[i] <= times[j]
}

/// The queue of a client that connected and then tried to send at each of
/// `times`, under `limit` messages per window.
pub open spec fn replay(limit: u32, times: Seq<u64>) -> Seq<u64>
    decreases times.len(),
{
    if times.len() == 0 {
        Seq::empty()
    } else {
        after_check(replay(limit, times.drop_last()), limit, times.last())
    }
}

/// Whether the send at `times[i]` was admitted.
pub open spec fn admitted_at(limit: u32, times: Seq<u64>, i: int) -> bool {
    admits(replay(limit, times.take(i)), limit, times[i])
}

/// How many of the first `k` sends were admitted and are still within the
/// window at `now`.
pub open spec fn admitted_within(limit: u32, times: Seq<u64>, k: int, now: u64) -> nat
    decreases k,
{
    if k <= 0 {
        0
    } else {
        admitted_within(limit, times, k - 1, now) + if admitted_at(limit, times, k - 1) && !expired(
            times[k - 1],
            now,
        ) {
            1nat
        } else {
            0nat
        }
    }
}

proof fn lemma_take_step(times: Seq<u64>, k: int)
    requires
        0 < k <= times.len(),
    ensures
        times.take(k).drop_last() == times.take(k - 1),
        times.take(k).last() == times[k - 1],
{
    assert(times.take(k).drop_last() =~= times.take(k - 1));
}

/// Evicting at a later time what was left by an earlier eviction is
/// evicting at the later time.
proof fn lemma_retained_twice(q: Seq<u64>, earlier: u64, later: u64)
    requires
        earlier <= later,
    ensures
        retained(retained(q, earlier), later) == retained(q, later),
    decreases q.len(),
{
    if q.len() > 0 && expired(q[0], earlier) {
        lemma_retained_twice(q.drop_first(), earlier, later);
    }
}

/// Whether the queue is in order of time and holds nothing later than
/// `bound`.
spec fn ordered_up_to(q: Seq<u64>, bound: u64) -> bool {
    &&& forall|i: int, j: int| 0 <= i <= j < q.len() ==> q[i] <= q[j]
    &&& forall|i: int| 0 <= i < q.len() ==> q[i] <= bound
}

proof fn lemma_retained_ordered(q: Seq<u64>, bound: u64, now: u64)
    requires
        ordered_up_to(q, bound),
    ensures
        ordered_up_to(retained(q, now), bound),
{
    lemma_retained(q, now);
}

/// In a queue that is in order of time, eviction after one more send
/// keeps what it kept before, and the new send unless that has expired
/// too.
proof fn lemma_retained_push(q: Seq<u64>, t: u64, now: u64)
    requires
        ordered_up_to(q, t),
        t <= now,
    ensures
        retained(q.push(t), now).len() == retained(q, now).len() + if expired(t, now) {
            0nat
        } else {
            1nat
        },
    decreases q.len(),
{
    if q.len() == 0 {
        assert(q.push(t)[0] == t);
        assert(q.push(t).drop_first() =~= Seq::<u64>::empty());
        assert(retained(Seq::<u64>::empty(), now) =~= Seq::<u64>::empty());
    } else if expired(q[0], now) {
        assert(q.push(t)[0] == q[0]);
        assert(q.push(t).drop_first() =~= q.drop_first().push(t));
        assert(ordered_up_to(q.drop_first(), t)) by {
            assert forall|i: int, j: int| 0 <= i <= j < q.drop_first().len() implies q.drop_first()[i]
                <= q.drop_first()[j] by {
                assert(q.drop_first()[i] == q[i + 1]);
                assert(q.drop_first()[j] == q[j + 1]);
            }
            assert forall|i: int| 0 <= i < q.drop_first().len() implies q.drop_first()[i] <= t by {
                assert(q.drop_first()[i] == q[i + 1]);
            }
        }
        lemma_retained_push(q.drop_first(), t, now);
    } else {
        assert(q.push(t)[0] == q[0]);
        assert(!expired(t, now)) by {
            assert(q[0] <= t);
        }
    }
}

/// The queue after any run of sends is in order of time, holds nothing
/// later than the last send, and is no longer than the limit.
proof fn lemma_replay_shape(limit: u32, times: Seq<u64>, k: int)
    requires
        nondecreasing(times),
        0 <= k <= times.len(),
    ensures
        k > 0 ==> ordered_up_to(replay(limit, times.take(k)), times[k - 1]),
        k == 0 ==> replay(limit, times.take(k)).len() == 0,
        replay(limit, times.take(k)).len() <= limit,
    decreases k,
{
    if k > 0 {
        lemma_take_step(times, k);
        lemma_replay_shape(limit, times, k - 1);
        let q0 = replay(limit, times.take(k - 1));
        let t = times[k - 1];
        lemma_retained(q0, t);
        if k > 1 {
            assert(ordered_up_to(q0, t));
            lemma_retained_ordered(q0, t, t);
        }
        assert(ordered_up_to(retained(q0, t), t));
    }
}

/// Eviction at `now`, after the first `k` sends, keeps exactly the sends
/// that were admitted and are still within the window.
proof fn lemma_retained_counts(limit: u32, times: Seq<u64>, k: int, now: u64)
    requires
        nondecreasing(times),
        0 <= k <= times.len(),
        k > 0 ==> times[k - 1] <= now,
    ensures
        retained(replay(limit, times.take(k)), now).len() == admitted_within(limit, times, k, now),
    decreases k,
{
    if k > 0 {
        lemma_take_step(times, k);
        let q0 = replay(limit, times.take(k - 1));
        let t = times[k - 1];
        let kept = retained(q0, t);
        lemma_retained_counts(limit, times, k - 1, now);
        lemma_retained_twice(q0, t, now);
        lemma_replay_shape(limit, times, k - 1);
        lemma_retained(q0, t);
        if admits(q0, limit, t) {
            if k > 1 {
                assert(ordered_up_to(q0, t));
                lemma_retained_ordered(q0, t, t);
            }
            assert(ordered_up_to(kept, t));
            lemma_retained_push(kept, t, now);
        }
    }
}

/// Once as many sends as the limit allows were admitted within the sixty
/// seconds before a send, that send is rejected, with a wait of at least
/// one second. Under a limit of zero that is every send, the first
/// included.
pub proof fn law_full_window_rejects(limit: u32, times: Seq<u64>, i: int)
    requires
        nondecreasing(times),
        0 <= i < times.len(),
        admitted_within(limit, times, i, times[i]) >= limit,
    ensures
        !admitted_at(limit, times, i),
        verdict(replay(limit, times.take(i)), limit, times[i]) is Err,
        1 <= verdict(replay(limit, times.take(i)), limit, times[i])->Err_0 <= WINDOW_SECS,
{
    lemma_retained_counts(limit, times, i, times[i]);
}

/// A client whose send was rejected and who then waits the seconds it was
/// told is admitted with its next send. There are two exceptions. Under a
/// limit of zero no send is ever admitted. And a next send at the very
/// millisecond at which the oldest send of the window turns sixty seconds
/// old is rejected once more: that send has not left the window yet.
pub proof fn law_send_after_wait_is_admitted(limit: u32, times: Seq<u64>, i: int)
    requires
        nondecreasing(times),
        0 <= i,
        i + 1 < times.len(),
        limit >= 1,
        !admitted_at(limit, times, i),
        times[i + 1] >= times[i] + 1000 * verdict(
            replay(limit, times.take(i)),
            limit,
            times[i],
        )->Err_0,
        elapsed(times[i + 1], retained(replay(limit, times.take(i)), times[i])[0]) != WINDOW_MS,
    ensures
        admitted_at(limit, times, i + 1),
{
    let q = replay(limit, times.take(i));
    let kept = retained(q, times[i]);
    let later = times[i + 1];
    lemma_take_step(times, i + 1);
    assert(replay(limit, times.take(i + 1)) == kept);
    lemma_replay_shape(limit, times, i);
    lemma_retained(q, times[i]);
    let oldest = kept[0];
    assert(oldest <= times[i]) by {
        assert(kept[0] == q[q.len() - kept.len()]);
    }
    assert(expired(oldest, later)) by {
        let used = elapsed(times[i], oldest) / 1000;
        assert(verdict(q, limit, times[i])->Err_0 == wait_seconds(oldest, times[i]));
        assert(elapsed(later, oldest) >= elapsed(times[i], oldest) + 1000 * wait_seconds(
            oldest,
            times[i],
        ));
    }
    lemma_retained(kept.drop_first(), later);
}

} // verus!
