use chat_hub::actions::{Action, PendingQuery};
use chat_hub::ai::{AiClient, AiError, Completion, HttpOutcome, Usage};
use chat_hub::config::{AiConfig, RateLimitConfig};
use chat_hub::fanout::{broadcast, fan_out, pong_to, send_to, Delivery};
use chat_hub::handlers::{
    ai_completed, ask, chat, list_users, ping, process_message, set_name, status_reply,
    ProtocolError,
};
use chat_hub::lifecycle::{
    client_origin, connect, disconnect, pick_origin, receive, register, take_first_field,
    InboundFrame, Step,
};
use chat_hub::protocol::{Incoming, OutboundFrame, Outgoing, StatusReport, UserInfo};
use chat_hub::queue::Receipt;
use chat_hub::registry::Client;
use chat_hub::state::{messages_per_second_x100, AppState, Stamp};
use tokio::sync::mpsc::{channel, Receiver, Sender};

const A: u128 = 0xa1a2a3a4_b1b2_c1c2_d1d2_d3d4d5d6d7d8;
const B: u128 = 0x0123456789abcdef0123456789abcdef;

fn ai_config(enabled: bool) -> AiConfig {
    AiConfig {
        enabled,
        api_key: "SECRET-REDACTED".to_string(),
        model: "openai/gpt-4o".to_string(),
        rate_limit: 2,
        timeout_secs: 30,
        max_tokens: 1024,
    }
}

fn hub_with(limit: RateLimitConfig, ai: bool) -> AppState {
    AppState::new(AiClient::new(ai_config(ai)), limit, "0.1.0".to_string(), 1_000)
}

fn hub() -> AppState {
    hub_with(RateLimitConfig { enabled: false, messages_per_minute: 60 }, false)
}

fn at(monotonic_ms: u64) -> Stamp {
    Stamp { monotonic_ms, unix_ms: 1_700_000_000_000 + monotonic_ms as u128 }
}

fn queue(capacity: usize) -> (Sender<OutboundFrame>, Receiver<OutboundFrame>) {
    channel(capacity)
}

fn join(state: &mut AppState, id: u128, ip: &str) -> Receiver<OutboundFrame> {
    let (tx, rx) = queue(8);
    assert!(register(state, id, ip.to_string(), tx, at(1_000)).is_some());
    rx
}

fn outcome(attempts: Vec<Delivery>) -> Vec<(u128, bool)> {
    let mut seen: Vec<(u128, bool)> = attempts.iter().map(|d| (d.to, d.receipt.taken)).collect();
    seen.sort();
    seen
}

fn taken(receipt: Option<Receipt>) -> Option<bool> {
    receipt.map(|r| r.taken)
}

fn text(s: &str) -> OutboundFrame {
    OutboundFrame::Text(s.to_string())
}

fn error_to(to: u128, message: &str) -> Action {
    Action::Unicast { to, payload: Outgoing::Error { message: message.to_string() } }
}

#[test]
fn new_hub_is_empty() {
    let state = hub();
    assert_eq!(state.user_count(), 0);
    assert_eq!(state.messages_sent(), 0);
    assert_eq!(state.connections_total(), 0);
    assert_eq!(state.peak_users(), 0);
    assert_eq!(state.version(), "0.1.0");
    assert!(state.list_users().is_empty());
    assert!(!state.is_registered(A));
    assert_eq!(state.name_of(A), None);
    assert_eq!(state.rate_limit(), RateLimitConfig { enabled: false, messages_per_minute: 60 });
    assert!(!state.ai().is_enabled());
}

#[test]
fn uptime_is_whole_seconds_since_start() {
    let state = hub();
    assert_eq!(state.uptime_seconds(1_000), 0);
    assert_eq!(state.uptime_seconds(1_999), 0);
    assert_eq!(state.uptime_seconds(2_000), 1);
    assert_eq!(state.uptime_seconds(62_500), 61);
    assert_eq!(state.uptime_seconds(0), 0);
}

#[test]
fn counters_count() {
    let mut state = hub();
    state.increment_messages();
    state.increment_messages();
    assert_eq!(state.messages_sent(), 2);
    state.increment_connections();
    assert_eq!(state.connections_total(), 1);
    assert_eq!(state.peak_users(), 0);
}

#[test]
fn memory_is_reported_in_hundredths_of_a_mebibyte() {
    assert_eq!(AppState::memory_mb(0), 0);
    assert_eq!(AppState::memory_mb(1_048_576), 100);
    assert_eq!(AppState::memory_mb(1_572_864), 150);
    assert_eq!(AppState::memory_mb(5_242), 0);
    assert_eq!(AppState::memory_mb(5_243), 1);
    assert_eq!(AppState::memory_mb(u64::MAX), 1_759_218_604_441_600);
}

#[test]
fn message_rate_is_reported_in_hundredths() {
    assert_eq!(messages_per_second_x100(10, 0), 0);
    assert_eq!(messages_per_second_x100(0, 10), 0);
    assert_eq!(messages_per_second_x100(10, 4), 250);
    assert_eq!(messages_per_second_x100(1, 3), 33);
    assert_eq!(messages_per_second_x100(2, 3), 67);
    assert_eq!(messages_per_second_x100(1, 200), 1);
    assert_eq!(messages_per_second_x100(1, 201), 0);
    assert_eq!(messages_per_second_x100(u64::MAX, 1), u64::MAX);
}

#[test]
fn client_starts_without_sends() {
    let (tx, _rx) = queue(1);
    let c = Client::new("guest-abcdef".to_string(), "10.0.0.1".to_string(), tx, 77);
    assert_eq!(c.name, "guest-abcdef");
    assert_eq!(c.ip, "10.0.0.1");
    assert_eq!(c.connected_at, 77);
    assert!(c.message_timestamps.is_empty());
}

#[test]
fn client_rate_limit_is_off_unless_enabled() {
    let (tx, _rx) = queue(1);
    let mut c = Client::new("n".to_string(), "i".to_string(), tx, 0);
    let off = RateLimitConfig { enabled: false, messages_per_minute: 1 };
    for t in 0..10 {
        assert_eq!(c.check_rate_limit(&off, t), Ok(()));
    }
    assert!(c.message_timestamps.is_empty());
}

#[test]
fn client_rate_limit_rejects_the_send_past_the_limit() {
    let (tx, _rx) = queue(1);
    let mut c = Client::new("n".to_string(), "i".to_string(), tx, 0);
    let on = RateLimitConfig { enabled: true, messages_per_minute: 2 };
    assert_eq!(c.check_rate_limit(&on, 0), Ok(()));
    assert_eq!(c.check_rate_limit(&on, 30_000), Ok(()));
    assert_eq!(c.check_rate_limit(&on, 45_500), Err(15));
    assert_eq!(c.check_rate_limit(&on, 60_001), Ok(()));
    assert_eq!(c.check_rate_limit(&on, 60_002), Err(30));
}

#[test]
fn client_send_reports_a_full_and_a_closed_queue() {
    let (tx, mut rx) = queue(1);
    let c = Client::new("n".to_string(), "i".to_string(), tx, 0);
    assert!(c.send("one".to_string()).taken);
    assert!(!c.send("two".to_string()).taken);
    assert_eq!(rx.try_recv().ok(), Some(text("one")));
    assert!(c.send("three".to_string()).taken);
    drop(rx);
    assert!(!c.send("four".to_string()).taken);
}

#[test]
fn registration_names_the_guest_after_its_identity() {
    let mut state = hub();
    let (tx, _rx) = queue(8);
    let actions = register(&mut state, A, "10.0.0.1".to_string(), tx, at(5_000)).unwrap();
    assert_eq!(
        actions,
        vec![
            Action::Unicast {
                to: A,
                payload: Outgoing::AckName { name: "guest-a1a2a3".to_string(), at: at(5_000).unix_ms },
            },
            Action::Broadcast {
                payload: Outgoing::System {
                    text: "guest-a1a2a3 heeft de chat betreden.".to_string(),
                    at: at(5_000).unix_ms,
                },
                except: Some(A),
            },
        ]
    );
    assert!(state.is_registered(A));
    assert_eq!(state.name_of(A), Some("guest-a1a2a3".to_string()));
    assert_eq!(state.user_count(), 1);
    assert_eq!(state.connections_total(), 1);
    assert_eq!(state.peak_users(), 1);
}

#[test]
fn identity_in_use_is_not_registered_again() {
    let mut state = hub();
    let _rx = join(&mut state, A, "10.0.0.1");
    let mut noop = vec![];
    set_name(&mut state, A, "Alice", at(2_000)).unwrap().append(&mut noop);
    let (tx, _rx2) = queue(8);
    assert_eq!(register(&mut state, A, "10.9.9.9".to_string(), tx, at(3_000)), None);
    assert_eq!(state.user_count(), 1);
    assert_eq!(state.connections_total(), 1);
    assert_eq!(state.name_of(A), Some("Alice".to_string()));
    assert_eq!(
        state.list_users(),
        vec![UserInfo {
            id: "a1a2a3a4-b1b2-c1c2-d1d2-d3d4d5d6d7d8".to_string(),
            name: "Alice".to_string(),
            ip: "10.0.0.1".to_string(),
        }]
    );
}

#[test]
fn connect_draws_distinct_identities() {
    let mut state = hub();
    let mut ids = vec![];
    let mut keep = vec![];
    for _ in 0..20 {
        let (tx, rx) = queue(2);
        let (id, actions) = connect(&mut state, "10.0.0.1".to_string(), tx, at(1_000)).unwrap();
        assert_eq!(actions.len(), 2);
        assert!(!ids.contains(&id));
        ids.push(id);
        keep.push(rx);
    }
    assert_eq!(state.user_count(), 20);
    assert_eq!(state.connections_total(), 20);
    assert_eq!(state.peak_users(), 20);
    for id in ids {
        assert!(state.is_registered(id));
    }
}

#[test]
fn peak_is_a_running_maximum() {
    let mut state = hub();
    let _a = join(&mut state, A, "10.0.0.1");
    let _b = join(&mut state, B, "10.0.0.2");
    assert_eq!(state.peak_users(), 2);
    disconnect(&mut state, A, at(2_000));
    disconnect(&mut state, B, at(2_000));
    assert_eq!(state.user_count(), 0);
    assert_eq!(state.peak_users(), 2);
    let _c = join(&mut state, 3, "10.0.0.3");
    assert_eq!(state.peak_users(), 2);
    assert_eq!(state.connections_total(), 3);
}

#[test]
fn departure_is_announced_under_the_current_name() {
    let mut state = hub();
    let _a = join(&mut state, A, "10.0.0.1");
    set_name(&mut state, A, "Alice", at(2_000)).unwrap();
    let actions = disconnect(&mut state, A, at(3_000));
    assert_eq!(
        actions,
        vec![Action::Broadcast {
            payload: Outgoing::System {
                text: "Alice heeft de chat verlaten.".to_string(),
                at: at(3_000).unix_ms,
            },
            except: Some(A),
        }]
    );
    assert!(!state.is_registered(A));
}

#[test]
fn departure_of_an_unknown_identity_uses_the_guest_name() {
    let mut state = hub();
    let _b = join(&mut state, B, "10.0.0.2");
    let actions = disconnect(&mut state, A, at(3_000));
    assert_eq!(
        actions,
        vec![Action::Broadcast {
            payload: Outgoing::System {
                text: "guest-a1a2a3 heeft de chat verlaten.".to_string(),
                at: at(3_000).unix_ms,
            },
            except: Some(A),
        }]
    );
    assert_eq!(state.user_count(), 1);
}

#[test]
fn chat_is_broadcast_to_all_with_the_trimmed_text() {
    let mut state = hub();
    let _a = join(&mut state, A, "10.0.0.1");
    let r = process_message(
        &mut state,
        A,
        Some(Incoming::Chat { text: "  hello there \n".to_string() }),
        at(2_000),
    );
    assert_eq!(
        r,
        Ok(vec![Action::Broadcast {
            payload: Outgoing::Chat {
                from: "guest-a1a2a3".to_string(),
                text: "hello there".to_string(),
                at: at(2_000).unix_ms,
            },
            except: None,
        }])
    );
    assert_eq!(state.messages_sent(), 1);
}

#[test]
fn empty_chat_is_rejected() {
    let mut state = hub();
    let _a = join(&mut state, A, "10.0.0.1");
    for t in ["", "   ", "\n\t"] {
        let r = process_message(&mut state, A, Some(Incoming::Chat { text: t.to_string() }), at(2_000));
        assert_eq!(r, Err(ProtocolError::EmptyMessage));
    }
    assert_eq!(state.messages_sent(), 0);
}

#[test]
fn chat_of_five_hundred_characters_passes_and_one_more_does_not() {
    let mut state = hub();
    let _a = join(&mut state, A, "10.0.0.1");
    let exact = "ü".repeat(500);
    let over = "ü".repeat(501);
    assert!(chat(&mut state, A, &exact, at(2_000)).is_ok());
    assert_eq!(chat(&mut state, A, &over, at(2_000)), Err(ProtocolError::MessageTooLong));
    let padded = format!("  {over}  ");
    assert_eq!(
        process_message(&mut state, A, Some(Incoming::Chat { text: padded }), at(2_000)),
        Err(ProtocolError::MessageTooLong)
    );
    let padded = format!("  {exact}  ");
    assert!(process_message(&mut state, A, Some(Incoming::Chat { text: padded }), at(2_000)).is_ok());
    assert_eq!(state.messages_sent(), 2);
}

#[test]
fn chat_of_an_unknown_sender_is_rejected() {
    let mut state = hub();
    assert_eq!(chat(&mut state, A, "hi", at(2_000)), Err(ProtocolError::UnknownUser));
    assert_eq!(state.messages_sent(), 0);
}

#[test]
fn chat_past_the_limit_is_rejected_and_not_counted() {
    let mut state = hub_with(RateLimitConfig { enabled: true, messages_per_minute: 2 }, false);
    let _a = join(&mut state, A, "10.0.0.1");
    let _b = join(&mut state, B, "10.0.0.2");
    assert!(chat(&mut state, A, "one", at(2_000)).is_ok());
    assert!(chat(&mut state, A, "two", at(3_000)).is_ok());
    assert_eq!(
        chat(&mut state, A, "three", at(4_500)),
        Err(ProtocolError::RateLimited { wait_secs: 58 })
    );
    assert_eq!(state.messages_sent(), 2);
    assert!(chat(&mut state, B, "other client", at(4_500)).is_ok());
    assert!(chat(&mut state, A, "three", at(4_500 + 58_000)).is_ok());
    assert_eq!(state.messages_sent(), 4);
}

#[test]
fn validation_comes_before_the_rate_limit() {
    let mut state = hub_with(RateLimitConfig { enabled: true, messages_per_minute: 1 }, false);
    let _a = join(&mut state, A, "10.0.0.1");
    assert_eq!(chat(&mut state, A, "", at(2_000)), Err(ProtocolError::EmptyMessage));
    assert!(chat(&mut state, A, "first", at(2_000)).is_ok());
}

#[test]
fn rename_acknowledges_and_tells_the_others() {
    let mut state = hub();
    let _a = join(&mut state, A, "10.0.0.1");
    let r = process_message(
        &mut state,
        A,
        Some(Incoming::SetName { name: "  Alice B-2_c ".to_string() }),
        at(2_000),
    );
    assert_eq!(
        r,
        Ok(vec![
            Action::Unicast {
                to: A,
                payload: Outgoing::AckName { name: "Alice B-2_c".to_string(), at: at(2_000).unix_ms },
            },
            Action::Broadcast {
                payload: Outgoing::System {
                    text: "guest-a1a2a3 heet nu Alice B-2_c.".to_string(),
                    at: at(2_000).unix_ms,
                },
                except: Some(A),
            },
        ])
    );
    assert_eq!(state.name_of(A), Some("Alice B-2_c".to_string()));
}

#[test]
fn names_outside_two_to_thirty_two_characters_are_rejected() {
    let mut state = hub();
    let _a = join(&mut state, A, "10.0.0.1");
    for bad in ["", "a", " a ", &"x".repeat(33)] {
        assert_eq!(
            process_message(&mut state, A, Some(Incoming::SetName { name: bad.to_string() }), at(2_000)),
            Err(ProtocolError::NameLength)
        );
        assert_eq!(state.name_of(A), Some("guest-a1a2a3".to_string()));
    }
    assert!(set_name(&mut state, A, "ab", at(2_000)).is_ok());
    assert!(set_name(&mut state, A, &"x".repeat(32), at(2_000)).is_ok());
}

#[test]
fn names_with_other_characters_are_rejected() {
    let mut state = hub();
    let _a = join(&mut state, A, "10.0.0.1");
    for bad in ["Al!ce", "a.b", "<b>x</b>", "Zoë", "a\tb", "日本"] {
        assert_eq!(set_name(&mut state, A, bad, at(2_000)), Err(ProtocolError::NameCharset));
        assert_eq!(state.name_of(A), Some("guest-a1a2a3".to_string()));
    }
}

#[test]
fn rename_of_an_unknown_sender_does_nothing() {
    let mut state = hub();
    assert_eq!(set_name(&mut state, A, "Alice", at(2_000)), Ok(vec![]));
    assert_eq!(state.user_count(), 0);
}

#[test]
fn status_request_asks_for_a_sample_first() {
    let mut state = hub();
    let _a = join(&mut state, A, "10.0.0.1");
    assert_eq!(
        process_message(&mut state, A, Some(Incoming::Status), at(2_000)),
        Ok(vec![Action::SampleMemory { to: A }])
    );
}

#[test]
fn status_reply_reports_the_figures() {
    let mut state = hub_with(RateLimitConfig { enabled: false, messages_per_minute: 60 }, true);
    let _a = join(&mut state, A, "10.0.0.1");
    let _b = join(&mut state, B, "10.0.0.2");
    disconnect(&mut state, B, at(1_500));
    for _ in 0..3 {
        chat(&mut state, A, "x", at(2_000)).unwrap();
    }
    let r = status_reply(&state, A, 3 * 1_048_576 + 524_288, at(9_000));
    assert_eq!(
        r,
        vec![Action::Unicast {
            to: A,
            payload: Outgoing::Status {
                report: StatusReport {
                    version: "0.1.0".to_string(),
                    uptime_seconds: 8,
                    user_count: 1,
                    peak_users: 2,
                    connections_total: 2,
                    messages_sent: 3,
                    messages_per_second_x100: 38,
                    memory_mb_x100: 350,
                    ai_enabled: true,
                    ai_model: Some("openai/gpt-4o".to_string()),
                },
            },
        }]
    );
}

#[test]
fn status_reply_without_gateway_names_no_model() {
    let mut state = hub();
    let _a = join(&mut state, A, "10.0.0.1");
    match &status_reply(&state, A, 0, at(1_000))[0] {
        Action::Unicast { payload: Outgoing::Status { report }, .. } => {
            assert!(!report.ai_enabled);
            assert_eq!(report.ai_model, None);
            assert_eq!(report.messages_per_second_x100, 0);
        }
        other => panic!("unexpected action {other:?}"),
    }
    assert_eq!(status_reply(&state, B, 0, at(1_000)), vec![]);
}

#[test]
fn user_list_holds_every_client_once() {
    let mut state = hub();
    let _a = join(&mut state, A, "10.0.0.1");
    let _b = join(&mut state, B, "10.0.0.2");
    let r = process_message(&mut state, B, Some(Incoming::ListUsers), at(2_000)).unwrap();
    assert_eq!(r.len(), 1);
    match &r[0] {
        Action::Unicast { to, payload: Outgoing::ListUsers { users } } => {
            assert_eq!(*to, B);
            let mut users = users.clone();
            users.sort_by(|x, y| x.ip.as_str().partial_cmp(y.ip.as_str()).unwrap());
            assert_eq!(
                users,
                vec![
                    UserInfo {
                        id: "a1a2a3a4-b1b2-c1c2-d1d2-d3d4d5d6d7d8".to_string(),
                        name: "guest-a1a2a3".to_string(),
                        ip: "10.0.0.1".to_string(),
                    },
                    UserInfo {
                        id: "01234567-89ab-cdef-0123-456789abcdef".to_string(),
                        name: "guest-012345".to_string(),
                        ip: "10.0.0.2".to_string(),
                    },
                ]
            );
        }
        other => panic!("unexpected action {other:?}"),
    }
    assert_eq!(list_users(&state, 3), vec![]);
}

#[test]
fn ping_is_answered_with_its_own_token() {
    let mut state = hub();
    let _a = join(&mut state, A, "10.0.0.1");
    let _b = join(&mut state, B, "10.0.0.2");
    assert_eq!(
        process_message(&mut state, A, Some(Incoming::Ping { token: Some("abc".to_string()) }), at(2_000)),
        Ok(vec![Action::Unicast {
            to: A,
            payload: Outgoing::Pong { token: Some("abc".to_string()), at: at(2_000).unix_ms },
        }])
    );
    assert_eq!(
        ping(&state, B, Some("xyz".to_string()), at(2_001)),
        vec![Action::Unicast {
            to: B,
            payload: Outgoing::Pong { token: Some("xyz".to_string()), at: at(2_001).unix_ms },
        }]
    );
    assert_eq!(
        ping(&state, A, None, at(2_002)),
        vec![Action::Unicast { to: A, payload: Outgoing::Pong { token: None, at: at(2_002).unix_ms } }]
    );
    assert_eq!(ping(&state, 3, Some("abc".to_string()), at(2_000)), vec![]);
}

#[test]
fn malformed_frame_is_a_protocol_error() {
    let mut state = hub();
    let _a = join(&mut state, A, "10.0.0.1");
    assert_eq!(process_message(&mut state, A, None, at(2_000)), Err(ProtocolError::Malformed));
}

#[test]
fn every_protocol_error_has_its_own_sentence() {
    assert_eq!(ProtocolError::Malformed.message(), "Bericht moet geldig JSON zijn.");
    assert_eq!(ProtocolError::EmptyMessage.message(), "Message cannot be empty.");
    assert_eq!(
        ProtocolError::MessageTooLong.message(),
        "Message is too long (max 500 characters)."
    );
    assert_eq!(ProtocolError::UnknownUser.message(), "Unknown user");
    assert_eq!(
        ProtocolError::RateLimited { wait_secs: 17 }.message(),
        "Rate limit exceeded. Please wait 17 seconds."
    );
    assert_eq!(ProtocolError::NameLength.message(), "Naam moet tussen 2 en 32 tekens zijn.");
    assert_eq!(
        ProtocolError::NameCharset.message(),
        "Naam mag alleen letters, cijfers, spaties, - en _ bevatten."
    );
}

#[test]
fn question_with_disabled_gateway_is_refused_without_a_request() {
    let mut state = hub();
    let _a = join(&mut state, A, "10.0.0.1");
    for t in 0..4 {
        assert_eq!(
            process_message(&mut state, A, Some(Incoming::Ai { prompt: "why?".to_string() }), at(2_000 + t)),
            Ok(vec![error_to(A, "AI is niet geactiveerd op deze server.")])
        );
    }
    assert_eq!(ask(&mut state, B, "why?", "why?", at(2_000)), vec![]);
}

#[test]
fn question_becomes_a_request_with_the_askers_name() {
    let mut state = hub_with(RateLimitConfig { enabled: false, messages_per_minute: 60 }, true);
    let _a = join(&mut state, A, "10.0.0.1");
    set_name(&mut state, A, "Alice", at(1_500)).unwrap();
    let r = process_message(&mut state, A, Some(Incoming::Ai { prompt: " why? ".to_string() }), at(2_000))
        .unwrap();
    assert_eq!(r.len(), 1);
    match &r[0] {
        Action::QueryAi { query } => {
            assert_eq!(query.asker, A);
            assert_eq!(query.from, "Alice");
            assert_eq!(query.prompt, " why? ");
            assert_eq!(query.request.prompt, "why?");
            assert_eq!(query.request.authorization, "Bearer SECRET-REDACTED");
            assert_eq!(query.request.model, "openai/gpt-4o");
        }
        other => panic!("unexpected action {other:?}"),
    }
}

#[test]
fn questions_are_counted_per_origin_address() {
    let mut state = hub_with(RateLimitConfig { enabled: false, messages_per_minute: 60 }, true);
    let _a = join(&mut state, A, "10.0.0.1");
    assert_eq!(ask(&mut state, A, "q", "q", at(2_000)).len(), 1);
    assert_eq!(ask(&mut state, A, "q", "q", at(3_000)).len(), 1);
    disconnect(&mut state, A, at(3_500));
    let _b = join(&mut state, B, "10.0.0.1");
    assert_eq!(
        ask(&mut state, B, "q", "q", at(4_000)),
        vec![error_to(B, "Rate limit bereikt (max 2/min). Probeer over 58 seconden.")]
    );
    let _c = join(&mut state, 3, "10.0.0.3");
    assert!(matches!(ask(&mut state, 3, "q", "q", at(4_000))[0], Action::QueryAi { .. }));
}

#[test]
fn question_of_an_unknown_asker_goes_under_unknown() {
    let mut state = hub_with(RateLimitConfig { enabled: false, messages_per_minute: 60 }, true);
    let r = ask(&mut state, A, "q", "q", at(2_000));
    match &r[0] {
        Action::QueryAi { query } => assert_eq!(query.from, "unknown"),
        other => panic!("unexpected action {other:?}"),
    }
    assert_eq!(ask(&mut state, A, "", "", at(2_000)), vec![]);
}

#[test]
fn bad_prompt_is_told_to_the_asker() {
    let mut state = hub_with(RateLimitConfig { enabled: false, messages_per_minute: 60 }, true);
    let _a = join(&mut state, A, "10.0.0.1");
    assert_eq!(
        process_message(&mut state, A, Some(Incoming::Ai { prompt: "   ".to_string() }), at(2_000)),
        Ok(vec![error_to(A, "Geef een vraag op. Gebruik: /ai <vraag>")])
    );
    let _b = join(&mut state, B, "10.0.0.2");
    assert_eq!(
        process_message(&mut state, B, Some(Incoming::Ai { prompt: "x".repeat(1001) }), at(2_000)),
        Ok(vec![error_to(B, "Vraag is te lang (max 1000 tekens).")])
    );
}

fn pending(asker: u128) -> PendingQuery {
    let mut state = hub_with(RateLimitConfig { enabled: false, messages_per_minute: 60 }, true);
    match ask(&mut state, asker, " why? ", "why?", at(0)).remove(0) {
        Action::QueryAi { mut query } => {
            query.from = "Alice".to_string();
            query
        }
        other => panic!("unexpected action {other:?}"),
    }
}

#[test]
fn answer_is_broadcast_to_all() {
    let mut state = hub_with(RateLimitConfig { enabled: false, messages_per_minute: 60 }, true);
    let _a = join(&mut state, A, "10.0.0.1");
    let outcome = HttpOutcome::Answered {
        status: 200,
        status_line: "200 OK".to_string(),
        body: Some(Completion {
            choices: vec!["because".to_string()],
            usage: Some(Usage { total_tokens: Some(12), cost: Some(0.5f64.to_bits()) }),
        }),
    };
    assert_eq!(
        ai_completed(&state, pending(A), outcome, 840, at(5_000)),
        vec![Action::Broadcast {
            payload: Outgoing::Ai {
                from: "Alice".to_string(),
                prompt: " why? ".to_string(),
                response: "because".to_string(),
                response_ms: 840,
                tokens: Some(12),
                cost: Some(0.5f64.to_bits()),
                at: at(5_000).unix_ms,
            },
            except: None,
        }]
    );
}

#[test]
fn failure_is_told_to_the_asker_alone() {
    let mut state = hub_with(RateLimitConfig { enabled: false, messages_per_minute: 60 }, true);
    let _a = join(&mut state, A, "10.0.0.1");
    assert_eq!(
        ai_completed(&state, pending(A), HttpOutcome::TimedOut, 30_000, at(5_000)),
        vec![error_to(A, &AiError::TimedOut { secs: 30 }.message())]
    );
    assert_eq!(
        ai_completed(&state, pending(A), HttpOutcome::Failed, 3, at(5_000)),
        vec![error_to(A, "AI service tijdelijk niet beschikbaar.")]
    );
    let bad = HttpOutcome::Answered { status: 429, status_line: "429 Too Many Requests".to_string(), body: None };
    assert_eq!(
        ai_completed(&state, pending(A), bad, 3, at(5_000)),
        vec![error_to(A, "AI service error: 429 Too Many Requests")]
    );
    let garbled = HttpOutcome::Answered { status: 200, status_line: "200 OK".to_string(), body: None };
    assert_eq!(
        ai_completed(&state, pending(A), garbled, 3, at(5_000)),
        vec![error_to(A, "Kon AI antwoord niet verwerken.")]
    );
    assert_eq!(ai_completed(&state, pending(B), HttpOutcome::Failed, 3, at(5_000)), vec![]);
}

#[test]
fn receive_tells_a_rejection_to_the_sender_and_goes_on() {
    let mut state = hub();
    let _a = join(&mut state, A, "10.0.0.1");
    assert_eq!(
        receive(&mut state, A, InboundFrame::Text(None), at(2_000)),
        Step::Continue(vec![error_to(A, "Bericht moet geldig JSON zijn.")])
    );
    let long = Incoming::Chat { text: "x".repeat(501) };
    assert_eq!(
        receive(&mut state, A, InboundFrame::Text(Some(long)), at(2_000)),
        Step::Continue(vec![error_to(A, "Message is too long (max 500 characters).")])
    );
    let bad = Incoming::SetName { name: "!".to_string() };
    assert_eq!(
        receive(&mut state, A, InboundFrame::Text(Some(bad)), at(2_000)),
        Step::Continue(vec![error_to(A, "Naam moet tussen 2 en 32 tekens zijn.")])
    );
    assert_eq!(receive(&mut state, B, InboundFrame::Text(None), at(2_000)), Step::Continue(vec![]));
    assert_eq!(state.messages_sent(), 0);
    assert_eq!(state.name_of(A), Some("guest-a1a2a3".to_string()));
}

#[test]
fn receive_dispatches_requests() {
    let mut state = hub();
    let _a = join(&mut state, A, "10.0.0.1");
    let step = receive(
        &mut state,
        A,
        InboundFrame::Text(Some(Incoming::Chat { text: "hi".to_string() })),
        at(2_000),
    );
    assert_eq!(
        step,
        Step::Continue(vec![Action::Broadcast {
            payload: Outgoing::Chat {
                from: "guest-a1a2a3".to_string(),
                text: "hi".to_string(),
                at: at(2_000).unix_ms,
            },
            except: None,
        }])
    );
}

#[test]
fn receive_answers_pings_and_stops_on_close_and_failure() {
    let mut state = hub();
    let _a = join(&mut state, A, "10.0.0.1");
    assert_eq!(
        receive(&mut state, A, InboundFrame::Ping(vec![1, 2, 3]), at(2_000)),
        Step::Continue(vec![Action::Pong { to: A, data: vec![1, 2, 3] }])
    );
    assert_eq!(receive(&mut state, A, InboundFrame::Other, at(2_000)), Step::Continue(vec![]));
    assert_eq!(receive(&mut state, A, InboundFrame::Close, at(2_000)), Step::Stop);
    assert_eq!(receive(&mut state, A, InboundFrame::Failed, at(2_000)), Step::Stop);
    assert!(state.is_registered(A));
}

#[test]
fn broadcast_reaches_everyone_but_the_excluded() {
    let mut state = hub();
    let mut a = join(&mut state, A, "10.0.0.1");
    let mut b = join(&mut state, B, "10.0.0.2");
    let mut c = join(&mut state, 3, "10.0.0.3");
    let report = outcome(broadcast(&state, "news", Some(B)));
    assert_eq!(report, vec![(3, true), (A, true)]);
    assert_eq!(a.try_recv().ok(), Some(text("news")));
    assert!(b.try_recv().is_err());
    assert_eq!(c.try_recv().ok(), Some(text("news")));
    let report = fan_out(&state, "all", None);
    assert_eq!(report.len(), 3);
    assert_eq!(b.try_recv().ok(), Some(text("all")));
    assert_eq!(broadcast(&state, "x", Some(99)).len(), 3);
}

#[test]
fn full_or_closed_queue_does_not_stop_the_fan_out() {
    let mut state = hub();
    let (tx_full, mut rx_full) = queue(1);
    let (tx_closed, rx_closed) = queue(4);
    register(&mut state, 1, "10.0.0.1".to_string(), tx_full, at(1_000)).unwrap();
    register(&mut state, 2, "10.0.0.2".to_string(), tx_closed, at(1_000)).unwrap();
    drop(rx_closed);
    let mut others = vec![];
    for id in 3..20u128 {
        others.push((id, join(&mut state, id, "10.0.0.9")));
    }
    assert_eq!(taken(send_to(&state, 1, "fills the queue".to_string())), Some(true));
    let report = outcome(broadcast(&state, "to all", None));
    assert_eq!(report.len(), 19);
    assert_eq!(report[0], (1, false));
    assert_eq!(report[1], (2, false));
    assert!(report[2..].iter().all(|d| d.1));
    for (_, rx) in others.iter_mut() {
        assert_eq!(rx.try_recv().ok(), Some(text("to all")));
    }
    assert_eq!(rx_full.try_recv().ok(), Some(text("fills the queue")));
    assert!(rx_full.try_recv().is_err());
}

#[test]
fn unicast_goes_to_one_queue() {
    let mut state = hub();
    let mut a = join(&mut state, A, "10.0.0.1");
    let mut b = join(&mut state, B, "10.0.0.2");
    assert_eq!(taken(send_to(&state, A, "for a".to_string())), Some(true));
    assert_eq!(taken(send_to(&state, 99, "for nobody".to_string())), None);
    assert_eq!(a.try_recv().ok(), Some(text("for a")));
    assert!(b.try_recv().is_err());
    assert_eq!(taken(pong_to(&state, B, vec![9])), Some(true));
    assert_eq!(taken(pong_to(&state, 99, vec![9])), None);
    assert_eq!(b.try_recv().ok(), Some(OutboundFrame::Pong(vec![9])));
}

#[test]
fn first_field_ends_at_the_first_comma() {
    assert_eq!(take_first_field("1.2.3.4, 5.6.7.8"), "1.2.3.4");
    assert_eq!(take_first_field("1.2.3.4"), "1.2.3.4");
    assert_eq!(take_first_field(",x"), "");
    assert_eq!(take_first_field(""), "");
    assert_eq!(take_first_field("é,è"), "é");
}

#[test]
fn untrusted_peer_keeps_its_own_address() {
    let r = client_origin(
        "203.0.113.7".to_string(),
        false,
        false,
        Some("1.2.3.4".to_string()),
        Some("5.6.7.8".to_string()),
    );
    assert_eq!(r, "203.0.113.7");
}

#[test]
fn loopback_or_opted_in_peer_is_believed() {
    let r = client_origin(
        "127.0.0.1".to_string(),
        true,
        false,
        Some(" 1.2.3.4 , 9.9.9.9".to_string()),
        Some("5.6.7.8".to_string()),
    );
    assert_eq!(r, "1.2.3.4");
    let r = client_origin("203.0.113.7".to_string(), false, true, None, Some(" 5.6.7.8 ".to_string()));
    assert_eq!(r, "5.6.7.8");
    let r = client_origin("203.0.113.7".to_string(), false, true, None, None);
    assert_eq!(r, "203.0.113.7");
    assert_eq!(
        pick_origin("p".to_string(), true, Some(" f ".to_string()), Some("r".to_string())),
        " f "
    );
    assert_eq!(pick_origin("p".to_string(), false, Some("f".to_string()), None), "p");
}

#[test]
fn envelope_kinds() {
    let o = |o: Outgoing| o.kind();
    assert_eq!(o(Outgoing::Chat { from: String::new(), text: String::new(), at: 0 }), "chat");
    assert_eq!(o(Outgoing::System { text: String::new(), at: 0 }), "system");
    assert_eq!(o(Outgoing::AckName { name: String::new(), at: 0 }), "ackName");
    assert_eq!(o(Outgoing::ListUsers { users: vec![] }), "listUsers");
    assert_eq!(o(Outgoing::Error { message: String::new() }), "error");
    assert_eq!(o(Outgoing::Pong { token: None, at: 0 }), "pong");
    assert_eq!(
        o(Outgoing::Ai {
            from: String::new(),
            prompt: String::new(),
            response: String::new(),
            response_ms: 0,
            tokens: None,
            cost: None,
            at: 0,
        }),
        "ai"
    );
    let report = StatusReport {
        version: String::new(),
        uptime_seconds: 0,
        user_count: 0,
        peak_users: 0,
        connections_total: 0,
        messages_sent: 0,
        messages_per_second_x100: 0,
        memory_mb_x100: 0,
        ai_enabled: false,
        ai_model: None,
    };
    assert_eq!(o(Outgoing::Status { report }), "status");
}

#[test]
fn client_clone_shares_the_queue() {
    let (tx, mut rx) = queue(2);
    let mut c = Client::new("n".to_string(), "i".to_string(), tx, 5);
    let on = RateLimitConfig { enabled: true, messages_per_minute: 3 };
    assert_eq!(c.check_rate_limit(&on, 10), Ok(()));
    let d = c.clone();
    assert_eq!((d.name.as_str(), d.ip.as_str(), d.connected_at), ("n", "i", 5));
    assert_eq!(d.message_timestamps, c.message_timestamps);
    assert!(d.send("via the copy".to_string()).taken);
    assert_eq!(rx.try_recv().ok(), Some(text("via the copy")));
}

#[test]
fn chat_under_a_limit_of_zero_is_always_rejected() {
    let mut state = hub_with(RateLimitConfig { enabled: true, messages_per_minute: 0 }, false);
    let _a = join(&mut state, A, "10.0.0.1");
    assert_eq!(
        process_message(&mut state, A, Some(Incoming::Chat { text: "hi".to_string() }), at(2_000)),
        Err(ProtocolError::RateLimited { wait_secs: 60 })
    );
    assert_eq!(
        chat(&mut state, A, "hi", at(70_000)),
        Err(ProtocolError::RateLimited { wait_secs: 60 })
    );
    assert_eq!(state.messages_sent(), 0);
    let (tx, _rx) = queue(1);
    let mut c = Client::new("n".to_string(), "i".to_string(), tx, 0);
    let zero = RateLimitConfig { enabled: true, messages_per_minute: 0 };
    assert_eq!(c.check_rate_limit(&zero, 0), Err(60));
    assert!(c.message_timestamps.is_empty());
}

#[test]
fn client_pong_offers_a_pong_frame() {
    let (tx, mut rx) = queue(1);
    let c = Client::new("n".to_string(), "i".to_string(), tx, 0);
    assert!(c.pong(vec![1, 2]).taken);
    assert!(!c.pong(vec![3]).taken);
    assert_eq!(rx.try_recv().ok(), Some(OutboundFrame::Pong(vec![1, 2])));
}
