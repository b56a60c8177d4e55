//! The wire vocabulary: what a client may ask and what the hub may answer.
//!
//! Every envelope is a value of a closed enum. Contracts speak of envelopes
//! through their views, in which text is a sequence of characters.

use vstd::prelude::*;

verus! {

/// A request from a client.
#[derive(Debug, Clone, PartialEq, Eq)]
pub enum Incoming {
    Chat { text: String },
    SetName { name: String },
    Status,
    ListUsers,
    Ping { token: Option<String> },
    Ai { prompt: String },
}

/// The view of an [`Incoming`].
pub enum IncomingView {
    Chat { text: Seq<char> },
    SetName { name: Seq<char> },
    Status,
    ListUsers,
    Ping { token: Option<Seq<char>> },
    Ai { prompt: Seq<char> },
}

/// The view of an optional text.
pub open spec fn text_view(t: Option<String>) -> Option<Seq<char>> {
    match t {
        Some(s) => Some(s@),
        None => None,
    }
}

impl View for Incoming {
    type V = IncomingView;

    open spec fn view(&self) -> IncomingView {
        match *self {
            Incoming::Chat { text } => IncomingView::Chat { text: text@ },
            Incoming::SetName { name } => IncomingView::SetName { name: name@ },
            Incoming::Status => IncomingView::Status,
            Incoming::ListUsers => IncomingView::ListUsers,
            Incoming::Ping { token } => IncomingView::Ping { token: text_view(token) },
            Incoming::Ai { prompt } => IncomingView::Ai { prompt: prompt@ },
        }
    }
}

/// One line of the user list.
#[derive(Debug, Clone, PartialEq, Eq)]
pub struct UserInfo {
    pub id: String,
    pub name: String,
    pub ip: String,
}

/// The view of a [`UserInfo`].
pub struct UserInfoView {
    pub id: Seq<char>,
    pub name: Seq<char>,
    pub ip: Seq<char>,
}

impl View for UserInfo {
    type V = UserInfoView;

    open spec fn view(&self) -> UserInfoView {
        UserInfoView { id: self.id@, name: self.name@, ip: self.ip@ }
    }
}

/// The views of a list of users, in the list's order.
pub open spec fn users_view(users: Seq<UserInfo>) -> Seq<UserInfoView> {
    Seq::new(users.len(), |i: int| users[i]@)
}

/// The figures of a status report. Rates and sizes that the wire shows with
/// two decimals are held in hundredths.
#[derive(Debug, Clone, PartialEq, Eq)]
pub struct StatusReport {
    pub version: String,
    pub uptime_seconds: u64,
    pub user_count: usize,
    pub peak_users: u64,
    pub connections_total: u64,
    pub messages_sent: u64,
    /// Messages per second of uptime, in hundredths.
    pub messages_per_second_x100: u64,
    /// Resident memory in mebibytes, in hundredths.
    pub memory_mb_x100: u64,
    pub ai_enabled: bool,
    pub ai_model: Option<String>,
}

/// The view of a [`StatusReport`].
pub struct StatusReportView {
    pub version: Seq<char>,
    pub uptime_seconds: u64,
    pub user_count: usize,
    pub peak_users: u64,
    pub connections_total: u64,
    pub messages_sent: u64,
    pub messages_per_second_x100: u64,
    pub memory_mb_x100: u64,
    pub ai_enabled: bool,
    pub ai_model: Option<Seq<char>>,
}

impl View for StatusReport {
    type V = StatusReportView;

    open spec fn view(&self) -> StatusReportView {
        StatusReportView {
            version: self.version@,
            uptime_seconds: self.uptime_seconds,
            user_count: self.user_count,
            peak_users: self.peak_users,
            connections_total: self.connections_total,
            messages_sent: self.messages_sent,
            messages_per_second_x100: self.messages_per_second_x100,
            memory_mb_x100: self.memory_mb_x100,
            ai_enabled: self.ai_enabled,
            ai_model: text_view(self.ai_model),
        }
    }
}

/// An answer or notice from the hub. `at` is the time of sending in
/// milliseconds since the Unix epoch; `cost` holds the IEEE 754 bit pattern
/// of the amount that the completion service reported.
#[derive(Debug, Clone, PartialEq, Eq)]
pub enum Outgoing {
    Chat { from: String, text: String, at: u128 },
    System { text: String, at: u128 },
    AckName { name: String, at: u128 },
    Status { report: StatusReport },
    ListUsers { users: Vec<UserInfo> },
    Error { message: String },
    Pong { token: Option<String>, at: u128 },
    Ai {
        from: String,
        prompt: String,
        response: String,
        response_ms: u64,
        tokens: Option<u32>,
        cost: Option<u64>,
        at: u128,
    },
}

/// The view of an [`Outgoing`].
pub enum OutgoingView {
    Chat { from: Seq<char>, text: Seq<char>, at: u128 },
    System { text: Seq<char>, at: u128 },
    AckName { name: Seq<char>, at: u128 },
    Status { report: StatusReportView },
    ListUsers { users: Seq<UserInfoView> },
    Error { message: Seq<char> },
    Pong { token: Option<Seq<char>>, at: u128 },
    Ai {
        from: Seq<char>,
        prompt: Seq<char>,
        response: Seq<char>,
        response_ms: u64,
        tokens: Option<u32>,
        cost: Option<u64>,
        at: u128,
    },
}

impl View for Outgoing {
    type V = OutgoingView;

    open spec fn view(&self) -> OutgoingView {
        match *self {
            Outgoing::Chat { from, text, at } => OutgoingView::Chat { from: from@, text: text@, at },
            Outgoing::System { text, at } => OutgoingView::System { text: text@, at },
            Outgoing::AckName { name, at } => OutgoingView::AckName { name: name@, at },
            Outgoing::Status { report } => OutgoingView::Status { report: report@ },
            Outgoing::ListUsers { users } => OutgoingView::ListUsers { users: users_view(users@) },
            Outgoing::Error { message } => OutgoingView::Error { message: message@ },
            Outgoing::Pong { token, at } => OutgoingView::Pong { token: text_view(token), at },
            Outgoing::Ai { from, prompt, response, response_ms, tokens, cost, at } => {
                OutgoingView::Ai {
                    from: from@,
                    prompt: prompt@,
                    response: response@,
                    response_ms,
                    tokens,
                    cost,
                    at,
                }
            },
        }
    }
}

impl OutgoingView {
    /// The tag under which the envelope travels.
    pub open spec fn kind(self) -> Seq<char> {
        match self {
            OutgoingView::Chat { .. } => "chat"@,
            OutgoingView::System { .. } => "system"@,
            OutgoingView::AckName { .. } => "ackName"@,
            OutgoingView::Status { .. } => "status"@,
            OutgoingView::ListUsers { .. } => "listUsers"@,
            OutgoingView::Error { .. } => "error"@,
            OutgoingView::Pong { .. } => "pong"@,
            OutgoingView::Ai { .. } => "ai"@,
        }
    }
}

impl Outgoing {
    /// The tag under which the envelope travels.
    pub fn kind(&self) -> (r: &'static str)
        ensures
            r@ == self@.kind(),
    {
        match self {
            Outgoing::Chat { .. } => "chat",
            Outgoing::System { .. } => "system",
            Outgoing::AckName { .. } => "ackName",
            Outgoing::Status { .. } => "status",
            Outgoing::ListUsers { .. } => "listUsers",
            Outgoing::Error { .. } => "error",
            Outgoing::Pong { .. } => "pong",
            Outgoing::Ai { .. } => "ai",
        }
    }
}

/// What travels through a client's outbound queue towards its socket.
#[derive(Debug, Clone, PartialEq, Eq)]
pub enum OutboundFrame {
    /// A serialized envelope.
    Text(String),
    /// The answer to a transport-level ping, with the ping's payload.
    Pong(Vec<u8>),
}

/// The view of an [`OutboundFrame`].
pub enum OutboundFrameView {
    Text(Seq<char>),
    Pong(Seq<u8>),
}

impl View for OutboundFrame {
    type V = OutboundFrameView;

    open spec fn view(&self) -> OutboundFrameView {
        match *self {
            OutboundFrame::Text(text) => OutboundFrameView::Text(text@),
            OutboundFrame::Pong(data) => OutboundFrameView::Pong(data@),
        }
    }
}

} // verus!
