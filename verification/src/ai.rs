//! The completion gateway: who may ask, what is sent, and what an answer
//! or a failure of the remote service means.
//!
//! The gateway decides; the caller carries the request over the network
//! and brings back what happened.

use vstd::prelude::*;
use vstd::string::*;
use dashmap::DashMap;
use crate::config::{AiConfig, AiConfigView};
use crate::limiter::{after_request, count_request, request_verdict, RateLimitEntry};
use crate::text::{decimal, to_decimal, trim, trimmed};

verus! {

/// The longest prompt that is forwarded, in characters.
pub const MAX_PROMPT_CHARS: usize = 1000;

/// Why a question got no answer.
#[derive(Debug, Clone, PartialEq, Eq)]
pub enum AiError {
    /// The feature is switched off or no credential is configured.
    Disabled,
    /// The user has used up the window's requests.
    RateLimited { limit: u32, retry_secs: u64 },
    /// The prompt is empty once trimmed.
    EmptyPrompt,
    /// The prompt is longer than [`MAX_PROMPT_CHARS`] once trimmed.
    PromptTooLong,
    /// The service did not answer within the configured time.
    TimedOut { secs: u64 },
    /// The service could not be reached.
    Unavailable,
    /// The service answered with a status other than success.
    BadStatus { status: String },
    /// The service's answer did not have the expected shape.
    Unparsable,
}

/// The view of an [`AiError`].
pub enum AiErrorView {
    Disabled,
    RateLimited { limit: u32, retry_secs: u64 },
    EmptyPrompt,
    PromptTooLong,
    TimedOut { secs: u64 },
    Unavailable,
    BadStatus { status: Seq<char> },
    Unparsable,
}

impl View for AiError {
    type V = AiErrorView;

    open spec fn view(&self) -> AiErrorView {
        match *self {
            AiError::Disabled => AiErrorView::Disabled,
            AiError::RateLimited { limit, retry_secs } => AiErrorView::RateLimited {
                limit,
                retry_secs,
            },
            AiError::EmptyPrompt => AiErrorView::EmptyPrompt,
            AiError::PromptTooLong => AiErrorView::PromptTooLong,
            AiError::TimedOut { secs } => AiErrorView::TimedOut { secs },
            AiError::Unavailable => AiErrorView::Unavailable,
            AiError::BadStatus { status } => AiErrorView::BadStatus { status: status@ },
            AiError::Unparsable => AiErrorView::Unparsable,
        }
    }
}

impl AiErrorView {
    /// The sentence shown to the user.
    pub open spec fn message(self) -> Seq<char> {
        match self {
            AiErrorView::Disabled => "AI is niet geactiveerd op deze server."@,
            AiErrorView::RateLimited { limit, retry_secs } => "Rate limit bereikt (max "@ + decimal(
                limit as nat,
            ) + "/min). Probeer over "@ + decimal(retry_secs as nat) + " seconden."@,
            AiErrorView::EmptyPrompt => "Geef een vraag op. Gebruik: /ai <vraag>"@,
            AiErrorView::PromptTooLong => "Vraag is te lang (max 1000 tekens)."@,
            AiErrorView::TimedOut { secs } => "AI request timed out after "@ + decimal(secs as nat)
                + " seconds."@,
            AiErrorView::Unavailable => "AI service tijdelijk niet beschikbaar."@,
            AiErrorView::BadStatus { status } => "AI service error: "@ + status,
            AiErrorView::Unparsable => "Kon AI antwoord niet verwerken."@,
        }
    }
}

impl AiError {
    /// The sentence shown to the user.
    pub fn message(&self) -> (r: String)
        ensures
            r@ == self@.message(),
    {
        match self {
            AiError::Disabled => String::from_str("AI is niet geactiveerd op deze server."),
            AiError::RateLimited { limit, retry_secs } => {
                let limit = to_decimal(*limit as u64);
                let secs = to_decimal(*retry_secs);
                String::from_str("Rate limit bereikt (max ").concat(limit.as_str()).concat(
                    "/min). Probeer over ",
                ).concat(secs.as_str()).concat(" seconden.")
            },
            AiError::EmptyPrompt => String::from_str("Geef een vraag op. Gebruik: /ai <vraag>"),
            AiError::PromptTooLong => String::from_str("Vraag is te lang (max 1000 tekens)."),
            AiError::TimedOut { secs } => {
                let secs = to_decimal(*secs);
                String::from_str("AI request timed out after ").concat(secs.as_str()).concat(
                    " seconds.",
                )
            },
            AiError::Unavailable => String::from_str("AI service tijdelijk niet beschikbaar."),
            AiError::BadStatus { status } => String::from_str("AI service error: ").concat(
                status.as_str(),
            ),
            AiError::Unparsable => String::from_str("Kon AI antwoord niet verwerken."),
        }
    }
}

/// Where completions are asked for.
pub open spec fn endpoint() -> Seq<char> {
    "https://openrouter.ai/api/v1/chat/completions"@
}

/// A single-turn completion request, ready to be sent.
#[derive(Debug, Clone, PartialEq, Eq)]
pub struct AiRequest {
    /// The address to post to.
    pub url: String,
    /// The value of the `Authorization` header.
    pub authorization: String,
    pub model: String,
    /// The role of the one message.
    pub role: String,
    /// The content of the one message: the trimmed prompt.
    pub prompt: String,
    pub max_tokens: u32,
    pub timeout_secs: u64,
}

/// The view of an [`AiRequest`].
pub struct AiRequestView {
    pub url: Seq<char>,
    pub authorization: Seq<char>,
    pub model: Seq<char>,
    pub role: Seq<char>,
    pub prompt: Seq<char>,
    pub max_tokens: u32,
    pub timeout_secs: u64,
}

impl View for AiRequest {
    type V = AiRequestView;

    open spec fn view(&self) -> AiRequestView {
        AiRequestView {
            url: self.url@,
            authorization: self.authorization@,
            model: self.model@,
            role: self.role@,
            prompt: self.prompt@,
            max_tokens: self.max_tokens,
            timeout_secs: self.timeout_secs,
        }
    }
}

/// The request that carries `prompt` under `config`.
pub open spec fn request_for(config: AiConfigView, prompt: Seq<char>) -> AiRequestView {
    AiRequestView {
        url: endpoint(),
        authorization: "Bearer "@ + config.api_key,
        model: config.model,
        role: "user"@,
        prompt,
        max_tokens: config.max_tokens,
        timeout_secs: config.timeout_secs,
    }
}

/// What is wrong with a trimmed prompt, if anything.
pub open spec fn prompt_fault(prompt: Seq<char>) -> Option<AiErrorView> {
    if prompt.len() == 0 {
        Some(AiErrorView::EmptyPrompt)
    } else if prompt.len() > MAX_PROMPT_CHARS {
        Some(AiErrorView::PromptTooLong)
    } else {
        None
    }
}

/// Checks a trimmed prompt: it must not be empty and not be longer than
/// [`MAX_PROMPT_CHARS`] characters.
pub fn check_prompt(prompt: &str) -> (r: Result<(), AiError>)
    ensures
        match r {
            Ok(_) => prompt_fault(prompt@) is None,
            Err(e) => prompt_fault(prompt@) == Some(e@),
        },
{
    let n = prompt.unicode_len();
    if n == 0 {
        Err(AiError::EmptyPrompt)
    } else if n > MAX_PROMPT_CHARS {
        Err(AiError::PromptTooLong)
    } else {
        Ok(())
    }
}

/// The figures that the service reports with an answer. `cost` holds the
/// IEEE 754 bit pattern of the amount.
#[derive(Debug, Clone, Copy, PartialEq, Eq)]
pub struct Usage {
    pub total_tokens: Option<u32>,
    pub cost: Option<u64>,
}

/// A parsed answer of the service: the texts of its choices, in order, and
/// the usage figures if it gave any.
#[derive(Debug, Clone, PartialEq, Eq)]
pub struct Completion {
    pub choices: Vec<String>,
    pub usage: Option<Usage>,
}

/// What became of a request that was sent.
#[derive(Debug, Clone, PartialEq, Eq)]
pub enum HttpOutcome {
    /// No answer within the configured time.
    TimedOut,
    /// The request failed for another reason before any answer came.
    Failed,
    /// An answer came: its status code, the status as the user is to see
    /// it, and the parsed body, or `None` where the body did not parse.
    Answered { status: u16, status_line: String, body: Option<Completion> },
}

/// The result of a successful query.
#[derive(Debug, Clone, PartialEq, Eq)]
pub struct AiResponse {
    pub content: String,
    /// Milliseconds between sending the request and the answer's arrival.
    pub response_ms: u64,
    pub tokens: Option<u32>,
    pub cost: Option<u64>,
}

/// The view of an [`AiResponse`].
pub struct AiResponseView {
    pub content: Seq<char>,
    pub response_ms: u64,
    pub tokens: Option<u32>,
    pub cost: Option<u64>,
}

impl View for AiResponse {
    type V = AiResponseView;

    open spec fn view(&self) -> AiResponseView {
        AiResponseView {
            content: self.content@,
            response_ms: self.response_ms,
            tokens: self.tokens,
            cost: self.cost,
        }
    }
}

/// Whether a status code reports success.
pub open spec fn is_success(status: u16) -> bool {
    200 <= status && status < 300
}

/// The text shown where an answer holds no choice.
pub open spec fn no_answer() -> Seq<char> {
    "Geen antwoord ontvangen."@
}

/// What an answer's body yields: the first choice's text, or a fixed
/// sentence where there is none, and the usage figures.
pub open spec fn response_of(body: Completion, response_ms: u64) -> AiResponseView {
    AiResponseView {
        content: if body.choices@.len() > 0 {
            body.choices@[0]@
        } else {
            no_answer()
        },
        response_ms,
        tokens: match body.usage {
            Some(u) => u.total_tokens,
            None => None,
        },
        cost: match body.usage {
            Some(u) => u.cost,
            None => None,
        },
    }
}

/// The failure that an outcome stands for, if it is one.
pub open spec fn outcome_fault(timeout_secs: u64, outcome: HttpOutcome) -> Option<AiErrorView> {
    match outcome {
        HttpOutcome::TimedOut => Some(AiErrorView::TimedOut { secs: timeout_secs }),
        HttpOutcome::Failed => Some(AiErrorView::Unavailable),
        HttpOutcome::Answered { status, status_line, body } => if !is_success(status) {
            Some(AiErrorView::BadStatus { status: status_line@ })
        } else if body is None {
            Some(AiErrorView::Unparsable)
        } else {
            None
        },
    }
}

/// What the gateway holds per user: the record of each user key.
pub uninterp spec fn windows(m: DashMap<String, RateLimitEntry>) -> Map<Seq<char>, RateLimitEntry>;

/// Calls `DashMap::new`.
///
/// Trusted: the new map holds nothing.
#[verifier::external_body]
fn windows_new() -> (m: DashMap<String, RateLimitEntry>)
    ensures
        windows(m) =~= Map::empty(),
{
    DashMap::new()
}

/// Calls `DashMap::get` and copies the record.
///
/// Trusted: the record comes back exactly when the key is held.
#[verifier::external_body]
fn windows_get(m: &DashMap<String, RateLimitEntry>, user: &str) -> (r: Option<RateLimitEntry>)
    ensures
        r is Some <==> windows(*m).contains_key(user@),
        r is Some ==> r->0 == windows(*m)[user@],
{
    m.get(user).map(|entry| *entry.value())
}

/// Calls `DashMap::insert` and drops the record that was replaced, if any.
///
/// Trusted: afterwards the key is bound to the new record and every other
/// key is as before.
#[verifier::external_body]
fn windows_insert(m: &mut DashMap<String, RateLimitEntry>, user: String, entry: RateLimitEntry)
    ensures
        windows(*final(m)) == windows(*old(m)).insert(user@, entry),
{
    m.insert(user, entry);
}

/// The gateway: its settings and one limiter record per user.
pub struct AiClient {
    config: AiConfig,
    rate_limits: DashMap<String, RateLimitEntry>,
}

/// The view of an [`AiClient`].
pub struct AiClientView {
    pub config: AiConfigView,
    pub windows: Map<Seq<char>, RateLimitEntry>,
}

impl AiClientView {
    /// Whether the gateway may be asked: the feature is switched on and a
    /// credential is configured.
    pub open spec fn is_enabled(self) -> bool {
        self.config.enabled && self.config.api_key.len() > 0
    }

    /// The record of `user`, if there is one.
    pub open spec fn entry(self, user: Seq<char>) -> Option<RateLimitEntry> {
        if self.windows.contains_key(user) {
            Some(self.windows[user])
        } else {
            None
        }
    }

    /// The gateway after a request of `user` at `now` was judged by the
    /// limiter.
    pub open spec fn counted(self, user: Seq<char>, now: u64) -> AiClientView {
        AiClientView {
            windows: self.windows.insert(
                user,
                after_request(self.entry(user), self.config.rate_limit, now),
            ),
            ..self
        }
    }

    /// The limiter's answer to a request of `user` at `now`.
    pub open spec fn limiter_fault(self, user: Seq<char>, now: u64) -> Option<AiErrorView> {
        match request_verdict(self.entry(user), self.config.rate_limit, now) {
            Ok(_) => None,
            Err(secs) => Some(
                AiErrorView::RateLimited { limit: self.config.rate_limit, retry_secs: secs },
            ),
        }
    }

    /// The gateway after `user` asked at `now`: nothing changes while the
    /// gateway is disabled; otherwise the limiter has judged the request.
    pub open spec fn after_query(self, user: Seq<char>, now: u64) -> AiClientView {
        if self.is_enabled() {
            self.counted(user, now)
        } else {
            self
        }
    }

    /// The answer to `user` asking with the trimmed prompt `prompt` at
    /// `now`: the request to send, or the first fault in the order
    /// disabled, rate limit, prompt.
    pub open spec fn query_result(self, user: Seq<char>, prompt: Seq<char>, now: u64) -> Result<
        AiRequestView,
        AiErrorView,
    > {
        if !self.is_enabled() {
            Err(AiErrorView::Disabled)
        } else if self.limiter_fault(user, now) is Some {
            Err(self.limiter_fault(user, now)->0)
        } else if prompt_fault(prompt) is Some {
            Err(prompt_fault(prompt)->0)
        } else {
            Ok(request_for(self.config, prompt))
        }
    }
}

impl View for AiClient {
    type V = AiClientView;

    closed spec fn view(&self) -> AiClientView {
        AiClientView { config: self.config@, windows: windows(self.rate_limits) }
    }
}

/// Whether the result of a query views as `expected`.
pub open spec fn query_matches(
    r: Result<AiRequest, AiError>,
    expected: Result<AiRequestView, AiErrorView>,
) -> bool {
    match r {
        Ok(request) => expected == Ok::<AiRequestView, AiErrorView>(request@),
        Err(e) => expected == Err::<AiRequestView, AiErrorView>(e@),
    }
}

/// Whether the reading of an outcome views as `expected`.
pub open spec fn response_matches(
    r: Result<AiResponse, AiError>,
    expected: Result<AiResponseView, AiErrorView>,
) -> bool {
    match r {
        Ok(response) => expected == Ok::<AiResponseView, AiErrorView>(response@),
        Err(e) => expected == Err::<AiResponseView, AiErrorView>(e@),
    }
}

/// What an outcome means under a timeout of `timeout_secs`.
pub open spec fn outcome_result(timeout_secs: u64, outcome: HttpOutcome, response_ms: u64) -> Result<
    AiResponseView,
    AiErrorView,
> {
    match outcome_fault(timeout_secs, outcome) {
        Some(e) => Err(e),
        None => Ok(response_of(outcome->body->0, response_ms)),
    }
}

impl AiClient {
    /// A gateway with these settings that has counted no request yet.
    pub fn new(config: AiConfig) -> (r: AiClient)
        ensures
            r@ == (AiClientView { config: config@, windows: Map::empty() }),
    {
        AiClient { config, rate_limits: windows_new() }
    }

    /// Whether the gateway may be asked: the feature is switched on and a
    /// credential is configured.
    pub fn is_enabled(&self) -> (r: bool)
        ensures
            r == self@.is_enabled(),
    {
        self.config.enabled && self.config.api_key.as_str().unicode_len() > 0
    }

    /// The model that is asked.
    pub fn model(&self) -> (r: String)
        ensures
            r@ == self@.config.model,
    {
        self.config.model.clone()
    }

    /// Counts a request of `user` at `now` (milliseconds on a monotonic
    /// clock) against the user's window, or refuses it with the seconds
    /// that remain of the window. The user's record is kept either way.
    pub fn check_rate_limit(&mut self, user: &str, now: u64) -> (r: Result<(), AiError>)
        ensures
            final(self)@ == old(self)@.counted(user@, now),
            match r {
                Ok(_) => old(self)@.limiter_fault(user@, now) is None,
                Err(e) => old(self)@.limiter_fault(user@, now) == Some(e@),
            },
    {
        let entry = windows_get(&self.rate_limits, user);
        let (kept, verdict) = count_request(entry, self.config.rate_limit, now);
        windows_insert(&mut self.rate_limits, String::from_str(user), kept);
        match verdict {
            Ok(_) => Ok(()),
            Err(secs) => Err(AiError::RateLimited { limit: self.config.rate_limit, retry_secs: secs }),
        }
    }

    /// Decides a question of `user` whose prompt, once trimmed, is
    /// `prompt`; see [`AiClientView::query_result`]. While the gateway is
    /// disabled nothing is counted and nothing is to be sent.
    pub fn query_trimmed(&mut self, user: &str, prompt: &str, now: u64) -> (r: Result<
        AiRequest,
        AiError,
    >)
        ensures
            final(self)@ == old(self)@.after_query(user@, now),
            query_matches(r, old(self)@.query_result(user@, prompt@, now)),
    {
        if !self.is_enabled() {
            return Err(AiError::Disabled);
        }
        match self.check_rate_limit(user, now) {
            Ok(_) => {},
            Err(e) => {
                return Err(e);
            },
        }
        match check_prompt(prompt) {
            Ok(_) => {},
            Err(e) => {
                return Err(e);
            },
        }
        let request = AiRequest {
            url: String::from_str("https://openrouter.ai/api/v1/chat/completions"),
            authorization: String::from_str("Bearer ").concat(self.config.api_key.as_str()),
            model: self.config.model.clone(),
            role: String::from_str("user"),
            prompt: String::from_str(prompt),
            max_tokens: self.config.max_tokens,
            timeout_secs: self.config.timeout_secs,
        };
        Ok(request)
    }

    /// Decides a question of `user` at `now`: trims the prompt, then
    /// answers with the request to send, or with the first fault in the
    /// order disabled, rate limit, prompt.
    pub fn query(&mut self, user: &str, prompt: &str, now: u64) -> (r: Result<
        AiRequest,
        AiError,
    >)
        ensures
            final(self)@ == old(self)@.after_query(user@, now),
            query_matches(r, old(self)@.query_result(user@, trimmed(prompt@), now)),
    {
        let prompt = trim(prompt);
        self.query_trimmed(user, prompt.as_str(), now)
    }

    /// Reads what became of a request: the answer with its figures, or
    /// the failure that the outcome stands for.
    pub fn complete_query(&self, outcome: HttpOutcome, response_ms: u64) -> (r: Result<
        AiResponse,
        AiError,
    >)
        ensures
            response_matches(r, outcome_result(self@.config.timeout_secs, outcome, response_ms)),
    {
        match outcome {
            HttpOutcome::TimedOut => Err(AiError::TimedOut { secs: self.config.timeout_secs }),
            HttpOutcome::Failed => Err(AiError::Unavailable),
            HttpOutcome::Answered { status, status_line, body } => {
                if !(200 <= status && status < 300) {
                    return Err(AiError::BadStatus { status: status_line });
                }
                match body {
                    None => Err(AiError::Unparsable),
                    Some(completion) => {
                        let content = if completion.choices.len() > 0 {
                            completion.choices[0].clone()
                        } else {
                            String::from_str("Geen antwoord ontvangen.")
                        };
                        let (tokens, cost) = match completion.usage {
                            Some(u) => (u.total_tokens, u.cost),
                            None => (None, None),
                        };
                        Ok(AiResponse { content, response_ms, tokens, cost })
                    },
                }
            },
        }
    }
}

} // verus!
