//! The cloud backend: its configuration, its usage counters, the request
//! it sends and what it makes of each outcome of a call.

use vstd::prelude::*;
use crate::error::OrionError;
use crate::llm::{create_summary_prompt, summary_prompt, SUMMARY_MAX_TOKENS, TEXT_MAX_TOKENS};
use crate::models::SummaryType;
use crate::text::texts;

verus! {

/// Where and as whom the cloud backend is called.
#[derive(Debug, Clone)]
pub struct GeminiConfig {
    pub api_key: String,
    pub model: String,
    pub endpoint: String,
}

impl Default for GeminiConfig {
    fn default() -> (r: Self)
        ensures
            r.api_key@ == Seq::<char>::empty(),
            r.model@ == "gemini-1.5-flash"@,
            r.endpoint@ == "https://generativelanguage.googleapis.com/v1beta"@,
    {
        GeminiConfig {
            api_key: String::new(),
            model: String::from_str("gemini-1.5-flash"),
            endpoint: String::from_str("https://generativelanguage.googleapis.com/v1beta"),
        }
    }
}

/// Cumulative counters of the cloud backend's use.
#[derive(Debug, Clone, Copy, PartialEq, Eq, Structural)]
pub struct UsageStats {
    pub total_tokens: u64,
    pub prompt_tokens: u64,
    pub completion_tokens: u64,
    pub requests_count: u64,
}

impl Default for UsageStats {
    fn default() -> (r: Self)
        ensures
            r == UsageStats::zero(),
    {
        UsageStats { total_tokens: 0, prompt_tokens: 0, completion_tokens: 0, requests_count: 0 }
    }
}

/// The token counts that the backend reports for one call.
#[derive(Debug, Clone, Copy, PartialEq, Eq, Structural)]
pub struct UsageMetadata {
    pub prompt_token_count: u32,
    pub candidates_token_count: u32,
    pub total_token_count: u32,
}

/// `a + b`, held at the largest `u64` where the sum exceeds it.
pub open spec fn capped_sum(a: u64, b: int) -> u64 {
    if a + b > u64::MAX {
        u64::MAX
    } else {
        (a + b) as u64
    }
}

impl UsageStats {
    /// All counters at zero.
    pub open spec fn zero() -> UsageStats {
        UsageStats { total_tokens: 0, prompt_tokens: 0, completion_tokens: 0, requests_count: 0 }
    }

    /// The counters after one more successful call that reported `usage`.
    pub open spec fn with_call(self, usage: Option<UsageMetadata>) -> UsageStats {
        match usage {
            Some(u) => UsageStats {
                total_tokens: capped_sum(self.total_tokens, u.total_token_count as int),
                prompt_tokens: capped_sum(self.prompt_tokens, u.prompt_token_count as int),
                completion_tokens: capped_sum(
                    self.completion_tokens,
                    u.candidates_token_count as int,
                ),
                requests_count: capped_sum(self.requests_count, 1),
            },
            None => UsageStats { requests_count: capped_sum(self.requests_count, 1), ..self },
        }
    }

    /// The counters after successful calls that reported `calls`, in order.
    pub open spec fn with_calls(self, calls: Seq<Option<UsageMetadata>>) -> UsageStats
        decreases calls.len(),
    {
        if calls.len() == 0 {
            self
        } else {
            self.with_calls(calls.drop_last()).with_call(calls.last())
        }
    }

    /// Counts one successful call.
    pub fn record(self, usage: Option<UsageMetadata>) -> (r: UsageStats)
        ensures
            r == self.with_call(usage),
    {
        let requests_count = self.requests_count.saturating_add(1);
        match usage {
            Some(u) => UsageStats {
                total_tokens: self.total_tokens.saturating_add(u.total_token_count as u64),
                prompt_tokens: self.prompt_tokens.saturating_add(u.prompt_token_count as u64),
                completion_tokens: self.completion_tokens.saturating_add(
                    u.candidates_token_count as u64,
                ),
                requests_count,
            },
            None => UsageStats { requests_count, ..self },
        }
    }
}

/// The sum of the total token counts that `calls` reported.
pub open spec fn reported_total(calls: Seq<Option<UsageMetadata>>) -> int
    decreases calls.len(),
{
    if calls.len() == 0 {
        0
    } else {
        reported_total(calls.drop_last()) + match calls.last() {
            Some(u) => u.total_token_count as int,
            None => 0,
        }
    }
}

/// After any number of successful calls the total token counter holds the
/// exact sum of the reported totals, and the request counter the number of
/// calls, as long as each fits the counter.
pub proof fn usage_totals_are_exact(start: UsageStats, calls: Seq<Option<UsageMetadata>>)
    requires
        start.total_tokens + reported_total(calls) <= u64::MAX,
        start.requests_count + calls.len() <= u64::MAX,
    ensures
        start.with_calls(calls).total_tokens == start.total_tokens + reported_total(calls),
        start.with_calls(calls).requests_count == start.requests_count + calls.len(),
    decreases calls.len(),
{
    if calls.len() > 0 {
        usage_totals_are_exact(start, calls.drop_last());
    }
}

/// What is sent to the cloud backend.
#[derive(Debug, Clone)]
pub struct CloudRequest {
    pub url: String,
    pub prompt: String,
    pub max_output_tokens: u32,
}

/// A decoded reply of the cloud backend: the texts of each candidate's
/// parts, and the token counts where the backend reported them.
#[derive(Debug, Clone)]
pub struct GeminiReply {
    pub candidates: Vec<Vec<String>>,
    pub usage: Option<UsageMetadata>,
}

impl GeminiReply {
    /// The first part of the first candidate, where there is one.
    pub open spec fn first_text(&self) -> Option<Seq<char>> {
        if self.candidates@.len() > 0 && self.candidates@[0]@.len() > 0 {
            Some(self.candidates@[0]@[0]@)
        } else {
            None
        }
    }
}

/// How a call of the cloud backend ended.
#[derive(Debug, Clone)]
pub enum CloudOutcome {
    /// The request could not be sent or no answer came; the cause in words.
    RequestFailed(String),
    /// The backend answered with a status outside the successful ones.
    HttpError { status: String, body: String },
    /// The answer could not be decoded; the cause in words.
    Unreadable(String),
    /// The answer was decoded.
    Reply(GeminiReply),
}

impl CloudOutcome {
    /// The text that the outcome yields, where it yields one.
    pub open spec fn text(&self) -> Option<Seq<char>> {
        match self {
            CloudOutcome::Reply(reply) => reply.first_text(),
            _ => None,
        }
    }

    /// The detail of the failure that the outcome stands for, where it
    /// yields no text.
    pub open spec fn failure(&self) -> Seq<char> {
        match self {
            CloudOutcome::RequestFailed(cause) => "Gemini API request failed: "@ + cause@,
            CloudOutcome::HttpError { status, body } => "Gemini API error ("@ + status@ + "): "@
                + body@,
            CloudOutcome::Unreadable(cause) => "Failed to parse Gemini response: "@ + cause@,
            CloudOutcome::Reply(_) => "No response from Gemini"@,
        }
    }

    /// The counters after this outcome: one more call counted where it
    /// yields a text, unchanged where it does not.
    pub open spec fn usage_after(&self, before: UsageStats) -> UsageStats {
        match self {
            CloudOutcome::Reply(reply) if reply.first_text() is Some => before.with_call(
                reply.usage,
            ),
            _ => before,
        }
    }
}

/// The address of the generation call for a configuration.
pub open spec fn request_url(config: GeminiConfig) -> Seq<char> {
    config.endpoint@ + "/models/"@ + config.model@ + ":generateContent?key="@ + config.api_key@
}

/// The cloud backend: a configuration and the counters of its use.
#[derive(Debug)]
pub struct GeminiAdapter {
    config: GeminiConfig,
    usage_stats: UsageStats,
}

impl GeminiAdapter {
    /// The adapter's configuration.
    pub closed spec fn config(&self) -> GeminiConfig {
        self.config
    }

    /// The adapter's counters.
    pub closed spec fn usage(&self) -> UsageStats {
        self.usage_stats
    }

    /// An adapter with the given configuration and all counters at zero.
    pub fn new(config: GeminiConfig) -> (r: Self)
        ensures
            r.config() == config,
            r.usage() == UsageStats::zero(),
    {
        GeminiAdapter { config, usage_stats: UsageStats::default() }
    }

    /// An adapter with the given key and the default model and endpoint.
    pub fn with_api_key(api_key: String) -> (r: Self)
        ensures
            r.config().api_key == api_key,
            r.config().model@ == "gemini-1.5-flash"@,
            r.config().endpoint@ == "https://generativelanguage.googleapis.com/v1beta"@,
            r.usage() == UsageStats::zero(),
    {
        let defaults = GeminiConfig::default();
        GeminiAdapter::new(
            GeminiConfig { api_key, model: defaults.model, endpoint: defaults.endpoint },
        )
    }

    /// The current counters.
    pub fn get_usage_stats(&self) -> (r: UsageStats)
        ensures
            r == self.usage(),
    {
        self.usage_stats
    }

    /// Sets all counters to zero.
    pub fn reset_usage_stats(&mut self)
        ensures
            final(self).usage() == UsageStats::zero(),
            final(self).config() == old(self).config(),
    {
        self.usage_stats = UsageStats::default();
    }

    /// Whether a key is configured.
    pub fn is_available(&self) -> (r: bool)
        ensures
            r == (self.config().api_key@.len() > 0),
    {
        !self.config.api_key.as_str().is_empty()
    }

    /// The request that asks the backend to complete `prompt` within
    /// `max_tokens` tokens. Without a key there is none.
    pub fn prepare_request(&self, prompt: &str, max_tokens: u32) -> (r: Result<
        CloudRequest,
        OrionError,
    >)
        ensures
            r is Ok <==> self.config().api_key@.len() > 0,
            r matches Ok(req) ==> req.url@ == request_url(self.config()) && req.prompt@ == prompt@
                && req.max_output_tokens == max_tokens,
            r matches Err(e) ==> e matches OrionError::BackendUnavailable(m) && m@
                == "Gemini API key not configured"@,
    {
        if self.config.api_key.as_str().is_empty() {
            return Err(
                OrionError::BackendUnavailable(String::from_str("Gemini API key not configured")),
            );
        }
        let mut url = self.config.endpoint.clone();
        url.append("/models/");
        url.append(self.config.model.as_str());
        url.append(":generateContent?key=");
        url.append(self.config.api_key.as_str());
        Ok(CloudRequest { url, prompt: String::from_str(prompt), max_output_tokens: max_tokens })
    }

    /// The request for a plain completion of `prompt`.
    pub fn text_request(&self, prompt: &str) -> (r: Result<CloudRequest, OrionError>)
        ensures
            r is Ok <==> self.config().api_key@.len() > 0,
            r matches Ok(req) ==> req.url@ == request_url(self.config()) && req.prompt@ == prompt@
                && req.max_output_tokens == TEXT_MAX_TOKENS,
            r matches Err(e) ==> e matches OrionError::BackendUnavailable(m) && m@
                == "Gemini API key not configured"@,
    {
        self.prepare_request(prompt, TEXT_MAX_TOKENS)
    }

    /// The request for a summary of `contents`.
    pub fn summary_request(&self, contents: &[String], summary_type: SummaryType) -> (r: Result<
        CloudRequest,
        OrionError,
    >)
        ensures
            r is Ok <==> self.config().api_key@.len() > 0,
            r matches Ok(req) ==> req.url@ == request_url(self.config()) && req.prompt@
                == summary_prompt(texts(contents@), summary_type) && req.max_output_tokens
                == SUMMARY_MAX_TOKENS,
            r matches Err(e) ==> e matches OrionError::BackendUnavailable(m) && m@
                == "Gemini API key not configured"@,
    {
        let prompt = create_summary_prompt(contents, summary_type);
        self.prepare_request(prompt.as_str(), SUMMARY_MAX_TOKENS)
    }

    /// Takes in the outcome of a call. A decoded reply with a first text
    /// succeeds with that text and is counted; every other outcome is a
    /// backend failure and leaves the counters as they were.
    pub fn complete_request(&mut self, outcome: CloudOutcome) -> (r: Result<String, OrionError>)
        ensures
            final(self).config() == old(self).config(),
            final(self).usage() == outcome.usage_after(old(self).usage()),
            r is Ok <==> outcome.text() is Some,
            r matches Ok(s) ==> Some(s@) == outcome.text(),
            r matches Err(e) ==> e matches OrionError::BackendFailure(m) && m@
                == outcome.failure(),
    {
        match outcome {
            CloudOutcome::RequestFailed(cause) => {
                let mut m = String::from_str("Gemini API request failed: ");
                m.append(cause.as_str());
                Err(OrionError::BackendFailure(m))
            },
            CloudOutcome::HttpError { status, body } => {
                let mut m = String::from_str("Gemini API error (");
                m.append(status.as_str());
                m.append("): ");
                m.append(body.as_str());
                Err(OrionError::BackendFailure(m))
            },
            CloudOutcome::Unreadable(cause) => {
                let mut m = String::from_str("Failed to parse Gemini response: ");
                m.append(cause.as_str());
                Err(OrionError::BackendFailure(m))
            },
            CloudOutcome::Reply(reply) => {
                if reply.candidates.len() > 0 && reply.candidates[0].len() > 0 {
                    self.usage_stats = self.usage_stats.record(reply.usage);
                    Ok(reply.candidates[0][0].clone())
                } else {
                    Err(OrionError::BackendFailure(String::from_str("No response from Gemini")))
                }
            },
        }
    }
}

} // verus!
