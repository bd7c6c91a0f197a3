//! The adaptive router: which backend serves a request, under a strategy,
//! a token budget and the availability of each backend.

use vstd::prelude::*;
use crate::error::OrionError;
use crate::llm::gemini_adapter::{CloudOutcome, CloudRequest, GeminiAdapter, UsageStats, request_url};
use crate::llm::{
    summary_prompt, CandleLlmAdapter, GenerationRequest, SUMMARY_MAX_TOKENS, TEXT_MAX_TOKENS,
};
use crate::models::SummaryType;
use crate::text::texts;

verus! {

/// How the router picks a backend.
#[derive(Debug, Clone, Copy, PartialEq, Eq, Structural)]
pub enum LlmStrategy {
    /// Always the local backend.
    LocalOnly,
    /// Always the cloud backend.
    CloudOnly,
    /// Whichever fits the request and the current state.
    Hybrid,
}

/// The router's settings.
#[derive(Debug, Clone, Copy, PartialEq, Eq, Structural)]
pub struct SmartLlmConfig {
    pub strategy: LlmStrategy,
    pub max_monthly_tokens: u64,
    pub prefer_local_under_tokens: usize,
}

impl Default for SmartLlmConfig {
    fn default() -> (r: Self)
        ensures
            r == (SmartLlmConfig {
                strategy: LlmStrategy::Hybrid,
                max_monthly_tokens: 1_000_000,
                prefer_local_under_tokens: 2048,
            }),
    {
        SmartLlmConfig {
            strategy: LlmStrategy::Hybrid,
            max_monthly_tokens: 1_000_000,
            prefer_local_under_tokens: 2048,
        }
    }
}

/// The backend that was chosen.
#[derive(Debug, Clone, Copy, PartialEq, Eq, Structural)]
pub enum AdapterChoice {
    Local,
    Cloud,
}

impl AdapterChoice {
    /// The choice's name.
    pub open spec fn word(&self) -> Seq<char> {
        match self {
            AdapterChoice::Local => "Local"@,
            AdapterChoice::Cloud => "Cloud"@,
        }
    }

    /// The choice's name as a string.
    pub fn to_string(&self) -> (r: String)
        ensures
            r@ == self.word(),
    {
        match self {
            AdapterChoice::Local => String::from_str("Local"),
            AdapterChoice::Cloud => String::from_str("Cloud"),
        }
    }
}

/// The routing decision. `local` and `cloud` say whether each backend is
/// configured, `network` whether the network is up, `used` how many tokens
/// the cloud backend has consumed. `None` where no backend is eligible.
pub open spec fn route(
    config: SmartLlmConfig,
    local: bool,
    cloud: bool,
    network: bool,
    used: u64,
    prompt_size: usize,
) -> Option<AdapterChoice> {
    match config.strategy {
        LlmStrategy::LocalOnly => if local {
            Some(AdapterChoice::Local)
        } else {
            None
        },
        LlmStrategy::CloudOnly => if cloud && network {
            Some(AdapterChoice::Cloud)
        } else {
            None
        },
        LlmStrategy::Hybrid => {
            let cloud_eligible = cloud && network && used < config.max_monthly_tokens;
            if cloud_eligible && local {
                if prompt_size < config.prefer_local_under_tokens {
                    Some(AdapterChoice::Local)
                } else {
                    Some(AdapterChoice::Cloud)
                }
            } else if cloud_eligible {
                Some(AdapterChoice::Cloud)
            } else if local {
                Some(AdapterChoice::Local)
            } else {
                None
            }
        },
    }
}

/// What is reported when no backend is eligible under a strategy.
pub open spec fn unavailable_reason(strategy: LlmStrategy) -> Seq<char> {
    match strategy {
        LlmStrategy::LocalOnly => "Local adapter not available but strategy is LocalOnly"@,
        LlmStrategy::CloudOnly => "Cloud adapter not available but strategy is CloudOnly"@,
        LlmStrategy::Hybrid => "No LLM adapter available"@,
    }
}

/// Under the hybrid strategy a configured local backend is always a way
/// out: routing never fails, and without network it picks the local one.
pub proof fn hybrid_with_local_never_fails(
    config: SmartLlmConfig,
    cloud: bool,
    network: bool,
    used: u64,
    prompt_size: usize,
)
    requires
        config.strategy == LlmStrategy::Hybrid,
    ensures
        route(config, true, cloud, network, used, prompt_size) is Some,
        !network ==> route(config, true, cloud, network, used, prompt_size) == Some(
            AdapterChoice::Local,
        ),
{
}

/// Under the local-only strategy nothing is eligible without a local
/// backend, whatever the prompt's size and the state of the cloud.
pub proof fn local_only_needs_local(
    config: SmartLlmConfig,
    cloud: bool,
    network: bool,
    used: u64,
    prompt_size: usize,
)
    requires
        config.strategy == LlmStrategy::LocalOnly,
    ensures
        route(config, false, cloud, network, used, prompt_size) is None,
{
}

/// The number of bytes that a text takes in UTF-8, as `str::len` reports it.
pub open spec fn byte_length(s: Seq<char>) -> usize {
    vstd::utf8::encode_utf8(s).len() as usize
}

/// The bytes of all `contents` together.
pub open spec fn total_bytes(contents: Seq<Seq<char>>) -> nat
    decreases contents.len(),
{
    if contents.len() == 0 {
        0
    } else {
        total_bytes(contents.drop_last()) + byte_length(contents.last()) as nat
    }
}

/// The size by which a summary request is routed: the bytes of its
/// contents, held at the largest `usize`.
pub open spec fn estimated_size(contents: Seq<Seq<char>>) -> usize {
    if total_bytes(contents) > usize::MAX {
        usize::MAX
    } else {
        total_bytes(contents) as usize
    }
}

/// A request together with the backend that is to serve it.
#[derive(Debug, Clone)]
pub enum Dispatch {
    Local(GenerationRequest),
    Cloud(CloudRequest),
}

impl Dispatch {
    /// The backend that the request goes to.
    pub open spec fn target(&self) -> AdapterChoice {
        match self {
            Dispatch::Local(_) => AdapterChoice::Local,
            Dispatch::Cloud(_) => AdapterChoice::Cloud,
        }
    }

    /// The prompt that is sent.
    pub open spec fn prompt(&self) -> Seq<char> {
        match self {
            Dispatch::Local(req) => req.prompt@,
            Dispatch::Cloud(req) => req.prompt@,
        }
    }

    /// The output limit that is sent.
    pub open spec fn max_tokens(&self) -> u32 {
        match self {
            Dispatch::Local(req) => req.max_tokens,
            Dispatch::Cloud(req) => req.max_output_tokens,
        }
    }

    /// The backend that the request goes to.
    pub fn choice(&self) -> (r: AdapterChoice)
        ensures
            r == self.target(),
    {
        match self {
            Dispatch::Local(_) => AdapterChoice::Local,
            Dispatch::Cloud(_) => AdapterChoice::Cloud,
        }
    }
}

/// How a dispatched request ended.
#[derive(Debug)]
pub enum GenerationOutcome {
    /// The local backend's text, or its failure.
    Local(Result<String, OrionError>),
    /// The outcome of the cloud call.
    Cloud(CloudOutcome),
}

/// The router: its settings, the backends that are configured, and whether
/// the network is up.
#[derive(Debug)]
pub struct SmartLlmManager {
    config: SmartLlmConfig,
    local_adapter: Option<CandleLlmAdapter>,
    cloud_adapter: Option<GeminiAdapter>,
    network_available: bool,
}

impl SmartLlmManager {
    /// The router's settings.
    pub closed spec fn config(&self) -> SmartLlmConfig {
        self.config
    }

    /// The local backend, where one is configured.
    pub closed spec fn local(&self) -> Option<CandleLlmAdapter> {
        self.local_adapter
    }

    /// The cloud backend, where one is configured.
    pub closed spec fn cloud(&self) -> Option<GeminiAdapter> {
        self.cloud_adapter
    }

    /// Whether the network is taken to be up.
    pub closed spec fn network(&self) -> bool {
        self.network_available
    }

    /// The tokens that the cloud backend has consumed, zero without one.
    pub open spec fn used_tokens(&self) -> u64 {
        match self.cloud() {
            Some(c) => c.usage().total_tokens,
            None => 0,
        }
    }

    /// The backend that serves a prompt of `prompt_size` in the current
    /// state, `None` where none is eligible.
    pub open spec fn selection(&self, prompt_size: usize) -> Option<AdapterChoice> {
        route(
            self.config(),
            self.local() is Some,
            self.cloud() is Some,
            self.network(),
            self.used_tokens(),
            prompt_size,
        )
    }

    /// Whether the backend that `choice` names can be sent a request: the
    /// cloud backend needs a key.
    pub open spec fn can_send(&self, choice: AdapterChoice) -> bool {
        match choice {
            AdapterChoice::Local => self.local() is Some,
            AdapterChoice::Cloud => self.cloud() matches Some(c) && c.config().api_key@.len() > 0,
        }
    }

    /// What a dispatch of `prompt` with the limit `max_tokens`, routed by
    /// `prompt_size`, must look like.
    pub open spec fn dispatches(
        &self,
        r: Result<Dispatch, OrionError>,
        prompt_size: usize,
        prompt: Seq<char>,
        max_tokens: u32,
    ) -> bool {
        match r {
            Ok(d) => {
                &&& self.selection(prompt_size) == Some(d.target())
                &&& self.can_send(d.target())
                &&& d.prompt() == prompt
                &&& d.max_tokens() == max_tokens
                &&& d matches Dispatch::Cloud(req) ==> req.url@ == request_url(
                    self.cloud()->0.config(),
                )
            },
            Err(e) => match self.selection(prompt_size) {
                None => e matches OrionError::BackendUnavailable(m) && m@ == unavailable_reason(
                    self.config().strategy,
                ),
                Some(c) => !self.can_send(c) && (e matches OrionError::BackendUnavailable(m) && m@
                    == "Gemini API key not configured"@),
            },
        }
    }

    /// A router with no backend configured and the network taken to be up.
    pub fn new(config: SmartLlmConfig) -> (r: Self)
        ensures
            r.config() == config,
            r.local() is None,
            r.cloud() is None,
            r.network(),
    {
        SmartLlmManager { config, local_adapter: None, cloud_adapter: None, network_available: true }
    }

    /// The router with `adapter` as its local backend.
    pub fn with_local_adapter(self, adapter: CandleLlmAdapter) -> (r: Self)
        ensures
            r.local() == Some(adapter),
            r.config() == self.config(),
            r.cloud() == self.cloud(),
            r.network() == self.network(),
    {
        SmartLlmManager {
            config: self.config,
            local_adapter: Some(adapter),
            cloud_adapter: self.cloud_adapter,
            network_available: self.network_available,
        }
    }

    /// The router with `adapter` as its cloud backend.
    pub fn with_cloud_adapter(self, adapter: GeminiAdapter) -> (r: Self)
        ensures
            r.cloud() == Some(adapter),
            r.config() == self.config(),
            r.local() == self.local(),
            r.network() == self.network(),
    {
        SmartLlmManager {
            config: self.config,
            local_adapter: self.local_adapter,
            cloud_adapter: Some(adapter),
            network_available: self.network_available,
        }
    }

    /// Records whether the network is up.
    pub fn set_network_available(&mut self, available: bool)
        ensures
            final(self).network() == available,
            final(self).config() == old(self).config(),
            final(self).local() == old(self).local(),
            final(self).cloud() == old(self).cloud(),
    {
        self.network_available = available;
    }

    /// Whether the network is taken to be up.
    pub fn is_network_available(&self) -> (r: bool)
        ensures
            r == self.network(),
    {
        self.network_available
    }

    /// The cloud backend's counters, where one is configured.
    pub fn get_cloud_usage(&self) -> (r: Option<UsageStats>)
        ensures
            r is Some <==> self.cloud() is Some,
            r matches Some(u) ==> u == self.cloud()->0.usage(),
    {
        match &self.cloud_adapter {
            Some(cloud) => Some(cloud.get_usage_stats()),
            None => None,
        }
    }

    /// Sets the cloud backend's counters to zero. Fails where none is
    /// configured, and changes nothing then.
    pub fn reset_cloud_usage(&mut self) -> (r: Result<(), OrionError>)
        ensures
            final(self).config() == old(self).config(),
            final(self).local() == old(self).local(),
            final(self).network() == old(self).network(),
            r is Ok <==> old(self).cloud() is Some,
            r is Ok ==> (final(self).cloud() matches Some(c) && c.usage() == UsageStats::zero()
                && c.config() == old(self).cloud()->0.config()),
            r matches Err(e) ==> final(self).cloud() is None && (e matches OrionError::BackendUnavailable(
                m,
            ) && m@ == "Cloud adapter not configured"@),
    {
        match self.cloud_adapter.take() {
            Some(mut cloud) => {
                cloud.reset_usage_stats();
                self.cloud_adapter = Some(cloud);
                Ok(())
            },
            None => Err(
                OrionError::BackendUnavailable(String::from_str("Cloud adapter not configured")),
            ),
        }
    }

    /// Decides which backend serves a prompt of `prompt_length`. Reads the
    /// state and changes nothing.
    pub fn select_adapter(&self, prompt_length: usize) -> (r: Result<AdapterChoice, OrionError>)
        ensures
            r is Ok <==> self.selection(prompt_length) is Some,
            r matches Ok(c) ==> self.selection(prompt_length) == Some(c),
            r matches Err(e) ==> e matches OrionError::BackendUnavailable(m) && m@
                == unavailable_reason(self.config().strategy),
    {
        match self.config.strategy {
            LlmStrategy::LocalOnly => {
                if self.local_adapter.is_some() {
                    return Ok(AdapterChoice::Local);
                }
                return Err(
                    OrionError::BackendUnavailable(
                        String::from_str("Local adapter not available but strategy is LocalOnly"),
                    ),
                );
            },
            LlmStrategy::CloudOnly => {
                if self.cloud_adapter.is_some() && self.network_available {
                    return Ok(AdapterChoice::Cloud);
                }
                return Err(
                    OrionError::BackendUnavailable(
                        String::from_str("Cloud adapter not available but strategy is CloudOnly"),
                    ),
                );
            },
            LlmStrategy::Hybrid => {},
        }
        let cloud_available = self.cloud_adapter.is_some() && self.network_available;
        let local_available = self.local_adapter.is_some();
        let cloud_credits_ok = match self.get_cloud_usage() {
            Some(usage) => usage.total_tokens < self.config.max_monthly_tokens,
            None => true,
        };
        if cloud_available && cloud_credits_ok {
            if local_available {
                if prompt_length < self.config.prefer_local_under_tokens {
                    Ok(AdapterChoice::Local)
                } else {
                    Ok(AdapterChoice::Cloud)
                }
            } else {
                Ok(AdapterChoice::Cloud)
            }
        } else if local_available {
            Ok(AdapterChoice::Local)
        } else {
            Err(OrionError::BackendUnavailable(String::from_str("No LLM adapter available")))
        }
    }

    /// The backend that would serve a prompt of `prompt_length` now.
    pub fn get_preferred_adapter(&self, prompt_length: usize) -> (r: Result<
        AdapterChoice,
        OrionError,
    >)
        ensures
            r is Ok <==> self.selection(prompt_length) is Some,
            r matches Ok(c) ==> self.selection(prompt_length) == Some(c),
            r matches Err(e) ==> e matches OrionError::BackendUnavailable(m) && m@
                == unavailable_reason(self.config().strategy),
    {
        self.select_adapter(prompt_length)
    }

    /// Routes a plain completion of `prompt` by the prompt's size in bytes
    /// and hands back the request for the chosen backend.
    pub fn generate_text(&self, prompt: &str) -> (r: Result<Dispatch, OrionError>)
        ensures
            self.dispatches(r, byte_length(prompt@), prompt@, TEXT_MAX_TOKENS),
            r is Ok <==> (self.selection(byte_length(prompt@)) matches Some(c)
                && self.can_send(c)),
    {
        let choice = self.select_adapter(prompt.len())?;
        match choice {
            AdapterChoice::Local => match &self.local_adapter {
                Some(adapter) => Ok(Dispatch::Local(adapter.text_request(prompt))),
                None => Err(
                    OrionError::BackendUnavailable(String::from_str("Local adapter not available")),
                ),
            },
            AdapterChoice::Cloud => match &self.cloud_adapter {
                Some(adapter) => match adapter.text_request(prompt) {
                    Ok(req) => Ok(Dispatch::Cloud(req)),
                    Err(e) => Err(e),
                },
                None => Err(
                    OrionError::BackendUnavailable(String::from_str("Cloud adapter not available")),
                ),
            },
        }
    }

    /// The size by which a summary of `contents` is routed.
    pub fn estimate_length(contents: &[String]) -> (r: usize)
        ensures
            r == estimated_size(texts(contents@)),
    {
        let mut total: usize = 0;
        let mut i: usize = 0;
        while i < contents.len()
            invariant
                i <= contents.len(),
                total == estimated_size(texts(contents@).take(i as int)),
            decreases contents.len() - i,
        {
            proof {
                let t = texts(contents@);
                assert(t.take(i as int + 1).drop_last() == t.take(i as int));
                assert(t.take(i as int + 1).last() == contents@[i as int]@);
            }
            total = total.saturating_add(contents[i].as_str().len());
            i = i + 1;
        }
        proof {
            assert(texts(contents@).take(contents.len() as int) == texts(contents@));
        }
        total
    }

    /// Routes a summary of `contents` by their size in bytes and hands back
    /// the request for the chosen backend.
    pub fn generate_summary(&self, contents: Vec<String>, summary_type: SummaryType) -> (r: Result<
        Dispatch,
        OrionError,
    >)
        ensures
            self.dispatches(
                r,
                estimated_size(texts(contents@)),
                summary_prompt(texts(contents@), summary_type),
                SUMMARY_MAX_TOKENS,
            ),
            r is Ok <==> (self.selection(estimated_size(texts(contents@))) matches Some(c)
                && self.can_send(c)),
    {
        let estimated_length = Self::estimate_length(contents.as_slice());
        let choice = self.select_adapter(estimated_length)?;
        match choice {
            AdapterChoice::Local => match &self.local_adapter {
                Some(adapter) => Ok(
                    Dispatch::Local(adapter.summary_request(contents.as_slice(), summary_type)),
                ),
                None => Err(
                    OrionError::BackendUnavailable(String::from_str("Local adapter not available")),
                ),
            },
            AdapterChoice::Cloud => match &self.cloud_adapter {
                Some(adapter) => match adapter.summary_request(contents.as_slice(), summary_type) {
                    Ok(req) => Ok(Dispatch::Cloud(req)),
                    Err(e) => Err(e),
                },
                None => Err(
                    OrionError::BackendUnavailable(String::from_str("Cloud adapter not available")),
                ),
            },
        }
    }

    /// What `complete` returns for an outcome.
    pub open spec fn completion(
        &self,
        outcome: GenerationOutcome,
        r: Result<(String, AdapterChoice), OrionError>,
    ) -> bool {
        match outcome {
            GenerationOutcome::Local(Ok(text)) => r matches Ok((s, c)) && s@ == text@ && c
                == AdapterChoice::Local,
            GenerationOutcome::Local(Err(e)) => r matches Err(f) && f == e,
            GenerationOutcome::Cloud(o) => if self.cloud() is None {
                r matches Err(OrionError::BackendUnavailable(m)) && m@
                    == "Cloud adapter not available"@
            } else {
                match o.text() {
                    Some(text) => r matches Ok((s, c)) && s@ == text && c == AdapterChoice::Cloud,
                    None => r matches Err(OrionError::BackendFailure(m)) && m@ == o.failure(),
                }
            },
        }
    }

    /// Takes in the outcome of a dispatched request and pairs its text with
    /// the backend that gave it. Only a cloud outcome that yields a text
    /// is counted; every other outcome leaves the counters as they were.
    pub fn complete(&mut self, outcome: GenerationOutcome) -> (r: Result<
        (String, AdapterChoice),
        OrionError,
    >)
        ensures
            final(self).config() == old(self).config(),
            final(self).local() == old(self).local(),
            final(self).network() == old(self).network(),
            final(self).cloud() is Some <==> old(self).cloud() is Some,
            final(self).cloud() matches Some(c) ==> c.config() == old(self).cloud()->0.config()
                && c.usage() == (match outcome {
                GenerationOutcome::Cloud(o) => o.usage_after(old(self).cloud()->0.usage()),
                GenerationOutcome::Local(_) => old(self).cloud()->0.usage(),
            }),
            old(self).completion(outcome, r),
    {
        match outcome {
            GenerationOutcome::Local(Ok(text)) => Ok((text, AdapterChoice::Local)),
            GenerationOutcome::Local(Err(e)) => Err(e),
            GenerationOutcome::Cloud(o) => match self.cloud_adapter.take() {
                Some(mut cloud) => {
                    let done = cloud.complete_request(o);
                    self.cloud_adapter = Some(cloud);
                    match done {
                        Ok(text) => Ok((text, AdapterChoice::Cloud)),
                        Err(e) => Err(e),
                    }
                },
                None => Err(
                    OrionError::BackendUnavailable(String::from_str("Cloud adapter not available")),
                ),
            },
        }
    }
}

} // verus!
