//! Generation backends: the adapter interface, the adapter that is never
//! available, the state of the local adapter, and the summary prompt.

use vstd::prelude::*;
use std::path::PathBuf;
use crate::error::OrionError;
use crate::models::SummaryType;
use crate::text::{join, joined, texts};

pub mod gemini_adapter;
pub mod model_manager;
pub mod smart_manager;

pub use model_manager::{DownloadProgress, ModelInfo, ModelManager};

verus! {

/// A generation backend as the summary pipeline sees it.
pub trait LlmAdapter {
    /// Whether the backend can be used now.
    fn is_available(&self) -> bool;

    /// Completes a prompt.
    fn generate_text(&self, prompt: &str) -> Result<String, OrionError>;

    /// Summarizes record contents for a period.
    fn generate_summary(&self, contents: Vec<String>, summary_type: SummaryType) -> Result<
        String,
        OrionError,
    >;
}

/// The backend that is never available.
pub struct MockLlmAdapter;

/// What the unavailable backend hands out as a summary.
pub open spec fn mock_summary(summary_type: SummaryType) -> Seq<char> {
    "[MOCK] Resumen "@ + summary_type.word() + " generado automáticamente (LLM no disponible)"@
}

impl LlmAdapter for MockLlmAdapter {
    fn is_available(&self) -> (r: bool)
        ensures
            !r,
    {
        false
    }

    fn generate_text(&self, _prompt: &str) -> (r: Result<String, OrionError>)
        ensures
            r matches Err(OrionError::BackendUnavailable(m)) && m@
                == "Mock LLM adapter - not available"@,
    {
        Err(OrionError::BackendUnavailable(String::from_str("Mock LLM adapter - not available")))
    }

    fn generate_summary(&self, _contents: Vec<String>, summary_type: SummaryType) -> (r: Result<
        String,
        OrionError,
    >)
        ensures
            r matches Ok(s) && s@ == mock_summary(summary_type),
    {
        let mut out = String::from_str("[MOCK] Resumen ");
        out.append(summary_type.as_str());
        out.append(" generado automáticamente (LLM no disponible)");
        Ok(out)
    }
}

/// What a backend is asked to complete.
#[derive(Debug, Clone)]
pub struct GenerationRequest {
    pub prompt: String,
    pub max_tokens: u32,
}

/// The output limit of a plain completion.
pub const TEXT_MAX_TOKENS: u32 = 512;

/// The output limit of a summary.
pub const SUMMARY_MAX_TOKENS: u32 = 1024;

/// The state of the locally hosted backend: where its model file lies and
/// whether its tokenizer has been loaded.
#[derive(Debug)]
pub struct CandleLlmAdapter {
    model_path: PathBuf,
    tokenizer_loaded: bool,
}

impl CandleLlmAdapter {
    /// The path of the model file.
    pub closed spec fn path(&self) -> PathBuf {
        self.model_path
    }

    /// Whether the tokenizer has been loaded.
    pub closed spec fn tokenizer_ready(&self) -> bool {
        self.tokenizer_loaded
    }

    /// An adapter for the model at `model_path`, with no tokenizer yet.
    pub fn new(model_path: PathBuf) -> (r: Self)
        ensures
            r.path() == model_path,
            !r.tokenizer_ready(),
    {
        CandleLlmAdapter { model_path, tokenizer_loaded: false }
    }

    /// Prepares the adapter. No tokenizer is loaded by it, so the adapter
    /// stays as it is.
    pub fn init(&mut self) -> (r: Result<(), OrionError>)
        ensures
            r is Ok,
            *final(self) == *old(self),
    {
        Ok(())
    }

    /// The path of the model file.
    pub fn model_path(&self) -> (r: &PathBuf)
        ensures
            *r == self.path(),
    {
        &self.model_path
    }

    /// Whether the backend can be used, given whether its model file is
    /// present: the file must be there and the tokenizer loaded.
    pub fn is_available(&self, model_file_present: bool) -> (r: bool)
        ensures
            r == (model_file_present && self.tokenizer_ready()),
    {
        model_file_present && self.tokenizer_loaded
    }

    /// The request for a plain completion of `prompt`.
    pub fn text_request(&self, prompt: &str) -> (r: GenerationRequest)
        ensures
            r.prompt@ == prompt@,
            r.max_tokens == TEXT_MAX_TOKENS,
    {
        GenerationRequest { prompt: String::from_str(prompt), max_tokens: TEXT_MAX_TOKENS }
    }

    /// The request for a summary of `contents`.
    pub fn summary_request(&self, contents: &[String], summary_type: SummaryType) -> (r:
        GenerationRequest)
        ensures
            r.prompt@ == summary_prompt(texts(contents@), summary_type),
            r.max_tokens == SUMMARY_MAX_TOKENS,
    {
        GenerationRequest {
            prompt: create_summary_prompt(contents, summary_type),
            max_tokens: SUMMARY_MAX_TOKENS,
        }
    }
}

/// The prompt that asks for a summary of `contents`: a heading with the
/// period's word, the contents with an empty line between them, and the
/// list of what the summary is to cover.
pub open spec fn summary_prompt(contents: Seq<Seq<char>>, summary_type: SummaryType) -> Seq<char> {
    "Genera un resumen "@ + summary_type.word() + " de los siguientes registros médicos:\n\n"@
        + joined(contents, "\n\n"@)
        + "\n\nEl resumen debe incluir:\n- Principales diagnósticos o síntomas\n- Medicamentos prescritos y cambios en tratamientos\n- Resultados de análisis o estudios relevantes\n- Tendencias observadas en signos vitales\n- Recomendaciones o seguimientos pendientes\n\nFormato: Texto estructurado y claro para el paciente."@
}

/// Builds the prompt that asks a backend for a summary of medical records.
pub fn create_summary_prompt(contents: &[String], summary_type: SummaryType) -> (r: String)
    ensures
        r@ == summary_prompt(texts(contents@), summary_type),
{
    let joined_contents = join(contents, "\n\n");
    let mut out = String::from_str("Genera un resumen ");
    out.append(summary_type.as_str());
    out.append(" de los siguientes registros médicos:\n\n");
    out.append(joined_contents.as_str());
    out.append(
        "\n\nEl resumen debe incluir:\n- Principales diagnósticos o síntomas\n- Medicamentos prescritos y cambios en tratamientos\n- Resultados de análisis o estudios relevantes\n- Tendencias observadas en signos vitales\n- Recomendaciones o seguimientos pendientes\n\nFormato: Texto estructurado y claro para el paciente.",
    );
    out
}

} // verus!
