//! The failures a request can end in.

use vstd::prelude::*;

verus! {

/// Why a request was turned away or a session was cut short.
#[derive(Clone, Copy, Debug, PartialEq, Eq, Structural)]
pub enum ServeError {
    /// The requested model is not among the loaded ones.
    ModelNotFound,
    /// A message carries a role that no template renders.
    InvalidRole,
    /// The engine's compiler would stop the program on a template instead
    /// of answering.
    TemplateUnsupported,
    /// The template engine refused a template's text.
    TemplateRejected,
    /// The template engine could not render a message.
    RenderFailed,
    /// The prompt alone is longer than the context window.
    PromptTooLarge,
    /// The inference backend failed while sampling or decoding, or fell
    /// silent before the session was complete.
    BackendFailure,
    /// The consumer of the events went away before the session was
    /// complete.
    Cancelled,
}

impl ServeError {
    /// What the client is told.
    pub open spec fn spec_message(self) -> Seq<char> {
        match self {
            ServeError::ModelNotFound => "Model not found"@,
            ServeError::InvalidRole => "Invalid role"@,
            ServeError::TemplateUnsupported => "Template uses unsupported syntax"@,
            ServeError::TemplateRejected => "Template could not be compiled"@,
            ServeError::RenderFailed => "Template could not be rendered"@,
            ServeError::PromptTooLarge => "n_len > n_ctx, the prompt is to big to fit in context"@,
            ServeError::BackendFailure => "Generation failed"@,
            ServeError::Cancelled => "Generation cancelled"@,
        }
    }

    /// What the client is told.
    pub fn message(&self) -> (r: &'static str)
        ensures
            r@ == self.spec_message(),
    {
        match self {
            ServeError::ModelNotFound => "Model not found",
            ServeError::InvalidRole => "Invalid role",
            ServeError::TemplateUnsupported => "Template uses unsupported syntax",
            ServeError::TemplateRejected => "Template could not be compiled",
            ServeError::RenderFailed => "Template could not be rendered",
            ServeError::PromptTooLarge => "n_len > n_ctx, the prompt is to big to fit in context",
            ServeError::BackendFailure => "Generation failed",
            ServeError::Cancelled => "Generation cancelled",
        }
    }
}

} // verus!
