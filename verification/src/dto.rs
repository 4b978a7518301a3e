//! Application boundary records of model metadata. Domain types never depend on
//! them; hosts serialize them at their edge.
use vstd::prelude::*;

verus! {

/// Which modalities a model accepts or produces.
#[derive(Clone, Copy, Debug, PartialEq, Eq, Structural)]
pub struct ModalitiesDto {
    /// Text.
    pub text: bool,
    /// Images.
    pub image: bool,
    /// Audio.
    pub audio: bool,
}

/// Published metadata of one provider model.
#[derive(Clone, Debug, PartialEq, Eq)]
pub struct ModelMetadataDto {
    /// Provider name.
    pub provider: String,
    /// Provider's model identity.
    pub model_id: String,
    /// Display name.
    pub display_name: String,
    /// Accepted modalities.
    pub input: ModalitiesDto,
    /// Produced modalities.
    pub output: ModalitiesDto,
    /// Whether the model uses tools.
    pub tool_use: bool,
    /// Whether the model reasons before answering.
    pub reasoning: bool,
    /// Published model context ceiling, not a configured window.
    pub max_context_window_tokens: u32,
    /// Standard output ceiling, excluding beta or batch extensions.
    pub max_output_tokens: u32,
    /// Published knowledge cutoff: YYYY-MM or YYYY-MM-DD.
    pub knowledge_cutoff: String,
    /// Documentation address.
    pub documentation_url: String,
}

} // verus!
