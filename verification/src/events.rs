//! Completion events: what a background task reports when it ends.

use crate::error::AppError;
use crate::ollama_api::{ModelInfo, ShowModelResponse};
use vstd::prelude::*;

verus! {

/// The one message a background task sends when it ends, with its result.
#[derive(Debug)]
pub enum AppEvent {
    /// The details of a local model were fetched.
    ModelDetailsFetched(Result<ShowModelResponse, AppError>),
    /// The names of the registry's models were fetched.
    RegistryModelsFetched(Result<Vec<String>, AppError>),
    /// The tags of one registry model were fetched.
    RegistryTagsFetched(Result<Vec<String>, AppError>),
    /// A pull ended; also sent when a delete failed.
    ModelPullCompleted(Result<(), AppError>),
    /// The list of local models was fetched again.
    LocalModelsRefreshed(Result<Vec<ModelInfo>, AppError>),
    /// The foreground program ended.
    OllamaRunCompleted(Result<(), AppError>),
}

} // verus!
