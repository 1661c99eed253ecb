//! Configuration and assembly layer for a text-embedding runtime.
//!
//! A caller either selects a catalog model through [`InitOptions`] or brings
//! their own model bytes through [`UserDefinedEmbeddingModel`] (optionally
//! tuned by [`InitOptionsUserDefined`]).  The assembly step resolves pooling
//! and quantization, builds the tokenizer, records which execution provider
//! the inference engine accepted, and produces one immutable
//! [`TextEmbedding`] value that later inference calls read from.

use vstd::prelude::*;

pub mod common;
pub mod init;
pub mod models;
pub mod pooling;
pub mod progress;
pub mod providers;
pub mod text_embedding;
mod tokenizer_load;

pub use common::TokenizerFiles;
pub use init::{InitOptions, InitOptionsUserDefined, UserDefinedEmbeddingModel};
pub use models::{EmbeddingModel, QuantizationMode};
pub use pooling::Pooling;
pub use progress::{DebugIgnored, ProgressListener};
pub use providers::ExecutionProvider;
pub use text_embedding::{
    ConfigurationFault, EmbeddingError, PreparedRuntime, SessionInfo, SessionReport, TextEmbedding,
};

verus! {

/// Maximum input length used when the caller does not override it.
pub const DEFAULT_MAX_LENGTH: usize = 512;

/// Directory where downloaded model artifacts are kept between runs.
pub const DEFAULT_CACHE_DIR: &'static str = ".fastembed_cache";

/// Catalog model selected when the caller does not name one.
pub const DEFAULT_EMBEDDING_MODEL: models::EmbeddingModel =
    models::EmbeddingModel::AllMiniLML6V2;

} // verus!
