use vstd::prelude::*;

use crate::pooling::Pooling;

verus! {

/// Which numeric-precision variant of a model's weights is used.
#[derive(Clone, Copy, Debug, PartialEq, Eq, Structural)]
pub enum QuantizationMode {
    /// Full precision: the weights are not quantized.
    Off,
    Static,
    Dynamic,
}

/// Identity of a known embedding model: a fixed, compile-time catalog.
///
/// Each identity publishes the defaults the assembly step falls back on:
/// an output dimension, a default pooling strategy, the quantization mode
/// of the artifact it ships, and the hub code its files are fetched under.
#[derive(Clone, Copy, Debug, PartialEq, Eq, Structural)]
pub enum EmbeddingModel {
    AllMiniLML6V2,
    AllMiniLML6V2Q,
    BGESmallENV15,
    BGESmallENV15Q,
    ParaphraseMLMiniLML12V2,
    MxbaiEmbedLargeV1,
}

impl EmbeddingModel {
    /// Output dimension of the embedding this model produces.
    pub open spec fn spec_dim(self) -> nat {
        match self {
            EmbeddingModel::AllMiniLML6V2 => 384,
            EmbeddingModel::AllMiniLML6V2Q => 384,
            EmbeddingModel::BGESmallENV15 => 384,
            EmbeddingModel::BGESmallENV15Q => 384,
            EmbeddingModel::ParaphraseMLMiniLML12V2 => 384,
            EmbeddingModel::MxbaiEmbedLargeV1 => 1024,
        }
    }

    /// Pooling strategy recorded in the catalog for this model; the assembly
    /// step applies it because catalog options carry no pooling override.
    pub open spec fn spec_default_pooling(self) -> Pooling {
        match self {
            EmbeddingModel::AllMiniLML6V2 => Pooling::Mean,
            EmbeddingModel::AllMiniLML6V2Q => Pooling::Mean,
            EmbeddingModel::BGESmallENV15 => Pooling::Cls,
            EmbeddingModel::BGESmallENV15Q => Pooling::Cls,
            EmbeddingModel::ParaphraseMLMiniLML12V2 => Pooling::Mean,
            EmbeddingModel::MxbaiEmbedLargeV1 => Pooling::Cls,
        }
    }

    /// Quantization mode of the artifact variant this identity publishes.
    pub open spec fn spec_quantization(self) -> QuantizationMode {
        match self {
            EmbeddingModel::AllMiniLML6V2 => QuantizationMode::Off,
            EmbeddingModel::AllMiniLML6V2Q => QuantizationMode::Dynamic,
            EmbeddingModel::BGESmallENV15 => QuantizationMode::Off,
            EmbeddingModel::BGESmallENV15Q => QuantizationMode::Static,
            EmbeddingModel::ParaphraseMLMiniLML12V2 => QuantizationMode::Off,
            EmbeddingModel::MxbaiEmbedLargeV1 => QuantizationMode::Off,
        }
    }

    /// Hub code under which this model's artifacts are published.
    pub open spec fn spec_model_code(self) -> Seq<char> {
        match self {
            EmbeddingModel::AllMiniLML6V2 => "Qdrant/all-MiniLM-L6-v2-onnx"@,
            EmbeddingModel::AllMiniLML6V2Q => "Xenova/all-MiniLM-L6-v2"@,
            EmbeddingModel::BGESmallENV15 => "Xenova/bge-small-en-v1.5"@,
            EmbeddingModel::BGESmallENV15Q => "Qdrant/bge-small-en-v1.5-onnx-Q"@,
            EmbeddingModel::ParaphraseMLMiniLML12V2 => "Xenova/paraphrase-multilingual-MiniLM-L12-v2"@,
            EmbeddingModel::MxbaiEmbedLargeV1 => "mixedbread-ai/mxbai-embed-large-v1"@,
        }
    }

    pub fn dim(self) -> (r: usize)
        ensures
            r == self.spec_dim(),
    {
        match self {
            EmbeddingModel::AllMiniLML6V2 => 384,
            EmbeddingModel::AllMiniLML6V2Q => 384,
            EmbeddingModel::BGESmallENV15 => 384,
            EmbeddingModel::BGESmallENV15Q => 384,
            EmbeddingModel::ParaphraseMLMiniLML12V2 => 384,
            EmbeddingModel::MxbaiEmbedLargeV1 => 1024,
        }
    }

    pub fn default_pooling(self) -> (r: Pooling)
        ensures
            r == self.spec_default_pooling(),
    {
        match self {
            EmbeddingModel::AllMiniLML6V2 => Pooling::Mean,
            EmbeddingModel::AllMiniLML6V2Q => Pooling::Mean,
            EmbeddingModel::BGESmallENV15 => Pooling::Cls,
            EmbeddingModel::BGESmallENV15Q => Pooling::Cls,
            EmbeddingModel::ParaphraseMLMiniLML12V2 => Pooling::Mean,
            EmbeddingModel::MxbaiEmbedLargeV1 => Pooling::Cls,
        }
    }

    pub fn quantization(self) -> (r: QuantizationMode)
        ensures
            r == self.spec_quantization(),
    {
        match self {
            EmbeddingModel::AllMiniLML6V2 => QuantizationMode::Off,
            EmbeddingModel::AllMiniLML6V2Q => QuantizationMode::Dynamic,
            EmbeddingModel::BGESmallENV15 => QuantizationMode::Off,
            EmbeddingModel::BGESmallENV15Q => QuantizationMode::Static,
            EmbeddingModel::ParaphraseMLMiniLML12V2 => QuantizationMode::Off,
            EmbeddingModel::MxbaiEmbedLargeV1 => QuantizationMode::Off,
        }
    }

    /// Name of the on-disk artifact this identity's quantization mode
    /// selects: the quantized variant where one is published, the
    /// full-precision graph otherwise.
    pub open spec fn spec_artifact_file(self) -> Seq<char> {
        if self.spec_quantization() == QuantizationMode::Off {
            "model.onnx"@
        } else {
            "model_quantized.onnx"@
        }
    }

    pub fn artifact_file(self) -> (r: &'static str)
        ensures
            r@ == self.spec_artifact_file(),
    {
        match self.quantization() {
            QuantizationMode::Off => "model.onnx",
            QuantizationMode::Static => "model_quantized.onnx",
            QuantizationMode::Dynamic => "model_quantized.onnx",
        }
    }

    pub fn model_code(self) -> (r: &'static str)
        ensures
            r@ == self.spec_model_code(),
    {
        match self {
            EmbeddingModel::AllMiniLML6V2 => "Qdrant/all-MiniLM-L6-v2-onnx",
            EmbeddingModel::AllMiniLML6V2Q => "Xenova/all-MiniLM-L6-v2",
            EmbeddingModel::BGESmallENV15 => "Xenova/bge-small-en-v1.5",
            EmbeddingModel::BGESmallENV15Q => "Qdrant/bge-small-en-v1.5-onnx-Q",
            EmbeddingModel::ParaphraseMLMiniLML12V2 => "Xenova/paraphrase-multilingual-MiniLM-L12-v2",
            EmbeddingModel::MxbaiEmbedLargeV1 => "mixedbread-ai/mxbai-embed-large-v1",
        }
    }
}

} // verus!
