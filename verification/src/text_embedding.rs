use vstd::prelude::*;

use crate::common::TokenizerFiles;
use crate::init::{InitOptions, InitOptionsUserDefined, UserDefinedEmbeddingModel};
use crate::models::QuantizationMode;
use crate::pooling::Pooling;
use crate::providers::{
    first_success, spec_any_success, spec_is_first_success, ExecutionProvider,
};
use crate::tokenizer_load::{tokenizer_bytes_well_formed, tokenizer_from_bytes};
use tokenizers::Tokenizer;

verus! {

/// A defect in the caller's configuration, found before any engine work.
#[derive(Clone, Copy, Debug, PartialEq, Eq, Structural)]
pub enum ConfigurationFault {
    /// The configured maximum input length is zero.
    InvalidMaxLength,
    /// The supplied model graph has no bytes.
    EmptyModelBytes,
    /// Some tokenizer file role has no content.
    IncompleteTokenizerFiles,
    /// The tokenizer definition bytes do not parse.
    MalformedTokenizerFiles,
    /// A user-defined model carries no pooling override, and no catalog
    /// default exists to fall back on.
    PoolingUnresolved,
}

/// Why runtime assembly produced nothing.  Construction either fully
/// succeeds or surfaces exactly one of these; there is no partial runtime.
#[derive(Debug)]
pub enum EmbeddingError {
    /// The configuration itself is invalid.
    Configuration(ConfigurationFault),
    /// Model artifacts could not be fetched from the hub or the cache; only
    /// reachable for catalog-identified models.
    Resolution(String),
    /// Every configured execution provider failed to initialize, and so did
    /// the baseline.
    ProviderInitialization,
    /// The engine rejected the model graph bytes.
    GraphLoad,
}

/// What the shell that drives the inference engine observed while building
/// the session: whether the graph loaded, the graph's declared input names,
/// the outcome of each configured provider's initialization attempt (in
/// list order), and whether the baseline provider was available.
#[derive(Debug)]
pub struct SessionReport {
    pub graph_ok: bool,
    pub input_names: Vec<String>,
    pub provider_outcomes: Vec<bool>,
    pub baseline_ok: bool,
}

/// What the configuration layer records of the engine session it was
/// assembled around: the graph's declared inputs and the execution provider
/// that ended up active.  The engine's own handle stays with the shell that
/// built it.
pub struct SessionInfo {
    pub(crate) input_names: Vec<String>,
    pub(crate) active_provider: ExecutionProvider,
}

impl SessionInfo {
    /// The graph's declared input names, as recorded at assembly.
    pub closed spec fn spec_input_names(self) -> Seq<String> {
        self.input_names@
    }

    /// The provider that won the priority order.
    pub closed spec fn spec_active_provider(self) -> ExecutionProvider {
        self.active_provider
    }

    pub fn input_names(&self) -> (r: &Vec<String>)
        ensures
            r@ == self.spec_input_names(),
    {
        &self.input_names
    }

    pub fn active_provider(&self) -> (r: ExecutionProvider)
        ensures
            r == self.spec_active_provider(),
    {
        self.active_provider
    }
}

/// The configuration half of assembly, done: options validated, pooling and
/// quantization resolved, tokenizer built, graph bytes and provider order
/// ready for the engine.  Consumed by [`PreparedRuntime::finish`] once the
/// engine has been driven.
pub struct PreparedRuntime {
    pub(crate) tokenizer: Tokenizer,
    pub(crate) pooling: Pooling,
    pub(crate) quantization: QuantizationMode,
    pub(crate) max_length: usize,
    pub(crate) onnx_file: Vec<u8>,
    pub(crate) execution_providers: Vec<ExecutionProvider>,
}

impl PreparedRuntime {
    pub closed spec fn spec_tokenizer(self) -> Tokenizer {
        self.tokenizer
    }

    pub closed spec fn spec_pooling(self) -> Pooling {
        self.pooling
    }

    pub closed spec fn spec_quantization(self) -> QuantizationMode {
        self.quantization
    }

    pub closed spec fn spec_max_length(self) -> usize {
        self.max_length
    }

    pub closed spec fn spec_onnx_file(self) -> Seq<u8> {
        self.onnx_file@
    }

    pub closed spec fn spec_execution_providers(self) -> Seq<ExecutionProvider> {
        self.execution_providers@
    }

    /// The graph bytes the engine is to load.
    pub fn onnx_file(&self) -> (r: &Vec<u8>)
        ensures
            r@ == self.spec_onnx_file(),
    {
        &self.onnx_file
    }

    /// The configured providers, in priority order.
    pub fn execution_providers(&self) -> (r: &Vec<ExecutionProvider>)
        ensures
            r@ == self.spec_execution_providers(),
    {
        &self.execution_providers
    }
}

/// Some declared input is named `token_type_ids`: the graph then needs that
/// auxiliary input on every inference call.
pub open spec fn spec_mentions_token_type_ids(names: Seq<String>) -> bool {
    exists|i: int| 0 <= i < names.len() && (#[trigger] names[i])@ == "token_type_ids"@
}

fn contains_token_type_ids(names: &Vec<String>) -> (r: bool)
    ensures
        r == spec_mentions_token_type_ids(names@),
{
    let target: String = "token_type_ids".to_owned();
    let mut k: usize = 0;
    while k < names.len()
        invariant
            k <= names@.len(),
            target@ == "token_type_ids"@,
            forall|j: int| 0 <= j < k ==> (#[trigger] names@[j])@ != "token_type_ids"@,
        decreases names@.len() - k,
    {
        if names[k] == target {
            return true;
        }
        k = k + 1;
    }
    false
}

/// The first configuration defect of a user-defined model and its options,
/// checked in this fixed order; `None` when the configuration is clean.
pub open spec fn spec_user_defined_fault(
    model: UserDefinedEmbeddingModel,
    options: InitOptionsUserDefined,
) -> Option<ConfigurationFault> {
    if options.max_length == 0 {
        Some(ConfigurationFault::InvalidMaxLength)
    } else if model.onnx_file@.len() == 0 {
        Some(ConfigurationFault::EmptyModelBytes)
    } else if !model.tokenizer_files.spec_is_complete() {
        Some(ConfigurationFault::IncompleteTokenizerFiles)
    } else if model.pooling is None {
        Some(ConfigurationFault::PoolingUnresolved)
    } else if !tokenizer_bytes_well_formed(model.tokenizer_files.tokenizer_file@) {
        Some(ConfigurationFault::MalformedTokenizerFiles)
    } else {
        None
    }
}

/// The first configuration defect of catalog options and their fetched
/// artifacts, checked in this fixed order; `None` when clean.  A catalog
/// model can never be at fault for pooling: its catalog default always
/// applies.
pub open spec fn spec_catalog_fault(
    options: InitOptions,
    onnx_file: Seq<u8>,
    tokenizer_files: TokenizerFiles,
) -> Option<ConfigurationFault> {
    if options.max_length == 0 {
        Some(ConfigurationFault::InvalidMaxLength)
    } else if onnx_file.len() == 0 {
        Some(ConfigurationFault::EmptyModelBytes)
    } else if !tokenizer_files.spec_is_complete() {
        Some(ConfigurationFault::IncompleteTokenizerFiles)
    } else if !tokenizer_bytes_well_formed(tokenizer_files.tokenizer_file@) {
        Some(ConfigurationFault::MalformedTokenizerFiles)
    } else {
        None
    }
}

/// The assembled embedding runtime: a realized tokenizer, the resolved
/// pooling strategy, the record of the engine session, the quantization
/// mode, whether the graph needs token-type-ids, and the recorded maximum
/// input length.  Every field is immutable for the runtime's lifetime: no
/// method of this type mutates configuration.
pub struct TextEmbedding {
    pub tokenizer: Tokenizer,
    pub(crate) pooling: Option<Pooling>,
    pub(crate) session: SessionInfo,
    pub(crate) need_token_type_ids: bool,
    pub(crate) quantization: QuantizationMode,
    pub(crate) max_length: usize,
}

impl TextEmbedding {
    pub closed spec fn spec_tokenizer(self) -> Tokenizer {
        self.tokenizer
    }

    pub closed spec fn spec_pooling(self) -> Option<Pooling> {
        self.pooling
    }

    pub closed spec fn spec_session(self) -> SessionInfo {
        self.session
    }

    pub closed spec fn spec_need_token_type_ids(self) -> bool {
        self.need_token_type_ids
    }

    pub closed spec fn spec_quantization(self) -> QuantizationMode {
        self.quantization
    }

    pub closed spec fn spec_max_length(self) -> usize {
        self.max_length
    }

    pub fn pooling(&self) -> (r: Option<Pooling>)
        ensures
            r == self.spec_pooling(),
    {
        self.pooling
    }

    pub fn quantization(&self) -> (r: QuantizationMode)
        ensures
            r == self.spec_quantization(),
    {
        self.quantization
    }

    pub fn max_length(&self) -> (r: usize)
        ensures
            r == self.spec_max_length(),
    {
        self.max_length
    }

    pub fn need_token_type_ids(&self) -> (r: bool)
        ensures
            r == self.spec_need_token_type_ids(),
    {
        self.need_token_type_ids
    }

    pub fn session(&self) -> (r: &SessionInfo)
        ensures
            r == self.spec_session(),
    {
        &self.session
    }

    /// Validate a user-defined model and its options, resolve pooling and
    /// quantization, and build the tokenizer.
    ///
    /// Pooling resolution must not guess: with no override on the model and
    /// no catalog default to fall back on, assembly fails with a
    /// configuration error rather than silently picking a strategy.
    pub fn prepare_user_defined(
        model: UserDefinedEmbeddingModel,
        options: InitOptionsUserDefined,
    ) -> (r: Result<PreparedRuntime, EmbeddingError>)
        ensures
            spec_user_defined_fault(model, options) matches Some(fault) ==> r == Err::<
                PreparedRuntime,
                EmbeddingError,
            >(EmbeddingError::Configuration(fault)),
            spec_user_defined_fault(model, options) is None ==> (r matches Ok(p) && {
                &&& Some(p.spec_pooling()) == model.pooling
                &&& p.spec_quantization() == model.quantization
                &&& p.spec_max_length() == options.max_length
                &&& p.spec_onnx_file() == model.onnx_file@
                &&& p.spec_execution_providers() == options.execution_providers@
            }),
    {
        if options.max_length == 0 {
            return Err(EmbeddingError::Configuration(ConfigurationFault::InvalidMaxLength));
        }
        if model.onnx_file.len() == 0 {
            return Err(EmbeddingError::Configuration(ConfigurationFault::EmptyModelBytes));
        }
        if !model.tokenizer_files.is_complete() {
            return Err(EmbeddingError::Configuration(ConfigurationFault::IncompleteTokenizerFiles));
        }
        let pooling = match model.pooling {
            Some(p) => p,
            None => {
                return Err(EmbeddingError::Configuration(ConfigurationFault::PoolingUnresolved));
            },
        };
        let tokenizer = match tokenizer_from_bytes(&model.tokenizer_files.tokenizer_file) {
            Ok(t) => t,
            Err(_) => {
                return Err(
                    EmbeddingError::Configuration(ConfigurationFault::MalformedTokenizerFiles),
                );
            },
        };
        Ok(PreparedRuntime {
            tokenizer,
            pooling,
            quantization: model.quantization,
            max_length: options.max_length,
            onnx_file: model.onnx_file,
            execution_providers: options.execution_providers,
        })
    }

    /// Validate catalog options against the artifacts fetched for the
    /// selected model, resolve pooling and quantization from the catalog,
    /// and build the tokenizer.
    ///
    /// The artifacts are handed in by the shell that fetched them: this
    /// layer never touches the network or the cache itself.
    pub fn prepare_catalog(
        options: InitOptions,
        onnx_file: Vec<u8>,
        tokenizer_files: TokenizerFiles,
    ) -> (r: Result<PreparedRuntime, EmbeddingError>)
        ensures
            spec_catalog_fault(options, onnx_file@, tokenizer_files) matches Some(fault) ==> r
                == Err::<PreparedRuntime, EmbeddingError>(EmbeddingError::Configuration(fault)),
            spec_catalog_fault(options, onnx_file@, tokenizer_files) is None ==> (r matches Ok(p)
                && {
                &&& p.spec_pooling() == options.model_name.spec_default_pooling()
                &&& p.spec_quantization() == options.model_name.spec_quantization()
                &&& p.spec_max_length() == options.max_length
                &&& p.spec_onnx_file() == onnx_file@
                &&& p.spec_execution_providers() == options.execution_providers@
            }),
    {
        if options.max_length == 0 {
            return Err(EmbeddingError::Configuration(ConfigurationFault::InvalidMaxLength));
        }
        if onnx_file.len() == 0 {
            return Err(EmbeddingError::Configuration(ConfigurationFault::EmptyModelBytes));
        }
        if !tokenizer_files.is_complete() {
            return Err(EmbeddingError::Configuration(ConfigurationFault::IncompleteTokenizerFiles));
        }
        let tokenizer = match tokenizer_from_bytes(&tokenizer_files.tokenizer_file) {
            Ok(t) => t,
            Err(_) => {
                return Err(
                    EmbeddingError::Configuration(ConfigurationFault::MalformedTokenizerFiles),
                );
            },
        };
        Ok(PreparedRuntime {
            tokenizer,
            pooling: options.model_name.default_pooling(),
            quantization: options.model_name.quantization(),
            max_length: options.max_length,
            onnx_file,
            execution_providers: options.execution_providers,
        })
    }
}

impl PreparedRuntime {
    /// Fold the engine's report into the prepared configuration and produce
    /// the finished runtime.
    ///
    /// The provider that wins is the first in the configured order whose
    /// initialization succeeded; when none did but the baseline could
    /// initialize, the baseline wins.  A graph the engine rejected, or a
    /// report in which every provider and the baseline failed, yields an
    /// error and no runtime.
    pub fn finish(self, report: SessionReport) -> (r: Result<TextEmbedding, EmbeddingError>)
        requires
            report.provider_outcomes@.len() == self.spec_execution_providers().len(),
        ensures
            !report.graph_ok ==> r == Err::<TextEmbedding, EmbeddingError>(
                EmbeddingError::GraphLoad,
            ),
            report.graph_ok && !spec_any_success(report.provider_outcomes@) && !report.baseline_ok
                ==> r == Err::<TextEmbedding, EmbeddingError>(
                EmbeddingError::ProviderInitialization,
            ),
            report.graph_ok && (spec_any_success(report.provider_outcomes@) || report.baseline_ok)
                ==> (r matches Ok(te) && {
                &&& te.spec_tokenizer() == self.spec_tokenizer()
                &&& te.spec_pooling() == Some(self.spec_pooling())
                &&& te.spec_quantization() == self.spec_quantization()
                &&& te.spec_max_length() == self.spec_max_length()
                &&& te.spec_session().spec_input_names() == report.input_names@
                &&& te.spec_need_token_type_ids() == spec_mentions_token_type_ids(
                    report.input_names@,
                )
                &&& forall|i: int|
                    spec_is_first_success(report.provider_outcomes@, i)
                        ==> te.spec_session().spec_active_provider()
                        == self.spec_execution_providers()[i]
                &&& !spec_any_success(report.provider_outcomes@)
                    ==> te.spec_session().spec_active_provider() == ExecutionProvider::Cpu
            }),
    {
        let PreparedRuntime {
            tokenizer,
            pooling,
            quantization,
            max_length,
            onnx_file: _,
            execution_providers,
        } = self;
        if !report.graph_ok {
            return Err(EmbeddingError::GraphLoad);
        }
        let active: ExecutionProvider = match first_success(&report.provider_outcomes) {
            Some(i) => {
                proof {
                    assert forall|i2: int|
                        spec_is_first_success(report.provider_outcomes@, i2) implies i2
                        == i as int by {
                        if i2 < i as int {
                            assert(!report.provider_outcomes@[i2]);
                        }
                        if i2 > i as int {
                            assert(!report.provider_outcomes@[i as int]);
                        }
                    }
                }
                execution_providers[i]
            },
            None => {
                if report.baseline_ok {
                    ExecutionProvider::Cpu
                } else {
                    return Err(EmbeddingError::ProviderInitialization);
                }
            },
        };
        let need_token_type_ids = contains_token_type_ids(&report.input_names);
        Ok(TextEmbedding {
            tokenizer,
            pooling: Some(pooling),
            session: SessionInfo { input_names: report.input_names, active_provider: active },
            need_token_type_ids,
            quantization,
            max_length,
        })
    }
}

} // verus!
