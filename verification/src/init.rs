use vstd::prelude::*;

use crate::common::{bytes_eq, TokenizerFiles};
use crate::models::{EmbeddingModel, QuantizationMode};
use crate::pooling::Pooling;
use crate::progress::{DebugIgnored, ProgressListener};
use crate::providers::ExecutionProvider;

verus! {

/// Options for assembling a runtime around a catalog-identified model.
///
/// Built fluently: `new` fills every field with its default, and each
/// `with_*` call takes the value and returns it with exactly its named field
/// replaced.  The one cross-field rule: attaching a custom progress listener
/// disables the built-in progress report, so the two representations of
/// "show progress" are never active at once.
pub struct InitOptions {
    pub model_name: EmbeddingModel,
    pub execution_providers: Vec<ExecutionProvider>,
    pub max_length: usize,
    pub cache_dir: String,
    pub show_download_progress: bool,
    pub custom_progress: Option<DebugIgnored<Box<dyn ProgressListener>>>,
}

impl InitOptions {
    /// Create options for the given catalog model, everything else defaulted.
    pub fn new(model_name: EmbeddingModel) -> (r: Self)
        ensures
            r.model_name == model_name,
            r.execution_providers@ =~= Seq::<ExecutionProvider>::empty(),
            r.max_length == crate::DEFAULT_MAX_LENGTH,
            r.cache_dir@ == crate::DEFAULT_CACHE_DIR@,
            r.show_download_progress,
            r.custom_progress is None,
    {
        let d = Self::default();
        InitOptions { model_name, ..d }
    }

    /// Set the maximum length of the input text.
    pub fn with_max_length(self, max_length: usize) -> (r: Self)
        ensures
            r == (InitOptions { max_length, ..self }),
    {
        InitOptions { max_length, ..self }
    }

    /// Set the cache directory for downloaded model files.
    pub fn with_cache_dir(self, cache_dir: String) -> (r: Self)
        ensures
            r == (InitOptions { cache_dir, ..self }),
    {
        InitOptions { cache_dir, ..self }
    }

    /// Set the execution providers, in priority order.
    pub fn with_execution_providers(self, execution_providers: Vec<ExecutionProvider>) -> (r: Self)
        ensures
            r == (InitOptions { execution_providers, ..self }),
    {
        InitOptions { execution_providers, ..self }
    }

    /// Set whether the built-in download progress report is shown.
    pub fn with_show_download_progress(self, show_download_progress: bool) -> (r: Self)
        ensures
            r == (InitOptions { show_download_progress, ..self }),
    {
        InitOptions { show_download_progress, ..self }
    }

    /// Attach a caller-supplied progress listener.
    ///
    /// Doing so unconditionally turns the built-in progress report off:
    /// the two must never be active together.
    pub fn with_custom_progress<P: ProgressListener + 'static>(self, progress: P) -> (r: Self)
        ensures
            r.custom_progress is Some,
            !r.show_download_progress,
            r.model_name == self.model_name,
            r.execution_providers == self.execution_providers,
            r.max_length == self.max_length,
            r.cache_dir == self.cache_dir,
    {
        InitOptions {
            custom_progress: Some(DebugIgnored(Box::new(progress))),
            show_download_progress: false,
            ..self
        }
    }
}

impl Default for InitOptions {
    /// The defaults: the default catalog model, no providers configured, the
    /// library-wide maximum length, the process-wide cache directory, the
    /// built-in progress report on, and no custom listener.
    fn default() -> (r: Self)
        ensures
            r.model_name == crate::DEFAULT_EMBEDDING_MODEL,
            r.execution_providers@ =~= Seq::<ExecutionProvider>::empty(),
            r.max_length == crate::DEFAULT_MAX_LENGTH,
            r.cache_dir@ == crate::DEFAULT_CACHE_DIR@,
            r.show_download_progress,
            r.custom_progress is None,
    {
        InitOptions {
            model_name: crate::DEFAULT_EMBEDDING_MODEL,
            execution_providers: Vec::new(),
            max_length: crate::DEFAULT_MAX_LENGTH,
            cache_dir: crate::DEFAULT_CACHE_DIR.to_owned(),
            show_download_progress: true,
            custom_progress: None,
        }
    }
}

impl Clone for InitOptions {
    /// A progress listener cannot be duplicated, so a clone carries
    /// `custom_progress == None` even when the original had one attached;
    /// every other field is preserved.
    fn clone(&self) -> (r: Self)
        ensures
            r.model_name == self.model_name,
            r.execution_providers@ == self.execution_providers@,
            r.max_length == self.max_length,
            r.cache_dir@ == self.cache_dir@,
            r.show_download_progress == self.show_download_progress,
            r.custom_progress is None,
    {
        let execution_providers = clone_providers(&self.execution_providers);
        InitOptions {
            model_name: self.model_name,
            execution_providers,
            max_length: self.max_length,
            cache_dir: self.cache_dir.clone(),
            show_download_progress: self.show_download_progress,
            custom_progress: None,
        }
    }
}

/// Copy a provider list element by element.
fn clone_providers(providers: &Vec<ExecutionProvider>) -> (r: Vec<ExecutionProvider>)
    ensures
        r@ == providers@,
{
    let mut r: Vec<ExecutionProvider> = Vec::new();
    let mut k: usize = 0;
    while k < providers.len()
        invariant
            k <= providers@.len(),
            r@ =~= providers@.take(k as int),
        decreases providers@.len() - k,
    {
        r.push(providers[k]);
        proof {
            assert(r@ =~= providers@.take(k as int + 1));
        }
        k = k + 1;
    }
    proof {
        assert(providers@.take(providers@.len() as int) =~= providers@);
    }
    r
}

/// Options for assembling a runtime around a caller-supplied model.
///
/// Carries only what applies to a model whose bytes are handed over
/// directly: execution providers and maximum length.  There is no model
/// identity, cache directory, or progress policy, because nothing is ever
/// fetched for such a model.
#[derive(Debug, Clone)]
#[non_exhaustive]
pub struct InitOptionsUserDefined {
    pub execution_providers: Vec<ExecutionProvider>,
    pub max_length: usize,
}

impl InitOptionsUserDefined {
    pub fn new() -> (r: Self)
        ensures
            r.execution_providers@ =~= Seq::<ExecutionProvider>::empty(),
            r.max_length == crate::DEFAULT_MAX_LENGTH,
    {
        Self::default()
    }

    /// Set the execution providers, in priority order.
    pub fn with_execution_providers(self, execution_providers: Vec<ExecutionProvider>) -> (r: Self)
        ensures
            r == (InitOptionsUserDefined { execution_providers, ..self }),
    {
        InitOptionsUserDefined { execution_providers, ..self }
    }

    /// Set the maximum length of the input text.
    pub fn with_max_length(self, max_length: usize) -> (r: Self)
        ensures
            r == (InitOptionsUserDefined { max_length, ..self }),
    {
        InitOptionsUserDefined { max_length, ..self }
    }
}

impl Default for InitOptionsUserDefined {
    fn default() -> (r: Self)
        ensures
            r.execution_providers@ =~= Seq::<ExecutionProvider>::empty(),
            r.max_length == crate::DEFAULT_MAX_LENGTH,
    {
        InitOptionsUserDefined {
            execution_providers: Vec::new(),
            max_length: crate::DEFAULT_MAX_LENGTH,
        }
    }
}

/// Narrow catalog options to user-defined options.
///
/// An explicit, lossy conversion: execution providers and maximum length
/// carry over exactly; model identity, cache directory, and progress policy
/// do not apply to a caller-supplied model and are discarded.
impl From<InitOptions> for InitOptionsUserDefined {
    fn from(options: InitOptions) -> (r: Self) {
        InitOptionsUserDefined {
            execution_providers: options.execution_providers,
            max_length: options.max_length,
        }
    }
}

impl vstd::std_specs::convert::FromSpecImpl<InitOptions> for InitOptionsUserDefined {
    open spec fn obeys_from_spec() -> bool {
        true
    }

    open spec fn from_spec(options: InitOptions) -> Self {
        InitOptionsUserDefined {
            execution_providers: options.execution_providers,
            max_length: options.max_length,
        }
    }
}

/// Narrowing catalog options preserves the execution-provider list and the
/// maximum length exactly; every other field of the catalog options is
/// discarded, as the result has no place for them.
pub proof fn lemma_narrowing_preserves_preferences(options: InitOptions)
    ensures
        <InitOptionsUserDefined as vstd::std_specs::convert::FromSpec<InitOptions>>::from_spec(
            options,
        ).execution_providers == options.execution_providers,
        <InitOptionsUserDefined as vstd::std_specs::convert::FromSpec<InitOptions>>::from_spec(
            options,
        ).max_length == options.max_length,
{
}

/// A caller-supplied embedding model: the model's graph bytes plus the
/// tokenizer file set, an optional pooling override, and a quantization
/// mode.  Built once, optionally extended fluently, then consumed by the
/// assembly step.
#[derive(Debug, Clone, Eq)]
#[non_exhaustive]
pub struct UserDefinedEmbeddingModel {
    pub onnx_file: Vec<u8>,
    pub tokenizer_files: TokenizerFiles,
    pub pooling: Option<Pooling>,
    pub quantization: QuantizationMode,
}

impl UserDefinedEmbeddingModel {
    /// Bundle graph bytes with their tokenizer files.  Quantization starts
    /// at `None` and pooling starts unset; content validation is deferred to
    /// the assembly step.
    pub fn new(onnx_file: Vec<u8>, tokenizer_files: TokenizerFiles) -> (r: Self)
        ensures
            r.onnx_file@ == onnx_file@,
            r.tokenizer_files == tokenizer_files,
            r.quantization == QuantizationMode::Off,
            r.pooling is None,
    {
        Self { onnx_file, tokenizer_files, quantization: QuantizationMode::Off, pooling: None }
    }

    /// Replace the quantization mode outright.
    pub fn with_quantization(self, quantization: QuantizationMode) -> (r: Self)
        ensures
            r == (UserDefinedEmbeddingModel { quantization, ..self }),
    {
        UserDefinedEmbeddingModel { quantization, ..self }
    }

    /// Replace the pooling override outright, whatever it was before.
    pub fn with_pooling(self, pooling: Pooling) -> (r: Self)
        ensures
            r == (UserDefinedEmbeddingModel { pooling: Some(pooling), ..self }),
            r.pooling == Some(pooling),
    {
        UserDefinedEmbeddingModel { pooling: Some(pooling), ..self }
    }
}

impl PartialEq for UserDefinedEmbeddingModel {
    fn eq(&self, other: &Self) -> (r: bool) {
        bytes_eq(&self.onnx_file, &other.onnx_file) && self.tokenizer_files == other.tokenizer_files
            && pooling_opt_eq(self.pooling, other.pooling) && self.quantization == other.quantization
    }
}

impl vstd::std_specs::cmp::PartialEqSpecImpl for UserDefinedEmbeddingModel {
    open spec fn obeys_eq_spec() -> bool {
        true
    }

    open spec fn eq_spec(&self, other: &Self) -> bool {
        &&& self.onnx_file@ == other.onnx_file@
        &&& vstd::std_specs::cmp::PartialEqSpec::eq_spec(
            &self.tokenizer_files,
            &other.tokenizer_files,
        )
        &&& self.pooling == other.pooling
        &&& self.quantization == other.quantization
    }
}

fn pooling_opt_eq(a: Option<Pooling>, b: Option<Pooling>) -> (r: bool)
    ensures
        r == (a == b),
{
    match (a, b) {
        (None, None) => true,
        (Some(x), Some(y)) => x == y,
        _ => false,
    }
}

/// Equality of user-defined models is structural: two are equal exactly when
/// their graph bytes, all four tokenizer files, the pooling override, and
/// the quantization mode agree; changing any one of them breaks it.
pub proof fn lemma_model_equality_is_structural(
    a: UserDefinedEmbeddingModel,
    b: UserDefinedEmbeddingModel,
)
    ensures
        vstd::std_specs::cmp::PartialEqSpec::eq_spec(&a, &b) <==> {
            &&& a.onnx_file@ == b.onnx_file@
            &&& a.tokenizer_files.tokenizer_file@ == b.tokenizer_files.tokenizer_file@
            &&& a.tokenizer_files.config_file@ == b.tokenizer_files.config_file@
            &&& a.tokenizer_files.special_tokens_map_file@
                == b.tokenizer_files.special_tokens_map_file@
            &&& a.tokenizer_files.tokenizer_config_file@
                == b.tokenizer_files.tokenizer_config_file@
            &&& a.pooling == b.pooling
            &&& a.quantization == b.quantization
        },
{
}

} // verus!
