use fastembed::{
    EmbeddingModel, ExecutionProvider, InitOptions, InitOptionsUserDefined, ProgressListener,
    DEFAULT_CACHE_DIR, DEFAULT_EMBEDDING_MODEL, DEFAULT_MAX_LENGTH,
};

struct CountingListener {
    updates: usize,
}

impl ProgressListener for CountingListener {
    fn init(&mut self, _size: usize, _filename: &str) {}

    fn update(&mut self, size: usize) {
        self.updates += size;
    }

    fn finish(&mut self) {}
}

#[test]
fn default_options_have_builtin_progress_and_no_listener() {
    let options = InitOptions::default();
    assert!(options.show_download_progress);
    assert!(options.custom_progress.is_none());
    assert_eq!(options.model_name, DEFAULT_EMBEDDING_MODEL);
    assert_eq!(options.max_length, DEFAULT_MAX_LENGTH);
    assert_eq!(options.cache_dir, DEFAULT_CACHE_DIR.to_owned());
    assert!(options.execution_providers.is_empty());
}

#[test]
fn new_keeps_model_and_defaults_everything_else() {
    let options = InitOptions::new(EmbeddingModel::BGESmallENV15);
    assert_eq!(options.model_name, EmbeddingModel::BGESmallENV15);
    assert_eq!(options.max_length, DEFAULT_MAX_LENGTH);
    assert!(options.show_download_progress);
    assert!(options.custom_progress.is_none());
}

#[test]
fn builder_chain_touches_only_named_fields() {
    let options = InitOptions::new(EmbeddingModel::MxbaiEmbedLargeV1)
        .with_max_length(256)
        .with_cache_dir("elsewhere".to_owned())
        .with_execution_providers(vec![ExecutionProvider::Cuda, ExecutionProvider::Cpu])
        .with_show_download_progress(false);
    assert_eq!(options.model_name, EmbeddingModel::MxbaiEmbedLargeV1);
    assert_eq!(options.max_length, 256);
    assert_eq!(options.cache_dir, "elsewhere".to_owned());
    assert_eq!(
        options.execution_providers,
        vec![ExecutionProvider::Cuda, ExecutionProvider::Cpu]
    );
    assert!(!options.show_download_progress);
    assert!(options.custom_progress.is_none());
}

#[test]
fn custom_progress_disables_builtin_report() {
    let options = InitOptions::new(EmbeddingModel::AllMiniLML6V2)
        .with_show_download_progress(true)
        .with_custom_progress(CountingListener { updates: 0 });
    assert!(options.custom_progress.is_some());
    assert!(!options.show_download_progress);
    assert_eq!(options.model_name, EmbeddingModel::AllMiniLML6V2);
}

#[test]
fn clone_never_carries_the_listener() {
    let options = InitOptions::new(EmbeddingModel::AllMiniLML6V2)
        .with_max_length(128)
        .with_custom_progress(CountingListener { updates: 0 });
    let copy = options.clone();
    assert!(options.custom_progress.is_some());
    assert!(copy.custom_progress.is_none());
    assert_eq!(copy.model_name, options.model_name);
    assert_eq!(copy.max_length, 128);
    assert_eq!(copy.cache_dir, options.cache_dir);
    assert_eq!(copy.show_download_progress, options.show_download_progress);
}

#[test]
fn clone_of_default_options_matches() {
    let options = InitOptions::default();
    let copy = options.clone();
    assert!(copy.show_download_progress);
    assert!(copy.custom_progress.is_none());
}

#[test]
fn user_defined_options_defaults() {
    let options = InitOptionsUserDefined::new();
    assert_eq!(options.max_length, DEFAULT_MAX_LENGTH);
    assert!(options.execution_providers.is_empty());
    let tuned = options
        .with_execution_providers(vec![ExecutionProvider::TensorRt])
        .with_max_length(64);
    assert_eq!(tuned.execution_providers, vec![ExecutionProvider::TensorRt]);
    assert_eq!(tuned.max_length, 64);
}

#[test]
fn narrowing_preserves_providers_and_max_length() {
    let options = InitOptions::new(EmbeddingModel::BGESmallENV15Q)
        .with_max_length(333)
        .with_cache_dir("somewhere".to_owned())
        .with_execution_providers(vec![ExecutionProvider::DirectMl, ExecutionProvider::CoreMl])
        .with_custom_progress(CountingListener { updates: 0 });
    let narrowed = InitOptionsUserDefined::from(options);
    assert_eq!(
        narrowed.execution_providers,
        vec![ExecutionProvider::DirectMl, ExecutionProvider::CoreMl]
    );
    assert_eq!(narrowed.max_length, 333);
}

#[test]
fn ignored_values_render_as_a_fixed_placeholder() {
    assert_eq!(
        fastembed::DebugIgnored::<u8>::placeholder(),
        "<custom progress>"
    );
}

#[test]
fn listener_is_usable_through_the_box() {
    let options =
        InitOptions::default().with_custom_progress(CountingListener { updates: 0 });
    let mut listener = options.custom_progress.unwrap().into_inner();
    listener.init(10, "model.onnx");
    listener.update(4);
    listener.update(6);
    listener.finish();
}
