use fastembed::{Pooling, QuantizationMode, TokenizerFiles, UserDefinedEmbeddingModel};

fn files() -> TokenizerFiles {
    TokenizerFiles {
        tokenizer_file: b"tokenizer".to_vec(),
        config_file: b"config".to_vec(),
        special_tokens_map_file: b"special".to_vec(),
        tokenizer_config_file: b"tokenizer-config".to_vec(),
    }
}

#[test]
fn new_model_starts_unquantized_and_unpooled() {
    let model = UserDefinedEmbeddingModel::new(b"graph".to_vec(), files());
    assert_eq!(model.quantization, QuantizationMode::Off);
    assert!(model.pooling.is_none());
    assert_eq!(model.onnx_file, b"graph".to_vec());
}

#[test]
fn with_pooling_replaces_whatever_was_set() {
    let model = UserDefinedEmbeddingModel::new(b"graph".to_vec(), files())
        .with_pooling(Pooling::Mean)
        .with_pooling(Pooling::Cls);
    assert_eq!(model.pooling, Some(Pooling::Cls));
}

#[test]
fn with_quantization_replaces_whatever_was_set() {
    let model = UserDefinedEmbeddingModel::new(b"graph".to_vec(), files())
        .with_quantization(QuantizationMode::Static)
        .with_quantization(QuantizationMode::Dynamic);
    assert_eq!(model.quantization, QuantizationMode::Dynamic);
}

#[test]
fn identical_inputs_build_equal_models() {
    let a = UserDefinedEmbeddingModel::new(b"graph".to_vec(), files())
        .with_pooling(Pooling::Mean)
        .with_quantization(QuantizationMode::Static);
    let b = UserDefinedEmbeddingModel::new(b"graph".to_vec(), files())
        .with_pooling(Pooling::Mean)
        .with_quantization(QuantizationMode::Static);
    assert_eq!(a, b);
}

#[test]
fn changing_any_field_breaks_equality() {
    let base = UserDefinedEmbeddingModel::new(b"graph".to_vec(), files());

    let other_bytes = UserDefinedEmbeddingModel::new(b"other".to_vec(), files());
    assert_ne!(base, other_bytes);

    let mut other_files = files();
    other_files.config_file = b"changed".to_vec();
    let with_other_files = UserDefinedEmbeddingModel::new(b"graph".to_vec(), other_files);
    assert_ne!(base, with_other_files);

    let with_pooling =
        UserDefinedEmbeddingModel::new(b"graph".to_vec(), files()).with_pooling(Pooling::Cls);
    assert_ne!(base, with_pooling);

    let with_quant = UserDefinedEmbeddingModel::new(b"graph".to_vec(), files())
        .with_quantization(QuantizationMode::Dynamic);
    assert_ne!(base, with_quant);
}

#[test]
fn tokenizer_file_sets_compare_by_bytes() {
    assert_eq!(files(), files());
    let mut other = files();
    other.special_tokens_map_file = b"different".to_vec();
    assert_ne!(files(), other);
}
