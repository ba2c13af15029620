use memory_mcp::embedding::{EmbeddingConfig, ModelType};
use std::str::FromStr;

#[test]
fn test_model_type_from_str() {
    assert_eq!(ModelType::from_str("e5-small").unwrap(), ModelType::E5Small);
    assert_eq!(ModelType::from_str("E5_MULTI").unwrap(), ModelType::E5Multi);
    assert_eq!(ModelType::from_str("nomic").unwrap(), ModelType::Nomic);
    assert_eq!(ModelType::from_str("bge-m3").unwrap(), ModelType::BgeM3);
    assert!(ModelType::from_str("unknown").is_err());
}

#[test]
fn test_model_type_display() {
    assert_eq!(ModelType::E5Small.to_string(), "e5_small");
    assert_eq!(ModelType::E5Multi.to_string(), "e5_multi");
}

#[test]
fn test_model_dimensions() {
    assert_eq!(ModelType::E5Small.dimensions(), 384);
    assert_eq!(ModelType::E5Multi.dimensions(), 768);
    assert_eq!(ModelType::BgeM3.dimensions(), 1024);
}

#[test]
fn test_default_config() {
    let config = EmbeddingConfig::default();
    assert_eq!(config.model, ModelType::E5Multi);
    assert_eq!(config.cache_size, 1000);
}

#[test]
fn unknown_model_message_and_aliases() {
    assert_eq!(ModelType::from_str("gpt").unwrap_err(), "Unknown model: gpt");
    assert_eq!(ModelType::from_str("E5-Base").unwrap(), ModelType::E5Multi);
    assert_eq!(ModelType::from_str("MOCK").unwrap(), ModelType::Mock);
    assert_eq!(ModelType::BgeM3.repo_id(), "BAAI/bge-m3");
    assert_eq!(ModelType::Mock.dimensions(), 768);
    assert_eq!(ModelType::default(), ModelType::E5Multi);
}

#[test]
fn model_names_read_back_in_any_case() {
    for m in [ModelType::E5Small, ModelType::E5Multi, ModelType::Nomic, ModelType::BgeM3, ModelType::Mock] {
        assert_eq!(ModelType::from_str(&m.to_string()), Ok(m));
        assert_eq!(ModelType::from_str(&m.to_string().to_uppercase()), Ok(m));
    }
}
