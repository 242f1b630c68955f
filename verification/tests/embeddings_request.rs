use opengatellm::{EmbeddingsInput, EmbeddingsRequest, EncodingFormat};

#[test]
fn encoding_format_default_is_float() {
    let f: EncodingFormat = EncodingFormat::default();
    assert_eq!(f, EncodingFormat::Float);
}

#[test]
fn embeddings_request_builder_sets_fields() {
    let req = EmbeddingsRequest::new(
        EmbeddingsInput::TextBatch(vec!["a".to_owned(), "b".to_owned()]),
        "m",
    )
    .dimensions(512)
    .encoding_format(EncodingFormat::Base64);
    assert_eq!(req.model, "m");
    assert_eq!(req.dimensions, Some(512));
    assert_eq!(req.encoding_format, Some(EncodingFormat::Base64));
    match req.input {
        EmbeddingsInput::TextBatch(v) => assert_eq!(v, vec!["a".to_owned(), "b".to_owned()]),
        other => panic!("unexpected input {other:?}"),
    }
}

#[test]
fn embeddings_request_minimal_leaves_options_unset() {
    let req = EmbeddingsRequest::new(EmbeddingsInput::from("hello world".to_owned()), "nomic-embed-text");
    assert!(matches!(&req.input, EmbeddingsInput::Text(s) if s == "hello world"));
    assert_eq!(req.model, "nomic-embed-text");
    assert!(req.dimensions.is_none());
    assert!(req.encoding_format.is_none());
}
