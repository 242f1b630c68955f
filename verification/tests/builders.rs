use opengatellm::{
    ChatContent, ChatMessage, CollectionRequest, CollectionUpdateRequest, CollectionVisibility,
    CollectionsQuery, CreateDocument, CreateKey, CreateRerankBody, DocumentsQuery, EndpointUsage,
    KeysQuery, Role, SearchMethod, UpdateUserInfo, UsageQuery,
};

fn text_of(m: &ChatMessage) -> &str {
    match &m.content {
        Some(ChatContent::Text(s)) => s,
        other => panic!("expected text content, got {other:?}"),
    }
}

#[test]
fn chat_message_shortcuts() {
    let u = ChatMessage::user("Bonjour ?");
    assert_eq!(u.role, Role::User);
    assert_eq!(text_of(&u), "Bonjour ?");
    assert!(u.name.is_none() && u.tool_calls.is_none() && u.tool_call_id.is_none());
    let s = ChatMessage::system("Tu es un assistant utile.");
    assert_eq!(s.role, Role::System);
    assert_eq!(text_of(&s), "Tu es un assistant utile.");
    let a = ChatMessage::assistant("ok");
    assert_eq!(a.role, Role::Assistant);
    assert_eq!(text_of(&a), "ok");
    assert!(matches!(ChatContent::from("x".to_owned()), ChatContent::Text(t) if t == "x"));
}

#[test]
fn collection_builders_set_one_field() {
    let r = CollectionRequest::new("docs").visibility(CollectionVisibility::Public);
    assert_eq!(r.name, "docs");
    assert!(r.description.is_none());
    assert_eq!(r.visibility, Some(CollectionVisibility::Public));
    let r = r.description("d");
    assert_eq!(r.description.as_deref(), Some("d"));
    let u = CollectionUpdateRequest::new().name("n");
    assert_eq!(u.name.as_deref(), Some("n"));
    assert!(u.description.is_none() && u.visibility.is_none());
    let q = CollectionsQuery::new().limit(10).offset(20);
    assert_eq!((q.offset, q.limit), (Some(20), Some(10)));
}

#[test]
fn document_form_fields_in_order() {
    let f = CreateDocument::new(2).chunk_size(512).form_fields();
    assert_eq!(
        f,
        vec![
            ("collection_id".to_owned(), "2".to_owned()),
            ("chunk_size".to_owned(), "512".to_owned())
        ]
    );
    let f = CreateDocument::new(-7)
        .chunk_overlap(-5)
        .disable_chunking(true)
        .name("d.pdf")
        .chunk_size(0)
        .form_fields();
    assert_eq!(
        f,
        vec![
            ("collection_id".to_owned(), "-7".to_owned()),
            ("name".to_owned(), "d.pdf".to_owned()),
            ("disable_chunking".to_owned(), "true".to_owned()),
            ("chunk_size".to_owned(), "0".to_owned()),
            ("chunk_overlap".to_owned(), "-5".to_owned()),
        ]
    );
    let f = CreateDocument::default().disable_chunking(false).form_fields();
    assert_eq!(f, vec![("disable_chunking".to_owned(), "false".to_owned())]);
    assert!(CreateDocument::default().form_fields().is_empty());
    let f = CreateDocument::new(i64::MIN).form_fields();
    assert_eq!(f[0].1, "-9223372036854775808");
}

#[test]
fn documents_query_builders() {
    let q = DocumentsQuery::new().collection(2).limit(5);
    assert_eq!(q.collection_id, Some(2));
    assert_eq!(q.limit, Some(5));
    assert!(q.offset.is_none());
}

#[test]
fn update_user_info_password_sets_both() {
    let u = UpdateUserInfo::new().password("old", "new");
    assert_eq!(u.current_password.as_deref(), Some("old"));
    assert_eq!(u.password.as_deref(), Some("new"));
    assert!(u.name.is_none() && u.email.is_none());
    let u = u.name("Alice").email("a@b.fr");
    assert_eq!(u.name.as_deref(), Some("Alice"));
    assert_eq!(u.email.as_deref(), Some("a@b.fr"));
    assert_eq!(u.password.as_deref(), Some("new"));
}

#[test]
fn key_and_usage_queries() {
    let k = CreateKey::new("ci-key").expires(1000);
    assert_eq!(k.name, "ci-key");
    assert_eq!(k.expires, Some(1000));
    let q = KeysQuery::new().limit(50).order("name", "asc");
    assert_eq!(q.limit, Some(50));
    assert!(q.offset.is_none());
    assert_eq!(q.order_by.as_deref(), Some("name"));
    assert_eq!(q.order_direction.as_deref(), Some("asc"));
    let u = UsageQuery::new()
        .endpoint(EndpointUsage::Embeddings)
        .time_range(1, 2)
        .offset(3);
    assert_eq!(u.endpoint, Some(EndpointUsage::Embeddings));
    assert_eq!((u.start_time, u.end_time, u.offset, u.limit), (Some(1), Some(2), Some(3), None));
}

#[test]
fn rerank_body_keeps_documents_in_order() {
    let r = CreateRerankBody::new("quelle aide ?", &["doc a", "doc b"], "bge-reranker");
    assert_eq!(r.query, "quelle aide ?");
    assert_eq!(r.documents, vec!["doc a".to_owned(), "doc b".to_owned()]);
    assert_eq!(r.model, "bge-reranker");
    assert!(r.top_n.is_none());
    assert_eq!(r.top_n(3).top_n, Some(3));
}

#[test]
fn search_method_default_is_semantic() {
    assert_eq!(SearchMethod::default(), SearchMethod::Semantic);
}

#[test]
fn contents_from_str_hold_the_text() {
    assert!(matches!(ChatContent::from("Bonjour"), ChatContent::Text(t) if t == "Bonjour"));
    assert!(matches!(
        opengatellm::EmbeddingsInput::from("hello world"),
        opengatellm::EmbeddingsInput::Text(t) if t == "hello world"
    ));
}
