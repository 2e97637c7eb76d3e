use vector_embed::chunk::FileChunk;
use vector_embed::embedder::{
    chunk_embed_request, clone_strings, create_embed_request, fetch_embedding, frame_embed_body,
    join_url, own_strings, EmbedError, EmbedRequest, EmbedResponse, EMBEDDING_MODEL,
    OLLAMA_EMBED_API, OPEN_AI_EMBED_API, OPEN_AI_URL,
};
use vector_embed::schema::VECTOR_DB_DIM_SIZE;

fn request(provider: &str, input: Vec<&str>) -> EmbedRequest {
    EmbedRequest::NewEmbedRequest(provider, "http://localhost:11434", "secret", "test-model", input, Some(4))
}

fn vector(value: f32) -> Vec<u32> {
    vec![value.to_bits(); VECTOR_DB_DIM_SIZE as usize]
}

#[test]
fn new_embed_request_holds_its_arguments() {
    let req = request("ollama", vec!["a", "b"]);
    assert_eq!(req.provider, "ollama");
    assert_eq!(req.api_url, "http://localhost:11434");
    assert_eq!(req.api_key, "secret");
    assert_eq!(req.model, "test-model");
    assert_eq!(req.input, vec!["a".to_string(), "b".to_string()]);
    assert_eq!(req.metadata, None);
    assert_eq!(req.chunk_number, Some(4));
    assert_eq!(req.get_api_key(), "secret");
    assert_eq!(req.get_model(), "test-model");
    assert_eq!(req.get_input(), vec!["a".to_string(), "b".to_string()]);
}

#[test]
fn new_arc_embed_request_carries_metadata() {
    let input = vec!["query".to_string()];
    let req = EmbedRequest::NewArcEmbedRequest("ollama", "url", "key", "model", &input, "", None);
    assert_eq!(req.metadata, Some(String::new()));
    assert_eq!(req.chunk_number, None);
    assert_eq!(req.input, input);
}

#[test]
fn empty_embed_request_is_empty() {
    let req = EmbedRequest::EmptyEmbedRequest();
    assert_eq!(req.provider, "");
    assert_eq!(req.api_url, "");
    assert_eq!(req.api_key, "");
    assert_eq!(req.model, "");
    assert!(req.input.is_empty());
    assert_eq!(req.metadata, None);
    assert_eq!(req.chunk_number, None);
}

#[test]
fn add_input_and_set_model_change_only_their_field() {
    let mut req = request("ollama", vec!["a"]);
    req.add_input("b");
    assert_eq!(req.get_input(), vec!["a".to_string(), "b".to_string()]);
    assert_eq!(req.get_model(), "test-model");
    req.set_model("other".to_string());
    assert_eq!(req.get_model(), "other");
    assert_eq!(req.get_input().len(), 2);
    assert_eq!(req.provider, "ollama");
    assert_eq!(req.chunk_number, Some(4));
}

#[test]
fn embed_url_of_local_server_lies_below_its_address() {
    let req = request("ollama", vec![]);
    assert_eq!(req.get_embed_url(), "http://localhost:11434/api/embed");
    assert_eq!(req.try_get_embed_url(), Some("http://localhost:11434/api/embed".to_string()));
    assert_eq!(OLLAMA_EMBED_API, "api/embed");
}

#[test]
fn embed_url_of_hosted_service_is_fixed() {
    let req = request("openai", vec![]);
    assert_eq!(req.get_embed_url(), "https://api.openai.com/v1/embeddings");
    assert_eq!(OPEN_AI_URL, "https://api.openai.com");
    assert_eq!(OPEN_AI_EMBED_API, "v1/embeddings");
    assert_eq!(EMBEDDING_MODEL, "nomic-embed-text");
}

#[test]
fn provider_name_counts_in_any_letter_case() {
    assert_eq!(request("OpenAI", vec![]).get_embed_url(), "https://api.openai.com/v1/embeddings");
    assert_eq!(request("OLLAMA", vec![]).get_embed_url(), "http://localhost:11434/api/embed");
}

#[test]
fn unknown_provider_has_no_embed_url() {
    assert_eq!(request("mistral", vec![]).try_get_embed_url(), None);
    assert_eq!(request("", vec![]).try_get_embed_url(), None);
    assert_eq!(request(" ollama", vec![]).try_get_embed_url(), None);
}

#[test]
fn join_url_puts_a_slash_between() {
    assert_eq!(join_url("http://h", "api/x"), "http://h/api/x");
    assert_eq!(join_url("", ""), "/");
}

#[test]
fn to_json_holds_model_and_input() {
    let req = request("ollama", vec!["first", "second"]);
    assert_eq!(req.to_json(), Ok("{\"model\":\"test-model\",\"input\":[\"first\",\"second\"]}".to_string()));
    let none = request("ollama", vec![]);
    assert_eq!(none.to_json(), Ok("{\"model\":\"test-model\",\"input\":[]}".to_string()));
}

#[test]
fn to_json_escapes_what_json_does_not_take() {
    let req = request("ollama", vec!["say \"hi\"\n\tback\\slash"]);
    assert_eq!(
        req.to_json(),
        Ok("{\"model\":\"test-model\",\"input\":[\"say \\\"hi\\\"\\n\\tback\\\\slash\"]}".to_string())
    );
}

#[test]
fn frame_embed_body_joins_with_commas() {
    let input = vec!["1".to_string(), "2".to_string(), "3".to_string()];
    assert_eq!(frame_embed_body("M", &input), "{\"model\":M,\"input\":[1,2,3]}");
}

#[test]
fn create_embed_request_is_a_post_with_bearer_token() {
    let req = request("ollama", vec!["text"]);
    let http = create_embed_request(&req).unwrap();
    assert_eq!(http.method, "POST");
    assert_eq!(http.uri, "http://localhost:11434/api/embed");
    assert_eq!(
        http.headers,
        vec![
            ("Content-Type".to_string(), "application/json".to_string()),
            ("Authorization".to_string(), "Bearer secret".to_string()),
        ]
    );
    assert_eq!(http.body, "{\"model\":\"test-model\",\"input\":[\"text\"]}");
}

#[test]
fn create_embed_request_refuses_unknown_provider() {
    let req = request("elsewhere", vec!["text"]);
    assert_eq!(create_embed_request(&req).err(), Some(EmbedError::UnsupportedProvider));
}

#[test]
fn fetch_embedding_takes_a_matching_response() {
    let req = request("ollama", vec!["a", "b"]);
    let response = EmbedResponse::NewEmbedResponse("m".to_string(), vec![vector(1.0), vector(2.0)]);
    let taken = fetch_embedding(&req, 200, Some(response)).unwrap();
    assert_eq!(taken.model, "m");
    assert_eq!(taken.embeddings.len(), 2);
    assert_eq!(taken.embeddings[1][0], 2.0f32.to_bits());
}

#[test]
fn fetch_embedding_refuses_bad_status() {
    let req = request("ollama", vec!["a"]);
    for status in [199u16, 300, 404, 500, 0] {
        let response = EmbedResponse::NewEmbedResponse("m".to_string(), vec![vector(1.0)]);
        assert_eq!(fetch_embedding(&req, status, Some(response)).err(), Some(EmbedError::BadStatus));
    }
    let response = EmbedResponse::NewEmbedResponse("m".to_string(), vec![vector(1.0)]);
    assert!(fetch_embedding(&req, 299, Some(response)).is_ok());
}

#[test]
fn fetch_embedding_refuses_unreadable_body() {
    let req = request("ollama", vec!["a"]);
    assert_eq!(fetch_embedding(&req, 200, None).err(), Some(EmbedError::MalformedResponse));
    assert_eq!(fetch_embedding(&req, 500, None).err(), Some(EmbedError::BadStatus));
}

#[test]
fn fetch_embedding_refuses_wrong_number_of_vectors() {
    let req = request("ollama", vec!["a", "b"]);
    let short = EmbedResponse::NewEmbedResponse("m".to_string(), vec![vector(1.0)]);
    assert_eq!(fetch_embedding(&req, 200, Some(short)).err(), Some(EmbedError::LengthMismatch));
    let none = EmbedResponse::EmptyEmbedResponse();
    assert_eq!(fetch_embedding(&req, 200, Some(none)).err(), Some(EmbedError::LengthMismatch));
}

#[test]
fn fetch_embedding_refuses_wrong_dimension() {
    let req = request("ollama", vec!["a"]);
    let narrow = EmbedResponse::NewEmbedResponse("m".to_string(), vec![vec![1.0f32.to_bits(); 3]]);
    assert_eq!(fetch_embedding(&req, 200, Some(narrow)).err(), Some(EmbedError::DimensionMismatch));
}

#[test]
fn embed_response_accessors() {
    let mut response = EmbedResponse::EmptyEmbedResponse();
    assert_eq!(response.get_model(), "");
    assert!(response.get_embeddings().is_empty());
    response.set_model("m".to_string());
    response.add_embedding(vec![1, 2, 3]);
    response.add_embedding(vec![4]);
    assert_eq!(response.get_model(), "m");
    assert_eq!(response.get_embeddings(), vec![vec![1, 2, 3], vec![4]]);
}

#[test]
fn chunk_embed_request_takes_content_file_name_and_number() {
    let chunk = FileChunk::new("line one\nline two".to_string(), "repo/src/main.rs".to_string(), 7);
    let req = chunk_embed_request(&chunk, "ollama", "http://h", "k", "m");
    assert_eq!(req.provider, "ollama");
    assert_eq!(req.api_url, "http://h");
    assert_eq!(req.api_key, "k");
    assert_eq!(req.model, "m");
    assert_eq!(req.input, vec!["line one\nline two".to_string()]);
    assert_eq!(req.metadata, Some("main.rs".to_string()));
    assert_eq!(req.chunk_number, Some(7));
}

#[test]
fn chunk_embed_request_has_one_text_whatever_the_chunk_holds() {
    for content in ["", "one line", "a\nb\nc\nd\ne\nf\ng\nh\ni\nj"] {
        let chunk = FileChunk::new(content.to_string(), "f.txt".to_string(), 1);
        let req = chunk_embed_request(&chunk, "ollama", "http://h", "k", "m");
        assert_eq!(req.input, vec![content.to_string()]);
    }
}

#[test]
fn create_embed_request_succeeds_for_every_known_provider() {
    for provider in ["ollama", "openai", "OLLAMA", "OpenAI"] {
        let req = request(provider, vec!["text \"quoted\"", "\u{0}\u{1f}", "\u{10ffff}"]);
        assert!(create_embed_request(&req).is_ok());
        assert!(req.to_json().is_ok());
    }
}

#[test]
fn chunk_embed_request_of_path_without_name() {
    let chunk = FileChunk::new("x".to_string(), "..".to_string(), 0);
    let req = chunk_embed_request(&chunk, "ollama", "http://h", "k", "m");
    assert_eq!(req.metadata, Some("None".to_string()));
}

#[test]
fn string_list_copies() {
    let list = vec!["a".to_string(), "".to_string()];
    assert_eq!(clone_strings(&list), list);
    assert_eq!(own_strings(&vec!["a", ""]), list);
}

#[test]
fn test_create_embed_request_success() {
    let req = request("ollama", vec!["test_input"]);
    let http = create_embed_request(&req);
    assert!(http.is_ok());

    let answer = EmbedResponse::NewEmbedResponse(EMBEDDING_MODEL.to_string(), vec![vector(0.5)]);
    let result = fetch_embedding(&req, 200, Some(answer));

    assert!(result.is_ok());
    let response = result.unwrap();
    assert_eq!(response.model, EMBEDDING_MODEL);
    assert_eq!(response.embeddings.len(), 1);
}

#[test]
fn test_create_embed_request_no_input() {
    let req = request("ollama", vec![]);
    let http = create_embed_request(&req);
    assert!(http.is_ok());

    let answer = EmbedResponse::NewEmbedResponse(EMBEDDING_MODEL.to_string(), vec![]);
    let result = fetch_embedding(&req, 200, Some(answer));

    assert!(result.is_ok());
}

#[test]
fn test_fetch_embedding_success() {
    let embed_data = request("ollama", vec!["test_input"]);
    let answer = EmbedResponse::NewEmbedResponse(EMBEDDING_MODEL.to_string(), vec![vector(0.25)]);

    let result = fetch_embedding(&embed_data, 200, Some(answer)).unwrap();

    assert!(!result.model.is_empty(), "Model should not be empty");
    assert!(!result.embeddings.is_empty(), "Embeddings should not be empty");
    assert_eq!(result.embeddings.len(), 1, "Embeddings should contain one vector");
}

#[test]
fn test_fetch_embedding_empty_input() {
    let embed_data = request("ollama", vec![]);
    let answer = EmbedResponse::NewEmbedResponse(EMBEDDING_MODEL.to_string(), vec![]);

    let result = fetch_embedding(&embed_data, 200, Some(answer)).unwrap();

    assert!(!result.model.is_empty(), "Model should not be empty");
    assert!(result.embeddings.is_empty(), "Embeddings should be empty for empty input");
}
