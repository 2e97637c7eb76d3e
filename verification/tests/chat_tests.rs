use vector_embed::chat::{
    next_turn, ChatError, ChatMessage, ChatRequest, ChatResponse, ChatRole, ChatTurn,
    LLMProvider, Prompt, OLLAMA_CHAT_API, OPEN_AI_CHAT_API,
};

fn prompt(content: Vec<Option<ChatMessage>>) -> Prompt {
    Prompt { system_message: "be terse".to_string(), content, prompt: "why?".to_string() }
}

fn request(provider: &str) -> ChatRequest {
    ChatRequest::new(
        provider,
        "qwen2:7b",
        "http://10.0.0.213:11434".to_string(),
        "api_key".to_string(),
        false,
        "json".to_string(),
        prompt(vec![]),
    )
}

#[test]
fn chat_message_holds_role_and_content() {
    let message = ChatMessage::new(ChatRole::Assistant, "hello".to_string());
    assert_eq!(message.get_content(), "hello");
    assert_eq!(message.get_role(), ChatRole::Assistant);
}

#[test]
fn provider_is_known_in_any_letter_case() {
    assert_eq!(LLMProvider::get_provider("ollama"), Ok(LLMProvider::Ollama));
    assert_eq!(LLMProvider::get_provider("OpenAI"), Ok(LLMProvider::OpenAI));
    assert_eq!(LLMProvider::get_provider("OLLAMA"), Ok(LLMProvider::Ollama));
    assert_eq!(LLMProvider::get_provider("mistral"), Err(ChatError::UnsupportedProvider));
    assert_eq!(LLMProvider::get_provider(""), Err(ChatError::UnsupportedProvider));
}

#[test]
fn chat_response_has_a_message() {
    let response = ChatResponse {
        model: "m".to_string(),
        created_at: "now".to_string(),
        message: ChatMessage::new(ChatRole::Assistant, "{}".to_string()),
        done_reason: None,
        done: true,
        context: None,
        total_duration: None,
        load_duration: None,
        prompt_eval_count: None,
        prompt_eval_duration: None,
        eval_count: None,
        eval_duration: None,
    };
    let message = response.get_message().unwrap();
    assert_eq!(message.get_content(), "{}");
    assert_eq!(message.get_role(), ChatRole::Assistant);
}

#[test]
fn chat_request_orders_its_messages() {
    let content = vec![
        Some(ChatMessage::new(ChatRole::Assistant, "known 1".to_string())),
        None,
        Some(ChatMessage::new(ChatRole::User, "known 2".to_string())),
    ];
    let req = ChatRequest::new(
        "openai",
        "gpt",
        "http://h".to_string(),
        "k".to_string(),
        true,
        "json".to_string(),
        prompt(content),
    );
    let said: Vec<(ChatRole, String)> =
        req.messages.iter().map(|m| (m.get_role(), m.get_content().clone())).collect();
    assert_eq!(
        said,
        vec![
            (ChatRole::System, "be terse".to_string()),
            (ChatRole::User, "known 1".to_string()),
            (ChatRole::User, "known 2".to_string()),
            (ChatRole::User, "why?".to_string()),
        ]
    );
    assert_eq!(req.provider, LLMProvider::OpenAI);
    assert_eq!(req.model, "gpt");
    assert_eq!(req.api_url, "http://h");
    assert_eq!(req.api_key, "k");
    assert!(req.stream);
    assert_eq!(req.format, "json");
}

#[test]
fn chat_request_of_unknown_provider_goes_to_a_local_server() {
    assert_eq!(request("elsewhere").provider, LLMProvider::Ollama);
    assert_eq!(request("").provider, LLMProvider::Ollama);
    assert_eq!(request("ollama").messages.len(), 2);
}

#[test]
fn chat_and_embed_urls_follow_the_provider() {
    let local = request("ollama");
    assert_eq!(local.get_chat_api_url(), "http://10.0.0.213:11434/api/chat");
    assert_eq!(local.get_embed_api_url(), "http://10.0.0.213:11434/api/embed");
    let hosted = request("openai");
    assert_eq!(hosted.get_chat_api_url(), "https://api.openai.com/v1/chat/completions");
    assert_eq!(hosted.get_embed_api_url(), "https://api.openai.com/v1/embeddings");
    assert_eq!(OLLAMA_CHAT_API, "api/chat");
    assert_eq!(OPEN_AI_CHAT_API, "v1/chat/completions");
}

#[test]
fn chat_message_as_a_line() {
    assert_eq!(ChatMessage::new(ChatRole::User, "hi".to_string()).to_display_string(), "User: hi");
    assert_eq!(ChatMessage::new(ChatRole::Assistant, "".to_string()).to_display_string(), "Assistant: ");
    assert_eq!(ChatMessage::new(ChatRole::System, "s".to_string()).to_display_string(), "System: s");
    assert_eq!(ChatMessage::new(ChatRole::Tool, "t".to_string()).to_display_string(), "Tool: t");
}

#[test]
fn next_turn_reads_the_typed_line() {
    assert!(matches!(next_turn("exit\n"), ChatTurn::Exit));
    assert!(matches!(next_turn("  EXIT "), ChatTurn::Exit));
    assert!(matches!(next_turn("\n"), ChatTurn::EmptyInput));
    assert!(matches!(next_turn(""), ChatTurn::EmptyInput));
    match next_turn(" and then? \n") {
        ChatTurn::Ask(question) => assert_eq!(question, "and then?"),
        other => panic!("unexpected {:?}", other),
    }
    match next_turn("exit now") {
        ChatTurn::Ask(question) => assert_eq!(question, "exit now"),
        other => panic!("unexpected {:?}", other),
    }
}
