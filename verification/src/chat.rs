use crate::embedder::{
    join_url, url_join, OLLAMA_EMBED_API, OPEN_AI_EMBED_API, OPEN_AI_URL,
};
use crate::text::{lowercase_of, str_eq, str_trim, to_lowercase, trim_of};
use vstd::prelude::*;

verus! {

/// Path of the chat endpoint of a local inference server.
pub const OLLAMA_CHAT_API: &'static str = "api/chat";

/// Path of the chat endpoint of the hosted service.
pub const OPEN_AI_CHAT_API: &'static str = "v1/chat/completions";

/// Who said a message of a conversation.
#[derive(Debug, Clone, Copy, PartialEq, Eq, Structural)]
pub enum ChatRole {
    User,
    Assistant,
    System,
    Tool,
}

/// One message of a conversation.
#[derive(Debug, Clone)]
pub struct ChatMessage {
    role: ChatRole,
    content: String,
}

/// What a `ChatMessage` holds, as mathematical values.
pub struct ChatMessageView {
    pub role: ChatRole,
    pub content: Seq<char>,
}

impl View for ChatMessage {
    type V = ChatMessageView;

    closed spec fn view(&self) -> ChatMessageView {
        ChatMessageView { role: self.role, content: self.content@ }
    }
}

impl ChatMessage {
    /// The message `content`, said by `role`.
    pub fn new(role: ChatRole, content: String) -> (message: ChatMessage)
        ensures
            message@ == (ChatMessageView { role, content: content@ }),
    {
        ChatMessage { role, content }
    }

    /// What was said.
    pub fn get_content(&self) -> (content: &String)
        ensures
            content@ == self@.content,
    {
        &self.content
    }

    /// Who said it.
    pub fn get_role(&self) -> (role: ChatRole)
        ensures
            role == self@.role,
    {
        self.role
    }

    /// The message as one line of text: the role, a colon and what was said.
    pub fn to_display_string(&self) -> (res: String)
        ensures
            res@ == role_name(self@.role) + ": "@ + self@.content,
    {
        let mut out = match self.role {
            ChatRole::User => "User".to_string(),
            ChatRole::Assistant => "Assistant".to_string(),
            ChatRole::System => "System".to_string(),
            ChatRole::Tool => "Tool".to_string(),
        };
        out.append(": ");
        out.append(self.content.as_str());
        out
    }
}

/// The name of a role.
pub open spec fn role_name(role: ChatRole) -> Seq<char> {
    match role {
        ChatRole::User => "User"@,
        ChatRole::Assistant => "Assistant"@,
        ChatRole::System => "System"@,
        ChatRole::Tool => "Tool"@,
    }
}

/// How a conversation goes on after an answer.
#[derive(Debug, Clone)]
pub enum ChatTurn {
    /// The user ends the conversation.
    Exit,
    /// The user typed nothing; the model is asked again with an empty question.
    EmptyInput,
    /// The user asks this.
    Ask(String),
}

/// What the user meant by a line typed after an answer. The whitespace around the line
/// does not count; `exit`, in any letter case, ends the conversation.
pub open spec fn turn_ok(typed_line: Seq<char>, turn: ChatTurn) -> bool {
    let prompt = trim_of(typed_line);
    if lowercase_of(prompt) == "exit"@ {
        turn is Exit
    } else if prompt.len() == 0 {
        turn is EmptyInput
    } else {
        turn matches ChatTurn::Ask(question) && question@ == prompt
    }
}

/// Reads the line that the user typed after an answer.
pub fn next_turn(typed_line: &str) -> (turn: ChatTurn)
    ensures
        turn_ok(typed_line@, turn),
{
    let current_prompt = str_trim(typed_line);
    let lower = to_lowercase(current_prompt.as_str());
    if str_eq(lower.as_str(), "exit") {
        ChatTurn::Exit
    } else if current_prompt.as_str().is_empty() {
        ChatTurn::EmptyInput
    } else {
        ChatTurn::Ask(current_prompt)
    }
}

/// Who runs the models.
#[derive(Debug, Clone, Copy, PartialEq, Eq, Structural)]
pub enum LLMProvider {
    OpenAI,
    Ollama,
}

/// Why a conversation could not be set up.
#[derive(Debug, Clone, Copy, PartialEq, Eq, Structural)]
pub enum ChatError {
    /// The provider is neither the hosted service nor a local server.
    UnsupportedProvider,
}

/// The provider that a name stands for, in any letter case.
pub open spec fn provider_of(provider: Seq<char>) -> Result<LLMProvider, ChatError> {
    if lowercase_of(provider) == "ollama"@ {
        Ok(LLMProvider::Ollama)
    } else if lowercase_of(provider) == "openai"@ {
        Ok(LLMProvider::OpenAI)
    } else {
        Err(ChatError::UnsupportedProvider)
    }
}

impl LLMProvider {
    /// The provider that `provider` names.
    pub fn get_provider(provider: &str) -> (res: Result<LLMProvider, ChatError>)
        ensures
            res == provider_of(provider@),
    {
        let name = to_lowercase(provider);
        if str_eq(name.as_str(), "ollama") {
            Ok(LLMProvider::Ollama)
        } else if str_eq(name.as_str(), "openai") {
            Ok(LLMProvider::OpenAI)
        } else {
            Err(ChatError::UnsupportedProvider)
        }
    }
}

/// The answer of a chat model, with what the server reports of its work.
#[derive(Debug, Clone)]
pub struct ChatResponse {
    pub model: String,
    pub created_at: String,
    pub message: ChatMessage,
    pub done_reason: Option<String>,
    pub done: bool,
    pub context: Option<Vec<i32>>,
    pub total_duration: Option<i64>,
    pub load_duration: Option<i64>,
    pub prompt_eval_count: Option<i32>,
    pub prompt_eval_duration: Option<i64>,
    pub eval_count: Option<i32>,
    pub eval_duration: Option<i64>,
}

impl ChatResponse {
    /// The message of the answer.
    pub fn get_message(&self) -> (res: Option<&ChatMessage>)
        ensures
            res == Some(&self.message),
    {
        Some(&self.message)
    }
}

/// What a chat model is asked: the instructions, what is known, and the question.
#[derive(Debug, Clone)]
pub struct Prompt {
    pub system_message: String,
    pub content: Vec<Option<ChatMessage>>,
    pub prompt: String,
}

/// A request to a chat model.
#[derive(Debug, Clone)]
pub struct ChatRequest {
    pub provider: LLMProvider,
    pub model: String,
    pub api_url: String,
    pub api_key: String,
    pub messages: Vec<ChatMessage>,
    pub stream: bool,
    pub format: String,
}

/// The views of a list of messages.
pub open spec fn message_views(messages: Seq<ChatMessage>) -> Seq<ChatMessageView> {
    Seq::new(messages.len(), |i: int| messages[i]@)
}

/// The messages among the first `upto` entries of `content`, each said by the user.
pub open spec fn context_messages(content: Seq<Option<ChatMessage>>, upto: int) -> Seq<
    ChatMessageView,
>
    decreases upto,
{
    if upto <= 0 {
        Seq::empty()
    } else {
        match content[upto - 1] {
            Some(message) => context_messages(content, upto - 1).push(
                ChatMessageView { role: ChatRole::User, content: message@.content },
            ),
            None => context_messages(content, upto - 1),
        }
    }
}

/// The messages of a request: the instructions as the system, then what is known, then
/// the question, both as the user.
pub open spec fn prompt_messages(
    system_message: Seq<char>,
    content: Seq<Option<ChatMessage>>,
    prompt: Seq<char>,
) -> Seq<ChatMessageView> {
    seq![ChatMessageView { role: ChatRole::System, content: system_message }] + context_messages(
        content,
        content.len() as int,
    ) + seq![ChatMessageView { role: ChatRole::User, content: prompt }]
}

/// The provider of a request: the one that was named, or a local server where the name
/// stands for none.
pub open spec fn provider_or_local(provider: Seq<char>) -> LLMProvider {
    match provider_of(provider) {
        Ok(p) => p,
        Err(_) => LLMProvider::Ollama,
    }
}

impl ChatRequest {
    /// The request that puts `prompt` to the model `model` of `provider`.
    pub fn new(
        provider: &str,
        model: &str,
        api_url: String,
        api_key: String,
        stream: bool,
        format: String,
        prompt: Prompt,
    ) -> (request: ChatRequest)
        ensures
            request.provider == provider_or_local(provider@),
            request.model@ == model@,
            request.api_url@ == api_url@,
            request.api_key@ == api_key@,
            request.stream == stream,
            request.format@ == format@,
            message_views(request.messages@) == prompt_messages(
                prompt.system_message@,
                prompt.content@,
                prompt.prompt@,
            ),
    {
        let mut messages: Vec<ChatMessage> = Vec::new();
        let ghost system = ChatMessageView {
            role: ChatRole::System,
            content: prompt.system_message@,
        };
        messages.push(ChatMessage::new(ChatRole::System, prompt.system_message.clone()));
        assert(message_views(messages@) == seq![system]);
        let n = prompt.content.len();
        let mut i: usize = 0;
        while i < n
            invariant
                i <= n,
                n == prompt.content.len(),
                message_views(messages@) == seq![system] + context_messages(
                    prompt.content@,
                    i as int,
                ),
            decreases n - i,
        {
            let ghost before = message_views(messages@);
            match &prompt.content[i] {
                Some(content) => {
                    let user_content = ChatMessage::new(
                        ChatRole::User,
                        content.get_content().clone(),
                    );
                    messages.push(user_content);
                    assert(message_views(messages@) == before.push(
                        ChatMessageView { role: ChatRole::User, content: content@.content },
                    ));
                },
                None => {},
            }
            i += 1;
        }
        let ghost before = message_views(messages@);
        messages.push(ChatMessage::new(ChatRole::User, prompt.prompt.clone()));
        assert(message_views(messages@) == before.push(
            ChatMessageView { role: ChatRole::User, content: prompt.prompt@ },
        ));
        let provider = match LLMProvider::get_provider(provider) {
            Ok(p) => p,
            Err(_) => LLMProvider::Ollama,
        };
        ChatRequest {
            provider,
            model: model.to_string(),
            api_url,
            api_key,
            messages,
            stream,
            format,
        }
    }

    /// The address of the chat endpoint of the request's provider.
    pub fn get_chat_api_url(&self) -> (url: String)
        ensures
            url@ == match self.provider {
                LLMProvider::OpenAI => url_join(OPEN_AI_URL@, OPEN_AI_CHAT_API@),
                LLMProvider::Ollama => url_join(self.api_url@, OLLAMA_CHAT_API@),
            },
    {
        match self.provider {
            LLMProvider::OpenAI => join_url(OPEN_AI_URL, OPEN_AI_CHAT_API),
            LLMProvider::Ollama => join_url(self.api_url.as_str(), OLLAMA_CHAT_API),
        }
    }

    /// The address of the embedding endpoint of the request's provider.
    pub fn get_embed_api_url(&self) -> (url: String)
        ensures
            url@ == match self.provider {
                LLMProvider::OpenAI => url_join(OPEN_AI_URL@, OPEN_AI_EMBED_API@),
                LLMProvider::Ollama => url_join(self.api_url@, OLLAMA_EMBED_API@),
            },
    {
        match self.provider {
            LLMProvider::OpenAI => join_url(OPEN_AI_URL, OPEN_AI_EMBED_API),
            LLMProvider::Ollama => join_url(self.api_url.as_str(), OLLAMA_EMBED_API),
        }
    }
}

} // verus!
