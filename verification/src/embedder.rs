use crate::chunk::{file_name_or_none, FileChunk, FileChunkView};
use crate::schema::{all_have_dimension, check_dimensions};
use crate::text::{join_strings, join_with, lowercase_of, path_file_name, str_eq, to_lowercase};
use vstd::prelude::*;

verus! {

/// Host of the hosted embedding service.
pub const OPEN_AI_URL: &'static str = "https://api.openai.com";

/// Path of the embedding endpoint of the hosted service.
pub const OPEN_AI_EMBED_API: &'static str = "v1/embeddings";

/// Path of the embedding endpoint of a local inference server.
pub const OLLAMA_EMBED_API: &'static str = "api/embed";

/// Model that embeds texts where none is named.
pub const EMBEDDING_MODEL: &'static str = "nomic-embed-text";

/// What `serde_json` reports when it cannot serialise a value.
#[verifier::external_type_specification]
#[verifier::external_body]
pub struct ExJsonError(serde_json::Error);

/// The JSON string literal of `text`: the text between double quotes, with the
/// characters escaped that JSON does not take as they are.
pub uninterp spec fn json_string_of(text: Seq<char>) -> Seq<char>;

/// Calls `serde_json::to_string` on a string slice: the result is the JSON string
/// literal of `text`. The call succeeds: a string slice is written into a byte vector,
/// and the only error of that path is one of the writer, which a byte vector never
/// reports.
#[verifier::external_body]
pub(crate) fn json_string(text: &str) -> (res: Result<String, serde_json::Error>)
    ensures
        res is Ok,
        res matches Ok(json) ==> json@ == json_string_of(text@),
{
    serde_json::to_string(text)
}

/// Why a request was not sent, or why its answer was not taken.
#[derive(Debug, Clone, Copy, PartialEq, Eq, Structural)]
pub enum EmbedError {
    /// The request could not be written as JSON.
    Serialize,
    /// The provider of the request has no embedding endpoint.
    UnsupportedProvider,
    /// The provider answered with a status that is not a success.
    BadStatus,
    /// The provider's answer could not be read as a response.
    MalformedResponse,
    /// The response does not hold one vector for each text of the request.
    LengthMismatch,
    /// A vector of the response does not have the dimension of the table.
    DimensionMismatch,
}

/// An HTTP request, ready to be sent.
#[derive(Debug, Clone)]
pub struct HttpRequest {
    pub method: String,
    pub uri: String,
    pub headers: Vec<(String, String)>,
    pub body: String,
}

/// The JSON object that asks a provider for embeddings, made of the JSON string
/// literals of the model and of the texts.
pub open spec fn embed_body(model_json: Seq<char>, input_json: Seq<Seq<char>>) -> Seq<char> {
    "{\"model\":"@ + model_json + ",\"input\":["@ + join_with(input_json, ","@) + "]}"@
}

/// The JSON string literals of `texts`.
pub open spec fn json_strings_of(texts: Seq<Seq<char>>) -> Seq<Seq<char>> {
    Seq::new(texts.len(), |i: int| json_string_of(texts[i]))
}

/// The body of the request for the embeddings of `request`.
pub open spec fn request_json(request: EmbedRequestView) -> Seq<char> {
    embed_body(json_string_of(request.model), json_strings_of(request.input))
}

/// The value of the header that carries the credential.
pub open spec fn bearer(api_key: Seq<char>) -> Seq<char> {
    "Bearer "@ + api_key
}

/// Puts the JSON object of a request together from the JSON string literals of its
/// model and of its texts.
pub fn frame_embed_body(model_json: &str, input_json: &Vec<String>) -> (body: String)
    ensures
        body@ == embed_body(model_json@, input_json.deep_view()),
{
    let mut body = "{\"model\":".to_string();
    body.append(model_json);
    body.append(",\"input\":[");
    let list = join_strings(input_json, ",");
    body.append(list.as_str());
    body.append("]}");
    body
}

/// A batch of texts to embed, with where to send it and what it was cut from.
#[derive(Debug, Clone)]
pub struct EmbedRequest {
    pub provider: String,
    pub api_url: String,
    pub api_key: String,
    pub model: String,
    pub input: Vec<String>,
    pub metadata: Option<String>,
    pub chunk_number: Option<i32>,
}

/// What an `EmbedRequest` holds, as mathematical values.
pub struct EmbedRequestView {
    pub provider: Seq<char>,
    pub api_url: Seq<char>,
    pub api_key: Seq<char>,
    pub model: Seq<char>,
    pub input: Seq<Seq<char>>,
    pub metadata: Option<Seq<char>>,
    pub chunk_number: Option<i32>,
}

impl View for EmbedRequest {
    type V = EmbedRequestView;

    open spec fn view(&self) -> EmbedRequestView {
        EmbedRequestView {
            provider: self.provider@,
            api_url: self.api_url@,
            api_key: self.api_key@,
            model: self.model@,
            input: self.input.deep_view(),
            metadata: self.metadata.deep_view(),
            chunk_number: self.chunk_number,
        }
    }
}

/// The embeddings of the texts of one request, in the order of the texts. A number of a
/// vector is held as the 32 bits of its single-precision encoding.
#[derive(Debug, Clone)]
pub struct EmbedResponse {
    pub model: String,
    pub embeddings: Vec<Vec<u32>>,
}

/// What an `EmbedResponse` holds, as mathematical values.
pub struct EmbedResponseView {
    pub model: Seq<char>,
    pub embeddings: Seq<Seq<u32>>,
}

impl View for EmbedResponse {
    type V = EmbedResponseView;

    open spec fn view(&self) -> EmbedResponseView {
        EmbedResponseView { model: self.model@, embeddings: self.embeddings.deep_view() }
    }
}

/// `base` and `path` with a slash between them.
pub open spec fn url_join(base: Seq<char>, path: Seq<char>) -> Seq<char> {
    base + seq!['/'] + path
}

/// The embedding endpoint of a provider, whose name counts in any letter case: the
/// hosted service has a fixed address, a local server is reached below `api_url`.
/// No other provider has one.
pub open spec fn embed_url_of(provider: Seq<char>, api_url: Seq<char>) -> Option<Seq<char>> {
    if lowercase_of(provider) == "openai"@ {
        Some(url_join(OPEN_AI_URL@, OPEN_AI_EMBED_API@))
    } else if lowercase_of(provider) == "ollama"@ {
        Some(url_join(api_url, OLLAMA_EMBED_API@))
    } else {
        None
    }
}

/// Copies a list of strings.
pub fn clone_strings(list: &Vec<String>) -> (res: Vec<String>)
    ensures
        res.deep_view() == list.deep_view(),
{
    let mut out: Vec<String> = Vec::new();
    let n = list.len();
    let mut i: usize = 0;
    while i < n
        invariant
            i <= n,
            n == list.len(),
            out.len() == i,
            forall|k: int| 0 <= k < i ==> (#[trigger] out[k])@ == list[k]@,
        decreases n - i,
    {
        out.push(list[i].clone());
        i += 1;
    }
    assert(out.deep_view() == list.deep_view());
    out
}

/// Copies a list of string slices into owned strings.
pub fn own_strings(list: &Vec<&str>) -> (res: Vec<String>)
    ensures
        res.deep_view() == list.deep_view(),
{
    let mut out: Vec<String> = Vec::new();
    let n = list.len();
    let mut i: usize = 0;
    while i < n
        invariant
            i <= n,
            n == list.len(),
            out.len() == i,
            forall|k: int| 0 <= k < i ==> (#[trigger] out[k])@ == list[k]@,
        decreases n - i,
    {
        out.push(list[i].to_string());
        i += 1;
    }
    assert(out.deep_view() == list.deep_view());
    out
}

/// `base`, a slash and `path`.
pub fn join_url(base: &str, path: &str) -> (res: String)
    ensures
        res@ == url_join(base@, path@),
{
    let mut url = base.to_string();
    proof {
        reveal_strlit("/");
        assert("/"@ == seq!['/']);
    }
    url.append("/");
    url.append(path);
    url
}

impl EmbedRequest {
    /// The request as the JSON object that a provider takes: the model and the texts.
    pub fn to_json(&self) -> (res: Result<String, EmbedError>)
        ensures
            res matches Ok(json) && json@ == request_json(self@),
    {
        let model_json = match json_string(self.model.as_str()) {
            Ok(json) => json,
            Err(_) => {
                return Err(EmbedError::Serialize);
            },
        };
        let mut input_json: Vec<String> = Vec::new();
        let n = self.input.len();
        let mut i: usize = 0;
        while i < n
            invariant
                i <= n,
                n == self.input.len(),
                input_json.len() == i,
                forall|k: int|
                    0 <= k < i ==> (#[trigger] input_json[k])@ == json_string_of(self.input[k]@),
            decreases n - i,
        {
            match json_string(self.input[i].as_str()) {
                Ok(json) => input_json.push(json),
                Err(_) => {
                    return Err(EmbedError::Serialize);
                },
            }
            i += 1;
        }
        assert(input_json.deep_view() == json_strings_of(self@.input));
        Ok(frame_embed_body(model_json.as_str(), &input_json))
    }

    /// Appends one text to the input.
    pub fn add_input(&mut self, input: &str)
        ensures
            final(self)@ == (EmbedRequestView {
                input: old(self)@.input.push(input@),
                ..old(self)@
            }),
    {
        let ghost before = self.input.deep_view();
        self.input.push(input.to_string());
        assert(self.input.deep_view() == before.push(input@));
    }

    /// Replaces the model.
    pub fn set_model(&mut self, model: String)
        ensures
            final(self)@ == (EmbedRequestView { model: model@, ..old(self)@ }),
    {
        self.model = model;
    }

    /// A copy of the input texts.
    pub fn get_input(&self) -> (res: Vec<String>)
        ensures
            res.deep_view() == self@.input,
    {
        clone_strings(&self.input)
    }

    /// A copy of the model name.
    pub fn get_model(&self) -> (res: String)
        ensures
            res@ == self@.model,
    {
        self.model.clone()
    }

    /// A request for `input` that names its provider; it carries no metadata.
    #[allow(non_snake_case)]
    pub fn NewEmbedRequest(
        provider: &str,
        api_url: &str,
        api_key: &str,
        model: &str,
        input: Vec<&str>,
        chunk_number: Option<i32>,
    ) -> (req: EmbedRequest)
        ensures
            req@ == (EmbedRequestView {
                provider: provider@,
                api_url: api_url@,
                api_key: api_key@,
                model: model@,
                input: input.deep_view(),
                metadata: None,
                chunk_number,
            }),
    {
        EmbedRequest {
            provider: provider.to_string(),
            api_url: api_url.to_string(),
            api_key: api_key.to_string(),
            model: model.to_string(),
            input: own_strings(&input),
            metadata: None,
            chunk_number,
        }
    }

    /// A request for `input` that is handed from task to task: it carries the metadata
    /// of what it embeds.
    #[allow(non_snake_case)]
    pub fn NewArcEmbedRequest(
        provider: &str,
        api_url: &str,
        api_key: &str,
        model: &str,
        input: &Vec<String>,
        metadata: &str,
        chunk_number: Option<i32>,
    ) -> (req: EmbedRequest)
        ensures
            req@ == (EmbedRequestView {
                provider: provider@,
                api_url: api_url@,
                api_key: api_key@,
                model: model@,
                input: input.deep_view(),
                metadata: Some(metadata@),
                chunk_number,
            }),
    {
        EmbedRequest {
            provider: provider.to_string(),
            api_url: api_url.to_string(),
            api_key: api_key.to_string(),
            model: model.to_string(),
            input: clone_strings(input),
            metadata: Some(metadata.to_string()),
            chunk_number,
        }
    }

    /// A request with nothing in it.
    #[allow(non_snake_case)]
    pub fn EmptyEmbedRequest() -> (req: EmbedRequest)
        ensures
            req@ == (EmbedRequestView {
                provider: Seq::empty(),
                api_url: Seq::empty(),
                api_key: Seq::empty(),
                model: Seq::empty(),
                input: Seq::empty(),
                metadata: None,
                chunk_number: None,
            }),
    {
        let input: Vec<String> = Vec::new();
        assert(input.deep_view() == Seq::<Seq<char>>::empty());
        EmbedRequest {
            provider: String::new(),
            api_url: String::new(),
            api_key: String::new(),
            model: String::new(),
            input,
            metadata: None,
            chunk_number: None,
        }
    }

    /// The address of the embedding endpoint for this request's provider.
    pub fn get_embed_url(&self) -> (url: String)
        requires
            embed_url_of(self@.provider, self@.api_url) is Some,
        ensures
            Some(url@) == embed_url_of(self@.provider, self@.api_url),
    {
        let provider = to_lowercase(self.provider.as_str());
        if str_eq(provider.as_str(), "openai") {
            join_url(OPEN_AI_URL, OPEN_AI_EMBED_API)
        } else {
            join_url(self.api_url.as_str(), OLLAMA_EMBED_API)
        }
    }

    /// The address of the embedding endpoint for this request's provider, if the
    /// provider is known.
    pub fn try_get_embed_url(&self) -> (url: Option<String>)
        ensures
            url.deep_view() == embed_url_of(self@.provider, self@.api_url),
    {
        let provider = to_lowercase(self.provider.as_str());
        if str_eq(provider.as_str(), "openai") || str_eq(provider.as_str(), "ollama") {
            Some(self.get_embed_url())
        } else {
            None
        }
    }

    /// A copy of the credential.
    pub fn get_api_key(&self) -> (res: String)
        ensures
            res@ == self@.api_key,
    {
        self.api_key.clone()
    }
}

impl EmbedResponse {
    /// Appends one vector.
    pub fn add_embedding(&mut self, embedding: Vec<u32>)
        ensures
            final(self)@ == (EmbedResponseView {
                embeddings: old(self)@.embeddings.push(embedding@),
                ..old(self)@
            }),
    {
        let ghost before = self.embeddings.deep_view();
        assert(embedding.deep_view() == embedding@);
        self.embeddings.push(embedding);
        assert(self.embeddings.deep_view() == before.push(embedding@));
    }

    /// Replaces the model.
    pub fn set_model(&mut self, model: String)
        ensures
            final(self)@ == (EmbedResponseView { model: model@, ..old(self)@ }),
    {
        self.model = model;
    }

    /// A copy of the vectors.
    pub fn get_embeddings(&self) -> (res: Vec<Vec<u32>>)
        ensures
            res.deep_view() == self@.embeddings,
    {
        let mut out: Vec<Vec<u32>> = Vec::new();
        let n = self.embeddings.len();
        let mut i: usize = 0;
        while i < n
            invariant
                i <= n,
                n == self.embeddings.len(),
                out.len() == i,
                forall|k: int| 0 <= k < i ==> (#[trigger] out[k])@ == self.embeddings[k]@,
            decreases n - i,
        {
            out.push(self.embeddings[i].clone());
            i += 1;
        }
        assert(out.deep_view() == self.embeddings.deep_view());
        out
    }

    /// A copy of the model name.
    pub fn get_model(&self) -> (res: String)
        ensures
            res@ == self@.model,
    {
        self.model.clone()
    }

    /// A response with nothing in it.
    #[allow(non_snake_case)]
    pub fn EmptyEmbedResponse() -> (res: EmbedResponse)
        ensures
            res@ == (EmbedResponseView { model: Seq::empty(), embeddings: Seq::empty() }),
    {
        let embeddings: Vec<Vec<u32>> = Vec::new();
        assert(embeddings.deep_view() == Seq::<Seq<u32>>::empty());
        EmbedResponse { model: String::new(), embeddings }
    }

    /// A response made of its parts.
    #[allow(non_snake_case)]
    pub fn NewEmbedResponse(model: String, embeddings: Vec<Vec<u32>>) -> (res: EmbedResponse)
        ensures
            res@ == (EmbedResponseView { model: model@, embeddings: embeddings.deep_view() }),
    {
        EmbedResponse { model, embeddings }
    }
}

/// The request that embeds one chunk: the chunk's content is its one text, the name of
/// the chunk's file is the metadata, and the chunk's number is the chunk number.
pub open spec fn chunk_request_view(
    chunk: FileChunkView,
    provider: Seq<char>,
    api_url: Seq<char>,
    api_key: Seq<char>,
    model: Seq<char>,
) -> EmbedRequestView {
    EmbedRequestView {
        provider,
        api_url,
        api_key,
        model,
        input: seq![join_with(chunk.content, seq!['\n'])],
        metadata: Some(file_name_or_none(path_file_name(chunk.file_path))),
        chunk_number: Some(chunk.chunk_number as i32),
    }
}

/// The request that embeds one chunk.
pub fn chunk_embed_request(
    chunk: &FileChunk,
    provider: &str,
    api_url: &str,
    api_key: &str,
    model: &str,
) -> (req: EmbedRequest)
    ensures
        req@ == chunk_request_view(chunk@, provider@, api_url@, api_key@, model@),
{
    let mut input: Vec<String> = Vec::new();
    input.push(chunk.get_content());
    assert(input.deep_view() == seq![join_with(chunk@.content, seq!['\n'])]);
    EmbedRequest {
        provider: provider.to_string(),
        api_url: api_url.to_string(),
        api_key: api_key.to_string(),
        model: model.to_string(),
        input,
        metadata: Some(chunk.get_file_name()),
        chunk_number: Some(chunk.get_chunk_number()),
    }
}

/// The two headers of a request for embeddings.
pub open spec fn is_embed_headers(headers: Seq<(String, String)>, api_key: Seq<char>) -> bool {
    &&& headers.len() == 2
    &&& headers[0].0@ == "Content-Type"@
    &&& headers[0].1@ == "application/json"@
    &&& headers[1].0@ == "Authorization"@
    &&& headers[1].1@ == bearer(api_key)
}

/// The HTTP request that asks for the embeddings of `req`: a POST to the embedding
/// endpoint of the provider, with the credential as a bearer token and the request as a
/// JSON body. Nothing is sent.
pub fn create_embed_request(req: &EmbedRequest) -> (res: Result<HttpRequest, EmbedError>)
    ensures
        embed_url_of(req@.provider, req@.api_url) is None ==> (res matches Err(e) && e
            == EmbedError::UnsupportedProvider),
        embed_url_of(req@.provider, req@.api_url) is Some ==> res is Ok,
        res matches Ok(request) ==> {
            &&& request.method@ == "POST"@
            &&& Some(request.uri@) == embed_url_of(req@.provider, req@.api_url)
            &&& is_embed_headers(request.headers@, req@.api_key)
            &&& request.body@ == request_json(req@)
        },
{
    let embed_url = match req.try_get_embed_url() {
        Some(url) => url,
        None => {
            return Err(EmbedError::UnsupportedProvider);
        },
    };
    let api_key = req.get_api_key();
    let json_data = match req.to_json() {
        Ok(json) => json,
        Err(e) => {
            return Err(e);
        },
    };
    let mut authorization = "Bearer ".to_string();
    authorization.append(api_key.as_str());
    let mut headers: Vec<(String, String)> = Vec::new();
    headers.push(("Content-Type".to_string(), "application/json".to_string()));
    headers.push(("Authorization".to_string(), authorization));
    Ok(HttpRequest { method: "POST".to_string(), uri: embed_url, headers, body: json_data })
}

/// Whether an HTTP status reports success.
pub open spec fn is_success(status: u16) -> bool {
    200 <= status < 300
}

/// What is made of a provider's answer to `request`: an error where the status is no
/// success, where the body could not be read, where the vectors are not one for each
/// text, or where a vector has the wrong dimension; the response otherwise.
pub open spec fn accepted_response(
    request: EmbedRequestView,
    status: u16,
    response: Option<EmbedResponseView>,
) -> Result<EmbedResponseView, EmbedError> {
    if !is_success(status) {
        Err(EmbedError::BadStatus)
    } else {
        match response {
            None => Err(EmbedError::MalformedResponse),
            Some(r) => if r.embeddings.len() != request.input.len() {
                Err(EmbedError::LengthMismatch)
            } else if !all_have_dimension(r.embeddings) {
                Err(EmbedError::DimensionMismatch)
            } else {
                Ok(r)
            },
        }
    }
}

/// The view of a response that was taken, or the error.
pub open spec fn response_result_view(res: Result<EmbedResponse, EmbedError>) -> Result<
    EmbedResponseView,
    EmbedError,
> {
    match res {
        Ok(r) => Ok(r@),
        Err(e) => Err(e),
    }
}

/// The view of a response, if there is one.
pub open spec fn response_option_view(response: Option<EmbedResponse>) -> Option<
    EmbedResponseView,
> {
    match response {
        Some(r) => Some(r@),
        None => None,
    }
}

/// Takes a provider's answer to `request`: its status and, where its body could be read,
/// the response in it. The response is handed on only if it holds one vector of the
/// table's dimension for each text of the request.
pub fn fetch_embedding(
    request: &EmbedRequest,
    status: u16,
    response: Option<EmbedResponse>,
) -> (res: Result<EmbedResponse, EmbedError>)
    ensures
        response_result_view(res) == accepted_response(
            request@,
            status,
            response_option_view(response),
        ),
{
    if status < 200 || status >= 300 {
        return Err(EmbedError::BadStatus);
    }
    match response {
        None => Err(EmbedError::MalformedResponse),
        Some(r) => {
            if r.embeddings.len() != request.input.len() {
                Err(EmbedError::LengthMismatch)
            } else if !check_dimensions(&r.embeddings) {
                Err(EmbedError::DimensionMismatch)
            } else {
                Ok(r)
            }
        },
    }
}

} // verus!
