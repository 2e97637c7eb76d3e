use crate::embedder::{
    own_strings, EmbedRequest, EmbedRequestView, EmbedResponse, EmbedResponseView,
};
use crate::text::{int_decimal, u16_to_string};
use vstd::prelude::*;

verus! {

/// Seconds to wait for a connection to a database server.
pub const CONNECT_TIMEOUT: u64 = 5;

/// How to reach a database server.
pub struct VectorDbConfig {
    pub host: String,
    pub port: u16,
    pub user: String,
    pub dbname: String,
    pub timeout: u64,
}

/// The connection string of a database: host, port, user and database name.
pub open spec fn connection_string(
    host: Seq<char>,
    port: u16,
    user: Seq<char>,
    dbname: Seq<char>,
) -> Seq<char> {
    "host="@ + host + " port="@ + int_decimal(port as int) + " user="@ + user + " dbname="@
        + dbname
}

/// A request for `input` that names only its model.
pub open spec fn plain_request_view(model: Seq<char>, input: Seq<Seq<char>>) -> EmbedRequestView {
    EmbedRequestView {
        provider: Seq::empty(),
        api_url: Seq::empty(),
        api_key: Seq::empty(),
        model,
        input,
        metadata: None,
        chunk_number: None,
    }
}

/// The configuration of a database server, with a timeout of five seconds.
#[allow(non_snake_case)]
pub fn NewVectorDbConfig(host: &str, port: u16, user: &str, dbname: &str) -> (config:
    VectorDbConfig)
    ensures
        config.host@ == host@,
        config.port == port,
        config.user@ == user@,
        config.dbname@ == dbname@,
        config.timeout == CONNECT_TIMEOUT,
{
    VectorDbConfig {
        host: host.to_string(),
        port,
        user: user.to_string(),
        dbname: dbname.to_string(),
        timeout: CONNECT_TIMEOUT,
    }
}

impl VectorDbConfig {
    /// The configuration of a database server, with a timeout of five seconds.
    #[allow(non_snake_case)]
    pub fn NewVectorDbConfig(host: &str, port: u16, user: &str, dbname: &str) -> (config:
        VectorDbConfig)
        ensures
            config.host@ == host@,
            config.port == port,
            config.user@ == user@,
            config.dbname@ == dbname@,
            config.timeout == CONNECT_TIMEOUT,
    {
        NewVectorDbConfig(host, port, user, dbname)
    }

    /// The connection string of the configuration. The timeout is not part of it.
    pub fn to_string(&self) -> (res: String)
        ensures
            res@ == connection_string(self.host@, self.port, self.user@, self.dbname@),
    {
        let mut out = "host=".to_string();
        out.append(self.host.as_str());
        out.append(" port=");
        let port = u16_to_string(self.port);
        out.append(port.as_str());
        out.append(" user=");
        out.append(self.user.as_str());
        out.append(" dbname=");
        out.append(self.dbname.as_str());
        out
    }

    /// A copy of the configuration.
    pub fn clone(&self) -> (config: VectorDbConfig)
        ensures
            config.host@ == self.host@,
            config.port == self.port,
            config.user@ == self.user@,
            config.dbname@ == self.dbname@,
            config.timeout == self.timeout,
    {
        VectorDbConfig {
            host: self.host.clone(),
            port: self.port,
            user: self.user.clone(),
            dbname: self.dbname.clone(),
            timeout: self.timeout,
        }
    }
}

/// A request for `input` that names only its model.
#[allow(non_snake_case)]
pub fn NewEmbedRequest(model: &str, input: Vec<&str>) -> (req: EmbedRequest)
    ensures
        req@ == plain_request_view(model@, input.deep_view()),
{
    let mut req = EmbedRequest::EmptyEmbedRequest();
    req.model = model.to_string();
    req.input = own_strings(&input);
    req
}

/// A request for `input` that names only its model, to be shared between tasks.
#[allow(non_snake_case)]
pub fn ArcEmbedRequest(model: &str, input: Vec<&str>) -> (req: EmbedRequest)
    ensures
        req@ == plain_request_view(model@, input.deep_view()),
{
    NewEmbedRequest(model, input)
}

/// A request for `input` that names only its model, to be shared between tasks.
#[allow(non_snake_case)]
pub fn NewArcEmbedRequest(model: &String, input: Vec<&String>) -> (req: EmbedRequest)
    ensures
        req@ == plain_request_view(model@, input.deep_view()),
{
    let mut texts: Vec<String> = Vec::new();
    let n = input.len();
    let mut i: usize = 0;
    while i < n
        invariant
            i <= n,
            n == input.len(),
            texts.len() == i,
            forall|k: int| 0 <= k < i ==> (#[trigger] texts[k])@ == input[k]@,
        decreases n - i,
    {
        texts.push(input[i].clone());
        i += 1;
    }
    assert(texts.deep_view() == input.deep_view());
    let mut req = EmbedRequest::EmptyEmbedRequest();
    req.model = model.clone();
    req.input = texts;
    req
}

/// A request with nothing in it.
#[allow(non_snake_case)]
pub fn EmptyEmbedRequest() -> (req: EmbedRequest)
    ensures
        req@ == plain_request_view(Seq::empty(), Seq::empty()),
{
    EmbedRequest::EmptyEmbedRequest()
}

/// A response made of its parts.
#[allow(non_snake_case)]
pub fn NewEmbedResponse(model: String, embeddings: Vec<Vec<u32>>) -> (res: EmbedResponse)
    ensures
        res@ == (EmbedResponseView { model: model@, embeddings: embeddings.deep_view() }),
{
    EmbedResponse::NewEmbedResponse(model, embeddings)
}

/// A response with nothing in it.
#[allow(non_snake_case)]
pub fn EmptyEmbedResponse() -> (res: EmbedResponse)
    ensures
        res@ == (EmbedResponseView { model: Seq::empty(), embeddings: Seq::empty() }),
{
    EmbedResponse::EmptyEmbedResponse()
}

} // verus!
