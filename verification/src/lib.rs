//! Client-side logic for a dictionary lookup web service: which languages
//! support which operation, how a lookup becomes a request, how a reply is
//! classified, and how a reply's body is read into entries.
//!
//! Nothing here touches the network. A [`Client`] says what to send as a
//! [`Request`]; whoever sends it hands back a [`Reply`], and the client says
//! what the reply amounts to.

pub mod apis;
pub mod input;
pub mod json;
pub mod languages;
pub mod models;
pub mod render;
pub mod text;

pub use languages::Language;

use crate::json::{json_document, parse, Json};
use crate::models::decode::{required, required_is, required_ok, Decode, DeserializationError};
use vstd::prelude::*;
use vstd::string::*;

verus! {

/// Version of the service's API that this library is written for.
pub const API_VERSION: &'static str = "2.5.0";

/// Where the service lives. Every request's URI is relative to this.
pub const API_BASE_URL: &'static str = "https://od-api.oxforddictionaries.com/api/v2/";

/// What the service says went wrong, in its own words.
#[derive(Debug)]
pub struct ErrorExplanation {
    pub error: String,
}

impl Decode for ErrorExplanation {
    open spec fn decodable(document: Json) -> bool {
        &&& document is Object
        &&& required_ok::<String>(document, "error"@)
    }

    open spec fn decodes(document: Json, value: Self) -> bool {
        &&& required_is::<String>(document, "error"@, value.error)
    }

    fn decode(document: &Json) -> (read: Result<Self, DeserializationError>) {
        if !document.is_object() {
            return Err(DeserializationError);
        }
        let error = required::<String>(document, "error")?;
        Ok(ErrorExplanation { error })
    }
}

impl ErrorExplanation {
    /// The explanation as text.
    pub fn to_string(&self) -> (text: String)
        ensures
            text@ == self.error@,
    {
        self.error.clone()
    }
}

/// Why a call gave no result.
#[derive(Debug)]
pub enum Error {
    /// The request could not be carried out, or its answer could not be
    /// received; with the transport's account of it.
    SurfError(String),
    /// The service answered with one of its error statuses.
    ApiReturnedError { explanation: ErrorExplanation, x_request_id: String },
    /// The source language does not offer the operation. Nothing was sent.
    UnsupportedApi { lang: Language, api: String },
    /// The answer's body is no JSON text, or not of the expected shape.
    DeserializationError,
}

impl Error {
    /// What went wrong, in a sentence.
    pub open spec fn spec_message(self) -> Seq<char> {
        match self {
            Error::SurfError(reason) => "http error: "@ + reason@,
            Error::ApiReturnedError { explanation, x_request_id } => "api request with id `"@
                + x_request_id@ + "` returned error: "@ + explanation.error@,
            Error::UnsupportedApi { lang, api } => "language `"@ + lang.spec_code()
                + "` does not support `"@ + api@ + "`"@,
            Error::DeserializationError => "response body does not have the expected shape"@,
        }
    }

    /// What went wrong, in a sentence.
    pub fn message(&self) -> (message: String)
        ensures
            message@ == self.spec_message(),
    {
        match self {
            Error::SurfError(reason) => {
                let mut message = "http error: ".to_owned();
                message.append(reason.as_str());
                message
            },
            Error::ApiReturnedError { explanation, x_request_id } => {
                let mut message = "api request with id `".to_owned();
                message.append(x_request_id.as_str());
                message.append("` returned error: ");
                message.append(explanation.error.as_str());
                message
            },
            Error::UnsupportedApi { lang, api } => {
                let mut message = "language `".to_owned();
                message.append(lang.code());
                message.append("` does not support `");
                message.append(api.as_str());
                message.append("`");
                message
            },
            Error::DeserializationError => {
                "response body does not have the expected shape".to_owned()
            },
        }
    }
}

/// The operations of the service.
#[derive(Debug, Clone, Copy, PartialEq, Eq, Structural)]
pub enum Endpoint {
    Entries,
    GrammaticalFeatures,
}

impl Endpoint {
    /// The first segment of the operation's path.
    pub open spec fn spec_as_str(self) -> Seq<char> {
        match self {
            Endpoint::Entries => "entries"@,
            Endpoint::GrammaticalFeatures => "grammaticalFeatures"@,
        }
    }

    /// The first segment of the operation's path.
    pub fn as_str(&self) -> (name: &'static str)
        ensures
            name@ == self.spec_as_str(),
    {
        match self {
            Endpoint::Entries => "entries",
            Endpoint::GrammaticalFeatures => "grammaticalFeatures",
        }
    }
}

/// A GET request to the service: where to, and with which headers.
#[derive(Debug)]
pub struct Request {
    /// The URI, relative to [`API_BASE_URL`].
    pub uri: String,
    /// The headers, as name and value, in the order they are to be set.
    pub headers: Vec<(String, String)>,
}

/// What came back for a request.
#[derive(Debug)]
pub enum Reply {
    /// Nothing usable came back; with the transport's account of it.
    Failed(String),
    /// The service answered.
    Answered {
        /// The HTTP status.
        status: u16,
        /// The `X-Request-Id` header, where the answer has one.
        x_request_id: Option<String>,
        /// The body, as received.
        body: Vec<u8>,
    },
}

/// Whether the service answers with an explanation under this status.
pub open spec fn spec_is_api_error_status(status: u16) -> bool {
    status == 400 || status == 404 || status == 414 || status == 500
}

/// Whether the service answers with an explanation under this status.
#[verifier::when_used_as_spec(spec_is_api_error_status)]
pub fn is_api_error_status(status: u16) -> (yes: bool)
    ensures
        yes == spec_is_api_error_status(status),
{
    status == 400 || status == 404 || status == 414 || status == 500
}

/// What an answer amounts to before anyone looks at its payload: nothing
/// wrong unless the status is one of the four that come with an explanation;
/// under those, the explanation together with the request's id, or a
/// deserialization error where the body does not hold an explanation.
pub open spec fn classified(
    status: u16,
    document: Option<Json>,
    x_request_id: Option<String>,
    outcome: Result<(), Error>,
) -> bool {
    if !is_api_error_status(status) {
        outcome is Ok
    } else if document is Some && ErrorExplanation::decodable(document->0) {
        &&& outcome matches Err(Error::ApiReturnedError { explanation, x_request_id: id })
        &&& ErrorExplanation::decodes(document->0, explanation)
        &&& x_request_id matches Some(given)
        &&& id@ == given@
    } else {
        outcome matches Err(Error::DeserializationError)
    }
}

impl Reply {
    /// An answer under one of the error statuses carries the request's id.
    pub open spec fn spec_follows_protocol(&self) -> bool {
        match *self {
            Reply::Answered { status, x_request_id, .. } => is_api_error_status(status)
                ==> x_request_id is Some,
            Reply::Failed(_) => true,
        }
    }

    /// Whether this reply is one the service can give: an answer under one of
    /// the error statuses carries the request's id.
    #[verifier::when_used_as_spec(spec_follows_protocol)]
    pub fn follows_protocol(&self) -> (yes: bool)
        ensures
            yes == self.spec_follows_protocol(),
    {
        match self {
            Reply::Answered { status, x_request_id, .. } => !is_api_error_status(*status)
                || x_request_id.is_some(),
            Reply::Failed(_) => true,
        }
    }
}

/// Configuration for talking to the service: credentials and the language
/// that words are looked up in.
#[derive(Debug)]
pub struct Client {
    app_id: String,
    app_key: String,
    source_language: Language,
}

impl Client {
    /// The id the client presents itself with.
    pub closed spec fn spec_app_id(&self) -> Seq<char> {
        self.app_id@
    }

    /// The key the client presents itself with.
    pub closed spec fn spec_app_key(&self) -> Seq<char> {
        self.app_key@
    }

    /// The language the client looks words up in.
    pub closed spec fn spec_source_language(&self) -> Language {
        self.source_language
    }

    /// The headers every request carries, in order.
    pub open spec fn spec_headers(&self) -> Seq<(Seq<char>, Seq<char>)> {
        seq![
            ("app_id"@, self.spec_app_id()),
            ("app_key"@, self.spec_app_key()),
            ("Accept"@, "application/json"@),
        ]
    }

    /// Whether `request` is a request of this client for `uri`.
    pub open spec fn requests(&self, uri: Seq<char>, request: Request) -> bool {
        &&& request.uri@ == uri
        &&& request.headers.len() == 3
        &&& forall|i: int|
            0 <= i < 3 ==> (#[trigger] request.headers[i]).0@ == self.spec_headers()[i].0
                && request.headers[i].1@ == self.spec_headers()[i].1
    }

    /// The URI of the grammatical features of this client's language.
    pub open spec fn spec_grammatical_features_uri(&self) -> Seq<char> {
        Endpoint::GrammaticalFeatures.spec_as_str() + "/"@ + self.spec_source_language().spec_code()
    }

    /// Creates new instance of `Client`
    pub fn new(app_id: String, app_key: String, source_language: Language) -> (client: Self)
        ensures
            client.spec_app_id() == app_id@,
            client.spec_app_key() == app_key@,
            client.spec_source_language() == source_language,
    {
        Client { app_id, app_key, source_language }
    }

    /// The language the client looks words up in.
    pub fn source_language(&self) -> (language: Language)
        ensures
            language == self.spec_source_language(),
    {
        self.source_language
    }

    /// The request for all grammatical features of the client's language.
    pub fn grammatical_features(&self) -> (request: Request)
        ensures
            self.requests(self.spec_grammatical_features_uri(), request),
    {
        let mut path = Endpoint::GrammaticalFeatures.as_str().to_owned();
        path.append("/");
        path.append(self.source_language.code());
        self.get_request(path.as_str())
    }

    /// What a reply to [`Client::grammatical_features`] amounts to. The
    /// features come as the service wrote them: no shape is asked of them.
    pub fn grammatical_features_result(reply: Reply) -> (result: Result<Json, Error>)
        requires
            reply.follows_protocol(),
        ensures
            reply matches Reply::Failed(reason) ==> result matches Err(Error::SurfError(cause))
                && cause@ == reason@,
            reply matches Reply::Answered { status, x_request_id, body } ==> {
                if is_api_error_status(status) {
                    result is Err && classified(
                        status,
                        json_document(body@),
                        x_request_id,
                        Err(result->Err_0),
                    )
                } else {
                    match json_document(body@) {
                        Some(document) => result == Ok::<Json, Error>(document),
                        None => result matches Err(Error::DeserializationError),
                    }
                }
            },
    {
        match reply {
            Reply::Failed(cause) => Err(Error::SurfError(cause)),
            Reply::Answered { status, x_request_id, body } => {
                match Client::handle_api_error(status, body.as_slice(), x_request_id) {
                    Err(error) => Err(error),
                    Ok(()) => match parse(body.as_slice()) {
                        Some(document) => Ok(document),
                        None => Err(Error::DeserializationError),
                    },
                }
            },
        }
    }

    /// A GET request for `uri` with the headers every request carries.
    pub fn get_request(&self, uri: &str) -> (request: Request)
        ensures
            self.requests(uri@, request),
    {
        let mut headers: Vec<(String, String)> = Vec::new();
        headers.push(("app_id".to_owned(), self.app_id.clone()));
        headers.push(("app_key".to_owned(), self.app_key.clone()));
        headers.push(("Accept".to_owned(), "application/json".to_owned()));
        Request { uri: uri.to_owned(), headers }
    }

    /// Classifies an answer by its status, given what its body was read as
    /// (`None` where it is no JSON text).
    pub fn classify(status: u16, document: Option<Json>, x_request_id: Option<String>) -> (outcome:
        Result<(), Error>)
        requires
            is_api_error_status(status) ==> x_request_id is Some,
        ensures
            outcome is Err <==> is_api_error_status(status),
            classified(status, document, x_request_id, outcome),
    {
        if !is_api_error_status(status) {
            return Ok(());
        }
        let document = match document {
            Some(document) => document,
            None => {
                return Err(Error::DeserializationError);
            },
        };
        let explanation = match ErrorExplanation::decode(&document) {
            Ok(explanation) => explanation,
            Err(_) => {
                return Err(Error::DeserializationError);
            },
        };
        match x_request_id {
            Some(x_request_id) => Err(Error::ApiReturnedError { explanation, x_request_id }),
            None => unreached(),
        }
    }

    /// Classifies an answer by its status. The body is read only under one of
    /// the error statuses.
    pub fn handle_api_error(status: u16, body: &[u8], x_request_id: Option<String>) -> (outcome:
        Result<(), Error>)
        requires
            is_api_error_status(status) ==> x_request_id is Some,
        ensures
            outcome is Err <==> is_api_error_status(status),
            classified(status, json_document(body@), x_request_id, outcome),
    {
        if is_api_error_status(status) {
            Client::classify(status, parse(body), x_request_id)
        } else {
            Ok(())
        }
    }
}

} // verus!
