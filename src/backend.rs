//! The two backends: the direct API, reached with a static key, and the cloud
//! platform, reached with a bearer token. They differ only in how an endpoint
//! is formed and in how a request is authenticated.

use crate::builder::ModelRequest;
use crate::wire::{compile_request, is_compiled, GeminiModel, GeminiRequest};
use vstd::prelude::*;

verus! {

/// reqwest's HTTP client, carried by a backend for the transport to use.
#[verifier::external_type_specification]
#[verifier::external_body]
pub struct ExClient(reqwest::Client);

/// The method of a single-shot call.
pub open spec fn completion_method() -> Seq<char> {
    "generateContent"@
}

/// The method of a streaming call.
pub open spec fn stream_method() -> Seq<char> {
    "streamGenerateContent?alt=sse"@
}

/// What the engine needs of a backend.
pub trait GeminiClient {
    /// The identifier of the backend's model.
    spec fn model_spec(&self) -> Seq<char>;

    /// The endpoint of `method` on `model`.
    spec fn endpoint_spec(&self, model: Seq<char>, method: Seq<char>) -> Seq<char>;

    fn model(&self) -> (r: String)
        ensures
            r@ == self.model_spec(),
    ;

    fn get_endpoint(&self, model: &String, method: String) -> (r: String)
        ensures
            r@ == self.endpoint_spec(model@, method@),
    ;

    /// The wire request for `request` on this backend's model.
    fn create_request_body(&self, request: &ModelRequest) -> (r: GeminiRequest)
        ensures
            is_compiled(r, *request, self.model_spec()),
    {
        let model = self.model();
        compile_request(request, model.as_str())
    }

    /// The endpoint of a single-shot call.
    fn completion_endpoint(&self) -> (r: String)
        ensures
            r@ == self.endpoint_spec(self.model_spec(), completion_method()),
    {
        let model = self.model();
        self.get_endpoint(&model, String::from_str("generateContent"))
    }

    /// The endpoint of a streaming call.
    fn stream_endpoint(&self) -> (r: String)
        ensures
            r@ == self.endpoint_spec(self.model_spec(), stream_method()),
    {
        let model = self.model();
        self.get_endpoint(&model, String::from_str("streamGenerateContent?alt=sse"))
    }
}

/// The direct API, authenticated by a static key.
pub struct GeminiApiModel {
    pub api_key: String,
    pub client: reqwest::Client,
    pub model: GeminiModel,
}

impl GeminiApiModel {
    /// The header that authenticates a request: the key, under its own name.
    pub fn auth_header(&self) -> (r: (String, String))
        ensures
            r.0@ == "x-goog-api-key"@,
            r.1@ == self.api_key@,
    {
        (String::from_str("x-goog-api-key"), self.api_key.clone())
    }
}

impl GeminiClient for GeminiApiModel {
    open spec fn model_spec(&self) -> Seq<char> {
        self.model.identifier()
    }

    open spec fn endpoint_spec(&self, model: Seq<char>, method: Seq<char>) -> Seq<char> {
        "https://generativelanguage.googleapis.com/v1beta/models/"@ + model + ":"@ + method
    }

    fn model(&self) -> (r: String) {
        self.model.to_string()
    }

    fn get_endpoint(&self, model: &String, method: String) -> (r: String) {
        let mut url = String::from_str("https://generativelanguage.googleapis.com/v1beta/models/");
        url.append(model.as_str());
        url.append(":");
        url.append(method.as_str());
        url
    }
}

/// The cloud platform, in one region of one project, authenticated by a
/// bearer token.
pub struct GeminiVertexModel {
    pub region: String,
    pub project_name: String,
    pub client: reqwest::Client,
    pub model: GeminiModel,
}

impl GeminiVertexModel {
    /// The header that authenticates a request with `access_token`.
    pub fn auth_header(&self, access_token: &str) -> (r: (String, String))
        ensures
            r.0@ == "Authorization"@,
            r.1@ == "Bearer "@ + access_token@,
    {
        let mut value = String::from_str("Bearer ");
        value.append(access_token);
        (String::from_str("Authorization"), value)
    }
}

impl GeminiClient for GeminiVertexModel {
    open spec fn model_spec(&self) -> Seq<char> {
        self.model.identifier()
    }

    open spec fn endpoint_spec(&self, model: Seq<char>, method: Seq<char>) -> Seq<char> {
        "https://"@ + self.region@ + "-aiplatform.googleapis.com/v1/projects/"@ + self.project_name@
            + "/locations/"@ + self.region@ + "/publishers/google/models/"@ + model + ":"@ + method
    }

    fn model(&self) -> (r: String) {
        self.model.to_string()
    }

    fn get_endpoint(&self, model: &String, method: String) -> (r: String) {
        let mut url = String::from_str("https://");
        url.append(self.region.as_str());
        url.append("-aiplatform.googleapis.com/v1/projects/");
        url.append(self.project_name.as_str());
        url.append("/locations/");
        url.append(self.region.as_str());
        url.append("/publishers/google/models/");
        url.append(model.as_str());
        url.append(":");
        url.append(method.as_str());
        url
    }
}

} // verus!
