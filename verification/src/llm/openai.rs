//! The OpenAI chat completions client.

use crate::config::models::Temperature;
use crate::error::{outcome, RephraserError};
use crate::llm::client::{
    completed, first_completion, header, header_views, reject, rejected, single_turn, text_view,
    text_views, user_message, CompletionRequest, Header, LlmClient, RequestView, SettingsView,
};
use crate::llm::status::HttpStatus;
use crate::text::concat_str;
use vstd::prelude::*;

verus! {

/// Where completion requests go.
pub const OPENAI_API_URL: &'static str = "https://api.openai.com/v1/chat/completions";

/// The name of the vendor in error details.
pub const VENDOR: &'static str = "OpenAI";

/// The detail of the error for a successful answer without completions.
pub const NO_COMPLETION: &'static str = "OpenAI returned no choices";

/// The request that a client with the given settings sends for `prompt`.
pub open spec fn request_for(settings: SettingsView, prompt: Seq<char>) -> RequestView {
    RequestView {
        method: "POST"@,
        url: OPENAI_API_URL@,
        headers: seq![
            ("Authorization"@, "Bearer "@ + settings.api_key),
            ("Content-Type"@, "application/json"@),
        ],
        model: settings.model,
        messages: single_turn(prompt),
        temperature: settings.temperature,
        max_tokens: settings.max_tokens,
    }
}

/// A client for the OpenAI chat completions API. Its settings are fixed when it is made.
pub struct OpenAiClient {
    api_key: String,
    model: String,
    temperature: Temperature,
    max_tokens: usize,
}

impl View for OpenAiClient {
    type V = SettingsView;

    closed spec fn view(&self) -> SettingsView {
        SettingsView {
            api_key: self.api_key@,
            model: self.model@,
            temperature: self.temperature,
            max_tokens: self.max_tokens as nat,
        }
    }
}

impl OpenAiClient {
    /// A client that presents `api_key` and asks for `model`.
    pub fn new(
        api_key: String,
        model: String,
        temperature: Temperature,
        max_tokens: usize,
    ) -> (client: Self)
        ensures
            client@ == (SettingsView {
                api_key: api_key@,
                model: model@,
                temperature,
                max_tokens: max_tokens as nat,
            }),
    {
        OpenAiClient { api_key, model, temperature, max_tokens }
    }

    /// The request to send for `prompt`: one message, said by the user.
    pub fn request(&self, prompt: &str) -> (request: CompletionRequest)
        ensures
            request@ == request_for(self@, prompt@),
    {
        let mut headers: Vec<Header> = Vec::new();
        let bearer = concat_str("Bearer ", self.api_key.as_str());
        headers.push(header("Authorization", bearer.as_str()));
        headers.push(header("Content-Type", "application/json"));
        let request = CompletionRequest {
            method: "POST".to_owned(),
            url: OPENAI_API_URL.to_owned(),
            headers,
            model: self.model.clone(),
            messages: user_message(prompt),
            temperature: self.temperature,
            max_tokens: self.max_tokens,
        };
        proof {
            assert(header_views(request.headers@) =~= request_for(self@, prompt@).headers);
        }
        request
    }

    /// The error for an answer whose status is not a success. `body` is the text of
    /// the answer, if it could be read; `message` is the message of the error envelope,
    /// if the body decoded as one.
    pub fn rejection(
        &self,
        status: HttpStatus,
        body: Option<&str>,
        message: Option<&str>,
    ) -> (error: RephraserError)
        ensures
            error@ == rejected(VENDOR@, status@, text_view(body), text_view(message)),
    {
        reject(VENDOR, status, body, message)
    }

    /// The completion of a successful answer: the first of the texts that it holds.
    pub fn completion(&self, texts: &Vec<String>) -> (result: Result<String, RephraserError>)
        ensures
            outcome(result) == completed(text_views(texts@), NO_COMPLETION@),
    {
        first_completion(texts, NO_COMPLETION)
    }
}

impl LlmClient for OpenAiClient {
    open spec fn provider(&self) -> Seq<char> {
        "openai"@
    }

    open spec fn model(&self) -> Seq<char> {
        self@.model
    }

    fn provider_name(&self) -> (name: &str) {
        "openai"
    }

    fn model_name(&self) -> (name: &str) {
        self.model.as_str()
    }
}

} // verus!
