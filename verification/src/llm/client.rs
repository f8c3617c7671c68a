//! What every provider client has in common: its identity, the shape of the request it
//! sends, and the rule by which a refused request becomes an error.
//!
//! A client in this crate performs no I/O. It says what to send, and it says what the
//! provider's answer comes to; the caller carries the bytes. One exchange goes as follows:
//! the client's `request` is sent with POST; where no status comes back the caller reports
//! a network error; where the status is not a success the body and, if the body decodes as
//! the provider's error envelope, the envelope's message go to the client's `rejection`;
//! otherwise the texts of the decoded completions go to the client's `completion`, or,
//! where the answer does not decode, the caller reports a network error again.

use crate::config::models::Temperature;
use crate::error::{ErrorView, RephraserError};
use crate::llm::status::{status_text, HttpStatus};
use crate::text::{chars_of, push_all, push_str, string_of};
use vstd::prelude::*;

verus! {

/// A provider client: one capability, implemented once per provider.
pub trait LlmClient {
    /// The provider's stable short name.
    spec fn provider(&self) -> Seq<char>;

    /// The model that this client asks for.
    spec fn model(&self) -> Seq<char>;

    /// The provider's stable short name, such as `openai`, `anthropic` or `mock`.
    fn provider_name(&self) -> (name: &str)
        ensures
            name@ == self.provider(),
    ;

    /// The model that this client asks for.
    fn model_name(&self) -> (name: &str)
        ensures
            name@ == self.model(),
    ;
}

/// What a vendor client is configured with, as a mathematical value.
pub struct SettingsView {
    pub api_key: Seq<char>,
    pub model: Seq<char>,
    pub temperature: Temperature,
    pub max_tokens: nat,
}

/// One header of a request.
#[derive(Debug)]
pub struct Header {
    pub name: String,
    pub value: String,
}

/// One message of a conversation.
#[derive(Debug)]
pub struct ChatMessage {
    pub role: String,
    pub content: String,
}

/// A completion request: how and where it is sent, the headers it carries, and the
/// fields of its JSON body.
#[derive(Debug)]
pub struct CompletionRequest {
    pub method: String,
    pub url: String,
    pub headers: Vec<Header>,
    pub model: String,
    pub messages: Vec<ChatMessage>,
    pub temperature: Temperature,
    pub max_tokens: usize,
}

/// A completion request as a mathematical value. Headers are pairs of name and value,
/// messages are pairs of role and content.
pub struct RequestView {
    pub method: Seq<char>,
    pub url: Seq<char>,
    pub headers: Seq<(Seq<char>, Seq<char>)>,
    pub model: Seq<char>,
    pub messages: Seq<(Seq<char>, Seq<char>)>,
    pub temperature: Temperature,
    pub max_tokens: nat,
}

impl View for CompletionRequest {
    type V = RequestView;

    open spec fn view(&self) -> RequestView {
        RequestView {
            method: self.method@,
            url: self.url@,
            headers: header_views(self.headers@),
            model: self.model@,
            messages: self.messages@.map_values(|m: ChatMessage| (m.role@, m.content@)),
            temperature: self.temperature,
            max_tokens: self.max_tokens as nat,
        }
    }
}

/// The one message of a single-turn exchange: the prompt, said by the user.
pub open spec fn single_turn(prompt: Seq<char>) -> Seq<(Seq<char>, Seq<char>)> {
    seq![("user"@, prompt)]
}

/// The views of a list of headers.
pub open spec fn header_views(headers: Seq<Header>) -> Seq<(Seq<char>, Seq<char>)> {
    headers.map_values(|h: Header| (h.name@, h.value@))
}

/// A header with the given name and value.
pub fn header(name: &str, value: &str) -> (made: Header)
    ensures
        made.name@ == name@,
        made.value@ == value@,
{
    Header { name: name.to_owned(), value: value.to_owned() }
}

/// The message list of a single-turn exchange.
pub fn user_message(prompt: &str) -> (messages: Vec<ChatMessage>)
    ensures
        messages@.map_values(|m: ChatMessage| (m.role@, m.content@)) == single_turn(prompt@),
{
    let mut messages: Vec<ChatMessage> = Vec::new();
    messages.push(ChatMessage { role: "user".to_owned(), content: prompt.to_owned() });
    proof {
        assert(messages@.map_values(|m: ChatMessage| (m.role@, m.content@)) =~= single_turn(
            prompt@,
        ));
    }
    messages
}

/// The kinds of error that a refused request can become.
pub enum Refusal {
    Auth,
    RateLimit,
    BadRequest,
    ServiceError,
}

/// The kind of error that a status outside the successes stands for: 401 and 403 reject
/// the credential, 429 throttles, 400 rejects the request, and every other status is
/// the provider's failure.
pub open spec fn refusal(code: u16) -> Refusal {
    if code == 401 || code == 403 {
        Refusal::Auth
    } else if code == 429 {
        Refusal::RateLimit
    } else if code == 400 {
        Refusal::BadRequest
    } else {
        Refusal::ServiceError
    }
}

/// The human-readable part of a refusal: the message of the provider's error envelope
/// where the body decoded as one, else the body as it came, else a fixed text where
/// the body could not be read.
pub open spec fn refusal_detail(body: Option<Seq<char>>, message: Option<Seq<char>>) -> Seq<
    char,
> {
    match message {
        Some(m) => m,
        None => match body {
            Some(b) => b,
            None => "Unknown error"@,
        },
    }
}

/// The error that a refused request becomes. The kind comes from the status alone;
/// the detail names the vendor and, for a provider failure, the status.
pub open spec fn rejected(
    vendor: Seq<char>,
    code: u16,
    body: Option<Seq<char>>,
    message: Option<Seq<char>>,
) -> ErrorView {
    let detail = refusal_detail(body, message);
    match refusal(code) {
        Refusal::Auth => ErrorView::Auth(vendor + " authentication failed: "@ + detail),
        Refusal::RateLimit => ErrorView::RateLimit(vendor + " rate limit exceeded: "@ + detail),
        Refusal::BadRequest => ErrorView::BadRequest(vendor + " bad request: "@ + detail),
        Refusal::ServiceError => ErrorView::ServiceError(
            vendor + " API error ("@ + status_text(code) + "): "@ + detail,
        ),
    }
}

/// The kind of a refusal is read off the status alone: 401 and 403 give `Auth`, 429
/// gives `RateLimit`, 400 gives `BadRequest`, and every other status gives
/// `ServiceError`, whatever the vendor, the body and the message are.
pub proof fn lemma_kind_follows_status(
    vendor: Seq<char>,
    code: u16,
    body: Option<Seq<char>>,
    message: Option<Seq<char>>,
)
    ensures
        code == 401 || code == 403 <==> rejected(vendor, code, body, message) is Auth,
        code == 429 <==> rejected(vendor, code, body, message) is RateLimit,
        code == 400 <==> rejected(vendor, code, body, message) is BadRequest,
        code != 400 && code != 401 && code != 403 && code != 429 <==> rejected(
            vendor,
            code,
            body,
            message,
        ) is ServiceError,
{
}

/// A successful answer comes to an `Api` error exactly when it holds no completion,
/// and to its first completion otherwise.
pub proof fn lemma_empty_answer_is_api_error(texts: Seq<Seq<char>>, none: Seq<char>)
    ensures
        texts.len() == 0 <==> completed(texts, none) == Err::<Seq<char>, ErrorView>(
            ErrorView::Api(none),
        ),
        texts.len() > 0 <==> completed(texts, none) == Ok::<Seq<char>, ErrorView>(texts[0]),
{
}

/// The error for an exchange that broke down without an answer to read: the provider
/// was not reached, or what it sent could not be decoded. `detail` says what happened.
pub fn network_failure(detail: &str) -> (error: RephraserError)
    ensures
        error@ == ErrorView::Network(detail@),
{
    RephraserError::Network(detail.to_owned())
}

/// The view of an optional text.
pub open spec fn text_view(text: Option<&str>) -> Option<Seq<char>> {
    match text {
        Some(t) => Some(t@),
        None => None,
    }
}

/// The error that a request refused with `status` becomes for the vendor called `vendor`.
pub fn reject(
    vendor: &str,
    status: HttpStatus,
    body: Option<&str>,
    message: Option<&str>,
) -> (error: RephraserError)
    ensures
        error@ == rejected(vendor@, status@, text_view(body), text_view(message)),
{
    let mut detail: Vec<char> = Vec::new();
    push_str(&mut detail, vendor);
    let code = status.as_u16();
    let text = match message {
        Some(m) => chars_of(m),
        None => match body {
            Some(b) => chars_of(b),
            None => chars_of("Unknown error"),
        },
    };
    if code == 401 || code == 403 {
        push_str(&mut detail, " authentication failed: ");
        push_all(&mut detail, &text);
        RephraserError::Auth(string_of(&detail))
    } else if code == 429 {
        push_str(&mut detail, " rate limit exceeded: ");
        push_all(&mut detail, &text);
        RephraserError::RateLimit(string_of(&detail))
    } else if code == 400 {
        push_str(&mut detail, " bad request: ");
        push_all(&mut detail, &text);
        RephraserError::BadRequest(string_of(&detail))
    } else {
        push_str(&mut detail, " API error (");
        let shown = status.describe();
        push_str(&mut detail, shown.as_str());
        push_str(&mut detail, "): ");
        push_all(&mut detail, &text);
        RephraserError::ServiceError(string_of(&detail))
    }
}

/// The views of a list of texts.
pub open spec fn text_views(texts: Seq<String>) -> Seq<Seq<char>> {
    texts.map_values(|t: String| t@)
}

/// What a successful answer comes to: the first of its completions, or the error that
/// it holds none.
pub open spec fn completed(texts: Seq<Seq<char>>, none: Seq<char>) -> Result<
    Seq<char>,
    ErrorView,
> {
    if texts.len() == 0 {
        Err(ErrorView::Api(none))
    } else {
        Ok(texts[0])
    }
}

/// The first of the completions of a successful answer, or the error, with the detail
/// `none`, that it holds none.
pub fn first_completion(texts: &Vec<String>, none: &str) -> (result: Result<
    String,
    RephraserError,
>)
    ensures
        crate::error::outcome(result) == completed(text_views(texts@), none@),
{
    if texts.len() == 0 {
        Err(RephraserError::Api(none.to_owned()))
    } else {
        Ok(texts[0].clone())
    }
}

} // verus!
