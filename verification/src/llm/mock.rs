//! A client that answers from a table, for exercising callers without a provider.
//!
//! It looks for the key of a canned response in the prompt, then for one of three
//! markers that the default prompts hold, and answers with a fixed text otherwise.
//! It never fails and never waits; a caller that wants latency adds it.

use crate::config::models::{ORGANIZE_NAME, POLITE_NAME, SUMMARIZE_NAME};
use crate::error::RephraserError;
use crate::llm::client::LlmClient;
use crate::text::{chars_of, contains, occurs_in, string_of};
use crate::text_map::{has_key, inserted, value_of, Entries, TextMap};
use vstd::prelude::*;

verus! {

/// What a fresh client answers to a prompt that asks for politeness.
pub const POLITE_REPLY: &'static str =
    "こんにちは、お元気でしょうか。いつもありがとうございます。";

/// What a fresh client answers to a prompt that asks for order.
pub const ORGANIZE_REPLY: &'static str =
    "整理されたテキスト：\n\n1. 主要ポイント\n   - 項目A\n   - 項目B\n\n2. 詳細説明\n   - 説明1\n   - 説明2\n\n3. まとめ\n   - 結論";

/// What a fresh client answers to a prompt that asks for a summary.
pub const SUMMARIZE_REPLY: &'static str =
    "要約: このテキストは主要な3つのポイントを含んでいます。";

/// What a fresh client answers to any other prompt.
pub const DEFAULT_REPLY: &'static str = "[Mock LLM Response] Processed successfully.";

/// The marker of a prompt that asks for politeness.
pub const POLITE_MARKER: &'static str = "丁寧";

/// The marker of a prompt that asks for order.
pub const ORGANIZE_MARKER: &'static str = "整理";

/// The marker of a prompt that asks for a summary.
pub const SUMMARIZE_MARKER: &'static str = "要約";

/// A mock client as a mathematical value.
pub struct MockView {
    /// The canned responses, each under its key, oldest first.
    pub responses: Entries,
    /// The answer to a prompt that nothing matches.
    pub default_response: Seq<char>,
}

/// A fresh client as a mathematical value.
pub open spec fn fresh() -> MockView {
    MockView {
        responses: seq![
            (POLITE_NAME@, POLITE_REPLY@),
            (ORGANIZE_NAME@, ORGANIZE_REPLY@),
            (SUMMARIZE_NAME@, SUMMARIZE_REPLY@),
        ],
        default_response: DEFAULT_REPLY@,
    }
}

/// The first key, in the order of the entries, that stands somewhere in `prompt`.
pub open spec fn first_key_in(responses: Entries, prompt: Seq<char>) -> Option<Seq<char>>
    decreases responses.len(),
{
    if responses.len() == 0 {
        None
    } else if occurs_in(prompt, responses[0].0) {
        Some(responses[0].0)
    } else {
        first_key_in(responses.skip(1), prompt)
    }
}

/// The action that a prompt with one of the three markers asks for.
pub open spec fn marked_action(prompt: Seq<char>) -> Option<Seq<char>> {
    if occurs_in(prompt, POLITE_MARKER@) {
        Some(POLITE_NAME@)
    } else if occurs_in(prompt, ORGANIZE_MARKER@) {
        Some(ORGANIZE_NAME@)
    } else if occurs_in(prompt, SUMMARIZE_MARKER@) {
        Some(SUMMARIZE_NAME@)
    } else {
        None
    }
}

/// The action that `prompt` asks for: the first key found in it, else the action of
/// the first marker found in it.
pub open spec fn extracted(responses: Entries, prompt: Seq<char>) -> Option<Seq<char>> {
    match first_key_in(responses, prompt) {
        Some(key) => Some(key),
        None => marked_action(prompt),
    }
}

/// The answer to `prompt`: the canned response of the action it asks for, or the
/// default where it asks for none or for one without a canned response.
pub open spec fn reply(mock: MockView, prompt: Seq<char>) -> Seq<char> {
    match extracted(mock.responses, prompt) {
        Some(action) => match value_of(mock.responses, action) {
            Some(response) => response,
            None => mock.default_response,
        },
        None => mock.default_response,
    }
}

/// No key among `responses` stands in `prompt`.
pub open spec fn no_key_in(responses: Entries, prompt: Seq<char>) -> bool {
    forall|i: int| 0 <= i < responses.len() ==> !occurs_in(prompt, (#[trigger] responses[i]).0)
}

/// None of the three markers stands in `prompt`.
pub open spec fn unmarked(prompt: Seq<char>) -> bool {
    &&& !occurs_in(prompt, POLITE_MARKER@)
    &&& !occurs_in(prompt, ORGANIZE_MARKER@)
    &&& !occurs_in(prompt, SUMMARIZE_MARKER@)
}

/// No key is found exactly when no key stands in the prompt.
pub proof fn lemma_first_key_in(responses: Entries, prompt: Seq<char>)
    ensures
        first_key_in(responses, prompt) is None <==> no_key_in(responses, prompt),
    decreases responses.len(),
{
    if responses.len() > 0 {
        let rest = responses.skip(1);
        lemma_first_key_in(rest, prompt);
        assert forall|i: int| 0 <= i < rest.len() implies rest[i] == responses[i + 1] by {}
        if !occurs_in(prompt, responses[0].0) {
            if no_key_in(rest, prompt) {
                assert forall|i: int| 0 <= i < responses.len() implies !occurs_in(
                    prompt,
                    (#[trigger] responses[i]).0,
                ) by {
                    if i > 0 {
                        assert(!occurs_in(prompt, rest[i - 1].0));
                    }
                }
            }
            if no_key_in(responses, prompt) {
                assert forall|i: int| 0 <= i < rest.len() implies !occurs_in(
                    prompt,
                    (#[trigger] rest[i]).0,
                ) by {
                    assert(!occurs_in(prompt, responses[i + 1].0));
                }
            }
        } else {
            assert(occurs_in(prompt, responses[0].0));
        }
    }
}

/// A prompt in which no key and no marker stands gets the default response, whatever
/// the client holds.
pub proof fn lemma_unrecognized_prompt_gets_default(mock: MockView, prompt: Seq<char>)
    requires
        no_key_in(mock.responses, prompt),
        unmarked(prompt),
    ensures
        reply(mock, prompt) == mock.default_response,
{
    lemma_first_key_in(mock.responses, prompt);
}

/// A fresh client answers with the canned polite response to every prompt that holds
/// the key of the polite action, and to every prompt that holds its marker and no key.
pub proof fn lemma_polite_prompt_gets_polite_reply(prompt: Seq<char>)
    requires
        occurs_in(prompt, POLITE_NAME@) || (occurs_in(prompt, POLITE_MARKER@) && no_key_in(
            fresh().responses,
            prompt,
        )),
    ensures
        reply(fresh(), prompt) == POLITE_REPLY@,
{
    let responses = fresh().responses;
    assert(responses[0] == (POLITE_NAME@, POLITE_REPLY@));
    assert(value_of(responses, POLITE_NAME@) == Some(POLITE_REPLY@));
    if occurs_in(prompt, POLITE_NAME@) {
        assert(first_key_in(responses, prompt) == Some(POLITE_NAME@));
    } else {
        lemma_first_key_in(responses, prompt);
    }
}

/// A client that answers from a table of canned responses.
pub struct MockLlmClient {
    responses: TextMap,
    default_response: String,
}

impl View for MockLlmClient {
    type V = MockView;

    closed spec fn view(&self) -> MockView {
        MockView { responses: self.responses@, default_response: self.default_response@ }
    }
}

impl MockLlmClient {
    /// The client's invariant: no key has two canned responses.
    pub closed spec fn wf(&self) -> bool {
        self.responses.wf()
    }

    /// A client with the canned responses for the three default actions.
    pub fn new() -> (client: Self)
        ensures
            client.wf(),
            client@ == fresh(),
    {
        let mut responses = TextMap::new();
        responses.insert(POLITE_NAME, POLITE_REPLY);
        responses.insert(ORGANIZE_NAME, ORGANIZE_REPLY);
        responses.insert(SUMMARIZE_NAME, SUMMARIZE_REPLY);
        proof {
            reveal_strlit("polite");
            reveal_strlit("organize");
            reveal_strlit("summarize");
            let one = inserted(Entries::empty(), POLITE_NAME@, POLITE_REPLY@);
            assert(one =~= seq![(POLITE_NAME@, POLITE_REPLY@)]);
            assert(!has_key(one, ORGANIZE_NAME@)) by {
                assert(POLITE_NAME@.len() != ORGANIZE_NAME@.len());
            }
            let two = inserted(one, ORGANIZE_NAME@, ORGANIZE_REPLY@);
            assert(two =~= seq![(POLITE_NAME@, POLITE_REPLY@), (ORGANIZE_NAME@, ORGANIZE_REPLY@)]);
            assert(!has_key(two, SUMMARIZE_NAME@)) by {
                assert(POLITE_NAME@.len() != SUMMARIZE_NAME@.len());
                assert(ORGANIZE_NAME@.len() != SUMMARIZE_NAME@.len());
            }
            assert(responses@ =~= fresh().responses);
        }
        MockLlmClient { responses, default_response: DEFAULT_REPLY.to_owned() }
    }

    /// Gives `action` the canned response `response`, in place of any it had.
    pub fn add_response(&mut self, action: &str, response: &str)
        requires
            old(self).wf(),
        ensures
            final(self).wf(),
            final(self)@ == (MockView {
                responses: inserted(old(self)@.responses, action@, response@),
                default_response: old(self)@.default_response,
            }),
    {
        self.responses.insert(action, response);
    }

    /// Makes `response` the answer to a prompt that nothing matches.
    pub fn set_default_response(&mut self, response: &str)
        requires
            old(self).wf(),
        ensures
            final(self).wf(),
            final(self)@ == (MockView {
                responses: old(self)@.responses,
                default_response: response@,
            }),
    {
        self.default_response = response.to_owned();
    }

    /// The action that `prompt` asks for, as characters.
    fn action_of(&self, prompt: &Vec<char>) -> (action: Option<Vec<char>>)
        ensures
            match action {
                Some(a) => extracted(self@.responses, prompt@) == Some(a@),
                None => extracted(self@.responses, prompt@) is None,
            },
    {
        let mut i: usize = 0;
        proof {
            assert(self@.responses.skip(0) =~= self@.responses);
        }
        while i < self.responses.len()
            invariant
                i <= self@.responses.len(),
                first_key_in(self@.responses, prompt@) == first_key_in(
                    self@.responses.skip(i as int),
                    prompt@,
                ),
            decreases self@.responses.len() - i,
        {
            let key = self.responses.key_at(i);
            proof {
                assert(self@.responses.skip(i as int)[0] == self@.responses[i as int]);
                assert(self@.responses.skip(i as int).skip(1) =~= self@.responses.skip(i + 1));
            }
            if contains(prompt, key) {
                return Some(key.clone());
            }
            i += 1;
        }
        if contains(prompt, &chars_of(POLITE_MARKER)) {
            Some(chars_of(POLITE_NAME))
        } else if contains(prompt, &chars_of(ORGANIZE_MARKER)) {
            Some(chars_of(ORGANIZE_NAME))
        } else if contains(prompt, &chars_of(SUMMARIZE_MARKER)) {
            Some(chars_of(SUMMARIZE_NAME))
        } else {
            None
        }
    }

    /// The action that `prompt` asks for: the first key of a canned response found
    /// in it, else the action of the first marker found in it.
    pub fn extract_action(&self, prompt: &str) -> (action: Option<String>)
        ensures
            match action {
                Some(a) => extracted(self@.responses, prompt@) == Some(a@),
                None => extracted(self@.responses, prompt@) is None,
            },
    {
        match self.action_of(&chars_of(prompt)) {
            Some(action) => Some(string_of(&action)),
            None => None,
        }
    }

    /// The completion for `prompt`. It is always a text, never an error.
    pub fn complete(&self, prompt: &str) -> (result: Result<String, RephraserError>)
        ensures
            result matches Ok(text) && text@ == reply(self@, prompt@),
    {
        if let Some(action) = self.action_of(&chars_of(prompt)) {
            if let Some(at) = self.responses.position(&action) {
                return Ok(string_of(self.responses.value_at(at)));
            }
        }
        Ok(self.default_response.clone())
    }
}

impl Default for MockLlmClient {
    fn default() -> (client: Self)
        ensures
            client.wf(),
            client@ == fresh(),
    {
        MockLlmClient::new()
    }
}

impl LlmClient for MockLlmClient {
    open spec fn provider(&self) -> Seq<char> {
        "mock"@
    }

    open spec fn model(&self) -> Seq<char> {
        "mock-model-v1"@
    }

    fn provider_name(&self) -> (name: &str) {
        "mock"
    }

    fn model_name(&self) -> (name: &str) {
        "mock-model-v1"
    }
}

} // verus!
