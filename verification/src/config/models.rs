//! The configuration as plain data, and the values it has when nothing else is given.

use vstd::prelude::*;

verus! {

/// Name of the action that rewrites a text politely.
pub const POLITE_NAME: &'static str = "polite";

/// Label of the action that rewrites a text politely.
pub const POLITE_LABEL: &'static str = "丁寧に";

/// Prompt of the action that rewrites a text politely.
pub const POLITE_PROMPT: &'static str =
    "以下のテキストを丁寧な表現に変換してください。元の意味を保ったまま、敬語や丁寧語を適切に使用してください。\n\nテキスト:\n{text}\n\n丁寧な表現:";

/// Name of the action that puts a text in order.
pub const ORGANIZE_NAME: &'static str = "organize";

/// Label of the action that puts a text in order.
pub const ORGANIZE_LABEL: &'static str = "整理する";

/// Prompt of the action that puts a text in order.
pub const ORGANIZE_PROMPT: &'static str =
    "以下のテキストを論理的に整理し、読みやすく構造化してください。\n\nテキスト:\n{text}\n\n整理されたテキスト:";

/// Name of the action that sums a text up.
pub const SUMMARIZE_NAME: &'static str = "summarize";

/// Label of the action that sums a text up.
pub const SUMMARIZE_LABEL: &'static str = "要約";

/// Prompt of the action that sums a text up.
pub const SUMMARIZE_PROMPT: &'static str =
    "以下のテキストを簡潔に要約してください。\n\nテキスト:\n{text}\n\n要約:";

/// The sampling temperature that is used when none is configured: 0.7 in single precision.
pub const DEFAULT_TEMPERATURE_BITS: u32 = 0x3F33_3333;

/// The ceiling on the length of a completion that is used when none is configured.
pub const DEFAULT_MAX_TOKENS: usize = 500;

/// A sampling temperature.
///
/// It is carried as the bit pattern of an IEEE 754 single-precision number and never
/// interpreted here: whether it lies in a provider's range is for the provider to say.
#[derive(Debug, Clone, Copy, PartialEq, Eq, Structural)]
pub struct Temperature {
    pub bits: u32,
}

impl Temperature {
    /// The temperature with the given bit pattern.
    pub fn from_bits(bits: u32) -> (t: Self)
        ensures
            t.bits == bits,
    {
        Temperature { bits }
    }

    /// The bit pattern of the temperature.
    pub fn to_bits(&self) -> (bits: u32)
        ensures
            bits == self.bits,
    {
        self.bits
    }
}

/// The parameters sent along with every prompt.
#[derive(Debug, Clone, Copy, PartialEq, Eq, Structural)]
pub struct LlmParameters {
    /// The sampling temperature.
    pub temperature: Temperature,
    /// The ceiling on the length of a completion.
    pub max_tokens: usize,
}

/// The sampling temperature that is used when none is configured.
pub fn default_temperature() -> (t: Temperature)
    ensures
        t.bits == DEFAULT_TEMPERATURE_BITS,
{
    Temperature::from_bits(DEFAULT_TEMPERATURE_BITS)
}

/// The ceiling on the length of a completion that is used when none is configured.
pub fn default_max_tokens() -> (n: usize)
    ensures
        n == DEFAULT_MAX_TOKENS,
{
    DEFAULT_MAX_TOKENS
}

impl Default for LlmParameters {
    fn default() -> (p: Self)
        ensures
            p.temperature.bits == DEFAULT_TEMPERATURE_BITS,
            p.max_tokens == DEFAULT_MAX_TOKENS,
    {
        LlmParameters { temperature: default_temperature(), max_tokens: default_max_tokens() }
    }
}

/// Which provider to ask, and how.
#[derive(Debug)]
pub struct LlmConfig {
    /// The provider's key: `openai`, `anthropic` or `mock`.
    pub provider: String,
    /// The model to ask for.
    pub model: String,
    /// The name of the environment variable that holds the credential.
    pub api_key_env: String,
    /// The parameters sent along with every prompt.
    pub parameters: LlmParameters,
}

/// How a completion is handed to the user.
#[derive(Debug, Clone, Copy, PartialEq, Eq, Structural)]
pub enum OutputMethod {
    Clipboard,
    Notification,
    Dialog,
}

/// Where completions go.
#[derive(Debug, Clone, Copy, PartialEq, Eq, Structural)]
pub struct OutputConfig {
    /// How a completion is handed to the user.
    pub method: OutputMethod,
}

/// The whole configuration.
#[derive(Debug)]
pub struct Config {
    pub llm: LlmConfig,
    pub output: OutputConfig,
    /// The declared actions, in the order of their declaration.
    pub actions: Vec<ActionConfig>,
}

/// An action as a mathematical value.
pub struct ActionView {
    pub name: Seq<char>,
    pub display_name: Seq<char>,
    pub prompt_template: Seq<char>,
}

/// A named, user-invokable text transformation.
#[derive(Debug)]
pub struct ActionConfig {
    /// The key by which the action is asked for.
    pub name: String,
    /// The label shown to people.
    pub display_name: String,
    /// The prompt, with `{text}` where the input goes.
    pub prompt_template: String,
}

impl View for ActionConfig {
    type V = ActionView;

    open spec fn view(&self) -> ActionView {
        ActionView {
            name: self.name@,
            display_name: self.display_name@,
            prompt_template: self.prompt_template@,
        }
    }
}

impl Clone for ActionConfig {
    fn clone(&self) -> (copy: Self)
        ensures
            copy@ == self@,
    {
        ActionConfig {
            name: self.name.clone(),
            display_name: self.display_name.clone(),
            prompt_template: self.prompt_template.clone(),
        }
    }
}

/// The views of a list of actions, in the same order.
pub open spec fn action_views(actions: Seq<ActionConfig>) -> Seq<ActionView> {
    actions.map_values(|a: ActionConfig| a@)
}

/// The three actions that a fresh configuration declares, in their order.
pub open spec fn default_action_views() -> Seq<ActionView> {
    seq![
        ActionView {
            name: POLITE_NAME@,
            display_name: POLITE_LABEL@,
            prompt_template: POLITE_PROMPT@,
        },
        ActionView {
            name: ORGANIZE_NAME@,
            display_name: ORGANIZE_LABEL@,
            prompt_template: ORGANIZE_PROMPT@,
        },
        ActionView {
            name: SUMMARIZE_NAME@,
            display_name: SUMMARIZE_LABEL@,
            prompt_template: SUMMARIZE_PROMPT@,
        },
    ]
}

/// An action built from its three texts.
fn action(name: &str, display_name: &str, prompt_template: &str) -> (made: ActionConfig)
    ensures
        made@ == (ActionView {
            name: name@,
            display_name: display_name@,
            prompt_template: prompt_template@,
        }),
{
    ActionConfig {
        name: name.to_owned(),
        display_name: display_name.to_owned(),
        prompt_template: prompt_template.to_owned(),
    }
}

/// The actions that a fresh configuration declares: polite, organize, summarize.
pub fn default_actions() -> (actions: Vec<ActionConfig>)
    ensures
        action_views(actions@) == default_action_views(),
{
    let mut actions: Vec<ActionConfig> = Vec::new();
    actions.push(action(POLITE_NAME, POLITE_LABEL, POLITE_PROMPT));
    actions.push(action(ORGANIZE_NAME, ORGANIZE_LABEL, ORGANIZE_PROMPT));
    actions.push(action(SUMMARIZE_NAME, SUMMARIZE_LABEL, SUMMARIZE_PROMPT));
    proof {
        assert(action_views(actions@) =~= default_action_views());
    }
    actions
}

impl Default for Config {
    /// The configuration of a fresh installation.
    fn default() -> (config: Self)
        ensures
            config.llm.provider@ == "openai"@,
            config.llm.model@ == "gpt-4o-mini"@,
            config.llm.api_key_env@ == "OPENAI_API_KEY"@,
            config.llm.parameters.temperature.bits == DEFAULT_TEMPERATURE_BITS,
            config.llm.parameters.max_tokens == DEFAULT_MAX_TOKENS,
            config.output.method == OutputMethod::Notification,
            action_views(config.actions@) == default_action_views(),
    {
        Config {
            llm: LlmConfig {
                provider: "openai".to_owned(),
                model: "gpt-4o-mini".to_owned(),
                api_key_env: "OPENAI_API_KEY".to_owned(),
                parameters: LlmParameters::default(),
            },
            output: OutputConfig { method: OutputMethod::Notification },
            actions: default_actions(),
        }
    }
}

} // verus!
