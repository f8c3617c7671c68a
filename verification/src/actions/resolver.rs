//! The action registry: the declared actions in their order, looked up by name
//! and rendered into prompts.

use crate::actions::template::{rendering, Bindings, TemplateEngine};
use crate::config::models::{action_views, ActionConfig, ActionView, Config};
use crate::error::{outcome, ErrorView, RephraserError};
use crate::text::{push_str, str_eq, string_of};
use crate::text_map::{has_key, Entries};
use vstd::prelude::*;

verus! {

/// The first action called `name`, if there is one. Names are compared exactly.
pub open spec fn lookup(actions: Seq<ActionView>, name: Seq<char>) -> Option<ActionView>
    decreases actions.len(),
{
    if actions.len() == 0 {
        None
    } else if actions[0].name == name {
        Some(actions[0])
    } else {
        lookup(actions.skip(1), name)
    }
}

/// The bindings under which an action's template is rendered: `text`, bound to the input.
pub open spec fn input_bindings(text: Seq<char>) -> Bindings {
    seq![("text"@, text)]
}

/// What resolving `name` with the input `text` comes to: the rendered template of the
/// first action of that name, the template's own error, or the error that no action
/// has that name.
pub open spec fn resolution(actions: Seq<ActionView>, name: Seq<char>, text: Seq<char>) -> Result<
    Seq<char>,
    ErrorView,
> {
    match lookup(actions, name) {
        None => Err(ErrorView::ActionNotFound(name)),
        Some(action) => rendering(input_bindings(text), action.prompt_template),
    }
}

/// One line for each action, in order: two spaces, the name, and the label in brackets.
pub open spec fn action_lines(actions: Seq<ActionView>) -> Seq<char>
    decreases actions.len(),
{
    if actions.len() == 0 {
        Seq::empty()
    } else {
        action_lines(actions.drop_last()) + "  "@ + actions.last().name + " ("@
            + actions.last().display_name + ")\n"@
    }
}

/// What is shown to someone who asks which actions there are: a heading, an empty
/// line, and one line for each action.
pub open spec fn listing(actions: Seq<ActionView>) -> Seq<char> {
    "Available actions:\n\n"@ + action_lines(actions)
}

/// A lookup finds nothing exactly when no action has the name, and what it finds has the
/// name and stands before every other action that has it.
pub proof fn lemma_lookup(actions: Seq<ActionView>, name: Seq<char>)
    ensures
        lookup(actions, name) is None <==> forall|i: int|
            0 <= i < actions.len() ==> (#[trigger] actions[i]).name != name,
        lookup(actions, name) matches Some(found) ==> exists|i: int|
            0 <= i < actions.len() && #[trigger] actions[i] == found && found.name == name
                && forall|k: int| 0 <= k < i ==> (#[trigger] actions[k]).name != name,
    decreases actions.len(),
{
    if actions.len() == 0 {
    } else if actions[0].name == name {
        assert(actions[0] == lookup(actions, name)->0);
    } else {
        let rest = actions.skip(1);
        lemma_lookup(rest, name);
        assert forall|i: int| 0 <= i < rest.len() implies rest[i] == actions[i + 1] by {}
        if lookup(rest, name) is None {
            assert forall|i: int| 0 <= i < actions.len() implies (#[trigger] actions[i]).name
                != name by {
                if i > 0 {
                    assert(rest[i - 1].name != name);
                }
            }
        } else {
            let found = lookup(rest, name)->0;
            let i = choose|i: int|
                0 <= i < rest.len() && #[trigger] rest[i] == found && found.name == name
                    && forall|k: int| 0 <= k < i ==> (#[trigger] rest[k]).name != name;
            assert(actions[i + 1] == found);
            assert forall|k: int| 0 <= k < i + 1 implies (#[trigger] actions[k]).name
                != name by {
                if k > 0 {
                    assert(rest[k - 1].name != name);
                }
            }
        }
    }
}

/// Resolving a name that no action has fails with the error that carries the name,
/// whatever the registry holds and whatever the input is.
pub proof fn lemma_unknown_name_is_not_found(
    actions: Seq<ActionView>,
    name: Seq<char>,
    text: Seq<char>,
)
    requires
        forall|i: int| 0 <= i < actions.len() ==> (#[trigger] actions[i]).name != name,
    ensures
        resolution(actions, name, text) == Err::<Seq<char>, ErrorView>(
            ErrorView::ActionNotFound(name),
        ),
{
    lemma_lookup(actions, name);
}

/// Resolving the same name with the same input against the same registry comes to the
/// same prompt or the same error: two results that each meet the contract of `resolve`
/// are equal as values.
pub proof fn lemma_resolve_is_repeatable(
    resolver: ActionResolver,
    name: Seq<char>,
    text: Seq<char>,
    first: Result<String, RephraserError>,
    second: Result<String, RephraserError>,
)
    requires
        outcome(first) == resolution(resolver@, name, text),
        outcome(second) == resolution(resolver@, name, text),
    ensures
        outcome(first) == outcome(second),
        first is Ok ==> second is Ok && first->Ok_0@ == second->Ok_0@,
        first is Err ==> second is Err && first->Err_0@ == second->Err_0@,
{
}

/// A resolver lists the actions of the configuration it was made from, each at the
/// place of its declaration.
pub proof fn lemma_listing_keeps_declaration_order(
    declared: Seq<ActionConfig>,
    resolver: ActionResolver,
    listed: Seq<ActionConfig>,
)
    requires
        resolver@ == action_views(declared),
        action_views(listed) == resolver@,
    ensures
        listed.len() == declared.len(),
        forall|i: int| 0 <= i < declared.len() ==> (#[trigger] listed[i])@ == declared[i]@,
{
    assert(action_views(listed).len() == listed.len());
    assert(action_views(declared).len() == declared.len());
    assert forall|i: int| 0 <= i < declared.len() implies (#[trigger] listed[i])@
        == declared[i]@ by {
        assert(action_views(listed)[i] == listed[i]@);
        assert(action_views(declared)[i] == declared[i]@);
    }
}

/// Turns the name of an action and an input text into the prompt to send.
pub struct ActionResolver {
    actions: Vec<ActionConfig>,
}

impl View for ActionResolver {
    type V = Seq<ActionView>;

    closed spec fn view(&self) -> Seq<ActionView> {
        action_views(self.actions@)
    }
}

impl ActionResolver {
    /// A resolver for the actions that `config` declares, in their order.
    pub fn new(config: &Config) -> (resolver: Self)
        ensures
            resolver@ == action_views(config.actions@),
    {
        let mut actions: Vec<ActionConfig> = Vec::new();
        let mut i: usize = 0;
        while i < config.actions.len()
            invariant
                i <= config.actions@.len(),
                actions@.len() == i,
                action_views(actions@) == action_views(config.actions@).take(i as int),
            decreases config.actions@.len() - i,
        {
            let ghost before = actions@;
            let copy = config.actions[i].clone();
            actions.push(copy);
            proof {
                assert forall|k: int| 0 <= k < i implies action_views(actions@)[k]
                    == action_views(config.actions@)[k] by {
                    assert(actions@[k] == before[k]);
                    assert(action_views(before)[k] == action_views(config.actions@).take(
                        i as int,
                    )[k]);
                }
                assert(action_views(actions@)[i as int] == copy@);
                assert(action_views(actions@) =~= action_views(config.actions@).take(i + 1));
            }
            i += 1;
        }
        proof {
            assert(action_views(config.actions@).take(i as int) =~= action_views(
                config.actions@,
            ));
        }
        ActionResolver { actions }
    }

    /// Every action, in the order of declaration.
    pub fn list_actions(&self) -> (actions: &[ActionConfig])
        ensures
            action_views(actions@) == self@,
    {
        self.actions.as_slice()
    }

    /// The text that shows the actions to a person, in the order of declaration.
    pub fn describe_actions(&self) -> (text: String)
        ensures
            text@ == listing(self@),
    {
        let mut out: Vec<char> = Vec::new();
        push_str(&mut out, "Available actions:\n\n");
        let mut i: usize = 0;
        proof {
            assert(self@.take(0) =~= Seq::<ActionView>::empty());
            assert(out@ =~= "Available actions:\n\n"@ + action_lines(self@.take(0)));
        }
        while i < self.actions.len()
            invariant
                i <= self.actions@.len(),
                out@ == "Available actions:\n\n"@ + action_lines(self@.take(i as int)),
            decreases self.actions@.len() - i,
        {
            let action = &self.actions[i];
            let ghost before = out@;
            proof {
                let upto = self@.take(i + 1);
                assert(upto.drop_last() =~= self@.take(i as int));
                assert(upto.last() == action@);
            }
            push_str(&mut out, "  ");
            push_str(&mut out, action.name.as_str());
            push_str(&mut out, " (");
            push_str(&mut out, action.display_name.as_str());
            push_str(&mut out, ")\n");
            proof {
                assert(out@ =~= "Available actions:\n\n"@ + (action_lines(self@.take(i as int))
                    + "  "@ + action@.name + " ("@ + action@.display_name + ")\n"@));
            }
            i += 1;
        }
        proof {
            assert(self@.take(self.actions@.len() as int) =~= self@);
        }
        string_of(&out)
    }

    /// The first action called `name`, if there is one.
    pub fn find_action(&self, name: &str) -> (found: Option<&ActionConfig>)
        ensures
            match found {
                Some(action) => lookup(self@, name@) == Some(action@),
                None => lookup(self@, name@) is None,
            },
    {
        let mut i: usize = 0;
        proof {
            assert(self@.skip(0) =~= self@);
        }
        while i < self.actions.len()
            invariant
                i <= self.actions@.len(),
                lookup(self@, name@) == lookup(self@.skip(i as int), name@),
            decreases self.actions@.len() - i,
        {
            proof {
                assert(self@.skip(i as int)[0] == self.actions@[i as int]@);
                assert(self@.skip(i as int).skip(1) =~= self@.skip(i + 1));
            }
            if str_eq(self.actions[i].name.as_str(), name) {
                return Some(&self.actions[i]);
            }
            i += 1;
        }
        None
    }

    /// The prompt for the action called `action_name`, with `text` as its input.
    pub fn resolve(&self, action_name: &str, text: &str) -> (prompt: Result<
        String,
        RephraserError,
    >)
        ensures
            outcome(prompt) == resolution(self@, action_name@, text@),
    {
        match self.find_action(action_name) {
            None => Err(RephraserError::ActionNotFound(action_name.to_owned())),
            Some(action) => {
                let mut engine = TemplateEngine::new();
                engine.set("text", text);
                proof {
                    assert(!has_key(Entries::empty(), "text"@));
                    assert(engine@ =~= input_bindings(text@));
                }
                engine.render(action.prompt_template.as_str())
            },
        }
    }
}

} // verus!
