//! The prompt template engine: literal substitution of `{name}` placeholders,
//! followed by a scan that rejects any placeholder left unbound.

use crate::error::{outcome, ErrorView, RephraserError};
use crate::text::{
    chars_of, join, joined, lemma_replaced_absent, occurs_at, occurs_in, push_all, push_str,
    replace, replaced, slice, string_of, views,
};
use crate::text_map::{distinct_keys, has_key, inserted, Entries, TextMap};
use vstd::prelude::*;

verus! {

/// The bindings of an engine as a mathematical value: name and value of each, oldest first.
pub type Bindings = Entries;

/// The text that stands for the variable `name` in a template.
pub open spec fn placeholder(name: Seq<char>) -> Seq<char> {
    seq!['{'] + name + seq!['}']
}

/// The template after each binding in turn, oldest first, has replaced every occurrence of
/// its placeholder by its value. A value put in by one binding is searched by the ones after it.
pub open spec fn substituted(bindings: Bindings, template: Seq<char>) -> Seq<char>
    decreases bindings.len(),
{
    if bindings.len() == 0 {
        template
    } else {
        replaced(
            substituted(bindings.drop_last(), template),
            placeholder(bindings.last().0),
            bindings.last().1,
        )
    }
}

/// The offset of the first `}` at or after `from`, or the length of `s` where there is none.
pub open spec fn closing(s: Seq<char>, from: int) -> int
    decreases s.len() - from,
{
    if from < 0 || from >= s.len() {
        s.len() as int
    } else if s[from] == '}' {
        from
    } else {
        closing(s, from + 1)
    }
}

/// The unbound names that a scan of `s` from offset `from` to the end reports, in order and
/// with repetitions. A name is the non-empty text between a `{` and the first `}` after it;
/// the scan goes on behind that `}`. A `{` with no `}` after it ends the scan with nothing more
/// reported.
pub open spec fn unresolved(s: Seq<char>, bindings: Bindings, from: int) -> Seq<Seq<char>>
    decreases s.len() - from,
    via unresolved_terminates
{
    if from < 0 || from >= s.len() {
        Seq::empty()
    } else if s[from] != '{' {
        unresolved(s, bindings, from + 1)
    } else {
        let close = closing(s, from + 1);
        if close >= s.len() {
            Seq::empty()
        } else {
            let name = s.subrange(from + 1, close);
            let rest = unresolved(s, bindings, close + 1);
            if name.len() > 0 && !has_key(bindings, name) {
                seq![name] + rest
            } else {
                rest
            }
        }
    }
}

#[via_fn]
proof fn unresolved_terminates(s: Seq<char>, bindings: Bindings, from: int) {
    if 0 <= from < s.len() {
        lemma_closing_bounds(s, from + 1);
    }
}

/// What rendering `template` under `bindings` comes to: the substituted text where the scan
/// reports nothing, else the error that lists every reported name.
pub open spec fn rendering(bindings: Bindings, template: Seq<char>) -> Result<
    Seq<char>,
    ErrorView,
> {
    let text = substituted(bindings, template);
    let missing = unresolved(text, bindings, 0);
    if missing.len() == 0 {
        Ok(text)
    } else {
        Err(ErrorView::InvalidTemplate("Missing variables: "@ + joined(missing, ", "@)))
    }
}

/// `closing` stays within the text and points at a `}` where it points into the text.
pub proof fn lemma_closing_bounds(s: Seq<char>, from: int)
    requires
        0 <= from <= s.len(),
    ensures
        from <= closing(s, from) <= s.len(),
        closing(s, from) < s.len() ==> s[closing(s, from)] == '}',
        forall|k: int| from <= k < closing(s, from) ==> s[k] != '}',
    decreases s.len() - from,
{
    if from < s.len() && s[from] != '}' {
        lemma_closing_bounds(s, from + 1);
    }
}

/// A placeholder stands in `s` from offset `i` to offset `j`: a `{`, a name that is
/// not empty and holds no `}`, and a `}`.
pub open spec fn placeholder_at(s: Seq<char>, i: int, j: int) -> bool {
    &&& 0 <= i
    &&& i + 1 < j < s.len()
    &&& s[i] == '{'
    &&& s[j] == '}'
    &&& forall|k: int| i < k < j ==> s[k] != '}'
}

/// Some placeholder stands in `s`.
pub open spec fn has_placeholder(s: Seq<char>) -> bool {
    exists|i: int, j: int| placeholder_at(s, i, j)
}

/// Whether `name` is the name of a placeholder that stands in `s` at or after `from`.
pub open spec fn names_placeholder(s: Seq<char>, from: int, name: Seq<char>) -> bool {
    exists|i: int, j: int| from <= i && placeholder_at(s, i, j) && s.subrange(i + 1, j) == name
}

/// Every name that a scan reports is unbound and is the name of a placeholder that
/// stands in the scanned part of the text.
pub proof fn lemma_reported_names(s: Seq<char>, bindings: Bindings, from: int)
    requires
        0 <= from,
    ensures
        forall|n: int|
            0 <= n < unresolved(s, bindings, from).len() ==> !has_key(
                bindings,
                #[trigger] unresolved(s, bindings, from)[n],
            ) && names_placeholder(s, from, unresolved(s, bindings, from)[n]),
    decreases s.len() - from,
{
    if from < s.len() {
        if s[from] != '{' {
            lemma_reported_names(s, bindings, from + 1);
            let next = unresolved(s, bindings, from + 1);
            assert forall|n: int| 0 <= n < next.len() implies names_placeholder(
                s,
                from,
                #[trigger] next[n],
            ) by {
                assert(names_placeholder(s, from + 1, next[n]));
                let (i, j) = choose|i: int, j: int|
                    from + 1 <= i && placeholder_at(s, i, j) && s.subrange(i + 1, j) == next[n];
                assert(from <= i && placeholder_at(s, i, j));
            }
        } else {
            lemma_closing_bounds(s, from + 1);
            let close = closing(s, from + 1);
            if close < s.len() {
                let name = s.subrange(from + 1, close);
                let rest = unresolved(s, bindings, close + 1);
                lemma_reported_names(s, bindings, close + 1);
                assert forall|n: int| 0 <= n < rest.len() implies names_placeholder(
                    s,
                    from,
                    #[trigger] rest[n],
                ) by {
                    assert(names_placeholder(s, close + 1, rest[n]));
                    let (i, j) = choose|i: int, j: int|
                        close + 1 <= i && placeholder_at(s, i, j) && s.subrange(i + 1, j)
                            == rest[n];
                    assert(from <= i && placeholder_at(s, i, j));
                }
                if name.len() > 0 && !has_key(bindings, name) {
                    assert(placeholder_at(s, from, close));
                    assert(names_placeholder(s, from, name));
                    let all = unresolved(s, bindings, from);
                    assert forall|n: int| 0 <= n < all.len() implies !has_key(
                        bindings,
                        #[trigger] all[n],
                    ) && names_placeholder(s, from, all[n]) by {
                        if n > 0 {
                            assert(all[n] == rest[n - 1]);
                        }
                    }
                }
            }
        }
    }
}

/// A name whose placeholder can only stand where a placeholder stands: it is not empty
/// and does not begin with `}`.
pub open spec fn plain_name(name: Seq<char>) -> bool {
    name.len() > 0 && name[0] != '}'
}

/// No `{` stands in `name`.
pub open spec fn holds_no_opening(name: Seq<char>) -> bool {
    forall|n: int| 0 <= n < name.len() ==> name[n] != '{'
}

/// Where `s[from]` is not a `}` and a `}` stands at `j` with none between, `closing`
/// finds `j`.
proof fn lemma_closing_is(s: Seq<char>, from: int, j: int)
    requires
        0 <= from <= j < s.len(),
        s[j] == '}',
        forall|k: int| from <= k < j ==> s[k] != '}',
    ensures
        closing(s, from) == j,
    decreases j - from,
{
    if from < j {
        lemma_closing_is(s, from + 1, j);
    }
}

/// The placeholder of a plain name stands only where a placeholder stands.
pub proof fn lemma_plain_name_needs_placeholder(s: Seq<char>, name: Seq<char>)
    requires
        plain_name(name),
        occurs_in(s, placeholder(name)),
    ensures
        has_placeholder(s),
{
    let pat = placeholder(name);
    let i = choose|i: int| occurs_at(s, pat, i);
    let end = i + 1 + name.len();
    assert(pat.len() == name.len() + 2);
    assert forall|k: int| 0 <= k < pat.len() implies s[i + k] == pat[k] by {
        assert(s.subrange(i, i + pat.len())[k] == s[i + k]);
    }
    assert(s[i] == pat[0]);
    assert(s[i + 1] == pat[1]);
    assert(pat[1] == name[0]);
    assert(s[end] == pat[name.len() as int + 1]);
    lemma_closing_bounds(s, i + 1);
    let j = closing(s, i + 1);
    assert(j <= end) by {
        if j > end {
            assert(s[end] != '}');
        }
    }
    assert(j != i + 1);
    assert(placeholder_at(s, i, j));
}

/// Where no binding's placeholder stands in the template, substitution changes nothing.
pub proof fn lemma_substituted_unchanged(bindings: Bindings, template: Seq<char>)
    requires
        forall|i: int|
            0 <= i < bindings.len() ==> !occurs_in(template, placeholder(#[trigger] bindings[i].0)),
    ensures
        substituted(bindings, template) == template,
    decreases bindings.len(),
{
    if bindings.len() > 0 {
        let earlier = bindings.drop_last();
        assert forall|i: int| 0 <= i < earlier.len() implies !occurs_in(
            template,
            placeholder(#[trigger] earlier[i].0),
        ) by {
            assert(earlier[i] == bindings[i]);
        }
        lemma_substituted_unchanged(earlier, template);
        assert(!occurs_in(template, placeholder(bindings[bindings.len() - 1].0)));
        lemma_replaced_absent(template, placeholder(bindings.last().0), bindings.last().1);
    }
}

/// A scan of a text without placeholders reports nothing.
pub proof fn lemma_nothing_to_report(s: Seq<char>, bindings: Bindings, from: int)
    requires
        !has_placeholder(s),
        0 <= from,
    ensures
        unresolved(s, bindings, from) == Seq::<Seq<char>>::empty(),
    decreases s.len() - from,
{
    if from < s.len() {
        if s[from] != '{' {
            lemma_nothing_to_report(s, bindings, from + 1);
        } else {
            lemma_closing_bounds(s, from + 1);
            let close = closing(s, from + 1);
            if close < s.len() {
                if close > from + 1 {
                    assert(placeholder_at(s, from, close));
                }
                assert(s.subrange(from + 1, close).len() == 0);
                lemma_nothing_to_report(s, bindings, close + 1);
            }
        }
    }
}

/// A template without placeholders renders to itself, whatever is bound, as long as every
/// bound name is plain or its placeholder does not stand in the template.
///
/// The condition on the names is needed: with the empty name bound to `x`, the template
/// `{}` holds no placeholder and yet renders to `x`.
pub proof fn lemma_render_without_placeholders(bindings: Bindings, template: Seq<char>)
    requires
        !has_placeholder(template),
        forall|i: int|
            0 <= i < bindings.len() ==> plain_name(#[trigger] bindings[i].0) || !occurs_in(
                template,
                placeholder(bindings[i].0),
            ),
    ensures
        rendering(bindings, template) == Ok::<Seq<char>, ErrorView>(template),
{
    assert forall|i: int| 0 <= i < bindings.len() implies !occurs_in(
        template,
        placeholder(#[trigger] bindings[i].0),
    ) by {
        if occurs_in(template, placeholder(bindings[i].0)) {
            lemma_plain_name_needs_placeholder(template, bindings[i].0);
        }
    }
    lemma_substituted_unchanged(bindings, template);
    lemma_nothing_to_report(template, bindings, 0);
}

/// A scan that starts at or before a placeholder whose name is unbound reports a name,
/// as long as no bound name holds a `{`.
proof fn lemma_scan_reports(s: Seq<char>, bindings: Bindings, from: int, i: int, j: int)
    requires
        placeholder_at(s, i, j),
        0 <= from <= i,
        !has_key(bindings, s.subrange(i + 1, j)),
        forall|k: int| 0 <= k < bindings.len() ==> holds_no_opening(#[trigger] bindings[k].0),
    ensures
        unresolved(s, bindings, from).len() > 0,
    decreases i - from,
{
    if s[from] != '{' {
        lemma_scan_reports(s, bindings, from + 1, i, j);
    } else {
        lemma_closing_bounds(s, from + 1);
        let close = closing(s, from + 1);
        assert(close <= j) by {
            if close > j {
                assert(s[j] != '}');
            }
        }
        if close < i {
            lemma_scan_reports(s, bindings, close + 1, i, j);
        } else {
            assert(close == j);
            let name = s.subrange(from + 1, close);
            if from == i {
            } else {
                assert(name[i - from - 1] == s[i]);
                assert(!has_key(bindings, name)) by {
                    if has_key(bindings, name) {
                        let k = choose|k: int|
                            0 <= k < bindings.len() && (#[trigger] bindings[k]).0 == name;
                        assert(holds_no_opening(bindings[k].0));
                        assert(bindings[k].0[i - from - 1] != '{');
                    }
                }
            }
            assert(name.len() > 0);
        }
    }
}

/// Rendering fails with an invalid template whenever the text still holds, after
/// substitution, a placeholder whose name is unbound, as long as no bound name holds
/// a `{`. With nothing bound this is every template that holds a placeholder.
pub proof fn lemma_unbound_placeholder_fails(
    bindings: Bindings,
    template: Seq<char>,
    i: int,
    j: int,
)
    requires
        placeholder_at(substituted(bindings, template), i, j),
        !has_key(bindings, substituted(bindings, template).subrange(i + 1, j)),
        forall|k: int| 0 <= k < bindings.len() ==> holds_no_opening(#[trigger] bindings[k].0),
    ensures
        rendering(bindings, template) is Err,
        rendering(bindings, template)->Err_0 is InvalidTemplate,
{
    lemma_scan_reports(substituted(bindings, template), bindings, 0, i, j);
}

/// The offset of the first `}` at or after `from`, or the length of `s` where there is none.
fn find_closing(s: &Vec<char>, from: usize) -> (at: usize)
    requires
        from <= s.len(),
    ensures
        at == closing(s@, from as int),
        from <= at <= s.len(),
{
    let mut i: usize = from;
    while i < s.len() && s[i] != '}'
        invariant
            from <= i <= s.len(),
            closing(s@, from as int) == closing(s@, i as int),
        decreases s.len() - i,
    {
        i += 1;
    }
    i
}

/// Renders prompt templates against a set of named values.
///
/// The bindings are kept in the order in which their names were first bound, and no name is
/// bound twice.
pub struct TemplateEngine {
    variables: TextMap,
}

impl Default for TemplateEngine {
    fn default() -> (engine: Self)
        ensures
            engine@ == Bindings::empty(),
            engine.wf(),
    {
        TemplateEngine::new()
    }
}

impl View for TemplateEngine {
    type V = Bindings;

    closed spec fn view(&self) -> Bindings {
        self.variables@
    }
}

impl TemplateEngine {
    /// The engine's invariant: no name is bound twice.
    pub closed spec fn wf(&self) -> bool {
        self.variables.wf()
    }

    /// The bound names of a well-formed engine are distinct.
    pub proof fn lemma_names_distinct(&self)
        requires
            self.wf(),
        ensures
            distinct_keys(self@),
    {
    }

    /// An engine with no bindings.
    pub fn new() -> (engine: Self)
        ensures
            engine@ == Bindings::empty(),
            engine.wf(),
    {
        TemplateEngine { variables: TextMap::new() }
    }

    /// The template after every binding has been put in, oldest first.
    fn substitute(&self, template: Vec<char>) -> (text: Vec<char>)
        ensures
            text@ == substituted(self@, template@),
    {
        let mut text = template;
        let mut i: usize = 0;
        while i < self.variables.len()
            invariant
                i <= self@.len(),
                text@ == substituted(self@.take(i as int), template@),
            decreases self@.len() - i,
        {
            let mut pattern: Vec<char> = Vec::new();
            pattern.push('{');
            push_all(&mut pattern, self.variables.key_at(i));
            pattern.push('}');
            proof {
                let upto = self@.take(i + 1);
                assert(upto.drop_last() =~= self@.take(i as int));
                assert(upto.last() == self@[i as int]);
                assert(pattern@ =~= placeholder(self@[i as int].0));
            }
            text = replace(&text, &pattern, self.variables.value_at(i));
            i += 1;
        }
        proof {
            assert(self@.take(self@.len() as int) =~= self@);
        }
        text
    }

    /// The unbound names that a scan of `text` reports.
    fn scan(&self, text: &Vec<char>) -> (missing: Vec<Vec<char>>)
        ensures
            views(missing@) == unresolved(text@, self@, 0),
    {
        let mut missing: Vec<Vec<char>> = Vec::new();
        let mut i: usize = 0;
        proof {
            assert(views(missing@) =~= Seq::<Seq<char>>::empty());
            assert(views(missing@) + unresolved(text@, self@, 0) =~= unresolved(text@, self@, 0));
        }
        while i < text.len()
            invariant
                i <= text.len(),
                unresolved(text@, self@, 0) == views(missing@) + unresolved(
                    text@,
                    self@,
                    i as int,
                ),
            decreases text.len() - i,
        {
            if text[i] != '{' {
                i += 1;
            } else {
                let close = find_closing(text, i + 1);
                if close >= text.len() {
                    i = text.len();
                } else {
                    let name = slice(text, i + 1, close);
                    let ghost before = views(missing@);
                    let ghost rest = unresolved(text@, self@, close + 1);
                    if name.len() > 0 && self.variables.position(&name).is_none() {
                        missing.push(name);
                        proof {
                            assert(views(missing@) =~= before.push(name@));
                            assert(before + (seq![name@] + rest) =~= before.push(name@) + rest);
                        }
                    }
                    i = close + 1;
                }
            }
        }
        proof {
            assert(views(missing@) + Seq::<Seq<char>>::empty() =~= views(missing@));
        }
        missing
    }

    /// Renders `template`: every bound placeholder is replaced by its value, and the result
    /// is returned unless it still holds a placeholder whose name is unbound.
    pub fn render(&self, template: &str) -> (result: Result<String, RephraserError>)
        ensures
            outcome(result) == rendering(self@, template@),
    {
        let text = self.substitute(chars_of(template));
        let missing = self.scan(&text);
        if missing.len() == 0 {
            Ok(string_of(&text))
        } else {
            let mut detail: Vec<char> = Vec::new();
            push_str(&mut detail, "Missing variables: ");
            let names = join(&missing, ", ");
            push_all(&mut detail, &names);
            proof {
                assert(detail@ =~= "Missing variables: "@ + joined(views(missing@), ", "@));
            }
            Err(RephraserError::InvalidTemplate(string_of(&detail)))
        }
    }

    /// Binds `key` to `value`, in place of any value it had, and hands the engine back
    /// for the next binding. The value is taken as it is: nothing in it is escaped.
    pub fn set(&mut self, key: &str, value: &str) -> (engine: &mut Self)
        requires
            old(self).wf(),
        ensures
            engine.wf(),
            engine@ == inserted(old(self)@, key@, value@),
            *final(self) == *final(engine),
    {
        self.variables.insert(key, value);
        self
    }
}

} // verus!
