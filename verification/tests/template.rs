use rephraser::actions::TemplateEngine;
use rephraser::RephraserError;

fn detail_of(result: Result<String, RephraserError>) -> String {
    match result {
        Err(RephraserError::InvalidTemplate(detail)) => detail,
        other => panic!("expected an invalid template, got {:?}", other),
    }
}

#[test]
fn test_simple_substitution() {
    let mut engine = TemplateEngine::new();
    engine.set("text", "Hello");

    let result = engine.render("Process this: {text}").unwrap();
    assert_eq!(result, "Process this: Hello");
}

#[test]
fn test_multiple_variables() {
    let mut engine = TemplateEngine::new();
    engine.set("text", "Hello").set("language", "English");

    let result = engine.render("Translate '{text}' to {language}").unwrap();
    assert_eq!(result, "Translate 'Hello' to English");
}

#[test]
fn test_missing_variable() {
    let engine = TemplateEngine::new();
    let result = engine.render("Process this: {text}");
    assert!(result.is_err());
}

#[test]
fn test_no_variables() {
    let engine = TemplateEngine::new();
    let result = engine.render("No variables here").unwrap();
    assert_eq!(result, "No variables here");
}

#[test]
fn missing_variable_is_an_invalid_template_that_names_it() {
    let engine = TemplateEngine::new();
    let detail = detail_of(engine.render("Process this: {text}"));
    assert_eq!(detail, "Missing variables: text");
}

#[test]
fn missing_variables_are_all_listed_in_order() {
    let mut engine = TemplateEngine::new();
    engine.set("b", "B");
    let detail = detail_of(engine.render("{a} {b} {c} {a}"));
    assert_eq!(detail, "Missing variables: a, c, a");
}

#[test]
fn no_placeholders_render_unchanged_whatever_is_bound() {
    let mut engine = TemplateEngine::new();
    engine.set("text", "Hello");
    engine.set("language", "English");
    assert_eq!(engine.render("No variables here").unwrap(), "No variables here");
    assert_eq!(engine.render("").unwrap(), "");
}

#[test]
fn every_occurrence_is_replaced() {
    let mut engine = TemplateEngine::new();
    engine.set("x", "ab");
    assert_eq!(engine.render("{x}{x}-{x}").unwrap(), "abab-ab");
}

#[test]
fn binding_again_overwrites() {
    let mut engine = TemplateEngine::new();
    engine.set("text", "first");
    engine.set("other", "o");
    engine.set("text", "second");
    assert_eq!(engine.render("{text}/{other}").unwrap(), "second/o");
}

#[test]
fn values_are_not_escaped() {
    let mut engine = TemplateEngine::new();
    engine.set("text", "a \"quoted\" \\ value\nwith a line");
    assert_eq!(
        engine.render("<{text}>").unwrap(),
        "<a \"quoted\" \\ value\nwith a line>"
    );
}

#[test]
fn unterminated_brace_passes_through() {
    let engine = TemplateEngine::new();
    assert_eq!(engine.render("fn main() { loop").unwrap(), "fn main() { loop");
    assert_eq!(engine.render("{").unwrap(), "{");
    assert_eq!(engine.render("a } b { c").unwrap(), "a } b { c");
}

#[test]
fn empty_braces_need_no_binding() {
    let engine = TemplateEngine::new();
    assert_eq!(engine.render("vec![] and {}").unwrap(), "vec![] and {}");
}

#[test]
fn empty_name_can_be_bound() {
    let mut engine = TemplateEngine::new();
    engine.set("", "x");
    assert_eq!(engine.render("{}").unwrap(), "x");
    assert_eq!(engine.render("a{}b{}").unwrap(), "axbx");
}

#[test]
fn name_runs_to_the_first_closing_brace() {
    let engine = TemplateEngine::new();
    let detail = detail_of(engine.render("x {a{b} y"));
    assert_eq!(detail, "Missing variables: a{b");
}

#[test]
fn placeholder_brought_in_by_a_value_is_checked() {
    let mut engine = TemplateEngine::new();
    engine.set("text", "see {other}");
    let detail = detail_of(engine.render("{text}"));
    assert_eq!(detail, "Missing variables: other");
}

#[test]
fn bindings_are_applied_oldest_first() {
    let mut engine = TemplateEngine::new();
    engine.set("a", "{b}");
    engine.set("b", "done");
    assert_eq!(engine.render("{a}").unwrap(), "done");

    let mut engine = TemplateEngine::new();
    engine.set("b", "done");
    engine.set("a", "{b}");
    assert_eq!(engine.render("{a}").unwrap(), "{b}");
}

#[test]
fn unused_bindings_do_no_harm() {
    let mut engine = TemplateEngine::new();
    engine.set("unused", "value");
    engine.set("text", "Hello");
    assert_eq!(engine.render("{text}").unwrap(), "Hello");
}

#[test]
fn placeholders_hold_any_characters() {
    let mut engine = TemplateEngine::new();
    engine.set("名前", "値");
    assert_eq!(engine.render("「{名前}」").unwrap(), "「値」");
    let detail = detail_of(engine.render("{名前} {未定}"));
    assert_eq!(detail, "Missing variables: 未定");
}

#[test]
fn default_engine_binds_nothing() {
    let engine = TemplateEngine::default();
    assert_eq!(engine.render("plain").unwrap(), "plain");
    assert!(engine.render("{text}").is_err());
}

#[test]
fn rendering_twice_gives_the_same_text() {
    let mut engine = TemplateEngine::new();
    engine.set("text", "Hello");
    let first = engine.render("Process this: {text}").unwrap();
    let second = engine.render("Process this: {text}").unwrap();
    assert_eq!(first, second);
}
