// The source-to-source rewrite, with exact expected output text.

use function_timer::time;
use function_timer::transform::render;
use function_timer::transform::transform;
use function_timer::FnDef;
use function_timer::TransformError;

fn gate_expr() -> &'static str {
    "std::env::var(\"ENABLE_FUNCTION_TIMER\").map_or(true, |s| s.eq_ignore_ascii_case(\"true\") || s == \"1\")"
}

fn timed_arm(name: &str, driven: &str) -> String {
    format!(
        "let start = std::time::Instant::now(); let result = {}; let duration = start.elapsed(); tracing::info!(\"--- Function '{{}}' executed in {{}}ms\", \"{}\", duration.as_millis()); result",
        driven, name
    )
}

fn generated_body(name: &str, driven: &str) -> String {
    format!(
        "{{ if {} {{ {} }} else {{ {} }} }}",
        gate_expr(),
        timed_arm(name, driven),
        driven
    )
}

#[test]
fn sync_function_is_rewritten_to_the_gated_timing_wrapper() {
    let out = time("fn timed_sync_function() -> i32 { 42 }").unwrap();
    let expected = format!(
        "fn timed_sync_function () -> i32 {}",
        generated_body("timed_sync_function", "{ 42 }")
    );
    assert_eq!(out, expected);
}

#[test]
fn async_function_is_rewritten_with_the_driven_body() {
    let out = time("async fn timed_async_function() -> String { \"hello\".to_string() }").unwrap();
    let expected = format!(
        "async fn timed_async_function () -> String {}",
        generated_body(
            "timed_async_function",
            "async { \"hello\" . to_string () }.await"
        )
    );
    assert_eq!(out, expected);
}

#[test]
fn visibility_generics_and_where_clause_are_preserved() {
    let out = time("pub fn calc<T: Clone>(x: T) -> T where T: Default { x }").unwrap();
    assert!(out.starts_with("pub fn calc"));
    assert!(out.contains("where T : Default"));
    assert!(out.ends_with("else { { x } } }"));
}

#[test]
fn transform_keeps_the_definition_and_synthesizes_the_body() {
    let f = FnDef {
        vis: "pub".to_string(),
        sig: "fn answer () -> i32".to_string(),
        name: "answer".to_string(),
        is_async: false,
        body: "{ 42 }".to_string(),
    };
    let g = transform(&f);
    assert_eq!(g.vis, "pub");
    assert_eq!(g.sig, "fn answer () -> i32");
    assert_eq!(g.name, "answer");
    assert!(!g.is_async);
    assert_eq!(g.body, generated_body("answer", "{ 42 }"));
    assert_eq!(
        render(&g),
        format!(
            "pub fn answer () -> i32 {}",
            generated_body("answer", "{ 42 }")
        )
    );
}

#[test]
fn malformed_input_is_rejected() {
    assert_eq!(time("struct S;"), Err(TransformError::MalformedInput));
    assert_eq!(time("fn broken("), Err(TransformError::MalformedInput));
    assert_eq!(time(""), Err(TransformError::MalformedInput));
}

#[test]
fn decorating_twice_nests_two_timings_with_the_same_name() {
    let once = time("fn timed_sync_function() -> i32 { 42 }").unwrap();
    let twice = time(&once).unwrap();
    assert!(twice.starts_with("fn timed_sync_function () -> i32"));
    // The outer wrapper adds one log call of its own and embeds the
    // once-wrapped body, which carries another, verbatim in each of its two
    // arms; whichever arm runs, a call passes through two timings.
    assert_eq!(twice.matches("executed in {}ms").count(), 3);
    assert_eq!(twice.matches("\"timed_sync_function\"").count(), 3);
    assert_eq!(twice.matches("ENABLE_FUNCTION_TIMER").count(), 3);
}
