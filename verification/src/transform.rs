//! The transform: given a function definition, synthesize a replacement
//! with byte-identical visibility and signature whose body branches on the
//! runtime gate, and in the timed arm brackets the original body between
//! two monotonic clock reads followed by exactly one log emission.

use vstd::prelude::*;

use crate::fndef::{FnDef, FnDefView};
use quote::ToTokens;

verus! {

/// The runtime-gate predicate that the replacement code evaluates once per call:
/// the environment probe with the decision table of `crate::gate`.
pub open spec fn gate_expr_text() -> Seq<char> {
    "std::env::var(\"ENABLE_FUNCTION_TIMER\").map_or(true, |s| s.eq_ignore_ascii_case(\"true\") || s == \"1\")"@
}

/// The expression that runs the original body to its value: for a
/// synchronous function the body block itself, for a deferred-computation
/// function the body driven to completion.
pub open spec fn driven_body_text(is_async: bool, body: Seq<char>) -> Seq<char> {
    if is_async {
        "async "@ + body + ".await"@
    } else {
        body
    }
}

/// The timed arm: a clock read, the driven original body, a second clock
/// read, one log emission with the function's name and the elapsed whole
/// milliseconds, then the captured value.
pub open spec fn timed_arm_text(name: Seq<char>, is_async: bool, body: Seq<char>) -> Seq<char> {
    "let start = std::time::Instant::now(); let result = "@ + driven_body_text(is_async, body)
        + "; let duration = start.elapsed(); tracing::info!(\"--- Function '{}' executed in {}ms\", \""@
        + name + "\", duration.as_millis()); result"@
}

/// The replacement body as a whole: a braced two-arm branch on the runtime gate,
/// the untimed arm holding nothing but the driven original body.
pub open spec fn gen_body_text(name: Seq<char>, is_async: bool, body: Seq<char>) -> Seq<char> {
    "{ if "@ + gate_expr_text() + " { "@ + timed_arm_text(name, is_async, body) + " } else { "@
        + driven_body_text(is_async, body) + " } }"@
}

/// A function definition printed back to source text: visibility (when
/// present), signature, and body, separated by single spaces.
pub open spec fn render_text(v: FnDefView) -> Seq<char> {
    if v.vis.len() == 0 {
        v.sig + " "@ + v.body
    } else {
        v.vis + " "@ + v.sig + " "@ + v.body
    }
}

/// The replacement definition for a parsed input: identical visibility,
/// signature, name and asyncness, and the synthesized gated timing body.
pub open spec fn transformed_view(v: FnDefView) -> FnDefView {
    FnDefView {
        vis: v.vis,
        sig: v.sig,
        name: v.name,
        is_async: v.is_async,
        body: gen_body_text(v.name, v.is_async, v.body),
    }
}

/// `needle` occurs verbatim as one contiguous segment of `hay`.
pub open spec fn occurs_in(needle: Seq<char>, hay: Seq<char>) -> bool {
    exists|i: int|
        0 <= i && i + needle.len() <= hay.len() && #[trigger] hay.subrange(i, i + needle.len())
            == needle
}

/// A segment survives catenation: whatever occurs in `hay` occurs in
/// `pre + hay + post`.
pub proof fn lemma_occurs_in_extend(
    needle: Seq<char>,
    hay: Seq<char>,
    pre: Seq<char>,
    post: Seq<char>,
)
    requires
        occurs_in(needle, hay),
    ensures
        occurs_in(needle, pre + hay + post),
{
    let i = choose|i: int|
        0 <= i && i + needle.len() <= hay.len() && #[trigger] hay.subrange(i, i + needle.len())
            == needle;
    let j = pre.len() + i;
    assert((pre + hay + post).subrange(j, j + needle.len() as int) =~= needle);
}

/// The transform substitutes the original body verbatim and never inspects
/// or restructures it: the body occurs as one contiguous segment in the
/// driven form, in the timed arm, and in the whole synthesized body.
pub proof fn lemma_body_embedded(name: Seq<char>, is_async: bool, body: Seq<char>)
    ensures
        occurs_in(body, driven_body_text(is_async, body)),
        occurs_in(body, timed_arm_text(name, is_async, body)),
        occurs_in(body, gen_body_text(name, is_async, body)),
{
    let zero: int = 0;
    assert(body.subrange(zero, zero + body.len()) =~= body);
    assert(occurs_in(body, body));
    let driven = driven_body_text(is_async, body);
    if is_async {
        lemma_occurs_in_extend(body, body, "async "@, ".await"@);
        assert("async "@ + body + ".await"@ == driven);
    }
    let timed_pre = "let start = std::time::Instant::now(); let result = "@;
    let timed_post =
        "; let duration = start.elapsed(); tracing::info!(\"--- Function '{}' executed in {}ms\", \""@
        + name + "\", duration.as_millis()); result"@;
    lemma_occurs_in_extend(body, driven, timed_pre, timed_post);
    assert(timed_pre + driven + timed_post =~= timed_arm_text(name, is_async, body));
    let gen_pre = "{ if "@ + gate_expr_text() + " { "@;
    let gen_post = " } else { "@ + driven + " } }"@;
    lemma_occurs_in_extend(body, timed_arm_text(name, is_async, body), gen_pre, gen_post);
    assert(gen_pre + timed_arm_text(name, is_async, body) + gen_post =~= gen_body_text(
        name,
        is_async,
        body,
    ));
}

/// Appends the driven form of the original body.
fn append_driven_body(b: &mut String, is_async: bool, body: &str)
    ensures
        final(b)@ == old(b)@ + driven_body_text(is_async, body@),
{
    if is_async {
        b.append("async ");
        b.append(body);
        b.append(".await");
        proof {
            assert(b@ =~= old(b)@ + driven_body_text(is_async, body@));
        }
    } else {
        b.append(body);
    }
}

/// Rewrites a function definition into its timed replacement: visibility,
/// signature, name and asyncness are kept verbatim, and the body becomes
/// the gated timing wrapper around the original body.
pub fn transform(f: &FnDef) -> (r: FnDef)
    ensures
        r@.vis == f@.vis,
        r@.sig == f@.sig,
        r@.name == f@.name,
        r@.is_async == f@.is_async,
        r@.body == gen_body_text(f@.name, f@.is_async, f@.body),
{
    let mut b = String::from_str("{ if ");
    b.append(
        "std::env::var(\"ENABLE_FUNCTION_TIMER\").map_or(true, |s| s.eq_ignore_ascii_case(\"true\") || s == \"1\")",
    );
    b.append(" { ");
    b.append("let start = std::time::Instant::now(); let result = ");
    append_driven_body(&mut b, f.is_async, f.body.as_str());
    b.append(
        "; let duration = start.elapsed(); tracing::info!(\"--- Function '{}' executed in {}ms\", \"",
    );
    b.append(f.name.as_str());
    b.append("\", duration.as_millis()); result");
    b.append(" } else { ");
    append_driven_body(&mut b, f.is_async, f.body.as_str());
    b.append(" } }");
    let r = FnDef {
        vis: f.vis.clone(),
        sig: f.sig.clone(),
        name: f.name.clone(),
        is_async: f.is_async,
        body: b,
    };
    proof {
        assert(r@.body =~= gen_body_text(f@.name, f@.is_async, f@.body));
    }
    r
}

/// Prints a function definition back to source text.
pub fn render(f: &FnDef) -> (r: String)
    ensures
        r@ == render_text(f@),
{
    let mut s = String::new();
    if !f.vis.as_str().is_empty() {
        s.append(f.vis.as_str());
        s.append(" ");
    }
    s.append(f.sig.as_str());
    s.append(" ");
    s.append(f.body.as_str());
    proof {
        assert(s@ =~= render_text(f@));
    }
    s
}

/// What parsing yields on a given piece of source text: `Some` exactly on
/// the well-formed function definitions, with the definition's pieces.
pub uninterp spec fn parsed_fn(s: Seq<char>) -> Option<FnDefView>;

/// Relies on `syn::parse_str::<syn::ItemFn>` to recognise exactly the
/// well-formed function definitions, and on `quote::ToTokens` printing to
/// hand the parsed pieces back as source text; the outcome depends on the
/// input text alone.
#[verifier::external_body]
fn parse_fn_def(src: &str) -> (r: Option<FnDef>)
    ensures
        r is Some <==> parsed_fn(src@) is Some,
        r is Some ==> r->Some_0@ == parsed_fn(src@)->Some_0,
{
    match syn::parse_str::<syn::ItemFn>(src) {
        Ok(f) => Some(
            FnDef {
                vis: f.vis.to_token_stream().to_string(),
                sig: f.sig.to_token_stream().to_string(),
                name: f.sig.ident.to_string(),
                is_async: f.sig.asyncness.is_some(),
                body: f.block.to_token_stream().to_string(),
            },
        ),
        Err(_) => None,
    }
}

/// The one build-time failure: the decorated item is not a well-formed
/// function definition.
#[derive(Clone, Copy, PartialEq, Eq, Debug)]
pub enum TransformError {
    MalformedInput,
}

/// Decorates one function definition given as source text: parses it,
/// rewrites it into the timed replacement, and prints that back as source
/// text. Succeeds exactly on well-formed function definitions and reports
/// `MalformedInput` on everything else.
pub fn time(item: &str) -> (r: Result<String, TransformError>)
    ensures
        r is Ok <==> parsed_fn(item@) is Some,
        r is Ok ==> r->Ok_0@ == render_text(transformed_view(parsed_fn(item@)->Some_0)),
        r is Err ==> r->Err_0 == TransformError::MalformedInput,
{
    match parse_fn_def(item) {
        Some(f) => {
            let g = transform(&f);
            let out = render(&g);
            proof {
                assert(g@ =~= transformed_view(f@));
            }
            Ok(out)
        },
        None => Err(TransformError::MalformedInput),
    }
}

} // verus!
