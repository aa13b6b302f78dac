//! The boundary with the template engine, `minijinja`. Nothing here is
//! proved; each contract says what is taken on trust from that crate.

use vstd::prelude::*;
use crate::text::texts;

verus! {

/// The engine's environment: its settings and the templates loaded into it.
#[verifier::external_type_specification]
#[verifier::external_body]
pub struct ExEnvironment<'source>(minijinja::Environment<'source>);

/// The environment that this library keeps for the life of a template store.
pub type Engine = minijinja::Environment<'static>;

/// The templates that an environment holds: the source text under each name.
pub uninterp spec fn engine_templates(engine: Engine) -> Map<
    Seq<char>,
    Seq<char>,
>;

/// Whether an environment is as `engine_new` made it, but for the templates
/// that `engine_add` loaded into it: undefined values are errors, every other
/// setting is the default, and no template came into it any other way.
pub uninterp spec fn engine_kept(engine: Engine) -> bool;

/// What the engine makes of a template under default settings: the variables
/// that the template reads without defining them, nested attribute lookups
/// given as dotted paths, or the text of the compiler's error.
pub uninterp spec fn template_analysis(name: Seq<char>, source: Seq<char>) -> Result<
    Set<Seq<char>>,
    Seq<char>,
>;

/// The text of the error with which the engine refuses to load a template
/// under default settings, if it refuses.
pub uninterp spec fn template_load_error(name: Seq<char>, source: Seq<char>) -> Option<Seq<char>>;

/// Calls `Environment::new` and sets the strict undefined behaviour with
/// `Environment::set_undefined_behavior`. Trusted: the environment holds no
/// template.
#[verifier::external_body]
pub(crate) fn engine_new() -> (engine: Engine)
    ensures
        engine_kept(engine),
        engine_templates(engine) == (Map::<Seq<char>, Seq<char>>::empty()),
{
    let mut engine = minijinja::Environment::new();
    engine.set_undefined_behavior(minijinja::UndefinedBehavior::Strict);
    engine
}

/// Compiles a template in a fresh default environment with
/// `Environment::template_from_named_str` and asks
/// `Template::undeclared_variables` for its variables, nested lookups
/// included. Trusted: the outcome is a function of name and source. The
/// variables come out of a hashed set: which they are is fixed, their order is
/// not.
#[verifier::external_body]
pub(crate) fn engine_analyze(name: &str, source: &str) -> (analysis: Result<Vec<String>, String>)
    ensures
        match analysis {
            Ok(variables) => template_analysis(name@, source@) == Ok::<Set<Seq<char>>, Seq<char>>(
                texts(variables@).to_set(),
            ),
            Err(message) => template_analysis(name@, source@) == Err::<Set<Seq<char>>, Seq<char>>(
                message@,
            ),
        },
{
    let engine = minijinja::Environment::new();
    let compiled = engine.template_from_named_str(name, source);
    compiled.map(|t| t.undeclared_variables(true).into_iter().collect()).map_err(|e| e.to_string())
}

/// Calls `Environment::add_template_owned`. Trusted: a template that compiles
/// is stored under its name, over any earlier one; one that does not leaves
/// the environment as it was, which holds because no template was ever lent to
/// the environment.
#[verifier::external_body]
pub(crate) fn engine_add(
    engine: &mut Engine,
    name: &str,
    source: &str,
) -> (added: Result<(), String>)
    requires
        engine_kept(*old(engine)),
    ensures
        engine_kept(*final(engine)),
        match added {
            Ok(()) => template_load_error(name@, source@) is None && engine_templates(
                *final(engine),
            ) == engine_templates(*old(engine)).insert(name@, source@),
            Err(message) => template_load_error(name@, source@) == Some(message@)
                && engine_templates(*final(engine)) == engine_templates(*old(engine)),
        },
{
    engine.add_template_owned(name.to_string(), source.to_string()).map_err(|e| e.to_string())
}

/// Calls `Environment::get_template` and `Template::render`, and drops
/// whatever error the engine raises. Nothing is claimed of the outcome: it is
/// no function of the templates, the name and the context, since a template
/// may call the engine's `debug()`, which lists the loaded templates in the
/// order of a hashed map.
#[verifier::external_body]
pub(crate) fn engine_render(
    engine: &Engine,
    name: &str,
    context: serde_json::Value,
) -> (rendered: Option<String>) {
    engine.get_template(name).and_then(|t| t.render(context)).ok()
}

} // verus!
