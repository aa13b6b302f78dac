//! What holds of the operations taken together.

use vstd::prelude::*;
use crate::authorize::all_authorized;
use crate::authorize::authorizes;
use crate::authorize::denial;
use crate::compile::TemplateDefinitionView;
use crate::compile::accepted;
use crate::compile::compile_outcome;
use crate::compile::finite_analysis_names_variable;
use crate::engine::template_analysis;
use crate::engine::template_load_error;
use crate::interchange::json_decoded;
use crate::json::JsonValue;
use crate::operations::compile_effect;
use crate::operations::compile_reply;
use crate::operations::register_transition;
use crate::operations::registration_unreadable;
use crate::operations::render_transition;
use crate::outcome::CompileErrorType;
use crate::outcome::RegisterResultView;
use crate::outcome::RenderErrorType;
use crate::outcome::RenderResultView;
use crate::schema::looked_up;
use crate::schema::registered;
use crate::store::batch_result;
use crate::store::batch_stored;
use crate::store::first_refused;
use crate::store::stored_after;

verus! {

/// A schema that the validator accepts is what a lookup of its name gives
/// afterwards. A schema that the validator refuses leaves every lookup as it
/// was: a name that had no schema still has none.
pub proof fn register_then_lookup(
    before: Map<Seq<char>, JsonValue>,
    name: Seq<char>,
    schema: JsonValue,
    other: Seq<char>,
)
    ensures
        looked_up(registered(before, name, schema, true), name) == Some(schema),
        looked_up(registered(before, name, schema, false), other) == looked_up(before, other),
        !before.contains_key(name) ==> looked_up(registered(before, name, schema, false), name)
            is None,
{
}

/// Where the engine compiles and loads a template, authorization decides: if
/// the schemas of its components declare every variable it reads, the
/// definition is accepted; if one is not declared, it is refused with a
/// compile error whose message names a variable that is not declared.
pub proof fn authorization_decides(
    registry: Map<Seq<char>, JsonValue>,
    definition: TemplateDefinitionView,
)
    requires
        template_analysis(definition.name, definition.source) is Ok,
        template_analysis(definition.name, definition.source)->Ok_0.finite(),
        template_load_error(definition.name, definition.source) is None,
    ensures
        accepted(registry, definition) <==> all_authorized(
            registry,
            definition.components,
            template_analysis(definition.name, definition.source)->Ok_0,
        ),
        !accepted(registry, definition) ==> compile_outcome(registry, definition) is Err
            && compile_outcome(registry, definition)->Err_0.error_type
            == CompileErrorType::CompileError && exists|v: Seq<char>|
            template_analysis(definition.name, definition.source)->Ok_0.contains(v) && !authorizes(
                registry,
                definition.components,
                v,
            ) && compile_outcome(registry, definition)->Err_0.message == #[trigger] denial(v),
{
    finite_analysis_names_variable(registry, definition);
}

/// Compiling an accepted definition twice succeeds both times and leaves the
/// store as compiling it once does: under its name stands the source of the
/// definition, which is what a later render has the engine run.
pub proof fn compile_twice(
    registry: Map<Seq<char>, JsonValue>,
    before: Map<Seq<char>, Seq<char>>,
    definition: TemplateDefinitionView,
)
    requires
        accepted(registry, definition),
    ensures
        batch_result(registry, seq![definition, definition]) is Success,
        batch_stored(registry, before, seq![definition, definition]) == before.insert(
            definition.name,
            definition.source,
        ),
        batch_stored(registry, before, seq![definition, definition]) == batch_stored(
            registry,
            before,
            seq![definition],
        ),
        batch_stored(registry, before, seq![definition, definition]).contains_key(
            definition.name,
        ),
        batch_stored(registry, before, seq![definition, definition])[definition.name]
            == definition.source,
{
    let once = seq![definition];
    let twice = seq![definition, definition];
    assert forall|at: int| !first_refused(registry, twice, at) by {
        if 0 <= at < 2 {
            assert(twice[at] == definition);
        }
    }
    assert forall|at: int| !first_refused(registry, once, at) by {
        if 0 <= at < 1 {
            assert(once[at] == definition);
        }
    }
    reveal_with_fuel(stored_after, 3);
    assert(stored_after(before, twice, 2) =~= before.insert(definition.name, definition.source));
    assert(stored_after(before, once, 1) =~= before.insert(definition.name, definition.source));
}

/// A request that does not decode is answered with a parse error and changes
/// nothing, whichever operation it was sent to.
pub proof fn malformed_requests_change_nothing(
    input: Seq<u8>,
    schemas: Map<Seq<char>, JsonValue>,
    schemas_after: Map<Seq<char>, JsonValue>,
    registered_reply: RegisterResultView,
    templates: Map<Seq<char>, Seq<char>>,
    name: Seq<u8>,
    rendered_reply: RenderResultView,
)
    requires
        json_decoded(input) is Err,
    ensures
        register_transition(schemas, input, schemas_after, registered_reply) ==> schemas_after
            == schemas && registered_reply == registration_unreadable(),
        compile_effect(schemas, templates, input) == templates,
        compile_reply(schemas, input) is Error,
        compile_reply(schemas, input)->error.error_type == CompileErrorType::ParseError,
        render_transition(templates, name, input, rendered_reply) ==> rendered_reply is Error
            && rendered_reply->Error_error.error_type == RenderErrorType::ParseError,
{
}

} // verus!
