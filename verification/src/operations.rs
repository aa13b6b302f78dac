//! The three operations, each from a request in bytes to a reply in bytes.

use vstd::prelude::*;
use vstd::utf8::decode_utf8;
use vstd::utf8::encode_utf8;
use vstd::utf8::valid_utf8;
use crate::codec::batch_request;
use crate::codec::decode_batch;
use crate::codec::decode_registration;
use crate::codec::fitting;
use crate::codec::registration_request;
use crate::codec::utf8_text;
use crate::codec::write_to_memory;
use crate::codec::written_over;
use crate::compile::TemplateDefinitionView;
use crate::interchange::json_decoded;
use crate::interchange::parse_json;
use crate::json::JsonValue;
use crate::outcome::CompileError;
use crate::outcome::CompileErrorType;
use crate::outcome::CompileErrorView;
use crate::outcome::CompileResult;
use crate::outcome::CompileResultView;
use crate::outcome::RegisterResult;
use crate::outcome::RegisterResultView;
use crate::outcome::RenderError;
use crate::outcome::RenderErrorType;
use crate::outcome::RenderErrorView;
use crate::outcome::RenderResult;
use crate::outcome::RenderResultView;
use crate::schema::SchemaRegistry;
use crate::schema::not_a_schema;
use crate::schema::schema_shaped;
use crate::schema::validate_schema;
use crate::store::TemplateStore;
use crate::store::batch_refusal_names_variable;
use crate::store::batch_result;
use crate::store::batch_stored;
use crate::store::may_render;
use crate::text::joined;

verus! {

/// The name and schema that a registration buffer asks to register, if it
/// decodes to a registration.
pub open spec fn registration_of(input: Seq<u8>) -> Option<(Seq<char>, JsonValue)> {
    match json_decoded(input) {
        Ok(envelope) => registration_request(envelope),
        Err(_) => None,
    }
}

/// The reply to a registration that could not be decoded.
pub open spec fn registration_unreadable() -> RegisterResultView {
    RegisterResultView::Error { message: "Failed to parse component registration JSON"@ }
}

/// The reply to a registration whose schema the validator has judged.
pub open spec fn registration_reply(judgement: Result<(), Seq<char>>) -> RegisterResultView {
    match judgement {
        Ok(()) => RegisterResultView::Success,
        Err(reason) => RegisterResultView::Error {
            message: "Invalid schema for component: "@ + reason,
        },
    }
}

/// Whether a registration may leave a registry at `after` with `reply`. A
/// buffer that does not decode to a registration changes nothing. A
/// registration whose document has not the shape of a schema is refused as
/// "not an object" and changes nothing. Any other is either stored and
/// answered with success, or refused with the validator's reason and nothing
/// changed.
pub open spec fn register_transition(
    before: Map<Seq<char>, JsonValue>,
    input: Seq<u8>,
    after: Map<Seq<char>, JsonValue>,
    reply: RegisterResultView,
) -> bool {
    match registration_of(input) {
        None => after == before && reply == registration_unreadable(),
        Some((name, schema)) => if schema_shaped(schema) {
            ||| after == before.insert(name, schema) && reply == registration_reply(Ok(()))
            ||| after == before && exists|reason: Seq<char>|
                reply == #[trigger] registration_reply(Err(reason))
        } else {
            after == before && reply == registration_reply(Err(not_a_schema()))
        },
    }
}

/// The reply to a batch that could not be decoded, with the decoder's message.
pub open spec fn batch_unreadable(message: Seq<char>) -> CompileResultView {
    CompileResultView::Error {
        error: CompileErrorView {
            error_type: CompileErrorType::ParseError,
            message,
            missing_dependencies: None,
        },
    }
}

/// The message for a batch that is valid JSON but no list of entities.
pub open spec fn batch_misshapen() -> Seq<char> {
    "invalid type: expected a sequence of maps"@
}

/// The definitions that a batch buffer asks to compile, or the message for a
/// buffer that does not decode to a list of entities.
pub open spec fn batch_of(input: Seq<u8>) -> Result<Seq<TemplateDefinitionView>, Seq<char>> {
    match json_decoded(input) {
        Err(message) => Err(message),
        Ok(envelope) => match batch_request(envelope) {
            None => Err(batch_misshapen()),
            Some(definitions) => Ok(definitions),
        },
    }
}

/// The reply to a batch request. A buffer that does not decode to a list of
/// entities is answered with a parse error.
pub open spec fn compile_reply(
    registry: Map<Seq<char>, JsonValue>,
    input: Seq<u8>,
) -> CompileResultView {
    match batch_of(input) {
        Err(message) => batch_unreadable(message),
        Ok(definitions) => batch_result(registry, definitions),
    }
}

/// What a store holds after a batch request. A buffer that does not decode to
/// a list of entities changes nothing.
pub open spec fn compile_effect(
    registry: Map<Seq<char>, JsonValue>,
    before: Map<Seq<char>, Seq<char>>,
    input: Seq<u8>,
) -> Map<Seq<char>, Seq<char>> {
    match batch_of(input) {
        Err(_) => before,
        Ok(definitions) => batch_stored(registry, before, definitions),
    }
}

/// A render request refused for its form, with the reason.
pub open spec fn render_refused(message: Seq<char>) -> RenderResultView {
    RenderResultView::Error {
        error: RenderErrorView { error_type: RenderErrorType::ParseError, message },
    }
}

/// Whether `reply` may answer a render request. A name that is not valid
/// UTF-8 is refused as such; then a context that does not decode is refused as
/// such; then the template is looked up and rendered.
pub open spec fn render_transition(
    templates: Map<Seq<char>, Seq<char>>,
    name: Seq<u8>,
    context: Seq<u8>,
    reply: RenderResultView,
) -> bool {
    if !valid_utf8(name) {
        reply == render_refused("Invalid template name"@)
    } else if json_decoded(context) is Err {
        reply == render_refused("Invalid context"@)
    } else {
        may_render(templates, decode_utf8(name), reply)
    }
}

/// The reply to a registration whose schema the validator has judged:
/// success, or the validator's reason behind a fixed prefix.
pub fn register_reply(judgement: Result<(), String>) -> (reply: RegisterResult)
    ensures
        reply@ == registration_reply(
            match judgement {
                Ok(()) => Ok(()),
                Err(reason) => Err(reason@),
            },
        ),
{
    match judgement {
        Ok(()) => RegisterResult::Success,
        Err(reason) => RegisterResult::Error {
            message: joined("Invalid schema for component: ", reason.as_str()),
        },
    }
}

/// Registers the component that `input` describes.
pub fn register_request(registry: &mut SchemaRegistry, input: &[u8]) -> (reply: RegisterResult)
    ensures
        register_transition(old(registry)@, input@, final(registry)@, reply@),
{
    let unreadable = RegisterResult::Error {
        message: "Failed to parse component registration JSON".to_string(),
    };
    let envelope = match parse_json(input) {
        Ok(envelope) => envelope,
        Err(_) => {
            return unreadable;
        },
    };
    let (name, schema) = match decode_registration(envelope) {
        Some(request) => request,
        None => {
            return unreadable;
        },
    };
    let judgement = validate_schema(&schema);
    let outcome = registry.register_validated(name, schema, judgement);
    let ghost judged = outcome;
    let reply = register_reply(outcome);
    proof {
        if let Err(reason) = judged {
            assert(reply@ == registration_reply(Err(reason@)));
        }
    }
    reply
}

/// Compiles the batch of templates that `input` describes.
pub fn compile_request(
    store: &mut TemplateStore,
    registry: &SchemaRegistry,
    input: &[u8],
) -> (reply: CompileResult)
    requires
        old(store).wf(),
    ensures
        final(store).wf(),
        reply@ == compile_reply(registry@, input@),
        final(store)@ == compile_effect(registry@, old(store)@, input@),
        batch_of(input@) matches Ok(definitions) ==> batch_refusal_names_variable(
            registry@,
            definitions,
        ),
{
    let envelope = match parse_json(input) {
        Ok(envelope) => envelope,
        Err(message) => {
            return CompileResult::Error {
                error: CompileError {
                    error_type: CompileErrorType::ParseError,
                    message,
                    missing_dependencies: None,
                },
            };
        },
    };
    match decode_batch(&envelope) {
        Some(definitions) => store.compile_batch(registry, &definitions),
        None => CompileResult::Error {
            error: CompileError {
                error_type: CompileErrorType::ParseError,
                message: "invalid type: expected a sequence of maps".to_string(),
                missing_dependencies: None,
            },
        },
    }
}

/// Renders the template that `name` names with the context that `context`
/// encodes.
pub fn render_request(store: &TemplateStore, name: &[u8], context: &[u8]) -> (reply: RenderResult)
    ensures
        render_transition(store@, name@, context@, reply@),
{
    let name_text = match utf8_text(name) {
        Some(text) => text,
        None => {
            return RenderResult::Error {
                error: RenderError {
                    error_type: RenderErrorType::ParseError,
                    message: "Invalid template name".to_string(),
                },
            };
        },
    };
    proof {
        vstd::utf8::encode_utf8_decode_utf8(name_text@);
    }
    match parse_json(context) {
        Ok(document) => store.render(name_text, &document),
        Err(_) => RenderResult::Error {
            error: RenderError {
                error_type: RenderErrorType::ParseError,
                message: "Invalid context".to_string(),
            },
        },
    }
}

/// Registers the component that `input` describes and writes the reply to
/// `out`, cut off at the length of `out`. Returns the number of bytes
/// written.
pub fn register_component(
    registry: &mut SchemaRegistry,
    input: &[u8],
    out: &mut [u8],
) -> (written: usize)
    ensures
        exists|reply: RegisterResultView|
            register_transition(old(registry)@, input@, final(registry)@, reply) && final(out)@
                == written_over(old(out)@, #[trigger] encode_utf8(reply.encoded())) && written
                == fitting(old(out)@, encode_utf8(reply.encoded())),
{
    let reply = register_request(registry, input);
    let text = reply.encode();
    let written = write_to_memory(out, text.as_str().as_bytes());
    assert(final(out)@ == written_over(old(out)@, encode_utf8(reply@.encoded())));
    written
}

/// Compiles the batch of templates that `input` describes and writes the
/// reply to `out`, cut off at the length of `out`. Returns the number of
/// bytes written.
pub fn compile_templates(
    store: &mut TemplateStore,
    registry: &SchemaRegistry,
    input: &[u8],
    out: &mut [u8],
) -> (written: usize)
    requires
        old(store).wf(),
    ensures
        final(store).wf(),
        final(store)@ == compile_effect(registry@, old(store)@, input@),
        final(out)@ == written_over(
            old(out)@,
            encode_utf8(compile_reply(registry@, input@).encoded()),
        ),
        written == fitting(old(out)@, encode_utf8(compile_reply(registry@, input@).encoded())),
        batch_of(input@) matches Ok(definitions) ==> batch_refusal_names_variable(
            registry@,
            definitions,
        ),
{
    let reply = compile_request(store, registry, input);
    let text = reply.encode();
    write_to_memory(out, text.as_str().as_bytes())
}

/// Renders the template that `name` names with the context that `context`
/// encodes and writes the reply to `out`, cut off at the length of `out`.
/// Returns the number of bytes written.
pub fn render_template(
    store: &TemplateStore,
    name: &[u8],
    context: &[u8],
    out: &mut [u8],
) -> (written: usize)
    ensures
        exists|reply: RenderResultView|
            render_transition(store@, name@, context@, reply) && final(out)@ == written_over(
                old(out)@,
                #[trigger] encode_utf8(reply.encoded()),
            ) && written == fitting(old(out)@, encode_utf8(reply.encoded())),
{
    let reply = render_request(store, name, context);
    let text = reply.encode();
    let written = write_to_memory(out, text.as_str().as_bytes());
    assert(final(out)@ == written_over(old(out)@, encode_utf8(reply@.encoded())));
    written
}

} // verus!
