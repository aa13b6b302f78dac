//! The transport: bytes of a request in, bytes of a reply out, into a buffer
//! of fixed capacity that the caller owns.

use vstd::prelude::*;
use vstd::utf8::valid_utf8;
use vstd::string::StringSliceAdditionalSpecFns;
use crate::compile::TemplateDefinition;
use crate::compile::TemplateDefinitionView;
use crate::json::Json;
use crate::json::JsonValue;
use crate::json::models;
use crate::text::texts;

verus! {

/// The number of bytes of `data` that fit into `buffer`.
pub open spec fn fitting(buffer: Seq<u8>, data: Seq<u8>) -> int {
    if data.len() <= buffer.len() {
        data.len() as int
    } else {
        buffer.len() as int
    }
}

/// `buffer` after `data` was written to its start: as much of `data` as fits,
/// then what the buffer held behind it.
pub open spec fn written_over(buffer: Seq<u8>, data: Seq<u8>) -> Seq<u8> {
    data.take(fitting(buffer, data)) + buffer.skip(fitting(buffer, data))
}

/// Copies `data` to the start of `out`, cut off at the length of `out`, and
/// returns the number of bytes copied.
pub fn write_to_memory(out: &mut [u8], data: &[u8]) -> (written: usize)
    ensures
        written == fitting(old(out)@, data@),
        final(out)@ == written_over(old(out)@, data@),
{
    let n: usize = if data.len() <= out.len() {
        data.len()
    } else {
        out.len()
    };
    let mut i: usize = 0;
    while i < n
        invariant
            n == fitting(old(out)@, data@),
            i <= n,
            out@.len() == old(out)@.len(),
            out@ == data@.take(i as int) + old(out)@.skip(i as int),
        decreases n - i,
    {
        out[i] = data[i];
        i = i + 1;
        assert(out@ =~= data@.take(i as int) + old(out)@.skip(i as int));
    }
    n
}

/// Calls `std::str::from_utf8`. Trusted: it accepts the buffers that are valid
/// UTF-8, and the text it hands back has those bytes.
#[verifier::external_body]
pub(crate) fn utf8_text<'a>(bytes: &'a [u8]) -> (text: Option<&'a str>)
    ensures
        match text {
            Some(decoded) => valid_utf8(bytes@) && decoded.spec_bytes() == bytes@,
            None => !valid_utf8(bytes@),
        },
{
    std::str::from_utf8(bytes).ok()
}

/// The name and schema of a registration: a pair, written as an array of two
/// whose first item is a text.
pub open spec fn registration_request(envelope: JsonValue) -> Option<(Seq<char>, JsonValue)> {
    match envelope {
        JsonValue::Array(items) => if items.len() == 2 && items[0] is Text {
            Some((items[0]->Text_0, items[1]))
        } else {
            None
        },
        _ => None,
    }
}

/// Takes a registration apart.
pub fn decode_registration(envelope: Json) -> (request: Option<(String, Json)>)
    ensures
        match request {
            Some((name, schema)) => registration_request(envelope.model()) == Some(
                (name@, schema.model()),
            ),
            None => registration_request(envelope.model()) is None,
        },
{
    match envelope {
        Json::Array(items) => {
            let mut items = items;
            if items.len() != 2 {
                return None;
            }
            let ghost listed = models(items@);
            assert(listed[0] == items@[0].model() && listed[1] == items@[1].model());
            let schema = items.pop().unwrap();
            let first = items.pop().unwrap();
            match first {
                Json::Text(name) => Some((name, schema)),
                _ => None,
            }
        },
        _ => None,
    }
}

/// The key under which an entity carries a template.
pub const TEMPLATE_KEY: &'static str = "template:01JVK339CW6Q67VAMXCA7XAK7D";

/// The texts among the first `n` of `items`.
pub open spec fn component_names(items: Seq<JsonValue>, n: nat) -> Seq<Seq<char>>
    decreases n,
{
    if n == 0 || n > items.len() {
        Seq::empty()
    } else {
        let before = component_names(items, (n - 1) as nat);
        match items[n - 1] {
            JsonValue::Text(name) => before.push(name),
            _ => before,
        }
    }
}

/// The template that an entity carries: under the template key an object with
/// a text `name`, a text `source` and an array `components`, of which the
/// texts count.
pub open spec fn definition_of(entity: JsonValue) -> Option<TemplateDefinitionView> {
    match entity.member(TEMPLATE_KEY@) {
        Some(template) => match (
            template.member("name"@),
            template.member("source"@),
            template.member("components"@),
        ) {
            (
                Some(JsonValue::Text(name)),
                Some(JsonValue::Text(source)),
                Some(JsonValue::Array(items)),
            ) => Some(
                TemplateDefinitionView {
                    name,
                    source,
                    components: component_names(items, items.len()),
                },
            ),
            _ => None,
        },
        None => None,
    }
}

/// The templates that the first `n` of `entities` carry; an entity that
/// carries none is passed over.
pub open spec fn definitions_among(entities: Seq<JsonValue>, n: nat) -> Seq<TemplateDefinitionView>
    decreases n,
{
    if n == 0 || n > entities.len() {
        Seq::empty()
    } else {
        let before = definitions_among(entities, (n - 1) as nat);
        match definition_of(entities[n - 1]) {
            Some(definition) => before.push(definition),
            None => before,
        }
    }
}

/// The definitions of a batch: the envelope is an array of objects, and each
/// object that carries a template gives one.
pub open spec fn batch_request(envelope: JsonValue) -> Option<Seq<TemplateDefinitionView>> {
    match envelope {
        JsonValue::Array(entities) => if forall|i: int|
            0 <= i < entities.len() ==> (#[trigger] entities[i]) is Object {
            Some(definitions_among(entities, entities.len()))
        } else {
            None
        },
        _ => None,
    }
}

/// The views of a list of definitions.
pub open spec fn definition_views(definitions: Seq<TemplateDefinition>) -> Seq<
    TemplateDefinitionView,
> {
    definitions.map_values(|d: TemplateDefinition| d@)
}

/// The texts among `items`, copied.
fn decode_components(items: &Vec<Json>) -> (names: Vec<String>)
    ensures
        texts(names@) == component_names(models(items@), items@.len()),
{
    let mut names: Vec<String> = Vec::new();
    let n: usize = items.len();
    let mut i: usize = 0;
    assert(texts(names@) =~= Seq::<Seq<char>>::empty());
    while i < n
        invariant
            n == items.len(),
            i <= n,
            texts(names@) == component_names(models(items@), i as nat),
        decreases n - i,
    {
        assert(models(items@)[i as int] == items@[i as int].model());
        match items[i].as_text() {
            Some(name) => {
                let ghost earlier = names@;
                let copy = name.clone();
                names.push(copy);
                assert(texts(names@) =~= texts(earlier).push(name@));
            },
            None => {},
        }
        i = i + 1;
    }
    names
}

/// The template that an entity carries, copied.
pub fn decode_definition(entity: &Json) -> (definition: Option<TemplateDefinition>)
    ensures
        match definition {
            Some(found) => definition_of(entity.model()) == Some(found@),
            None => definition_of(entity.model()) is None,
        },
{
    let template = match entity.get(TEMPLATE_KEY) {
        Some(template) => template,
        None => {
            return None;
        },
    };
    let name = match template.get("name") {
        Some(member) => match member.as_text() {
            Some(name) => name,
            None => {
                return None;
            },
        },
        None => {
            return None;
        },
    };
    let source = match template.get("source") {
        Some(member) => match member.as_text() {
            Some(source) => source,
            None => {
                return None;
            },
        },
        None => {
            return None;
        },
    };
    let items = match template.get("components") {
        Some(member) => match member.as_array() {
            Some(items) => items,
            None => {
                return None;
            },
        },
        None => {
            return None;
        },
    };
    let components = decode_components(items);
    Some(TemplateDefinition { name: name.clone(), source: source.clone(), components })
}

/// The definitions of a batch, copied.
pub fn decode_batch(envelope: &Json) -> (batch: Option<Vec<TemplateDefinition>>)
    ensures
        match batch {
            Some(definitions) => batch_request(envelope.model()) == Some(
                definition_views(definitions@),
            ),
            None => batch_request(envelope.model()) is None,
        },
{
    let entities = match envelope.as_array() {
        Some(entities) => entities,
        None => {
            return None;
        },
    };
    let ghost listed = models(entities@);
    let mut definitions: Vec<TemplateDefinition> = Vec::new();
    let n: usize = entities.len();
    let mut i: usize = 0;
    assert(definition_views(definitions@) =~= Seq::<TemplateDefinitionView>::empty());
    while i < n
        invariant
            n == entities.len(),
            i <= n,
            listed == models(entities@),
            envelope.model() == JsonValue::Array(listed),
            forall|j: int| 0 <= j < i ==> (#[trigger] listed[j]) is Object,
            definition_views(definitions@) == definitions_among(listed, i as nat),
        decreases n - i,
    {
        assert(listed[i as int] == entities@[i as int].model());
        if !entities[i].is_object() {
            assert(!(listed[i as int] is Object));
            return None;
        }
        match decode_definition(&entities[i]) {
            Some(definition) => {
                let ghost earlier = definitions@;
                definitions.push(definition);
                assert(definition_views(definitions@) =~= definition_views(earlier).push(
                    definition@,
                ));
            },
            None => {},
        }
        i = i + 1;
    }
    Some(definitions)
}

} // verus!
