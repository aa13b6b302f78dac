//! The registry of component schemas.

use vstd::prelude::*;
use crate::assoc::as_map;
use crate::assoc::last_wins_holds_last;
use crate::assoc::last_wins_push;
use crate::assoc::last_wins_replace_last;
use crate::interchange::json_to_value;
use crate::interchange::value_model;
use crate::json::Json;
use crate::json::JsonValue;
use crate::json::find_member;
use crate::json::pairs;

verus! {

/// Whether a document has the shape of a schema: an object, or a boolean,
/// which stands for the schema that accepts everything or nothing.
pub open spec fn schema_shaped(schema: JsonValue) -> bool {
    schema is Object || schema is Bool
}

/// The validator's message for a document that has not the shape of a schema.
pub open spec fn not_a_schema() -> Seq<char> {
    "not an object"@
}

/// Calls `valico::json_schema::Scope::compile` on a fresh scope, with unknown
/// keywords allowed, and keeps the text of its error. Trusted: a document
/// that is neither an object nor a boolean is refused at once, as
/// `SchemaError::NotAnObject`, which prints as "not an object". Nothing is
/// claimed of the outcome for an object or a boolean: where several keywords
/// are at fault, valico walks them in the order of a hashed set, so which
/// fault it reports, and beside a `$ref` whether it reports one at all, may
/// differ from call to call.
#[verifier::external_body]
fn schema_compiles(schema: serde_json::Value) -> (judgement: Result<(), String>)
    ensures
        !schema_shaped(value_model(schema)) ==> judgement is Err && judgement->Err_0@
            == not_a_schema(),
{
    valico::json_schema::Scope::new().compile(schema, false).map(|_| ()).map_err(|e| e.to_string())
}

/// Asks the schema validator whether `schema` is a well-formed schema. The
/// error is the validator's own message; for a document that has not the
/// shape of a schema it is "not an object".
pub fn validate_schema(schema: &Json) -> (judgement: Result<(), String>)
    ensures
        !schema_shaped(schema.model()) ==> judgement is Err && judgement->Err_0@
            == not_a_schema(),
{
    schema_compiles(json_to_value(schema))
}

/// What a registry holds after a registration that the validator accepted or
/// refused.
pub open spec fn registered(
    before: Map<Seq<char>, JsonValue>,
    name: Seq<char>,
    schema: JsonValue,
    accepted: bool,
) -> Map<Seq<char>, JsonValue> {
    if accepted {
        before.insert(name, schema)
    } else {
        before
    }
}

/// What a lookup in a registry gives.
pub open spec fn looked_up(registry: Map<Seq<char>, JsonValue>, name: Seq<char>) -> Option<
    JsonValue,
> {
    if registry.contains_key(name) {
        Some(registry[name])
    } else {
        None
    }
}

/// The component schemas, each under its name.
pub struct SchemaRegistry {
    entries: Vec<(String, Json)>,
}

impl View for SchemaRegistry {
    type V = Map<Seq<char>, JsonValue>;

    closed spec fn view(&self) -> Map<Seq<char>, JsonValue> {
        as_map(pairs(self.entries@))
    }
}

impl SchemaRegistry {
    /// A registry without schemas.
    pub fn new() -> (registry: SchemaRegistry)
        ensures
            registry@ == Map::<Seq<char>, JsonValue>::empty(),
    {
        SchemaRegistry { entries: Vec::new() }
    }

    /// The schema registered under `name`.
    pub fn lookup(&self, name: &str) -> (schema: Option<&Json>)
        ensures
            match schema {
                Some(json) => looked_up(self@, name@) == Some(json.model()),
                None => looked_up(self@, name@) is None,
            },
    {
        proof {
            last_wins_holds_last(pairs(self.entries@), self.entries@.len(), name@);
        }
        match find_member(&self.entries, name) {
            Some(at) => {
                assert(pairs(self.entries@)[at as int].1 == self.entries@[at as int].1.model());
                Some(&self.entries[at].1)
            },
            None => None,
        }
    }

    /// Puts `schema` under `name`, in place of what stood there.
    fn put(&mut self, name: String, schema: Json)
        ensures
            final(self)@ == old(self)@.insert(name@, schema.model()),
    {
        match find_member(&self.entries, name.as_str()) {
            Some(at) => {
                proof {
                    last_wins_replace_last(
                        pairs(self.entries@),
                        self.entries@.len(),
                        at as int,
                        schema.model(),
                    );
                }
                self.entries.set(at, (name, schema));
                assert(pairs(self.entries@) =~= pairs(old(self).entries@).update(
                    at as int,
                    (name@, schema.model()),
                ));
            },
            None => {
                proof {
                    last_wins_push(pairs(self.entries@), (name@, schema.model()));
                }
                self.entries.push((name, schema));
                assert(pairs(self.entries@) =~= pairs(old(self).entries@).push(
                    (name@, schema.model()),
                ));
            },
        }
    }

    /// Applies a registration whose schema the validator has judged: an
    /// accepted schema is stored under `name`, over any earlier one; a refused
    /// one changes nothing and the validator's message is handed on.
    pub fn register_validated(
        &mut self,
        name: String,
        schema: Json,
        judgement: Result<(), String>,
    ) -> (outcome: Result<(), String>)
        ensures
            final(self)@ == registered(old(self)@, name@, schema.model(), judgement is Ok),
            outcome == judgement,
    {
        if judgement.is_ok() {
            self.put(name, schema);
        }
        judgement
    }

    /// Validates `schema` and, if it is well-formed, stores it under `name`,
    /// over any earlier schema of that name. A schema that the validator
    /// refuses changes nothing, and the validator's message is the error; a
    /// document that has not the shape of a schema is always refused, as
    /// "not an object".
    pub fn register(&mut self, name: String, schema: Json) -> (outcome: Result<(), String>)
        ensures
            final(self)@ == registered(old(self)@, name@, schema.model(), outcome is Ok),
            !schema_shaped(schema.model()) ==> outcome is Err && outcome->Err_0@
                == not_a_schema() && final(self)@ == old(self)@,
    {
        let judgement = validate_schema(&schema);
        self.register_validated(name, schema, judgement)
    }
}

} // verus!
