//! Which variables a template may read: those that the schemas of its
//! components declare, by dotted path.

use vstd::prelude::*;
use crate::json::Json;
use crate::json::JsonValue;
use crate::schema::SchemaRegistry;
use crate::text::joined;
use crate::text::precedes;
use crate::text::precedes_is_antisymmetric;
use crate::text::precedes_is_total;
use crate::text::precedes_is_transitive;
use crate::text::split_by;
use crate::text::split_text;
use crate::text::text_precedes;
use crate::text::texts;

verus! {

/// The segments of a dotted variable path.
pub open spec fn dotted_path(variable: Seq<char>) -> Seq<Seq<char>> {
    split_by(variable, "."@)
}

/// Whether `schema` declares the property that `path` leads to: each segment
/// is a key of the `properties` object of the node before it. The node that
/// the last segment names is not looked into.
pub open spec fn declares(schema: JsonValue, path: Seq<Seq<char>>) -> bool
    decreases path.len(),
{
    &&& path.len() > 0
    &&& schema.member("properties"@) matches Some(properties)
    &&& properties.member(path[0]) matches Some(property)
    &&& (path.len() == 1 || declares(property, path.drop_first()))
}

/// Whether one of the registered schemas among `components` declares
/// `variable`. A component that is not registered declares nothing.
pub open spec fn authorizes(
    registry: Map<Seq<char>, JsonValue>,
    components: Seq<Seq<char>>,
    variable: Seq<char>,
) -> bool {
    exists|i: int|
        0 <= i < components.len() && registry.contains_key(#[trigger] components[i]) && declares(
            registry[components[i]],
            dotted_path(variable),
        )
}

/// Whether `variable` is the least of `variables` that is not authorized.
pub open spec fn least_denied(
    registry: Map<Seq<char>, JsonValue>,
    components: Seq<Seq<char>>,
    variables: Set<Seq<char>>,
    variable: Seq<char>,
) -> bool {
    &&& variables.contains(variable)
    &&& !authorizes(registry, components, variable)
    &&& forall|other: Seq<char>|
        variables.contains(other) && !authorizes(registry, components, other) ==> precedes(
            variable,
            other,
        )
}

/// Whether every one of `variables` is authorized.
pub open spec fn all_authorized(
    registry: Map<Seq<char>, JsonValue>,
    components: Seq<Seq<char>>,
    variables: Set<Seq<char>>,
) -> bool {
    forall|v: Seq<char>| variables.contains(v) ==> authorizes(registry, components, v)
}

/// The outcome of checking `variables`: success if every one is authorized,
/// else the message that names the least of those that are not.
pub open spec fn authorization(
    registry: Map<Seq<char>, JsonValue>,
    components: Seq<Seq<char>>,
    variables: Set<Seq<char>>,
) -> Result<(), Seq<char>> {
    if all_authorized(registry, components, variables) {
        Ok(())
    } else {
        Err(denial(choose|v: Seq<char>| least_denied(registry, components, variables, v)))
    }
}

/// The message that names a variable which no schema declares.
pub open spec fn denial(variable: Seq<char>) -> Seq<char> {
    "Variable '"@ + variable + "' is not allowed by schema"@
}

/// Whether `schema` declares the property that `path` leads to.
pub fn schema_declares(schema: &Json, path: &Vec<String>) -> (declared: bool)
    ensures
        declared == declares(schema.model(), texts(path@)),
{
    let n: usize = path.len();
    let mut current: &Json = schema;
    let mut i: usize = 0;
    assert(texts(path@).subrange(0, n as int) == texts(path@));
    while i < n
        invariant
            n == path.len(),
            i <= n,
            declares(schema.model(), texts(path@)) == declares(
                current.model(),
                texts(path@).subrange(i as int, n as int),
            ),
        decreases n - i,
    {
        let ghost rest = texts(path@).subrange(i as int, n as int);
        assert(rest[0] == path@[i as int]@);
        assert(rest.drop_first() == texts(path@).subrange(i + 1, n as int));
        match current.get("properties") {
            None => {
                return false;
            },
            Some(properties) => match properties.get(path[i].as_str()) {
                None => {
                    return false;
                },
                Some(property) => {
                    if i == n - 1 {
                        return true;
                    }
                    current = property;
                },
            },
        }
        i = i + 1;
    }
    false
}

/// Whether one of the registered schemas among `components` declares
/// `variable`.
pub fn is_authorized(
    registry: &SchemaRegistry,
    components: &Vec<String>,
    variable: &str,
) -> (allowed: bool)
    ensures
        allowed == authorizes(registry@, texts(components@), variable@),
{
    let path = split_text(variable, ".");
    let n: usize = components.len();
    let mut i: usize = 0;
    while i < n
        invariant
            n == components.len(),
            i <= n,
            texts(path@) == dotted_path(variable@),
            forall|j: int|
                0 <= j < i ==> !(registry@.contains_key(#[trigger] texts(components@)[j])
                    && declares(registry@[texts(components@)[j]], dotted_path(variable@))),
        decreases n - i,
    {
        assert(texts(components@)[i as int] == components@[i as int]@);
        match registry.lookup(components[i].as_str()) {
            Some(schema) => {
                if schema_declares(schema, &path) {
                    return true;
                }
            },
            None => {},
        }
        i = i + 1;
    }
    false
}

/// Checks that every one of `variables` is declared by a schema of
/// `components`, and names the least of those that are not. The order in
/// which the variables are given does not matter.
pub fn validate_template_variables(
    registry: &SchemaRegistry,
    components: &Vec<String>,
    variables: &Vec<String>,
) -> (outcome: Result<(), String>)
    ensures
        match outcome {
            Ok(()) => authorization(registry@, texts(components@), texts(variables@).to_set())
                == Ok::<(), Seq<char>>(()),
            Err(message) => authorization(
                registry@,
                texts(components@),
                texts(variables@).to_set(),
            ) == Err::<(), Seq<char>>(message@),
        },
{
    let ghost names = texts(variables@);
    let ghost allowed = |v: Seq<char>| authorizes(registry@, texts(components@), v);
    let n: usize = variables.len();
    let mut least: Option<usize> = None;
    let mut k: usize = 0;
    while k < n
        invariant
            n == variables.len(),
            k <= n,
            names == texts(variables@),
            allowed == |v: Seq<char>| authorizes(registry@, texts(components@), v),
            match least {
                None => forall|j: int| 0 <= j < k ==> allowed(#[trigger] names[j]),
                Some(at) => at < k && !allowed(names[at as int]) && forall|j: int|
                    0 <= j < k && !allowed(#[trigger] names[j]) ==> precedes(
                        names[at as int],
                        names[j],
                    ),
            },
        decreases n - k,
    {
        assert(names[k as int] == variables@[k as int]@);
        if !is_authorized(registry, components, variables[k].as_str()) {
            let lower = match least {
                None => true,
                Some(at) => {
                    assert(names[at as int] == variables@[at as int]@);
                    !text_precedes(variables[at].as_str(), variables[k].as_str())
                },
            };
            proof {
                precedes_is_total(names[k as int], names[k as int]);
                if let Some(at) = least {
                    precedes_is_total(names[at as int], names[k as int]);
                    if lower {
                        assert forall|j: int|
                            0 <= j < k && !allowed(#[trigger] names[j]) implies precedes(
                            names[k as int],
                            names[j],
                        ) by {
                            precedes_is_transitive(names[k as int], names[at as int], names[j]);
                        }
                    }
                }
            }
            if lower {
                least = Some(k);
            }
        }
        k = k + 1;
    }
    let ghost set = names.to_set();
    match least {
        None => {
            assert forall|v: Seq<char>| set.contains(v) implies authorizes(
                registry@,
                texts(components@),
                v,
            ) by {
                let j = choose|j: int| 0 <= j < names.len() && names[j] == v;
                assert(allowed(names[j]));
            }
            Ok(())
        },
        Some(at) => {
            let ghost found = names[at as int];
            assert(names[at as int] == variables@[at as int]@);
            proof {
                assert(set.contains(found));
                assert forall|other: Seq<char>|
                    set.contains(other) && !authorizes(
                        registry@,
                        texts(components@),
                        other,
                    ) implies precedes(found, other) by {
                    let j = choose|j: int| 0 <= j < names.len() && names[j] == other;
                    assert(!allowed(names[j]));
                }
                assert(least_denied(registry@, texts(components@), set, found));
                least_denied_is_unique(
                    registry@,
                    texts(components@),
                    set,
                    found,
                    choose|v: Seq<char>| least_denied(registry@, texts(components@), set, v),
                );
            }
            let head = joined("Variable '", variables[at].as_str());
            Err(joined(head.as_str(), "' is not allowed by schema"))
        },
    }
}

/// No two variables are both the least that is not authorized.
pub proof fn least_denied_is_unique(
    registry: Map<Seq<char>, JsonValue>,
    components: Seq<Seq<char>>,
    variables: Set<Seq<char>>,
    one: Seq<char>,
    other: Seq<char>,
)
    requires
        least_denied(registry, components, variables, one),
        least_denied(registry, components, variables, other),
    ensures
        one == other,
{
    precedes_is_antisymmetric(one, other);
}

/// Among finitely many variables of which one is not authorized, one is the
/// least that is not.
pub proof fn least_denied_exists(
    registry: Map<Seq<char>, JsonValue>,
    components: Seq<Seq<char>>,
    variables: Set<Seq<char>>,
)
    requires
        variables.finite(),
        !all_authorized(registry, components, variables),
    ensures
        exists|v: Seq<char>| least_denied(registry, components, variables, v),
    decreases variables.len(),
{
    let denied = choose|v: Seq<char>|
        variables.contains(v) && !authorizes(registry, components, v);
    let rest = variables.remove(denied);
    if all_authorized(registry, components, rest) {
        assert forall|other: Seq<char>|
            variables.contains(other) && !authorizes(registry, components, other) implies precedes(
            denied,
            other,
        ) by {
            if other != denied {
                assert(rest.contains(other));
            }
            precedes_is_total(denied, denied);
        }
        assert(least_denied(registry, components, variables, denied));
    } else {
        least_denied_exists(registry, components, rest);
        let least = choose|v: Seq<char>| least_denied(registry, components, rest, v);
        precedes_is_total(denied, least);
        precedes_is_total(denied, denied);
        let lower = if precedes(least, denied) {
            least
        } else {
            denied
        };
        assert forall|other: Seq<char>|
            variables.contains(other) && !authorizes(registry, components, other) implies precedes(
            lower,
            other,
        ) by {
            if other != denied {
                assert(rest.contains(other));
                if lower == denied {
                    precedes_is_transitive(denied, least, other);
                }
            }
        }
        assert(least_denied(registry, components, variables, lower));
    }
}

} // verus!
