//! Judging a template definition: what the engine's compiler said of it, and
//! whether the schemas of its components declare the variables it reads.

use vstd::prelude::*;
use crate::authorize::all_authorized;
use crate::authorize::authorization;
use crate::authorize::authorizes;
use crate::authorize::denial;
use crate::authorize::least_denied;
use crate::authorize::least_denied_exists;
use crate::authorize::validate_template_variables;
use crate::engine::template_analysis;
use crate::engine::template_load_error;
use crate::json::JsonValue;
use crate::outcome::CompileError;
use crate::outcome::CompileErrorType;
use crate::outcome::CompileErrorView;
use crate::schema::SchemaRegistry;
use crate::text::contains_text;
use crate::text::occurs_in;
use crate::text::split_by;
use crate::text::split_text;
use crate::text::texts;
use crate::text::trim;
use crate::text::trimmed;

verus! {

/// A template to compile: its name, its source text and the components whose
/// schemas say what it may read.
#[derive(Debug)]
pub struct TemplateDefinition {
    pub name: String,
    pub source: String,
    pub components: Vec<String>,
}

/// The value of a `TemplateDefinition`.
pub ghost struct TemplateDefinitionView {
    pub name: Seq<char>,
    pub source: Seq<char>,
    pub components: Seq<Seq<char>>,
}

impl View for TemplateDefinition {
    type V = TemplateDefinitionView;

    open spec fn view(&self) -> TemplateDefinitionView {
        TemplateDefinitionView {
            name: self.name@,
            source: self.source@,
            components: texts(self.components@),
        }
    }
}

/// The words by which an engine error tells of a template it could not find.
pub open spec fn not_found_marker() -> Seq<char> {
    "not found"@
}

/// The names that an engine error gives behind its marker: the pieces of the
/// message that follow a marker, trimmed, the empty ones left out.
pub open spec fn named_dependencies(message: Seq<char>) -> Seq<Seq<char>> {
    let pieces = split_by(message, not_found_marker());
    pieces.subrange(1, pieces.len() as int).map_values(|piece: Seq<char>| trim(piece)).filter(
        |name: Seq<char>| name.len() > 0,
    )
}

/// The failure that an engine error is reported as: a missing dependency where
/// the message holds the marker, a plain compile error otherwise.
pub open spec fn compile_failure(message: Seq<char>) -> CompileErrorView {
    if occurs_in(message, not_found_marker()) {
        CompileErrorView {
            error_type: CompileErrorType::MissingDependency,
            message,
            missing_dependencies: Some(named_dependencies(message)),
        }
    } else {
        CompileErrorView {
            error_type: CompileErrorType::CompileError,
            message,
            missing_dependencies: None,
        }
    }
}

/// The failure that an authorization message is reported as.
pub open spec fn denied(message: Seq<char>) -> CompileErrorView {
    CompileErrorView {
        error_type: CompileErrorType::CompileError,
        message,
        missing_dependencies: None,
    }
}

/// What is made of a definition once the engine has analysed its source: an
/// engine error is reported as `compile_failure` says; otherwise the
/// variables found are checked against the schemas of the definition's
/// components.
pub open spec fn judgement(
    registry: Map<Seq<char>, JsonValue>,
    definition: TemplateDefinitionView,
    analysis: Result<Set<Seq<char>>, Seq<char>>,
) -> Result<(), CompileErrorView> {
    match analysis {
        Err(message) => Err(compile_failure(message)),
        Ok(variables) => match authorization(registry, definition.components, variables) {
            Err(message) => Err(denied(message)),
            Ok(()) => Ok(()),
        },
    }
}

/// The outcome of compiling a definition: the judgement of what the engine
/// finds in its source and, where that passes, whether the engine loads it.
pub open spec fn compile_outcome(
    registry: Map<Seq<char>, JsonValue>,
    definition: TemplateDefinitionView,
) -> Result<(), CompileErrorView> {
    match judgement(
        registry,
        definition,
        template_analysis(definition.name, definition.source),
    ) {
        Err(error) => Err(error),
        Ok(()) => match template_load_error(definition.name, definition.source) {
            Some(message) => Err(compile_failure(message)),
            None => Ok(()),
        },
    }
}

/// Whether a refusal for want of authorization names its variable: where the
/// engine finds in the source a variable that no component authorizes, the
/// outcome is the compile error whose message denies one such variable.
pub open spec fn refusal_names_variable(
    registry: Map<Seq<char>, JsonValue>,
    definition: TemplateDefinitionView,
) -> bool {
    template_analysis(definition.name, definition.source) matches Ok(variables) ==> (
    !all_authorized(registry, definition.components, variables) ==> exists|v: Seq<char>|
        variables.contains(v) && !authorizes(registry, definition.components, v)
            && compile_outcome(registry, definition) == Err::<(), CompileErrorView>(
            denied(#[trigger] denial(v)),
        ))
}

/// A refusal for want of authorization names its variable wherever the engine
/// finds finitely many variables, as it does in every source that it has
/// analysed.
pub proof fn finite_analysis_names_variable(
    registry: Map<Seq<char>, JsonValue>,
    definition: TemplateDefinitionView,
)
    requires
        template_analysis(definition.name, definition.source) matches Ok(variables)
            ==> variables.finite(),
    ensures
        refusal_names_variable(registry, definition),
{
    if let Ok(variables) = template_analysis(definition.name, definition.source) {
        if !all_authorized(registry, definition.components, variables) {
            least_denied_exists(registry, definition.components, variables);
            let v = choose|v: Seq<char>|
                least_denied(registry, definition.components, variables, v);
            assert(compile_outcome(registry, definition) == Err::<(), CompileErrorView>(
                denied(denial(v)),
            ));
        }
    }
}

/// Whether a definition is compiled.
pub open spec fn accepted(
    registry: Map<Seq<char>, JsonValue>,
    definition: TemplateDefinitionView,
) -> bool {
    compile_outcome(registry, definition) is Ok
}

/// The value of an analysis as the engine hands it over.
pub open spec fn analysis_view(analysis: Result<Vec<String>, String>) -> Result<
    Set<Seq<char>>,
    Seq<char>,
> {
    match analysis {
        Ok(variables) => Ok(texts(variables@).to_set()),
        Err(message) => Err(message@),
    }
}

/// Reports an engine error: as a missing dependency, with the names found
/// behind the marker, where the message holds the marker; as a compile error
/// otherwise.
pub fn classify_compile_failure(message: String) -> (error: CompileError)
    ensures
        error@ == compile_failure(message@),
{
    if !contains_text(message.as_str(), "not found") {
        return CompileError {
            error_type: CompileErrorType::CompileError,
            message,
            missing_dependencies: None,
        };
    }
    let pieces = split_text(message.as_str(), "not found");
    let ghost cut = split_by(message@, not_found_marker());
    let ghost clean = |piece: Seq<char>| trim(piece);
    let ghost named = |name: Seq<char>| name.len() > 0;
    let mut names: Vec<String> = Vec::new();
    let n: usize = pieces.len();
    let mut i: usize = 1;
    proof {
        reveal(Seq::filter);
        assert(cut.len() >= 1);
        assert(cut.subrange(1, 1).map_values(clean) =~= Seq::<Seq<char>>::empty());
        assert(texts(names@) =~= Seq::<Seq<char>>::empty());
    }
    while i < n
        invariant
            n == pieces.len(),
            1 <= i <= n,
            texts(pieces@) == cut,
            clean == |piece: Seq<char>| trim(piece),
            named == |name: Seq<char>| name.len() > 0,
            texts(names@) == cut.subrange(1, i as int).map_values(clean).filter(named),
        decreases n - i,
    {
        let name = trimmed(pieces[i].as_str());
        proof {
            reveal(Seq::filter);
            let before = cut.subrange(1, i as int).map_values(clean);
            let after = cut.subrange(1, i + 1).map_values(clean);
            assert(cut[i as int] == pieces@[i as int]@);
            assert(after.drop_last() =~= before);
            assert(after.last() == trim(cut[i as int]));
        }
        if name.as_str().unicode_len() > 0 {
            let ghost earlier = names@;
            names.push(name);
            assert(texts(names@) =~= texts(earlier).push(name@));
        }
        i = i + 1;
    }
    CompileError {
        error_type: CompileErrorType::MissingDependency,
        message,
        missing_dependencies: Some(names),
    }
}

/// Judges a definition once the engine has analysed its source. A definition
/// that passes hands its variables on.
pub fn judge_definition(
    registry: &SchemaRegistry,
    definition: &TemplateDefinition,
    analysis: Result<Vec<String>, String>,
) -> (judged: Result<Vec<String>, CompileError>)
    ensures
        match judged {
            Ok(kept) => analysis == Ok::<Vec<String>, String>(kept) && judgement(
                registry@,
                definition@,
                analysis_view(analysis),
            ) is Ok,
            Err(error) => judgement(registry@, definition@, analysis_view(analysis)) == Err::<
                (),
                CompileErrorView,
            >(error@),
        },
{
    match analysis {
        Err(message) => Err(classify_compile_failure(message)),
        Ok(variables) => match validate_template_variables(
            registry,
            &definition.components,
            &variables,
        ) {
            Ok(()) => Ok(variables),
            Err(message) => Err(
                CompileError {
                    error_type: CompileErrorType::CompileError,
                    message,
                    missing_dependencies: None,
                },
            ),
        },
    }
}

} // verus!
