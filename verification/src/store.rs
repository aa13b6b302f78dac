//! The store of compiled templates: compiling into it and rendering from it.

use vstd::prelude::*;
use crate::assoc::as_map;
use crate::assoc::last_wins_holds_last;
use crate::assoc::last_wins_push;
use crate::assoc::last_wins_replace_last;
use crate::assoc::last_with_key;
use crate::assoc::without_key;
use crate::codec::definition_views;
use crate::compile::TemplateDefinition;
use crate::compile::TemplateDefinitionView;
use crate::compile::accepted;
use crate::compile::analysis_view;
use crate::compile::classify_compile_failure;
use crate::compile::compile_outcome;
use crate::compile::finite_analysis_names_variable;
use crate::compile::refusal_names_variable;
use crate::compile::judge_definition;
use crate::engine::Engine;
use crate::engine::engine_add;
use crate::engine::engine_analyze;
use crate::engine::engine_kept;
use crate::engine::engine_new;
use crate::engine::engine_render;
use crate::engine::engine_templates;
use crate::engine::template_analysis;
use crate::interchange::json_to_value;
use crate::json::Json;
use crate::json::JsonValue;
use crate::outcome::CompileError;
use crate::outcome::CompileErrorView;
use crate::outcome::CompileResult;
use crate::outcome::CompileResultView;
use crate::outcome::RenderError;
use crate::outcome::RenderErrorType;
use crate::outcome::RenderErrorView;
use crate::outcome::RenderResult;
use crate::outcome::RenderResultView;
use crate::schema::SchemaRegistry;
use crate::text::same_text;
use crate::text::texts;

verus! {

/// A compiled template: its name, the source it was compiled from and the
/// variables that it reads without defining them.
#[derive(Debug)]
pub struct CompiledTemplate {
    name: String,
    source: String,
    variables: Vec<String>,
}

impl CompiledTemplate {
    /// The name, as a value.
    pub closed spec fn spec_name(&self) -> Seq<char> {
        self.name@
    }

    /// The source text, as a value.
    pub closed spec fn spec_source(&self) -> Seq<char> {
        self.source@
    }

    /// The free variables, as values.
    pub closed spec fn spec_variables(&self) -> Seq<Seq<char>> {
        texts(self.variables@)
    }

    /// The name under which the template is stored.
    pub fn name(&self) -> (name: &String)
        ensures
            name@ == self.spec_name(),
    {
        &self.name
    }

    /// The source text of the template.
    pub fn source(&self) -> (source: &String)
        ensures
            source@ == self.spec_source(),
    {
        &self.source
    }

    /// The free variables of the template, in no particular order.
    pub fn variables(&self) -> (variables: &Vec<String>)
        ensures
            texts(variables@) == self.spec_variables(),
    {
        &self.variables
    }
}

/// The names and sources of a list of compiled templates.
pub open spec fn sources(templates: Seq<CompiledTemplate>) -> Seq<(Seq<char>, Seq<char>)> {
    Seq::new(templates.len(), |i: int| (templates[i].spec_name(), templates[i].spec_source()))
}

/// What rendering reports once the engine has run: its text as it is, or the
/// fixed failure that keeps the engine's own error to itself.
pub open spec fn rendering_report(rendered: Option<Seq<char>>) -> RenderResultView {
    match rendered {
        Some(text) => RenderResultView::Success { result: text },
        None => RenderResultView::Error {
            error: RenderErrorView {
                error_type: RenderErrorType::RenderError,
                message: "Failed to render template"@,
            },
        },
    }
}

/// The report for a name under which no template is stored.
pub open spec fn template_missing() -> RenderResultView {
    RenderResultView::Error {
        error: RenderErrorView {
            error_type: RenderErrorType::ParseError,
            message: "Template not found"@,
        },
    }
}

/// Whether `result` may be the report of rendering the template `name` of
/// `templates`. A name under which nothing is stored gives the parse error
/// "Template not found". A stored template gives what `rendering_report`
/// makes of the engine's outcome, whatever that is: the rendered text, or the
/// fixed render error.
pub open spec fn may_render(
    templates: Map<Seq<char>, Seq<char>>,
    name: Seq<char>,
    result: RenderResultView,
) -> bool {
    if templates.contains_key(name) {
        exists|rendered: Option<Seq<char>>| result == #[trigger] rendering_report(rendered)
    } else {
        result == template_missing()
    }
}

/// What a store holds after the first `n` of `definitions` were compiled.
pub open spec fn stored_after(
    before: Map<Seq<char>, Seq<char>>,
    definitions: Seq<TemplateDefinitionView>,
    n: nat,
) -> Map<Seq<char>, Seq<char>>
    decreases n,
{
    if n == 0 || n > definitions.len() {
        before
    } else {
        stored_after(before, definitions, (n - 1) as nat).insert(
            definitions[n - 1].name,
            definitions[n - 1].source,
        )
    }
}

/// Whether `at` is the first of `definitions` that is refused.
pub open spec fn first_refused(
    registry: Map<Seq<char>, JsonValue>,
    definitions: Seq<TemplateDefinitionView>,
    at: int,
) -> bool {
    &&& 0 <= at < definitions.len()
    &&& !accepted(registry, definitions[at])
    &&& forall|earlier: int|
        0 <= earlier < at ==> accepted(registry, #[trigger] definitions[earlier])
}

/// The number of definitions of a batch that are stored: those before the
/// first that is refused.
pub open spec fn batch_progress(
    registry: Map<Seq<char>, JsonValue>,
    definitions: Seq<TemplateDefinitionView>,
) -> nat {
    if exists|at: int| first_refused(registry, definitions, at) {
        (choose|at: int| first_refused(registry, definitions, at)) as nat
    } else {
        definitions.len()
    }
}

/// The result of a batch: success if every definition is accepted, else the
/// failure of the first that is refused.
pub open spec fn batch_result(
    registry: Map<Seq<char>, JsonValue>,
    definitions: Seq<TemplateDefinitionView>,
) -> CompileResultView {
    let reached = batch_progress(registry, definitions);
    if reached < definitions.len() {
        match compile_outcome(registry, definitions[reached as int]) {
            Err(error) => CompileResultView::Error { error },
            Ok(()) => CompileResultView::Success,
        }
    } else {
        CompileResultView::Success
    }
}

/// Whether the refusal that ends a batch, if one does, names its variable
/// where it is for want of authorization.
pub open spec fn batch_refusal_names_variable(
    registry: Map<Seq<char>, JsonValue>,
    definitions: Seq<TemplateDefinitionView>,
) -> bool {
    batch_progress(registry, definitions) < definitions.len() ==> refusal_names_variable(
        registry,
        definitions[batch_progress(registry, definitions) as int],
    )
}

/// What a store holds after a batch: the definitions before the first that is
/// refused are stored, in order.
pub open spec fn batch_stored(
    registry: Map<Seq<char>, JsonValue>,
    before: Map<Seq<char>, Seq<char>>,
    definitions: Seq<TemplateDefinitionView>,
) -> Map<Seq<char>, Seq<char>> {
    stored_after(before, definitions, batch_progress(registry, definitions))
}

/// What rendering reports once the engine has run.
pub fn report_rendering(rendered: Option<String>) -> (report: RenderResult)
    ensures
        report@ == rendering_report(
            match rendered {
                Some(text) => Some(text@),
                None => None,
            },
        ),
{
    match rendered {
        Some(text) => RenderResult::Success { result: text },
        None => RenderResult::Error {
            error: RenderError {
                error_type: RenderErrorType::RenderError,
                message: "Failed to render template".to_string(),
            },
        },
    }
}

/// The compiled templates, each under its name, and the engine that holds
/// their compiled form.
pub struct TemplateStore {
    engine: Engine,
    templates: Vec<CompiledTemplate>,
}

impl View for TemplateStore {
    type V = Map<Seq<char>, Seq<char>>;

    closed spec fn view(&self) -> Map<Seq<char>, Seq<char>> {
        as_map(sources(self.templates@))
    }
}

impl TemplateStore {
    /// The store is sound: the engine is as the store made it and holds the
    /// templates that the store lists, and each is listed with the variables
    /// that the engine found in it.
    pub closed spec fn wf(&self) -> bool {
        &&& engine_kept(self.engine)
        &&& engine_templates(self.engine) == self@
        &&& forall|i: int|
            0 <= i < self.templates@.len() ==> template_analysis(
                (#[trigger] self.templates@[i]).name@,
                self.templates@[i].source@,
            ) == Ok::<Set<Seq<char>>, Seq<char>>(texts(self.templates@[i].variables@).to_set())
    }

    /// A store without templates.
    pub fn new() -> (store: TemplateStore)
        ensures
            store.wf(),
            store@ == (Map::<Seq<char>, Seq<char>>::empty()),
    {
        TemplateStore { engine: engine_new(), templates: Vec::new() }
    }

    /// The position of the last template with the name `name`.
    fn find(&self, name: &str) -> (found: Option<usize>)
        ensures
            match found {
                Some(at) => last_with_key(
                    sources(self.templates@),
                    self.templates@.len(),
                    name@,
                    at as int,
                ),
                None => without_key(sources(self.templates@), name@),
            },
    {
        let mut i: usize = self.templates.len();
        while i > 0
            invariant
                i <= self.templates.len(),
                forall|later: int|
                    i <= later < self.templates@.len() ==> (#[trigger] sources(
                        self.templates@,
                    )[later]).0 != name@,
            decreases i,
        {
            i = i - 1;
            assert(sources(self.templates@)[i as int].0 == self.templates@[i as int].name@);
            if same_text(self.templates[i].name.as_str(), name) {
                return Some(i);
            }
        }
        None
    }

    /// The compiled template stored under `name`.
    pub fn get(&self, name: &str) -> (template: Option<&CompiledTemplate>)
        ensures
            match template {
                Some(compiled) => self@.contains_key(name@) && compiled.spec_name() == name@
                    && compiled.spec_source() == self@[name@] && (self.wf() ==> template_analysis(
                    name@,
                    compiled.spec_source(),
                ) == Ok::<Set<Seq<char>>, Seq<char>>(compiled.spec_variables().to_set())),
                None => !self@.contains_key(name@),
            },
    {
        proof {
            last_wins_holds_last(sources(self.templates@), self.templates@.len(), name@);
        }
        match self.find(name) {
            Some(at) => {
                assert(sources(self.templates@)[at as int] == (
                    self.templates@[at as int].name@,
                    self.templates@[at as int].source@,
                ));
                Some(&self.templates[at])
            },
            None => None,
        }
    }

    /// Whether a template is stored under `name`.
    pub fn contains(&self, name: &str) -> (stored: bool)
        ensures
            stored == self@.contains_key(name@),
    {
        self.get(name).is_some()
    }

    /// Lists `template`, in place of the one that stood under its name.
    fn record(&mut self, template: CompiledTemplate)
        ensures
            final(self)@ == old(self)@.insert(template.name@, template.source@),
            final(self).engine == old(self).engine,
            forall|i: int|
                0 <= i < final(self).templates@.len() ==> {
                    let listed = #[trigger] final(self).templates@[i];
                    listed == template || old(self).templates@.contains(listed)
                },
    {
        let ghost pair = (template.name@, template.source@);
        match self.find(template.name.as_str()) {
            Some(at) => {
                proof {
                    last_wins_replace_last(
                        sources(self.templates@),
                        self.templates@.len(),
                        at as int,
                        template.source@,
                    );
                }
                self.templates.set(at, template);
                assert(sources(self.templates@) =~= sources(old(self).templates@).update(
                    at as int,
                    pair,
                ));
                assert forall|i: int| 0 <= i < self.templates@.len() implies {
                    let listed = #[trigger] self.templates@[i];
                    listed == template || old(self).templates@.contains(listed)
                } by {
                    if i != at {
                        assert(old(self).templates@[i] == self.templates@[i]);
                    }
                }
            },
            None => {
                proof {
                    last_wins_push(sources(self.templates@), pair);
                }
                self.templates.push(template);
                assert(sources(self.templates@) =~= sources(old(self).templates@).push(pair));
                assert forall|i: int| 0 <= i < self.templates@.len() implies {
                    let listed = #[trigger] self.templates@[i];
                    listed == template || old(self).templates@.contains(listed)
                } by {
                    if i < old(self).templates@.len() {
                        assert(old(self).templates@[i] == self.templates@[i]);
                    }
                }
            },
        }
    }

    /// Compiles one definition. It is stored, over any template of its name,
    /// if the engine compiles it and every variable it reads is declared by a
    /// schema of its components; if not, the store is left as it was.
    pub fn compile(
        &mut self,
        registry: &SchemaRegistry,
        definition: &TemplateDefinition,
    ) -> (outcome: Result<(), CompileError>)
        requires
            old(self).wf(),
        ensures
            final(self).wf(),
            match outcome {
                Ok(()) => compile_outcome(registry@, definition@) is Ok && final(self)@ == old(
                    self,
                )@.insert(definition@.name, definition@.source),
                Err(error) => compile_outcome(registry@, definition@) == Err::<
                    (),
                    CompileErrorView,
                >(error@) && final(self)@ == old(self)@,
            },
            refusal_names_variable(registry@, definition@),
    {
        let analysis = engine_analyze(definition.name.as_str(), definition.source.as_str());
        assert(analysis_view(analysis) == template_analysis(definition@.name, definition@.source));
        let ghost analysed = analysis;
        proof {
            if let Ok(variables) = analysed {
                vstd::seq_lib::seq_to_set_is_finite(texts(variables@));
            }
            finite_analysis_names_variable(registry@, definition@);
        }
        match judge_definition(registry, definition, analysis) {
            Err(error) => Err(error),
            Ok(variables) => match engine_add(
                &mut self.engine,
                definition.name.as_str(),
                definition.source.as_str(),
            ) {
                Err(message) => Err(classify_compile_failure(message)),
                Ok(()) => {
                    self.record(
                        CompiledTemplate {
                            name: definition.name.clone(),
                            source: definition.source.clone(),
                            variables,
                        },
                    );
                    Ok(())
                },
            },
        }
    }

    /// Compiles `definitions` in order and stops at the first that is
    /// refused: the definitions before it stay compiled, those after it are
    /// not looked at.
    pub fn compile_batch(
        &mut self,
        registry: &SchemaRegistry,
        definitions: &Vec<TemplateDefinition>,
    ) -> (result: CompileResult)
        requires
            old(self).wf(),
        ensures
            final(self).wf(),
            result@ == batch_result(registry@, definition_views(definitions@)),
            final(self)@ == batch_stored(registry@, old(self)@, definition_views(definitions@)),
            batch_refusal_names_variable(registry@, definition_views(definitions@)),
    {
        let ghost views = definition_views(definitions@);
        let n: usize = definitions.len();
        let mut i: usize = 0;
        while i < n
            invariant
                n == definitions.len(),
                i <= n,
                views == definition_views(definitions@),
                self.wf(),
                forall|j: int| 0 <= j < i ==> accepted(registry@, #[trigger] views[j]),
                self@ == stored_after(old(self)@, views, i as nat),
            decreases n - i,
        {
            assert(views[i as int] == definitions@[i as int]@);
            match self.compile(registry, &definitions[i]) {
                Ok(()) => {},
                Err(error) => {
                    proof {
                        assert(first_refused(registry@, views, i as int));
                        let chosen = choose|at: int| first_refused(registry@, views, at);
                        assert(chosen == i) by {
                            if chosen < i {
                                assert(accepted(registry@, views[chosen]));
                            } else if chosen > i {
                                assert(accepted(registry@, views[i as int]));
                            }
                        }
                    }
                    return CompileResult::Error { error };
                },
            }
            i = i + 1;
        }
        proof {
            assert forall|at: int| !first_refused(registry@, views, at) by {
                if 0 <= at < views.len() {
                    assert(accepted(registry@, views[at]));
                }
            }
        }
        CompileResult::Success
    }

    /// Renders the template stored under `name` with `context`. An undefined
    /// value is an error; a rendered text is returned as the engine made it.
    pub fn render(&self, name: &str, context: &Json) -> (result: RenderResult)
        ensures
            may_render(self@, name@, result@),
    {
        if !self.contains(name) {
            return RenderResult::Error {
                error: RenderError {
                    error_type: RenderErrorType::ParseError,
                    message: "Template not found".to_string(),
                },
            };
        }
        report_rendering(engine_render(&self.engine, name, json_to_value(context)))
    }
}

} // verus!
