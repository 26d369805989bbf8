//! The configured environment, its builder, and the render orchestrator.
//!
//! A render resolves a template (from raw query text under a stable
//! content-derived name, or by name from the repository), then hands the
//! engine one whole evaluation — during which the engine invokes the
//! binding filters, and after which the accumulator is drained and reset —
//! and returns the rendered SQL text together with the bound values, in
//! bind order. On success the pair equals `engine_eval` of the style, the
//! template history, the resolved name and the context: what a render
//! returns is a function of those four alone.

use vstd::prelude::*;

use crate::accumulator::string_views;
use crate::context::CtxValue;
use crate::engine;
use crate::engine::engine_eval;
use crate::engine::engine_style;
use crate::engine::engine_templates;
use crate::engine::Engine;
use crate::engine::EngineFailure;
use crate::resolver::contains_name;
use crate::resolver::hash_name_of;
use crate::resolver::hash_query;
use crate::resolver::lookup_template;
use crate::resolver::names_contain;
use crate::resolver::repo_lookup;
use crate::style::parse_param_style;
use crate::style::parse_quote_char;
use crate::style::spec_param_style;
use crate::style::spec_quote_char;
use crate::style::IDQuoteChar;
use crate::style::ParamStyle;

verus! {

/// Why a render failed.
#[derive(Debug)]
pub enum RenderError {
    /// Neither raw query text nor a template name was supplied.
    NoTemplateSource,
    /// Both raw query text and a template name were supplied.
    ConflictingTemplateSource,
    /// The named template is not in the environment's repository.
    TemplateNotFound,
    /// The template could not be registered: it failed to compile.
    Resolution(minijinja::Error),
    /// The template failed to evaluate against the context.
    Evaluation(minijinja::Error),
    /// The accumulator's lock was found poisoned: fatal for this
    /// environment instance, which must be discarded and rebuilt.
    AccumulatorPoisoned,
}

/// A configured environment: the parameter style its binding filters
/// format placeholders with, the identifier-quoting choice (stored,
/// consumed by no rendering path), the repository of named template
/// sources, and the engine with its registered filters and its own
/// call-scoped accumulator.
pub struct JinjaSql {
    pub param_style: ParamStyle,
    pub identifier_quote_character: IDQuoteChar,
    /// Named template sources for name-based resolution.
    pub repository: Vec<(String, String)>,
    /// The names already compiled into the engine.
    pub registered: Vec<String>,
    /// The engine: the templating environment bundled with the
    /// accumulator its filters record into.
    pub engine: Engine,
}

impl JinjaSql {
    /// A builder with the default configuration.
    pub fn builder() -> (b: JinjaSqlBuilder)
        ensures
            b.param_style == ParamStyle::Numeric,
            b.identifier_quote_character == IDQuoteChar::DoubleQuote,
            b.source@ == Seq::<(String, String)>::empty(),
    {
        JinjaSqlBuilder::new()
    }

    /// One whole evaluation of the registered template `name` against the
    /// context: the engine renders, drains and resets in one step — on
    /// its error path too, so a failed render never leaks values into the
    /// next one — and its failures become the library's typed errors.
    fn evaluate(&self, name: &str, context: &CtxValue) -> (result: Result<
        (String, Vec<String>),
        RenderError,
    >)
        ensures
            !(result matches Err(RenderError::NoTemplateSource)),
            !(result matches Err(RenderError::ConflictingTemplateSource)),
            !(result matches Err(RenderError::TemplateNotFound)),
            !(result matches Err(RenderError::Resolution(_))),
            result matches Ok(p) ==> Some((p.0@, string_views(p.1@))) == engine_eval(
                engine_style(self.engine),
                engine_templates(self.engine),
                name@,
                *context,
            ),
            result matches Err(RenderError::Evaluation(_)) ==> engine_eval(
                engine_style(self.engine),
                engine_templates(self.engine),
                name@,
                *context,
            ) is None,
    {
        match engine::engine_render(&self.engine, name, context) {
            Ok(p) => Ok(p),
            Err(EngineFailure::Engine(e)) => Err(RenderError::Evaluation(e)),
            Err(EngineFailure::Poisoned) => Err(RenderError::AccumulatorPoisoned),
        }
    }

    /// Renders a template against `context` and returns the rendered SQL
    /// text with the ordered list of values bound during evaluation.
    ///
    /// Exactly one of `query` (raw template text) and `template_name` (a
    /// name in the repository) must be supplied; both or neither is a
    /// recoverable error naming which case occurred. Raw text is compiled
    /// once under its content-derived name: rendering the same text again
    /// on this environment reuses the compiled template — the template
    /// history does not change, so, the engine evaluating as a function
    /// of style, history, name and context, the result is the same too.
    pub fn render_query(
        &mut self,
        query: Option<&str>,
        template_name: Option<&str>,
        context: &CtxValue,
    ) -> (result: Result<(String, Vec<String>), RenderError>)
        ensures
            final(self).param_style == old(self).param_style,
            final(self).identifier_quote_character == old(self).identifier_quote_character,
            final(self).repository@ == old(self).repository@,
            engine_style(final(self).engine) == engine_style(old(self).engine),
            (result matches Err(RenderError::ConflictingTemplateSource)) <==> (query is Some
                && template_name is Some),
            (result matches Err(RenderError::NoTemplateSource)) <==> (query is None
                && template_name is None),
            (result matches Err(RenderError::TemplateNotFound)) <==> (query is None && (
            template_name matches Some(n) && repo_lookup(old(self).repository@, n@) is None)),
            // reuse: a name already registered registers nothing anew
            query matches Some(q) ==> ((template_name is None && names_contain(
                old(self).registered@,
                hash_name_of(q@),
            )) ==> (final(self).registered@ == old(self).registered@ && engine_templates(
                final(self).engine,
            ) == engine_templates(old(self).engine) && !(result matches Err(
                RenderError::Resolution(_),
            )))),
            query matches Some(q) ==> ((template_name is None && !names_contain(
                old(self).registered@,
                hash_name_of(q@),
            ) && !(result matches Err(RenderError::Resolution(_)))) ==> engine_templates(
                final(self).engine,
            ) == engine_templates(old(self).engine).push((hash_name_of(q@), q@))),
            query matches Some(q) ==> ((template_name is None && !(result matches Err(
                RenderError::Resolution(_),
            ))) ==> names_contain(final(self).registered@, hash_name_of(q@))),
            template_name matches Some(n) ==> ((query is None && names_contain(
                old(self).registered@,
                n@,
            )) ==> (final(self).registered@ == old(self).registered@ && engine_templates(
                final(self).engine,
            ) == engine_templates(old(self).engine) && !(result matches Err(
                RenderError::Resolution(_),
            )))),
            template_name matches Some(n) ==> (repo_lookup(old(self).repository@, n@) matches Some(
                t,
            ) ==> ((query is None && !names_contain(old(self).registered@, n@) && !(
            result matches Err(RenderError::Resolution(_)))) ==> engine_templates(
                final(self).engine,
            ) == engine_templates(old(self).engine).push((n@, t)))),
            template_name matches Some(n) ==> ((query is None && !(result matches Err(
                RenderError::Resolution(_),
            )) && !(result matches Err(RenderError::TemplateNotFound))) ==> names_contain(
                final(self).registered@,
                n@,
            )),
            // what a successful render returns: the engine's evaluation,
            // a function of style, template history, name and context
            result matches Ok(p) ==> (query matches Some(q) ==> (template_name is None ==> Some(
                (p.0@, string_views(p.1@)),
            ) == engine_eval(
                engine_style(old(self).engine),
                engine_templates(final(self).engine),
                hash_name_of(q@),
                *context,
            ))),
            result matches Ok(p) ==> (template_name matches Some(n) ==> (query is None ==> Some(
                (p.0@, string_views(p.1@)),
            ) == engine_eval(
                engine_style(old(self).engine),
                engine_templates(final(self).engine),
                n@,
                *context,
            ))),
            result matches Err(RenderError::Evaluation(_)) ==> (query matches Some(q) ==> (
            template_name is None ==> engine_eval(
                engine_style(old(self).engine),
                engine_templates(final(self).engine),
                hash_name_of(q@),
                *context,
            ) is None)),
            result matches Err(RenderError::Evaluation(_)) ==> (template_name matches Some(n)
                ==> (query is None ==> engine_eval(
                engine_style(old(self).engine),
                engine_templates(final(self).engine),
                n@,
                *context,
            ) is None)),
    {
        match (query, template_name) {
            (Some(_), Some(_)) => Err(RenderError::ConflictingTemplateSource),
            (None, None) => Err(RenderError::NoTemplateSource),
            (Some(q), None) => {
                let name = hash_query(q);
                if !contains_name(&self.registered, name.as_str()) {
                    match engine::engine_add_template(&mut self.engine, name.as_str(), q) {
                        Ok(()) => {
                            self.registered.push(name.clone());
                            proof {
                                assert(self.registered@[self.registered@.len() - 1]@
                                    == hash_name_of(q@));
                            }
                        },
                        Err(e) => {
                            return Err(RenderError::Resolution(e));
                        },
                    }
                }
                self.evaluate(name.as_str(), context)
            },
            (None, Some(n)) => {
                match lookup_template(&self.repository, n) {
                    None => Err(RenderError::TemplateNotFound),
                    Some(text) => {
                        if !contains_name(&self.registered, n) {
                            match engine::engine_add_template(&mut self.engine, n, text.as_str()) {
                                Ok(()) => {
                                    self.registered.push(n.to_owned());
                                    proof {
                                        assert(self.registered@[self.registered@.len() - 1]@
                                            == n@);
                                    }
                                },
                                Err(e) => {
                                    return Err(RenderError::Resolution(e));
                                },
                            }
                        }
                        self.evaluate(n, context)
                    },
                }
            },
        }
    }
}

/// Assembles a configured environment: parameter style, identifier-quote
/// choice, and template source, immutable once `build` produces the
/// environment.
pub struct JinjaSqlBuilder {
    pub param_style: ParamStyle,
    pub identifier_quote_character: IDQuoteChar,
    /// Named template sources: each entry maps a template name to its text.
    pub source: Vec<(String, String)>,
}

impl Default for JinjaSqlBuilder {
    /// The default configuration: `Numeric` placeholders, double-quote
    /// identifier quoting, no named templates.
    fn default() -> (b: JinjaSqlBuilder)
        ensures
            b.param_style == ParamStyle::Numeric,
            b.identifier_quote_character == IDQuoteChar::DoubleQuote,
            b.source@ == Seq::<(String, String)>::empty(),
    {
        JinjaSqlBuilder::new()
    }
}

impl JinjaSqlBuilder {
    /// A builder with the default configuration: `Numeric` placeholders,
    /// double-quote identifier quoting, no named templates.
    pub fn new() -> (b: JinjaSqlBuilder)
        ensures
            b.param_style == ParamStyle::Numeric,
            b.identifier_quote_character == IDQuoteChar::DoubleQuote,
            b.source@ == Seq::<(String, String)>::empty(),
    {
        let b = JinjaSqlBuilder {
            param_style: ParamStyle::default(),
            identifier_quote_character: IDQuoteChar::default(),
            source: Vec::new(),
        };
        proof {
            assert(b.source@ =~= Seq::<(String, String)>::empty());
        }
        b
    }

    /// Attaches a repository of named templates for name-based resolution.
    pub fn set_source(self, source: Vec<(String, String)>) -> (b: JinjaSqlBuilder)
        ensures
            b.param_style == self.param_style,
            b.identifier_quote_character == self.identifier_quote_character,
            b.source@ == source@,
    {
        JinjaSqlBuilder { source, ..self }
    }

    /// Selects the parameter style by name; an unrecognized name falls
    /// back to the default, `Numeric`, rather than failing the build.
    pub fn set_param_style(self, name: &str) -> (b: JinjaSqlBuilder)
        ensures
            b.param_style == spec_param_style(name@),
            b.identifier_quote_character == self.identifier_quote_character,
            b.source@ == self.source@,
    {
        JinjaSqlBuilder { param_style: parse_param_style(name), ..self }
    }

    /// Selects the identifier-quoting character; an unrecognized one falls
    /// back to the default, a double quote. The choice is stored but not
    /// yet consumed by any rendering path.
    pub fn set_identifier_quote_character(self, c: &str) -> (b: JinjaSqlBuilder)
        ensures
            b.param_style == self.param_style,
            b.identifier_quote_character == spec_quote_char(c@),
            b.source@ == self.source@,
    {
        JinjaSqlBuilder { identifier_quote_character: parse_quote_char(c), ..self }
    }

    /// Builds the environment: a fresh engine with its own, still empty
    /// accumulator, and the two binding filters — `bind` and `inclause` —
    /// registered against it under the configured parameter style.
    pub fn build(self) -> (j: JinjaSql)
        ensures
            j.param_style == self.param_style,
            j.identifier_quote_character == self.identifier_quote_character,
            j.repository@ == self.source@,
            j.registered@ == Seq::<String>::empty(),
            engine_style(j.engine) == self.param_style,
            engine_templates(j.engine) == Seq::<(Seq<char>, Seq<char>)>::empty(),
    {
        let j = JinjaSql {
            param_style: self.param_style,
            identifier_quote_character: self.identifier_quote_character,
            repository: self.source,
            registered: Vec::new(),
            engine: engine::new_engine(self.param_style),
        };
        proof {
            assert(j.registered@ =~= Seq::<String>::empty());
        }
        j
    }
}

/// The parameter style `prepare_query` configures: the named one, or the
/// default when none is given.
pub open spec fn prepared_style(format_style: Option<&str>) -> ParamStyle {
    match format_style {
        Some(name) => spec_param_style(name@),
        None => ParamStyle::Numeric,
    }
}

/// The context shape `prepare_query` marshals its data into: a mapping
/// whose entries carry, in order, each key with its value sequence as
/// scalar values.
pub open spec fn marshalled_context(c: CtxValue, data: Seq<(String, Vec<String>)>) -> bool {
    c matches CtxValue::Mapping(entries) && entries@.len() == data.len() && (forall|i: int|
        0 <= i < data.len() ==> (#[trigger] entries@[i]).0 == data[i].0) && (forall|i: int|
        0 <= i < data.len() ==> ((#[trigger] entries@[i]).1 matches CtxValue::Sequence(items)
            && items@.len() == data[i].1@.len() && (forall|k: int|
            0 <= k < items@.len() ==> (#[trigger] items@[k]) == CtxValue::Scalar(data[i].1@[k]))))
}

/// Marshalling entry point: builds a one-off environment (under the given
/// parameter style name, if any), renders the raw query text against a
/// mapping whose values are sequences of text, and returns the rendered
/// SQL with the ordered bound values. On success the pair equals the
/// engine's evaluation of the query under its content-derived name, with
/// the query as the one registered template and the marshalled data as
/// the context.
pub fn prepare_query(query: &str, data: Vec<(String, Vec<String>)>, format_style: Option<&str>)
    -> (result: Result<(String, Vec<String>), RenderError>)
    ensures
        !(result matches Err(RenderError::NoTemplateSource)),
        !(result matches Err(RenderError::ConflictingTemplateSource)),
        !(result matches Err(RenderError::TemplateNotFound)),
        result matches Ok(p) ==> (exists|c: CtxValue|
            #[trigger] marshalled_context(c, data@) && Some((p.0@, string_views(p.1@)))
                == engine_eval(
                prepared_style(format_style),
                seq![(hash_name_of(query@), query@)],
                hash_name_of(query@),
                c,
            )),
{
    let mut builder = JinjaSqlBuilder::new();
    if let Some(style_name) = format_style {
        builder = builder.set_param_style(style_name);
    }
    let mut j = builder.build();
    let context = data_context(&data);
    match j.render_query(Some(query), None, &context) {
        Ok(p) => {
            proof {
                assert(Seq::<(Seq<char>, Seq<char>)>::empty().push((
                    hash_name_of(query@),
                    query@,
                )) =~= seq![(hash_name_of(query@), query@)]);
                assert(marshalled_context(context, data@) && Some((p.0@, string_views(p.1@)))
                    == engine_eval(
                    prepared_style(format_style),
                    seq![(hash_name_of(query@), query@)],
                    hash_name_of(query@),
                    context,
                ));
            }
            Ok(p)
        },
        Err(e) => Err(e),
    }
}

/// The context a marshalled data mapping stands for: each entry's value
/// sequence becomes a sequence of scalar values under the entry's key.
fn data_context(data: &Vec<(String, Vec<String>)>) -> (context: CtxValue)
    ensures
        marshalled_context(context, data@),
{
    let mut entries: Vec<(String, CtxValue)> = Vec::new();
    let mut i: usize = 0;
    while i < data.len()
        invariant
            i <= data@.len(),
            entries@.len() == i,
            forall|j: int| 0 <= j < i ==> (#[trigger] entries@[j]).0 == data@[j].0,
            forall|j: int|
                0 <= j < i ==> ((#[trigger] entries@[j]).1 matches CtxValue::Sequence(items)
                    && items@.len() == data@[j].1@.len() && (forall|k: int|
                    0 <= k < items@.len() ==> (#[trigger] items@[k]) == CtxValue::Scalar(
                        data@[j].1@[k],
                    ))),
        decreases data@.len() - i,
    {
        let mut items: Vec<CtxValue> = Vec::new();
        let mut k: usize = 0;
        while k < data[i].1.len()
            invariant
                0 <= i < data@.len(),
                k <= data@[i as int].1@.len(),
                items@.len() == k,
                forall|m: int|
                    0 <= m < k ==> (#[trigger] items@[m]) == CtxValue::Scalar(
                        data@[i as int].1@[m],
                    ),
            decreases data@[i as int].1@.len() - k,
        {
            items.push(CtxValue::Scalar(data[i].1[k].clone()));
            k = k + 1;
        }
        entries.push((data[i].0.clone(), CtxValue::Sequence(items)));
        i = i + 1;
    }
    CtxValue::Mapping(entries)
}

} // verus!
