//! The trusted boundary to the templating engine.
//!
//! An `Engine` bundles a minijinja environment with the accumulator its
//! binding filters record into; the bundle is built only by `new_engine`,
//! which establishes the correspondence every contract here rests on: the
//! two filters registered on the environment lock this engine's own
//! accumulator and forward each invocation to the library's verified
//! filter functions, formatting with the engine's style. What an engine
//! holds is named by `engine_style` and `engine_templates`; what one
//! evaluation returns is named by `engine_eval`, a function of the style,
//! the template history, the template name and the context alone —
//! minijinja's rendering draws on nothing else. Nothing in this module
//! decides anything: every decision and every piece of placeholder text
//! comes from the verified functions the closures forward to.

use vstd::prelude::*;

use std::sync::Arc;
use std::sync::Mutex;

use crate::accumulator::string_views;
use crate::accumulator::Accumulator;
use crate::context::CtxValue;
use crate::filters;
use crate::style::ParamStyle;

verus! {

#[verifier::external_type_specification]
#[verifier::external_body]
pub struct ExEnvironment<'source>(minijinja::Environment<'source>);

#[verifier::external_type_specification]
#[verifier::external_body]
pub struct ExError(minijinja::Error);

#[verifier::external_type_specification]
#[verifier::external_body]
pub struct ExValue(minijinja::value::Value);

#[verifier::external_type_specification]
#[verifier::external_body]
#[verifier::reject_recursive_types(T)]
pub struct ExMutex<T: ?Sized>(Mutex<T>);

/// A templating environment together with the accumulator its binding
/// filters append to. Only `new_engine` constructs one and only
/// `engine_add_template` changes one, so every `Engine` value keeps the
/// correspondence those constructors establish.
#[verifier::external_body]
pub struct Engine {
    env: minijinja::Environment<'static>,
    slot: Arc<Mutex<Accumulator>>,
}

/// The parameter style this engine's binding filters format with.
pub uninterp spec fn engine_style(e: Engine) -> ParamStyle;

/// The engine's template history: every (name, text) pair registered on
/// it, in registration order. The engine's behaviour is a function of
/// this history.
pub uninterp spec fn engine_templates(e: Engine) -> Seq<(Seq<char>, Seq<char>)>;

/// What one evaluation returns: the rendered text paired with the values
/// the binding filters recorded during it, in bind order — or `None` when
/// the engine fails (name not registered, or evaluation fails). The
/// engine renders deterministically: the result depends on the style, the
/// template history, the template name and the context alone.
pub uninterp spec fn engine_eval(
    style: ParamStyle,
    templates: Seq<(Seq<char>, Seq<char>)>,
    name: Seq<char>,
    context: CtxValue,
) -> Option<(Seq<char>, Seq<Seq<char>>)>;

/// How one evaluation failed.
#[derive(Debug)]
pub enum EngineFailure {
    /// The engine's own diagnostic: the name is not registered, or the
    /// template failed to evaluate against the context.
    Engine(minijinja::Error),
    /// The accumulator's lock was found poisoned.
    Poisoned,
}

/// Relies on minijinja::Environment::add_filter: registers the `bind`
/// filter; the closure locks the accumulator handed in here and forwards
/// to the library's verified `filters::bind`, reporting a poisoned lock
/// as an engine error.
#[verifier::external_body]
fn install_bind_filter(
    env: &mut minijinja::Environment<'static>,
    slot: &Arc<Mutex<Accumulator>>,
    style: ParamStyle,
) {
    let slot = Arc::clone(slot);
    env.add_filter("bind", move |value: String| -> Result<String, minijinja::Error> {
        match slot.lock() {
            Ok(mut acc) => Ok(filters::bind(&mut acc, style, value)),
            Err(_) => Err(
                minijinja::Error::new(
                    minijinja::ErrorKind::InvalidOperation,
                    "parameter accumulator lock poisoned",
                ),
            ),
        }
    });
}

/// Relies on minijinja::Environment::add_filter: registers the `inclause`
/// filter; the closure locks the accumulator and forwards to the
/// library's verified `filters::bind_in_clause`.
#[verifier::external_body]
fn install_in_clause_filter(
    env: &mut minijinja::Environment<'static>,
    slot: &Arc<Mutex<Accumulator>>,
    style: ParamStyle,
) {
    let slot = Arc::clone(slot);
    env.add_filter("inclause", move |values: Vec<String>| -> Result<String, minijinja::Error> {
        match slot.lock() {
            Ok(mut acc) => Ok(filters::bind_in_clause(&mut acc, style, values)),
            Err(_) => Err(
                minijinja::Error::new(
                    minijinja::ErrorKind::InvalidOperation,
                    "parameter accumulator lock poisoned",
                ),
            ),
        }
    });
}

/// Relies on minijinja::Environment::new, std::sync::Mutex::new and the
/// two filter installers above: a fresh engine with no templates, whose
/// filters append to its own accumulator and format with `style`.
#[verifier::external_body]
pub(crate) fn new_engine(style: ParamStyle) -> (e: Engine)
    ensures
        engine_style(e) == style,
        engine_templates(e) == Seq::<(Seq<char>, Seq<char>)>::empty(),
{
    let slot = Arc::new(Mutex::new(Accumulator::default()));
    let mut env = minijinja::Environment::new();
    install_bind_filter(&mut env, &slot, style);
    install_in_clause_filter(&mut env, &slot, style);
    Engine { env, slot }
}

/// Relies on minijinja::Environment::add_template_owned: compiles the
/// source text and stores it under the name, extending the engine's
/// template history; a syntax error comes back as the error and stores
/// nothing (this engine only ever holds owned templates, and the owned
/// store is replaced only after the text compiles).
#[verifier::external_body]
pub(crate) fn engine_add_template(e: &mut Engine, name: &str, text: &str) -> (r: Result<
    (),
    minijinja::Error,
>)
    ensures
        engine_style(*final(e)) == engine_style(*old(e)),
        r is Ok ==> engine_templates(*final(e)) == engine_templates(*old(e)).push((name@, text@)),
        r is Err ==> engine_templates(*final(e)) == engine_templates(*old(e)),
{
    e.env.add_template_owned(name.to_owned(), text.to_owned())
}

/// Relies on std::sync::Mutex::lock: puts an empty accumulator in the
/// slot; `false` when the lock is poisoned.
#[verifier::external_body]
fn clear_slot(slot: &Arc<Mutex<Accumulator>>) -> bool {
    match slot.lock() {
        Ok(mut guard) => {
            *guard = Accumulator::default();
            true
        },
        Err(_) => false,
    }
}

/// Relies on std::sync::Mutex::lock and std::mem::take: takes the
/// accumulator out of the slot, leaving an empty one; `None` when the
/// lock is poisoned.
#[verifier::external_body]
fn take_slot(slot: &Arc<Mutex<Accumulator>>) -> Option<Accumulator> {
    match slot.lock() {
        Ok(mut guard) => Some(std::mem::take(&mut *guard)),
        Err(_) => None,
    }
}

/// Relies on minijinja::value::Value's From and FromIterator impls: builds
/// the engine's value from the context, variant for variant; text stays
/// text, sequences keep their order, mappings keep their entries.
#[verifier::external_body]
pub(crate) fn context_value(context: &CtxValue) -> minijinja::value::Value {
    match context {
        CtxValue::Scalar(s) => minijinja::value::Value::from(s.as_str()),
        CtxValue::Sequence(items) => items.iter().map(context_value).collect(),
        CtxValue::Mapping(entries) => entries.iter().map(
            |(k, v)| (k.clone(), context_value(v)),
        ).collect(),
    }
}

/// Relies on minijinja::Environment::get_template and
/// minijinja::Template::render: one evaluation, whole. The engine's
/// accumulator is emptied first, the template is looked up by name and
/// evaluated against the context — invoking the registered filters inline
/// as evaluation reaches them — and the rendered text is paired with
/// exactly the values those filters recorded. On an engine error the
/// accumulator is emptied too, so a failed evaluation leaks nothing into
/// the next one.
#[verifier::external_body]
pub(crate) fn engine_render(e: &Engine, name: &str, context: &CtxValue) -> (r: Result<
    (String, Vec<String>),
    EngineFailure,
>)
    ensures
        r matches Ok(p) ==> Some((p.0@, string_views(p.1@))) == engine_eval(
            engine_style(*e),
            engine_templates(*e),
            name@,
            *context,
        ),
        r matches Err(EngineFailure::Engine(_)) ==> engine_eval(
            engine_style(*e),
            engine_templates(*e),
            name@,
            *context,
        ) is None,
{
    if !clear_slot(&e.slot) {
        return Err(EngineFailure::Poisoned);
    }
    let value = context_value(context);
    let text = match e.env.get_template(name) {
        Ok(template) => template.render(&value),
        Err(err) => Err(err),
    };
    match (text, take_slot(&e.slot)) {
        (Ok(text), Some(acc)) => Ok((text, acc.values)),
        (Err(err), Some(_)) => Err(EngineFailure::Engine(err)),
        (_, None) => Err(EngineFailure::Poisoned),
    }
}

} // verus!
