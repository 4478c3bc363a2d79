//! The report: the view model, its rendering context, the engine that is set
//! up to render it, and what is handed to the engine and to the minifier.
//!
//! Loading templates, rendering and minifying are left to the caller: the
//! functions here make what goes into each of these calls and take what
//! comes out of it.

use vstd::prelude::*;
use vstd::view::View as _;
use std::time::Duration;
use crate::json::{json_list, json_model, json_models, json_seat, json_text, Json};
use crate::opts::Backend;

verus! {

/// `tera::Tera`, the template engine with what was registered with it.
#[verifier::external_type_specification]
#[verifier::external_body]
pub struct ExEngine(tera::Tera);

/// `tera::Context`, the names and values that a template is rendered against.
#[verifier::external_type_specification]
#[verifier::external_body]
pub struct ExEngineContext(tera::Context);

/// `tera::Error`, the engine's account of a failure.
#[verifier::external_type_specification]
#[verifier::external_body]
pub struct ExEngineError(tera::Error);

/// The names of the templates that an engine holds.
pub uninterp spec fn engine_templates(engine: tera::Tera) -> Set<Seq<char>>;

/// The name endings of the templates whose output an engine escapes.
pub uninterp spec fn engine_escaped(engine: tera::Tera) -> Seq<Seq<char>>;

/// The text of each string slice of `v`, in order.
pub open spec fn slice_texts(v: Seq<&'static str>) -> Seq<Seq<char>> {
    Seq::new(v.len(), |i: int| v[i]@)
}

/// The names that a list of templates gives its sources, in order.
pub open spec fn names_of(templates: Seq<(&str, &str)>) -> Seq<Seq<char>> {
    Seq::new(templates.len(), |i: int| templates[i].0@)
}

/// The sources of a list of templates, in order.
pub open spec fn sources_of(templates: Seq<(&str, &str)>) -> Seq<Seq<char>> {
    Seq::new(templates.len(), |i: int| templates[i].1@)
}

/// What a rendering context binds: each name with what its value holds.
pub uninterp spec fn context_map(ctx: tera::Context) -> Map<Seq<char>, Json>;

/// The bindings of a context that binds nothing.
pub open spec fn unbound() -> Map<Seq<char>, Json> {
    Map::empty()
}

/// What `humantime::format_duration` writes for a duration: each unit from
/// years down to nanoseconds of which it has any, or `0s` for no time at all.
pub uninterp spec fn duration_units(d: Duration) -> Seq<char>;

/// `Tera::default`: an engine without templates.
pub assume_specification[ <tera::Tera as Default>::default ]() -> (engine: tera::Tera)
    ensures
        engine_templates(engine) == Set::<Seq<char>>::empty(),
;

/// `Tera::autoescape_on`: sets the name endings of the templates whose output
/// is escaped to the ones given, and leaves the templates as they are.
pub assume_specification[ tera::Tera::autoescape_on ](
    engine: &mut tera::Tera,
    suffixes: Vec<&'static str>,
)
    ensures
        engine_escaped(*final(engine)) == slice_texts(suffixes@),
        engine_templates(*final(engine)) == engine_templates(*old(engine)),
;

/// `Context::new`: a context that binds nothing.
pub assume_specification[ tera::Context::new ]() -> (ctx: tera::Context)
    ensures
        context_map(ctx) == unbound(),
;

/// `Context::insert`: binds `key` to a copy of the value, in place of what it
/// was bound to, and leaves every other name as it was.
#[verifier::external_body]
fn context_insert(ctx: &mut tera::Context, key: &str, value: &serde_json::Value)
    ensures
        context_map(*final(ctx)) == context_map(*old(ctx)).insert(key@, json_model(*value)),
{
    ctx.insert(key, value)
}

/// `humantime::format_duration`, written out with `to_string`: the duration
/// in its units.
#[verifier::external_body]
fn duration_text(d: &Duration) -> (r: String)
    ensures
        r@ == duration_units(*d),
{
    humantime_serde::re::humantime::format_duration(*d).to_string()
}

/// How long the reviewed game was meant to last.
#[derive(Clone, Copy, Debug, PartialEq, Eq, Structural)]
pub enum GameLength {
    Hanchan,
    Tonpuu,
}

impl GameLength {
    /// The length's name as it stands in a rendering context.
    pub open spec fn spec_variant_name(self) -> Seq<char> {
        match self {
            GameLength::Hanchan => "Hanchan"@,
            GameLength::Tonpuu => "Tonpuu"@,
        }
    }

    /// The length's name as it stands in a rendering context.
    pub fn variant_name(&self) -> (r: &'static str)
        ensures
            r@ == self.spec_variant_name(),
    {
        match self {
            GameLength::Hanchan => "Hanchan",
            GameLength::Tonpuu => "Tonpuu",
        }
    }
}

/// Why no document came out.
#[derive(Debug)]
pub enum RenderError {
    /// A template of the bundle does not parse, or the bundle does not hang
    /// together.
    Bundle(tera::Error),
    /// Rendering failed, in a template or in a function that it called.
    Render(tera::Error),
}

/// The sources of the five templates that make up a report.
#[derive(Debug)]
pub struct TemplateBundle {
    /// The macros that the document template uses.
    pub macros: String,
    /// The document template.
    pub report: String,
    /// The stylesheet.
    pub stylesheet: String,
    /// The script.
    pub script: String,
    /// The vector graphic of the tiles.
    pub tiles: String,
}

/// The names under which the templates of a bundle are loaded, in the order
/// in which they are loaded.
pub open spec fn template_names() -> Seq<Seq<char>> {
    seq!["macros.tera"@, "report.tera"@, "report.css"@, "report.js"@, "pai.svg"@]
}

/// The name of the template that a report is rendered from.
pub open spec fn root_template() -> Seq<char> {
    "report.tera"@
}

/// The report is rendered from a template of the bundle: the second.
pub proof fn lemma_root_template_in_bundle()
    ensures
        template_names()[1] == root_template(),
        template_names().contains(root_template()),
{
    assert(template_names()[1] == root_template());
}

/// The name endings of the templates whose output a renderer escapes.
pub open spec fn escaped_endings() -> Seq<Seq<char>> {
    seq![".tera"@, ".html"@]
}

impl TemplateBundle {
    /// The sources of the bundle, in the order of their names.
    pub open spec fn spec_sources(&self) -> Seq<Seq<char>> {
        seq![self.macros@, self.report@, self.stylesheet@, self.script@, self.tiles@]
    }

    /// The templates as the engine takes them: each name with its source.
    pub fn named_sources(&self) -> (r: Vec<(&str, &str)>)
        ensures
            names_of(r@) == template_names(),
            sources_of(r@) == self.spec_sources(),
    {
        let mut r: Vec<(&str, &str)> = Vec::new();
        r.push(("macros.tera", self.macros.as_str()));
        r.push(("report.tera", self.report.as_str()));
        r.push(("report.css", self.stylesheet.as_str()));
        r.push(("report.js", self.script.as_str()));
        r.push(("pai.svg", self.tiles.as_str()));
        assert(names_of(r@) =~= template_names());
        assert(sources_of(r@) =~= self.spec_sources());
        r
    }
}

/// A template engine that has taken the report's templates: ready to render.
pub struct Renderer {
    engine: tera::Tera,
}

impl Renderer {
    /// The engine that renders.
    pub closed spec fn spec_engine(&self) -> tera::Tera {
        self.engine
    }

    /// The name endings of the templates whose output is escaped.
    pub fn escaped_suffixes() -> (r: Vec<&'static str>)
        ensures
            slice_texts(r@) == escaped_endings(),
    {
        let mut r: Vec<&'static str> = Vec::new();
        r.push(".tera");
        r.push(".html");
        assert(slice_texts(r@) =~= escaped_endings());
        r
    }

    /// An engine without templates, set to escape what templates with the
    /// name endings of [`Renderer::escaped_suffixes`] put out. The caller
    /// registers the formatting functions with it and has it take the
    /// templates of [`TemplateBundle::named_sources`]; what that came to goes
    /// to [`Renderer::new`].
    pub fn new_engine() -> (engine: tera::Tera)
        ensures
            engine_templates(engine) == Set::<Seq<char>>::empty(),
            engine_escaped(engine) == escaped_endings(),
    {
        let mut engine = tera::Tera::default();
        engine.autoescape_on(Renderer::escaped_suffixes());
        engine
    }

    /// The renderer around an engine that was given the bundle, where the
    /// engine took it; the engine's failure, as one of the bundle, where it
    /// did not.
    pub fn new(engine: tera::Tera, loaded: Result<(), tera::Error>) -> (r: Result<
        Renderer,
        RenderError,
    >)
        ensures
            match loaded {
                Ok(_) => r matches Ok(renderer) && renderer.spec_engine() == engine,
                Err(e) => r matches Err(RenderError::Bundle(cause)) && cause == e,
            },
    {
        match loaded {
            Ok(_) => Ok(Renderer { engine }),
            Err(e) => Err(RenderError::Bundle(e)),
        }
    }

    /// The engine that renders.
    pub fn engine(&self) -> (engine: &tera::Tera)
        ensures
            *engine == self.spec_engine(),
    {
        &self.engine
    }
}

/// What is handed to the minifier at the end of a render.
#[derive(Debug, PartialEq, Eq)]
pub struct MinifyCall {
    /// The markup to minify.
    pub markup: String,
    /// Whether the output has to keep to the letter of the HTML standard.
    pub spec_compliant: bool,
    /// Whether comments stay in.
    pub keep_comments: bool,
}

/// Everything that a rendered report shows.
#[derive(Debug)]
pub struct View<'a> {
    pub backend: Backend,
    pub game_length: GameLength,
    pub log_id: Option<&'a str>,
    pub loading_time: Duration,
    pub review_time: Duration,
    pub version: &'a str,
    pub review: serde_json::Value,
    pub player_id: u8,
    pub splited_logs: Option<&'a [serde_json::Value]>,
}

/// A rendering context binds an optional name if and only if the view has
/// the field, and then to what the field holds, never to a placeholder: an
/// absent field is left out.
pub proof fn lemma_absent_fields_omitted(view: View)
    ensures
        view.spec_context().contains_key("log_id"@) <==> view.log_id is Some,
        view.log_id matches Some(id) ==> view.spec_context()["log_id"@] == Json::String(id@),
        view.spec_context().contains_key("splited_logs"@) <==> view.splited_logs is Some,
        view.splited_logs matches Some(logs) ==> view.spec_context()["splited_logs"@]
            == Json::Array(json_models(logs@)),
        view.spec_required().dom().subset_of(view.spec_context().dom()),
{
    reveal_strlit("backend");
    reveal_strlit("game_length");
    reveal_strlit("loading_time");
    reveal_strlit("review_time");
    reveal_strlit("version");
    reveal_strlit("review");
    reveal_strlit("player_id");
    reveal_strlit("log_id");
    reveal_strlit("splited_logs");
    let log_id = "log_id"@;
    let splited_logs = "splited_logs"@;
    assert(log_id.len() == 6 && log_id[0] == 'l');
    assert(splited_logs.len() == 12 && splited_logs[0] == 's');
    assert("backend"@.len() == 7);
    assert("game_length"@.len() == 11);
    assert("loading_time"@.len() == 12 && "loading_time"@[0] == 'l');
    assert("review_time"@.len() == 11);
    assert("version"@.len() == 7);
    assert("review"@.len() == 6 && "review"@[0] == 'r');
    assert("player_id"@.len() == 9);
    assert(!view.spec_required().contains_key(log_id));
    assert(!view.spec_required().contains_key(splited_logs));
}

/// No name of a rendering context is bound to null, unless the review that
/// the view was given is null itself.
pub proof fn lemma_no_null_in_context(view: View, name: Seq<char>)
    requires
        view.spec_context().contains_key(name),
        json_model(view.review) != Json::Null,
    ensures
        view.spec_context()[name] != Json::Null,
{
}

/// Two views that hold the same values hand the engine the same bindings:
/// what the engine is given depends on nothing but what the view holds.
pub proof fn lemma_same_view_same_context(a: View, b: View)
    requires
        a.backend == b.backend,
        a.game_length == b.game_length,
        match (a.log_id, b.log_id) {
            (Some(x), Some(y)) => x@ == y@,
            (None, None) => true,
            _ => false,
        },
        a.loading_time == b.loading_time,
        a.review_time == b.review_time,
        a.version@ == b.version@,
        a.review == b.review,
        a.player_id == b.player_id,
        match (a.splited_logs, b.splited_logs) {
            (Some(x), Some(y)) => x@ == y@,
            (None, None) => true,
            _ => false,
        },
    ensures
        a.spec_context() == b.spec_context(),
{
    assert(a.spec_required() == b.spec_required());
}

/// What follows the engine's work: its markup goes to the minifier as it is,
/// to be minified within the HTML standard and with comments kept; its
/// failure is passed on as one of rendering.
pub fn finish_render(rendered: Result<String, tera::Error>) -> (r: Result<MinifyCall, RenderError>)
    ensures
        match rendered {
            Ok(markup) => r matches Ok(call) && call.markup@ == markup@ && call.spec_compliant
                && call.keep_comments,
            Err(e) => r matches Err(RenderError::Render(cause)) && cause == e,
        },
{
    match rendered {
        Ok(markup) => Ok(MinifyCall { markup, spec_compliant: true, keep_comments: true }),
        Err(e) => Err(RenderError::Render(e)),
    }
}

impl<'a> View<'a> {
    /// What the rendering context binds for the fields that are always
    /// there, each under its own name.
    pub open spec fn spec_required(&self) -> Map<Seq<char>, Json> {
        unbound().insert(
            "backend"@,
            Json::String(self.backend.spec_variant_name()),
        ).insert("game_length"@, Json::String(self.game_length.spec_variant_name())).insert(
            "loading_time"@,
            Json::String(duration_units(self.loading_time)),
        ).insert("review_time"@, Json::String(duration_units(self.review_time))).insert(
            "version"@,
            Json::String(self.version@),
        ).insert("review"@, json_model(self.review)).insert(
            "player_id"@,
            Json::Integer(self.player_id as int),
        )
    }

    /// What the rendering context binds: the fields that are always there,
    /// and each optional field that is present.
    pub open spec fn spec_context(&self) -> Map<Seq<char>, Json> {
        let with_log_id = match self.log_id {
            Some(id) => self.spec_required().insert("log_id"@, Json::String(id@)),
            None => self.spec_required(),
        };
        match self.splited_logs {
            Some(logs) => with_log_id.insert("splited_logs"@, Json::Array(json_models(logs@))),
            None => with_log_id,
        }
    }

    /// The rendering context: every field under its name, but for an absent
    /// field, which gets no name at all.
    pub fn context(&self) -> (ctx: tera::Context)
        ensures
            context_map(ctx) == self.spec_context(),
    {
        let mut ctx = tera::Context::new();
        context_insert(&mut ctx, "backend", &json_text(self.backend.variant_name()));
        context_insert(&mut ctx, "game_length", &json_text(self.game_length.variant_name()));
        context_insert(
            &mut ctx,
            "loading_time",
            &json_text(duration_text(&self.loading_time).as_str()),
        );
        context_insert(
            &mut ctx,
            "review_time",
            &json_text(duration_text(&self.review_time).as_str()),
        );
        context_insert(&mut ctx, "version", &json_text(self.version));
        context_insert(&mut ctx, "review", &self.review);
        context_insert(&mut ctx, "player_id", &json_seat(self.player_id));
        if let Some(log_id) = self.log_id {
            context_insert(&mut ctx, "log_id", &json_text(log_id));
        }
        if let Some(logs) = self.splited_logs {
            context_insert(&mut ctx, "splited_logs", &json_list(logs));
        }
        ctx
    }

    /// What is handed to the engine to render this view: the name of the
    /// document template, and the view's rendering context.
    pub fn render_call(&self) -> (call: (&'static str, tera::Context))
        ensures
            call.0@ == root_template(),
            context_map(call.1) == self.spec_context(),
    {
        ("report.tera", self.context())
    }
}

} // verus!
