//! Rendering a page with the `tera` template engine.
//!
//! The library owns the template of the index page, [`index_source`]. The
//! engine is handed a context of the shape
//! `{ charts: [ { title, sections: [ { name, content } ] } ] }`,
//! over which the template loops: charts first, then the sections of each.

use vstd::prelude::*;
use vstd::string::*;
use crate::chart::{Chart, ChartView, PageContext, Section, SectionView};
use crate::error::{PageError, PageErrorView};

verus! {

/// A JSON value, as far as a page context is made of it.
pub enum JsonView {
    Text(Seq<char>),
    List(Seq<JsonView>),
    Object(Map<Seq<char>, JsonView>),
    /// A null, a boolean or a number.
    Other,
}

/// `tera::Tera`, the template engine with its compiled templates. Nothing of
/// what it holds is visible here.
#[verifier::external_type_specification]
#[verifier::external_body]
pub struct ExTera(tera::Tera);

/// `tera::Context`, the values that a template is evaluated on, by key. Its
/// entries are spoken of through [`context_entries`].
#[verifier::external_type_specification]
#[verifier::external_body]
pub struct ExTeraContext(tera::Context);

/// `tera::Value`, which is `serde_json::Value`. What one holds is spoken of
/// through [`json_of`].
#[verifier::external_type_specification]
#[verifier::external_body]
pub struct ExTeraValue(tera::Value);

/// `tera::Error`, the engine's report of a template that does not compile or
/// cannot be evaluated. Only its text is read, through [`diagnostic_text`].
#[verifier::external_type_specification]
#[verifier::external_body]
pub struct ExTeraError(tera::Error);

/// What a `tera::Value` holds.
pub uninterp spec fn json_of(value: tera::Value) -> JsonView;

/// The entries of a `tera::Context`, by key.
pub uninterp spec fn context_entries(context: tera::Context) -> Map<Seq<char>, JsonView>;

/// The entries of an empty context.
pub open spec fn no_entries() -> Map<Seq<char>, JsonView> {
    Map::empty()
}

/// The text that the `Display` of a `tera::Error` writes.
pub uninterp spec fn diagnostic_text(error: tera::Error) -> Seq<char>;

/// `tera::Context::new`: a context without entries.
#[verifier::external_body]
fn new_context() -> (context: tera::Context)
    ensures
        context_entries(context) == no_entries(),
{
    tera::Context::new()
}

/// `tera::Context::insert` with a string: the entry under `key` becomes that
/// string, the other entries stay.
#[verifier::external_body]
fn insert_text(context: &mut tera::Context, key: &str, text: &str)
    ensures
        context_entries(*final(context)) == context_entries(*old(context)).insert(
            key@,
            JsonView::Text(text@),
        ),
{
    context.insert(key, text)
}

/// `tera::Context::insert` with a list of values: the entry under `key`
/// becomes the list of what the values hold, the other entries stay.
#[verifier::external_body]
fn insert_list(context: &mut tera::Context, key: &str, items: &Vec<tera::Value>)
    ensures
        context_entries(*final(context)) == context_entries(*old(context)).insert(
            key@,
            JsonView::List(Seq::new(items@.len(), |i: int| json_of(items@[i]))),
        ),
{
    context.insert(key, items)
}

/// `tera::Context::into_json`: the object made of the context's entries.
#[verifier::external_body]
fn into_json(context: tera::Context) -> (value: tera::Value)
    ensures
        json_of(value) == JsonView::Object(context_entries(context)),
{
    context.into_json()
}

/// The templates that a `tera::Tera` holds: by name, the source that each was
/// compiled from.
pub uninterp spec fn engine_sources(engine: tera::Tera) -> Map<Seq<char>, Seq<char>>;

/// The text with which `tera::Tera::add_raw_template` refuses `source` as the
/// template `name` of an engine that holds no template yet; `None` where it
/// takes the template. With no other template to extend or to import from,
/// this depends on the name and the source alone, as long as the program
/// leaves the parser's call limit unset, as this library does.
pub uninterp spec fn template_fault(name: Seq<char>, source: Seq<char>) -> Option<Seq<char>>;

/// What `tera::Tera::render` makes of the template [`index_text`] on a
/// context with the given entries: the page, or the text of the engine's
/// error. The template calls no function and no filter, so this depends on
/// the entries alone.
pub uninterp spec fn index_rendering(entries: Map<Seq<char>, JsonView>) -> Result<
    Seq<char>,
    Seq<char>,
>;

/// An engine without templates.
pub open spec fn no_sources() -> Map<Seq<char>, Seq<char>> {
    Map::empty()
}

/// `tera::Tera::default`: an engine without templates.
#[verifier::external_body]
fn new_engine() -> (engine: tera::Tera)
    ensures
        engine_sources(engine) == no_sources(),
{
    tera::Tera::default()
}

/// `tera::Tera::add_raw_template`: compiles `source` and keeps it under
/// `name`, or reports why it does not compile. On success the engine holds
/// the template beside those it held. Of an engine that held no template,
/// the outcome is the one that [`template_fault`] names: success, or an error
/// with that text.
#[verifier::external_body]
fn add_raw_template(engine: &mut tera::Tera, name: &str, source: &str) -> (outcome: Result<
    (),
    tera::Error,
>)
    ensures
        outcome is Ok ==> engine_sources(*final(engine)) == engine_sources(*old(engine)).insert(
            name@,
            source@,
        ),
        engine_sources(*old(engine)) == no_sources() ==> match outcome {
            Ok(_) => template_fault(name@, source@).is_none(),
            Err(error) => template_fault(name@, source@) == Some(diagnostic_text(error)),
        },
{
    engine.add_raw_template(name, source)
}

/// `tera::Tera::render` of the index template: the engine holds
/// [`index_text`] under `name` and nothing else, and the context is that of a
/// page. The template then loops over lists only and prints strings only, and
/// the outcome is the one that [`index_rendering`] names.
#[verifier::external_body]
fn render_template(engine: &tera::Tera, name: &str, context: &tera::Context) -> (outcome: Result<
    String,
    tera::Error,
>)
    requires
        engine_sources(*engine) == index_sources(),
        name@ == index_name(),
        is_page(context_entries(*context)),
    ensures
        match outcome {
            Ok(text) => index_rendering(context_entries(*context)) == page_text(text@),
            Err(error) => index_rendering(context_entries(*context)) == page_fault(
                diagnostic_text(error),
            ),
        },
{
    engine.render(name, context)
}

/// The text of a `tera::Error`, as its `Display` writes it: the text named by
/// [`diagnostic_text`].
#[verifier::external_body]
fn diagnostic(error: &tera::Error) -> (text: String)
    ensures
        text@ == diagnostic_text(*error),
{
    error.to_string()
}

/// The JSON object that stands for a section.
pub open spec fn section_json(section: SectionView) -> JsonView {
    JsonView::Object(
        no_entries().insert("name"@, JsonView::Text(section.name)).insert(
            "content"@,
            JsonView::Text(section.content),
        ),
    )
}

/// The JSON object that stands for a chart: its sections in their order.
pub open spec fn chart_json(chart: ChartView) -> JsonView {
    JsonView::Object(
        no_entries().insert("title"@, JsonView::Text(chart.title)).insert(
            "sections"@,
            JsonView::List(
                Seq::new(chart.sections.len(), |i: int| section_json(chart.sections[i])),
            ),
        ),
    )
}

/// The entries of the context of a page: under `charts`, the charts in their
/// order.
pub open spec fn page_entries(charts: Seq<ChartView>) -> Map<Seq<char>, JsonView> {
    no_entries().insert(
        "charts"@,
        JsonView::List(Seq::new(charts.len(), |i: int| chart_json(charts[i]))),
    )
}

/// The name under which the page's template is kept.
pub open spec fn index_name() -> Seq<char> {
    "index"@
}

/// The template of the index page: a heading for each chart, and under it
/// each section's name and content, all in the order of the context.
pub open spec fn index_text() -> Seq<char> {
    "<!DOCTYPE html>\n<html>\n<head>\n<meta charset=\"utf-8\">\n<title>gantt</title>\n</head>\n<body>\n{% for chart in charts %}<section>\n<h1>{{ chart.title }}</h1>\n{% for section in chart.sections %}<h2>{{ section.name }}</h2>\n<pre>{{ section.content }}</pre>\n{% endfor %}</section>\n{% endfor %}</body>\n</html>\n"@
}

/// What an engine holds that holds the index template and nothing else.
pub open spec fn index_sources() -> Map<Seq<char>, Seq<char>> {
    no_sources().insert(index_name(), index_text())
}

/// Whether the entries are those of the context of a page.
pub open spec fn is_page(entries: Map<Seq<char>, JsonView>) -> bool {
    exists|charts: Seq<ChartView>| entries == #[trigger] page_entries(charts)
}

/// A rendering that gave the page `text`.
pub open spec fn page_text(text: Seq<char>) -> Result<Seq<char>, Seq<char>> {
    Ok(text)
}

/// A rendering that failed with the diagnostic `text`.
pub open spec fn page_fault(text: Seq<char>) -> Result<Seq<char>, Seq<char>> {
    Err(text)
}

/// What the index template makes of the charts: the page, or the text of the
/// engine's error.
pub open spec fn index_page(charts: Seq<ChartView>) -> Result<Seq<char>, Seq<char>> {
    index_rendering(page_entries(charts))
}

/// The page, or the failure, that a rendering amounts to.
pub open spec fn rendered_page(rendering: Result<Seq<char>, Seq<char>>) -> Result<
    Seq<char>,
    PageErrorView,
> {
    match rendering {
        Ok(text) => Ok(text),
        Err(fault) => Err(PageErrorView::Template(fault)),
    }
}

/// The value of a page or of the failure in its place.
pub open spec fn page_view(page: Result<String, PageError>) -> Result<Seq<char>, PageErrorView> {
    match page {
        Ok(text) => Ok(text@),
        Err(error) => Err(error@),
    }
}

/// The source of the template of the index page.
pub fn index_source() -> (source: &'static str)
    ensures
        source@ == index_text(),
{
    "<!DOCTYPE html>\n<html>\n<head>\n<meta charset=\"utf-8\">\n<title>gantt</title>\n</head>\n<body>\n{% for chart in charts %}<section>\n<h1>{{ chart.title }}</h1>\n{% for section in chart.sections %}<h2>{{ section.name }}</h2>\n<pre>{{ section.content }}</pre>\n{% endfor %}</section>\n{% endfor %}</body>\n</html>\n"
}

fn section_value(section: &Section) -> (value: tera::Value)
    ensures
        json_of(value) == section_json(section@),
{
    let mut context = new_context();
    insert_text(&mut context, "name", section.name.as_str());
    insert_text(&mut context, "content", section.content.as_str());
    into_json(context)
}

fn chart_value(chart: &Chart) -> (value: tera::Value)
    ensures
        json_of(value) == chart_json(chart@),
{
    let mut sections: Vec<tera::Value> = Vec::new();
    let mut i: usize = 0;
    while i < chart.sections.len()
        invariant
            i <= chart.sections.len(),
            sections.len() == i,
            forall|j: int|
                0 <= j < i ==> json_of(#[trigger] sections[j]) == section_json(
                    chart.sections[j]@,
                ),
        decreases chart.sections.len() - i,
    {
        sections.push(section_value(&chart.sections[i]));
        i += 1;
    }
    let mut context = new_context();
    insert_text(&mut context, "title", chart.title.as_str());
    insert_list(&mut context, "sections", &sections);
    proof {
        assert(Seq::new(sections@.len(), |i: int| json_of(sections@[i])) =~= Seq::new(
            chart@.sections.len(),
            |i: int| section_json(chart@.sections[i]),
        ));
    }
    into_json(context)
}

/// Builds the context that the template is evaluated on: one entry, `charts`,
/// that lists the charts in the page's order, each with its title and its
/// sections in their order.
pub fn template_context(page: &PageContext) -> (context: tera::Context)
    ensures
        context_entries(context) == page_entries(page@),
{
    let mut charts: Vec<tera::Value> = Vec::new();
    let mut i: usize = 0;
    while i < page.charts.len()
        invariant
            i <= page.charts.len(),
            charts.len() == i,
            forall|j: int|
                0 <= j < i ==> json_of(#[trigger] charts[j]) == chart_json(page.charts[j]@),
        decreases page.charts.len() - i,
    {
        charts.push(chart_value(&page.charts[i]));
        i += 1;
    }
    let mut context = new_context();
    insert_list(&mut context, "charts", &charts);
    proof {
        assert(Seq::new(charts@.len(), |i: int| json_of(charts@[i])) =~= Seq::new(
            page@.len(),
            |i: int| chart_json(page@[i]),
        ));
    }
    context
}

/// What a page is, given what the engine made of its context: the rendered
/// text, or the engine's failure as a [`PageError::Template`].
pub fn page_of(rendered: Result<String, tera::Error>) -> (page: Result<String, PageError>)
    ensures
        match rendered {
            Ok(text) => page == Ok::<String, PageError>(text),
            Err(failure) => page matches Err(error) && error@ == PageErrorView::Template(
                diagnostic_text(failure),
            ),
        },
{
    match rendered {
        Ok(text) => Ok(text),
        Err(error) => Err(PageError::Template(diagnostic(&error))),
    }
}

/// The compiled template of the index page: an engine that holds
/// [`index_text`] under the name `index`, and no other template.
pub struct IndexTemplate {
    engine: tera::Tera,
}

impl View for IndexTemplate {
    type V = Map<Seq<char>, Seq<char>>;

    /// The templates that the engine holds, by name.
    closed spec fn view(&self) -> Map<Seq<char>, Seq<char>> {
        engine_sources(self.engine)
    }
}

impl IndexTemplate {
    #[verifier::type_invariant]
    spec fn holds_the_index_alone(self) -> bool {
        engine_sources(self.engine) == index_sources()
    }

    /// Compiles the template of the index page. Succeeds where the engine
    /// takes [`index_source`], and fails with [`PageError::Template`] and the
    /// engine's diagnostic where it does not.
    pub fn compile() -> (outcome: Result<IndexTemplate, PageError>)
        ensures
            match outcome {
                Ok(template) => template_fault(index_name(), index_text()).is_none() && template@
                    == index_sources(),
                Err(error) => template_fault(index_name(), index_text()) matches Some(text)
                    && error@ == PageErrorView::Template(text),
            },
    {
        let mut engine = new_engine();
        match add_raw_template(&mut engine, "index", index_source()) {
            Ok(()) => Ok(IndexTemplate { engine }),
            Err(error) => Err(PageError::Template(diagnostic(&error))),
        }
    }

    /// Renders the page of the given charts: what the engine makes of the
    /// index template on the context of the page. Fails with
    /// [`PageError::Template`] and the engine's diagnostic where the engine
    /// cannot evaluate the template.
    pub fn render(&self, page: &PageContext) -> (outcome: Result<String, PageError>)
        ensures
            page_view(outcome) == rendered_page(index_page(page@)),
    {
        proof {
            use_type_invariant(self);
        }
        let context = template_context(page);
        assert(is_page(context_entries(context)));
        page_of(render_template(&self.engine, "index", &context))
    }
}

} // verus!
