//! Page models and their rendering into complete pages.

use crate::helpers::{breadcrumbs, breadcrumbs_html, entries_html, file_entries};
use crate::paths::{path_segments, path_to_slice, views};
use vstd::prelude::*;

verus! {

#[verifier::external_type_specification]
#[verifier::external_body]
pub struct ExRenderError(handlebars::RenderError);

/// The text of the directory page before its content.
pub const DIRECTORY_BEFORE: &'static str = "<!DOCTYPE html>\n<html>\n<head><meta charset=\"utf-8\"><title>Index</title></head>\n<body>\n";

/// The text of the directory page after its content.
pub const DIRECTORY_AFTER: &'static str = "\n</body>\n</html>\n";

/// The template of the directory page: its two texts around a raw slot.
pub const DIRECTORY_TEMPLATE: &'static str = "<!DOCTYPE html>\n<html>\n<head><meta charset=\"utf-8\"><title>Index</title></head>\n<body>\n{{{content}}}\n</body>\n</html>\n";

/// The text of the not-found page before its content.
pub const NOT_FOUND_BEFORE: &'static str = "<!DOCTYPE html>\n<html>\n<head><meta charset=\"utf-8\"><title>Not found</title></head>\n<body>\n";

/// The text of the not-found page after its content.
pub const NOT_FOUND_AFTER: &'static str = "\n<p>Nothing was found at this path.</p>\n</body>\n</html>\n";

/// The template of the not-found page: its two texts around a raw slot.
pub const NOT_FOUND_TEMPLATE: &'static str = "<!DOCTYPE html>\n<html>\n<head><meta charset=\"utf-8\"><title>Not found</title></head>\n<body>\n{{{content}}}\n<p>Nothing was found at this path.</p>\n</body>\n</html>\n";

/// The text of the unimplemented page before its content.
pub const UNIMPLEMENTED_BEFORE: &'static str = "<!DOCTYPE html>\n<html>\n<head><meta charset=\"utf-8\"><title>Not implemented</title></head>\n<body>\n";

/// The text of the unimplemented page after its content.
pub const UNIMPLEMENTED_AFTER: &'static str = "\n<p>Serving files is not implemented.</p>\n</body>\n</html>\n";

/// The template of the unimplemented page: its two texts around a raw slot.
pub const UNIMPLEMENTED_TEMPLATE: &'static str = "<!DOCTYPE html>\n<html>\n<head><meta charset=\"utf-8\"><title>Not implemented</title></head>\n<body>\n{{{content}}}\n<p>Serving files is not implemented.</p>\n</body>\n</html>\n";

/// Relies on handlebars::Handlebars::render_template, run on a fresh registry
/// with default settings, for one of the three page templates. Each is plain
/// text, holding no `{` or backslash, around one triple-stash slot `content`:
/// the engine copies the text as it is and puts the bound value in the slot
/// unescaped.
#[verifier::external_body]
fn fill_template(template: &str, content: &str) -> (r: Result<String, handlebars::RenderError>)
    requires
        template@ == DIRECTORY_TEMPLATE@ || template@ == NOT_FOUND_TEMPLATE@ || template@ == UNIMPLEMENTED_TEMPLATE@,
    ensures
        r is Ok,
        template@ == DIRECTORY_TEMPLATE@ ==> r->Ok_0@ == DIRECTORY_BEFORE@ + content@ + DIRECTORY_AFTER@,
        template@ == NOT_FOUND_TEMPLATE@ ==> r->Ok_0@ == NOT_FOUND_BEFORE@ + content@ + NOT_FOUND_AFTER@,
        template@ == UNIMPLEMENTED_TEMPLATE@ ==> r->Ok_0@ == UNIMPLEMENTED_BEFORE@ + content@ + UNIMPLEMENTED_AFTER@,
{
    let data = std::collections::BTreeMap::from([("content", content)]);
    handlebars::Handlebars::new().render_template(template, &data)
}

/// Relies on the `Display` impl of handlebars::RenderError for its message.
#[verifier::external_body]
fn engine_message(e: &handlebars::RenderError) -> String {
    e.to_string()
}

/// The message of a breadcrumb trail without segments.
pub const EMPTY_PATH_MESSAGE: &'static str = "Path in `breadcrumbs` must not be empty";

/// A page that shows a path only.
pub struct PathOnly {
    /// The segments of the path, the served root being `/`.
    pub path: Vec<String>,
}

impl PathOnly {
    pub fn new(path: &str) -> (r: PathOnly)
        ensures
            views(r.path@) == path_segments(path@),
    {
        PathOnly { path: path_to_slice(path) }
    }
}

/// A directory listing.
pub struct Directory {
    /// The segments of the directory's path, the served root being `/`.
    pub path: Vec<String>,
    /// The names of the directory's entries.
    pub files: Vec<String>,
}

impl Directory {
    pub fn new(path: &str, files: Vec<String>) -> (r: Directory)
        ensures
            views(r.path@) == path_segments(path@),
            r.files@ == files@,
    {
        Directory { path: path_to_slice(path), files }
    }
}

/// The three kinds of page.
pub enum Templates {
    Unimplemented(PathOnly),
    Directory(Directory),
    NotFound(PathOnly),
}

/// Why a page could not be rendered.
pub enum RenderFailure {
    /// The page's path has no segment, so it has no breadcrumb trail.
    EmptyPath,
    /// The template engine failed, with its message.
    Engine(String),
}

impl RenderFailure {
    /// The message of the failure.
    pub open spec fn spec_text(&self) -> Seq<char> {
        match self {
            RenderFailure::EmptyPath => EMPTY_PATH_MESSAGE@,
            RenderFailure::Engine(m) => m@,
        }
    }

    pub fn text(&self) -> (r: String)
        ensures
            r@ == self.spec_text(),
    {
        match self {
            RenderFailure::EmptyPath => String::from_str(EMPTY_PATH_MESSAGE),
            RenderFailure::Engine(m) => m.clone(),
        }
    }
}

/// The segments of the path that a page shows.
pub open spec fn page_segments(t: Templates) -> Seq<Seq<char>> {
    match t {
        Templates::Unimplemented(p) => views(p.path@),
        Templates::Directory(d) => views(d.path@),
        Templates::NotFound(p) => views(p.path@),
    }
}

/// The breadcrumb block of a path.
pub open spec fn trail_html(segs: Seq<Seq<char>>) -> Seq<char> {
    "<ul class=\"breadcrumbs\">"@ + breadcrumbs_html(segs) + "</ul>\n"@
}

/// The listing block of a directory.
pub open spec fn listing_html(dir: Seq<Seq<char>>, names: Seq<Seq<char>>) -> Seq<char> {
    "<div class=\"entries\">"@ + entries_html(dir, names) + "</div>"@
}

/// The not-found page of a path.
pub open spec fn not_found_page(segs: Seq<Seq<char>>) -> Seq<char> {
    NOT_FOUND_BEFORE@ + trail_html(segs) + NOT_FOUND_AFTER@
}

/// The unimplemented page of a path.
pub open spec fn unimplemented_page(segs: Seq<Seq<char>>) -> Seq<char> {
    UNIMPLEMENTED_BEFORE@ + trail_html(segs) + UNIMPLEMENTED_AFTER@
}

/// The listing page of a directory.
pub open spec fn directory_page(segs: Seq<Seq<char>>, names: Seq<Seq<char>>) -> Seq<char> {
    DIRECTORY_BEFORE@ + trail_html(segs) + listing_html(segs, names) + DIRECTORY_AFTER@
}

/// The rendered page.
pub open spec fn rendered(t: Templates) -> Seq<char> {
    match t {
        Templates::Unimplemented(p) => unimplemented_page(views(p.path@)),
        Templates::Directory(d) => directory_page(views(d.path@), views(d.files@)),
        Templates::NotFound(p) => not_found_page(views(p.path@)),
    }
}

fn trail(path: &Vec<String>) -> (r: Option<String>)
    ensures
        r is None <==> path@.len() == 0,
        r matches Some(s) ==> s@ == trail_html(views(path@)),
{
    match breadcrumbs(path) {
        None => None,
        Some(b) => {
            let mut s = String::from_str("<ul class=\"breadcrumbs\">");
            s.append(b.as_str());
            s.append("</ul>\n");
            Some(s)
        },
    }
}

/// Renders a page. A path without segments fails with `EmptyPath`; otherwise
/// the template engine puts the page's content into its template.
pub fn render(template: Templates) -> (r: Result<String, RenderFailure>)
    ensures
        page_segments(template).len() == 0 <==> r matches Err(RenderFailure::EmptyPath),
        page_segments(template).len() > 0 ==> (r matches Ok(s) && s@ == rendered(template)),
{
    let (tpl, content) = match &template {
        Templates::Unimplemented(p) => (UNIMPLEMENTED_TEMPLATE, trail(&p.path)),
        Templates::NotFound(p) => (NOT_FOUND_TEMPLATE, trail(&p.path)),
        Templates::Directory(d) => {
            let c = match trail(&d.path) {
                None => None,
                Some(mut t) => {
                    t.append("<div class=\"entries\">");
                    let entries = file_entries(&d.path, &d.files);
                    t.append(entries.as_str());
                    t.append("</div>");
                    Some(t)
                },
            };
            (DIRECTORY_TEMPLATE, c)
        },
    };
    match content {
        None => Err(RenderFailure::EmptyPath),
        Some(c) => {
            match fill_template(tpl, c.as_str()) {
                Ok(page) => Ok(page),
                Err(e) => Err(RenderFailure::Engine(engine_message(&e))),
            }
        },
    }
}

} // verus!
