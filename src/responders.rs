//! Responders: each produces one kind of response or fails with a
//! structured error.

use crate::paths::{candidate_path, path_segments, prefixed_path, views};
use crate::templating::{
    EMPTY_PATH_MESSAGE,
    directory_page, not_found_page, render, unimplemented_page, Directory, PathOnly, RenderFailure,
    Templates,
};
use vstd::prelude::*;

verus! {

/// A response: status code and HTML body.
pub struct Response {
    pub status: u16,
    pub body: String,
}

/// The kind of a filesystem failure that decisions depend on.
#[derive(Clone, Copy, PartialEq, Eq, Structural)]
pub enum IoErrorKind {
    NotFound,
    Other,
}

/// A filesystem failure: its kind and its message.
pub struct IoFailure {
    pub kind: IoErrorKind,
    pub text: String,
}

/// The failure beneath a responder error.
pub enum Cause {
    Io(IoFailure),
    Render(RenderFailure),
}

impl Cause {
    pub open spec fn spec_text(&self) -> Seq<char> {
        match self {
            Cause::Io(f) => f.text@,
            Cause::Render(f) => f.spec_text(),
        }
    }

    pub fn text(&self) -> (r: String)
        ensures
            r@ == self.spec_text(),
    {
        match self {
            Cause::Io(f) => f.text.clone(),
            Cause::Render(f) => f.text(),
        }
    }
}

/// The failure of a responder: which responder, what went wrong, and the
/// failure beneath it, if any.
pub struct ResponderError {
    pub responder: &'static str,
    pub message: &'static str,
    pub error: Option<Box<Cause>>,
}

pub open spec fn error_text(responder: Seq<char>, message: Seq<char>, cause: Option<Seq<char>>) -> Seq<char> {
    let head = "The "@ + responder + " responder raised an error: "@ + message;
    match cause {
        Some(c) => head + "\nWith child: "@ + c,
        None => head,
    }
}

impl ResponderError {
    pub fn new(responder: &'static str, message: &'static str) -> (r: ResponderError)
        ensures
            r.responder == responder,
            r.message == message,
            r.error is None,
    {
        ResponderError { responder, message, error: None }
    }

    pub fn with_error(self, error: Cause) -> (r: ResponderError)
        ensures
            r.responder == self.responder,
            r.message == self.message,
            r.error == Some(Box::new(error)),
    {
        ResponderError { responder: self.responder, message: self.message, error: Some(Box::new(error)) }
    }

    pub open spec fn spec_text(&self) -> Seq<char> {
        error_text(
            self.responder@,
            self.message@,
            match self.error {
                Some(c) => Some(c.spec_text()),
                None => None,
            },
        )
    }

    /// The message of the error and of the failure beneath it.
    pub fn text(&self) -> (r: String)
        ensures
            r@ == self.spec_text(),
    {
        let mut s = String::from_str("The ");
        s.append(self.responder);
        s.append(" responder raised an error: ");
        s.append(self.message);
        match &self.error {
            Some(c) => {
                s.append("\nWith child: ");
                let t = c.text();
                s.append(t.as_str());
            },
            None => {},
        }
        s
    }
}

/// The message of every render failure of a responder.
pub const RENDER_ERROR: &'static str = "render error";

/// `e` reports that responder `name` could not render its page, beneath it
/// the render failure, which is `EmptyPath` exactly when `empty`.
pub open spec fn render_failed(e: ResponderError, name: Seq<char>, empty: bool) -> bool {
    &&& e.responder@ == name
    &&& e.message@ == RENDER_ERROR@
    &&& e.error matches Some(c) && match *c {
        Cause::Render(f) => (f is EmptyPath) == empty,
        _ => false,
    }
}

/// The body of the response to an error that no one handles.
pub const ERROR_OCCURRED: &'static str = "An error occurred\n";

/// The response to a failed responder, where nothing more specific applies.
pub fn default_error_map(err: &ResponderError) -> (r: Response)
    ensures
        r.status == 500,
        r.body@ == ERROR_OCCURRED@ + err.spec_text(),
{
    let mut body = String::from_str(ERROR_OCCURRED);
    let t = err.text();
    body.append(t.as_str());
    Response { status: 500, body }
}

/// The response of a responder's outcome: the response it produced, or the
/// response to its error.
pub fn run_responder(outcome: Result<Response, ResponderError>) -> (r: Response)
    ensures
        outcome matches Ok(resp) ==> r == resp,
        outcome matches Err(e) ==> r.status == 500 && r.body@ == ERROR_OCCURRED@ + e.spec_text(),
{
    match outcome {
        Ok(resp) => resp,
        Err(e) => default_error_map(&e),
    }
}

/// A responder that knows a request path and the served root.
pub trait PathWithPrefix {
    spec fn path_view(&self) -> Seq<char>;

    spec fn prefix_view(&self) -> Seq<char>;

    fn get_path(&self) -> (r: &str)
        ensures
            r@ == self.path_view(),
    ;

    fn get_path_prefix(&self) -> (r: &str)
        ensures
            r@ == self.prefix_view(),
    ;

    /// The served root joined with the request path.
    fn prefixed_path(&self) -> (r: String)
        ensures
            r@ == candidate_path(self.path_view(), self.prefix_view()),
    {
        prefixed_path(self.get_path(), self.get_path_prefix())
    }
}

/// The name of the not-found responder.
pub const NOT_FOUND_NAME: &'static str = "not_found";

/// Renders the not-found page of a path.
pub struct NotFoundResponder {
    /// The request path, as shown.
    pub path: String,
    /// The path that was looked up.
    pub full_path: String,
}

impl NotFoundResponder {
    pub fn new(path: &str, full_path: &str) -> (r: NotFoundResponder)
        ensures
            r.path@ == path@,
            r.full_path@ == full_path@,
    {
        NotFoundResponder { path: String::from_str(path), full_path: String::from_str(full_path) }
    }

    /// Status 404 with the not-found page of the request path.
    pub fn respond(&self) -> (r: Result<Response, ResponderError>)
        ensures
            ({
                let segs = path_segments(self.path@);
                &&& r is Ok <==> segs.len() > 0
                &&& r matches Ok(resp) ==> resp.status == 404 && resp.body@ == not_found_page(segs)
                &&& r matches Err(e) ==> render_failed(e, NOT_FOUND_NAME@, segs.len() == 0)
            }),
    {
        let page = PathOnly::new(self.path.as_str());
        match render(Templates::NotFound(page)) {
            Ok(body) => Ok(Response { status: 404, body }),
            Err(e) => Err(ResponderError::new(NOT_FOUND_NAME, RENDER_ERROR).with_error(Cause::Render(e))),
        }
    }
}

/// The name of the unimplemented responder.
pub const UNIMPLEMENTED_NAME: &'static str = "unimplemented";

/// Renders the page for an entry that is not a directory.
pub struct UnimplementedResponder {
    /// The request path, as shown.
    pub path: String,
}

impl UnimplementedResponder {
    pub fn new(path: &str) -> (r: UnimplementedResponder)
        ensures
            r.path@ == path@,
    {
        UnimplementedResponder { path: String::from_str(path) }
    }

    /// Status 501 with the unimplemented page of the request path.
    pub fn respond(&self) -> (r: Result<Response, ResponderError>)
        ensures
            ({
                let segs = path_segments(self.path@);
                &&& r is Ok <==> segs.len() > 0
                &&& r matches Ok(resp) ==> resp.status == 501 && resp.body@ == unimplemented_page(segs)
                &&& r matches Err(e) ==> render_failed(e, UNIMPLEMENTED_NAME@, segs.len() == 0)
            }),
    {
        let page = PathOnly::new(self.path.as_str());
        match render(Templates::Unimplemented(page)) {
            Ok(body) => Ok(Response { status: 501, body }),
            Err(e) => Err(
                ResponderError::new(UNIMPLEMENTED_NAME, RENDER_ERROR).with_error(Cause::Render(e)),
            ),
        }
    }
}

/// An entry of a directory, as the filesystem names it.
pub enum ChildName {
    /// A name that is valid text.
    Text(String),
    /// A name that is not valid text.
    NotText,
}

/// Every name is valid text.
pub open spec fn all_text(c: Seq<ChildName>) -> bool {
    forall|i: int| 0 <= i < c.len() ==> (#[trigger] c[i]) is Text
}

/// The text of each name.
pub open spec fn child_names(c: Seq<ChildName>) -> Seq<Seq<char>> {
    c.map_values(
        |x: ChildName|
            match x {
                ChildName::Text(s) => s@,
                ChildName::NotText => seq![],
            },
    )
}

/// The name of the directory responder.
pub const DIRECTORY_NAME: &'static str = "directory";

/// The message of a directory that could not be read.
pub const LISTING_ERROR: &'static str = "Error reading the directory";

/// The message of an entry name that is not valid text.
pub const INVALID_NAME: &'static str = "Path is invalid utf-8 string";

/// Renders the listing of a directory.
pub struct DirectoryResponder {
    /// The request path, as shown.
    pub path: String,
    /// The served root.
    pub path_prefix: String,
}

impl PathWithPrefix for DirectoryResponder {
    open spec fn path_view(&self) -> Seq<char> {
        self.path@
    }

    open spec fn prefix_view(&self) -> Seq<char> {
        self.path_prefix@
    }

    fn get_path(&self) -> (r: &str) {
        self.path.as_str()
    }

    fn get_path_prefix(&self) -> (r: &str) {
        self.path_prefix.as_str()
    }
}

impl DirectoryResponder {
    pub fn new(path: &str, path_prefix: &str) -> (r: DirectoryResponder)
        ensures
            r.path@ == path@,
            r.path_prefix@ == path_prefix@,
    {
        DirectoryResponder { path: String::from_str(path), path_prefix: String::from_str(path_prefix) }
    }

    /// Status 200 with the listing of the directory, given what reading the
    /// directory at `self.prefixed_path()` gave. A read failure is kept as
    /// the cause of the error; an entry name that is not text fails.
    pub fn respond(&self, listing: Result<Vec<ChildName>, IoFailure>) -> (r: Result<Response, ResponderError>)
        ensures
            ({
                let segs = path_segments(self.path@);
                match listing {
                    Err(f) => r matches Err(e) && e.responder@ == DIRECTORY_NAME@ && e.message@
                        == LISTING_ERROR@ && e.error == Some(Box::new(Cause::Io(f))),
                    Ok(c) => if !all_text(c@) {
                        r matches Err(e) && e.responder@ == DIRECTORY_NAME@ && e.message@
                            == INVALID_NAME@ && e.error is None
                    } else {
                        let page = directory_page(segs, child_names(c@));
                        &&& r is Ok <==> segs.len() > 0
                        &&& r matches Ok(resp) ==> resp.status == 200 && resp.body@ == page
                        &&& r matches Err(e) ==> render_failed(e, DIRECTORY_NAME@, segs.len() == 0)
                    },
                }
            }),
    {
        let children = match listing {
            Err(f) => {
                return Err(ResponderError::new(DIRECTORY_NAME, LISTING_ERROR).with_error(Cause::Io(f)));
            },
            Ok(c) => c,
        };
        assert(listing == Ok::<Vec<ChildName>, IoFailure>(children));
        let mut names: Vec<String> = Vec::new();
        let mut i: usize = 0;
        while i < children.len()
            invariant
                listing == Ok::<Vec<ChildName>, IoFailure>(children),
                i <= children@.len(),
                all_text(children@.take(i as int)),
                views(names@) == child_names(children@.take(i as int)),
            decreases children@.len() - i,
        {
            match &children[i] {
                ChildName::Text(s) => {
                    let ghost before = names@;
                    names.push(s.clone());
                    assert(children@.take(i + 1) =~= children@.take(i as int).push(children@[i as int]));
                    assert(views(names@) =~= views(before).push(s@));
                    assert(views(names@) =~= child_names(children@.take(i + 1)));
                },
                ChildName::NotText => {
                    assert(!(children@[i as int] is Text));
                    assert(!all_text(children@));
                    return Err(ResponderError::new(DIRECTORY_NAME, INVALID_NAME));
                },
            }
            i = i + 1;
        }
        assert(children@.take(children@.len() as int) =~= children@);
        let page = Directory::new(self.path.as_str(), names);
        match render(Templates::Directory(page)) {
            Ok(body) => Ok(Response { status: 200, body }),
            Err(e) => Err(ResponderError::new(DIRECTORY_NAME, RENDER_ERROR).with_error(Cause::Render(e))),
        }
    }
}

} // verus!
