//! The entry point: picks the responder for what the request path resolves
//! to, and maps the failures of responders to responses.

use crate::paths::path_segments;
use crate::responders::{
    all_text, child_names, error_text, run_responder, Cause, ChildName, DirectoryResponder,
    IoErrorKind, IoFailure, NotFoundResponder, PathWithPrefix, ResponderError, Response,
    UnimplementedResponder, DIRECTORY_NAME, ERROR_OCCURRED, INVALID_NAME, NOT_FOUND_NAME,
    RENDER_ERROR,
};
use crate::helpers::{breadcrumbs_html, entries_html, entry_html, entry_in_listing};
use crate::templating::{
    directory_page, listing_html, not_found_page, trail_html, unimplemented_page,
    DIRECTORY_AFTER, DIRECTORY_BEFORE, EMPTY_PATH_MESSAGE, NOT_FOUND_AFTER, NOT_FOUND_BEFORE,
};
use vstd::prelude::*;

verus! {

/// What the filesystem said of the candidate path.
///
/// Requests are not confined to the served root: a `..` segment or a
/// symbolic link may resolve outside it, and what it resolves to is served
/// like any other entry. Confinement is a policy this index leaves to its
/// deployment (a root without links that leave it, behind a proxy that
/// normalises paths); the dispatcher decides only on what the lookup found.
pub enum Lookup {
    /// Resolving the path failed.
    Unresolved(IoFailure),
    /// The path is a directory; the outcome of reading its entries.
    Directory(Result<Vec<ChildName>, IoFailure>),
    /// The path is an entry other than a directory.
    NotDirectory,
}

/// The start of the body of a failure that the dispatcher reports itself.
pub const DISPATCH_ERROR: &'static str = "Error dispatching request: ";

/// The start of the body of a filesystem failure beneath a responder error.
pub const IO_ERROR: &'static str = "Unknown IO Error: ";

/// The start of the body of any other failure beneath a responder error.
pub const OTHER_ERROR: &'static str = "Unknown error: ";

/// `r` is the not-found response for the path with segments `segs`.
pub open spec fn not_found_response(segs: Seq<Seq<char>>, r: Response) -> bool {
    if segs.len() == 0 {
        r.status == 500 && r.body@ == ERROR_OCCURRED@ + error_text(
            NOT_FOUND_NAME@,
            RENDER_ERROR@,
            Some(EMPTY_PATH_MESSAGE@),
        )
    } else {
        r.status == 404 && r.body@ == not_found_page(segs)
    }
}

/// `r` carries `page` with `status`; for a path without segments, which has
/// no breadcrumb trail, a failure beneath the dispatcher.
pub open spec fn page_response(segs: Seq<Seq<char>>, page: Seq<char>, status: u16, r: Response) -> bool {
    if segs.len() == 0 {
        r.status == 500 && r.body@ == OTHER_ERROR@ + EMPTY_PATH_MESSAGE@
    } else {
        r.status == status && r.body@ == page
    }
}

/// The response to a request path with segments `segs`, given what the
/// filesystem said of its candidate path.
pub open spec fn dispatch_response(segs: Seq<Seq<char>>, lookup: Lookup, r: Response) -> bool {
    match lookup {
        Lookup::Unresolved(f) => if f.kind == IoErrorKind::NotFound {
            not_found_response(segs, r)
        } else {
            r.status == 500 && r.body@ == DISPATCH_ERROR@ + f.text@
        },
        Lookup::Directory(Err(f)) => if f.kind == IoErrorKind::NotFound {
            not_found_response(segs, r)
        } else {
            r.status == 500 && r.body@ == IO_ERROR@ + f.text@
        },
        Lookup::Directory(Ok(c)) => if all_text(c@) {
            page_response(segs, directory_page(segs, child_names(c@)), 200, r)
        } else {
            r.status == 500 && r.body@ == DISPATCH_ERROR@ + error_text(
                DIRECTORY_NAME@,
                INVALID_NAME@,
                None,
            )
        },
        Lookup::NotDirectory => page_response(segs, unimplemented_page(segs), 501, r),
    }
}

/// A directory whose entries all have text names is answered with 200, and
/// its page holds, at the place of each entry, one link whose target is the
/// encoded path of the entry and whose text is its raw name: the links of
/// the entries before it come first, those of the entries after it follow.
pub proof fn directory_lists_every_entry(
    segs: Seq<Seq<char>>,
    children: Vec<ChildName>,
    r: Response,
    i: int,
)
    requires
        segs.len() > 0,
        all_text(children@),
        dispatch_response(segs, Lookup::Directory(Ok(children)), r),
        0 <= i < children@.len(),
    ensures
        r.status == 200,
        ({
            let names = child_names(children@);
            r.body@ == DIRECTORY_BEFORE@ + trail_html(segs) + "<div class=\"entries\">"@
                + entries_html(segs, names.take(i)) + entry_html(segs, names[i]) + entries_html(
                segs,
                names.skip(i + 1),
            ) + "</div>"@ + DIRECTORY_AFTER@
        }),
{
    let names = child_names(children@);
    entry_in_listing(segs, names, i);
    assert(directory_page(segs, names) =~= DIRECTORY_BEFORE@ + trail_html(segs)
        + "<div class=\"entries\">"@ + entries_html(segs, names.take(i)) + entry_html(segs, names[i])
        + entries_html(segs, names.skip(i + 1)) + "</div>"@ + DIRECTORY_AFTER@);
}

/// A path with no entry is answered with 404 and the not-found page, whose
/// trail is made of the segments of the request path.
pub proof fn missing_entry_is_not_found(segs: Seq<Seq<char>>, f: IoFailure, r: Response)
    requires
        f.kind == IoErrorKind::NotFound,
        segs.len() > 0,
        dispatch_response(segs, Lookup::Unresolved(f), r),
    ensures
        r.status == 404,
        r.body@ == not_found_page(segs),
        not_found_page(segs) == NOT_FOUND_BEFORE@ + "<ul class=\"breadcrumbs\">"@ + breadcrumbs_html(segs)
            + "</ul>\n"@ + NOT_FOUND_AFTER@,
{
}

/// An entry other than a directory is answered with 501.
pub proof fn non_directory_is_unimplemented(segs: Seq<Seq<char>>, r: Response)
    requires
        segs.len() > 0,
        dispatch_response(segs, Lookup::NotDirectory, r),
    ensures
        r.status == 501,
        r.body@ == unimplemented_page(segs),
{
}

/// An entry name that is not text fails the directory responder, and the
/// failure is answered with 500, never with the not-found page.
pub proof fn non_text_name_is_not_downgraded(
    segs: Seq<Seq<char>>,
    children: Vec<ChildName>,
    r: Response,
)
    requires
        !all_text(children@),
        dispatch_response(segs, Lookup::Directory(Ok(children)), r),
    ensures
        r.status == 500,
        r.body@ == DISPATCH_ERROR@ + error_text(DIRECTORY_NAME@, INVALID_NAME@, None),
{
}

fn generic_error_response(text: &str) -> (r: Response)
    ensures
        r.status == 500,
        r.body@ == DISPATCH_ERROR@ + text@,
{
    let mut body = String::from_str(DISPATCH_ERROR);
    body.append(text);
    Response { status: 500, body }
}

/// Resolves a request path against the served root.
pub struct Dispatcher {
    /// The request path.
    pub path: String,
    /// The served root.
    pub prefix_path: String,
}

impl PathWithPrefix for Dispatcher {
    open spec fn path_view(&self) -> Seq<char> {
        self.path@
    }

    open spec fn prefix_view(&self) -> Seq<char> {
        self.prefix_path@
    }

    fn get_path(&self) -> (r: &str) {
        self.path.as_str()
    }

    fn get_path_prefix(&self) -> (r: &str) {
        self.prefix_path.as_str()
    }
}

impl Dispatcher {
    pub fn new(path: &str, prefix_path: &str) -> (r: Dispatcher)
        ensures
            r.path@ == path@,
            r.prefix_path@ == prefix_path@,
    {
        Dispatcher { path: String::from_str(path), prefix_path: String::from_str(prefix_path) }
    }

    fn not_found(&self) -> (r: Response)
        ensures
            not_found_response(path_segments(self.path@), r),
    {
        let full = self.prefixed_path();
        let responder = NotFoundResponder::new(self.path.as_str(), full.as_str());
        let outcome = responder.respond();
        proof {
            if outcome is Err {
                let e = outcome->Err_0;
                let c = *e.error->Some_0;
                assert(c is Render);
            }
        }
        run_responder(outcome)
    }

    /// The response to a failure beneath a responder error: a missing
    /// entry becomes the not-found page, any other failure a 500.
    fn convert_error(&self, cause: Cause) -> (r: Response)
        ensures
            match cause {
                Cause::Io(f) => if f.kind == IoErrorKind::NotFound {
                    not_found_response(path_segments(self.path@), r)
                } else {
                    r.status == 500 && r.body@ == IO_ERROR@ + f.text@
                },
                Cause::Render(f) => r.status == 500 && r.body@ == OTHER_ERROR@ + f.spec_text(),
            },
    {
        match cause {
            Cause::Io(f) => {
                if f.kind == IoErrorKind::NotFound {
                    self.not_found()
                } else {
                    let mut body = String::from_str(IO_ERROR);
                    body.append(f.text.as_str());
                    Response { status: 500, body }
                }
            },
            Cause::Render(f) => {
                let mut body = String::from_str(OTHER_ERROR);
                let t = f.text();
                body.append(t.as_str());
                Response { status: 500, body }
            },
        }
    }

    /// The response to a failed responder: by the failure beneath it, where
    /// there is one.
    pub fn error_map(&self, err: ResponderError) -> (r: Response)
        ensures
            match err.error {
                Some(c) => match *c {
                    Cause::Io(f) => if f.kind == IoErrorKind::NotFound {
                        not_found_response(path_segments(self.path@), r)
                    } else {
                        r.status == 500 && r.body@ == IO_ERROR@ + f.text@
                    },
                    Cause::Render(f) => r.status == 500 && r.body@ == OTHER_ERROR@ + f.spec_text(),
                },
                None => r.status == 500 && r.body@ == DISPATCH_ERROR@ + err.spec_text(),
            },
    {
        match err.error {
            Some(c) => self.convert_error(*c),
            None => {
                let t = err.text();
                generic_error_response(t.as_str())
            },
        }
    }

    /// The response to the request, given what the filesystem said of
    /// `self.prefixed_path()`.
    pub fn respond(&self, lookup: Lookup) -> (r: Response)
        ensures
            dispatch_response(path_segments(self.path@), lookup, r),
    {
        match lookup {
            Lookup::Unresolved(f) => {
                if f.kind == IoErrorKind::NotFound {
                    self.not_found()
                } else {
                    generic_error_response(f.text.as_str())
                }
            },
            Lookup::Directory(listing) => {
                let responder = DirectoryResponder::new(
                    self.path.as_str(),
                    self.prefix_path.as_str(),
                );
                match responder.respond(listing) {
                    Ok(resp) => resp,
                    Err(e) => self.error_map(e),
                }
            },
            Lookup::NotDirectory => {
                let responder = UnimplementedResponder::new(self.path.as_str());
                match responder.respond() {
                    Ok(resp) => resp,
                    Err(e) => self.error_map(e),
                }
            },
        }
    }
}

/// The response to `request_path` under the served root, given what the
/// filesystem said of its candidate path.
pub fn dispatch(request_path: &str, root_path: &str, lookup: Lookup) -> (r: Response)
    ensures
        dispatch_response(path_segments(request_path@), lookup, r),
{
    Dispatcher::new(request_path, root_path).respond(lookup)
}

} // verus!
