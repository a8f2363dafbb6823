use static_media_server::dispatcher::{dispatch, Dispatcher, Lookup};
use static_media_server::paths::prefixed_path;
use static_media_server::responders::{
    Cause, ChildName, IoErrorKind, IoFailure, PathWithPrefix, ResponderError,
};
use static_media_server::templating::RenderFailure;

fn text(name: &str) -> ChildName {
    ChildName::Text(name.to_string())
}

fn io(kind: IoErrorKind, message: &str) -> IoFailure {
    IoFailure { kind, text: message.to_string() }
}

#[test]
fn directory_scenario_lists_both_files() {
    let lookup = Lookup::Directory(Ok(vec![text("a.txt"), text("b c.txt")]));
    let r = dispatch("/docs", "/srv/www", lookup);
    assert_eq!(r.status, 200);
    assert!(r.body.starts_with("<!DOCTYPE html>"));
    assert!(r.body.contains("<title>Index</title>"));
    assert!(r.body.contains("<a href=\"docs/a.txt\">a.txt</a>"));
    assert!(r.body.contains("<a href=\"docs/b%20c.txt\">b c.txt</a>"));
    assert!(r.body.contains("<li class=\"crumb\"><a href=\"/\">/</a></li><li class=\"crumb\">docs</li>"));
}

#[test]
fn missing_scenario_is_not_found() {
    let lookup = Lookup::Unresolved(io(IoErrorKind::NotFound, "No such file or directory"));
    let r = dispatch("/missing", "/srv/www", lookup);
    assert_eq!(r.status, 404);
    assert!(r.body.contains("<title>Not found</title>"));
    assert!(r.body.contains("<li class=\"crumb\">missing</li>"));
    assert!(!r.body.contains("<a href=\"/missing\">"));
}

#[test]
fn file_scenario_is_unimplemented() {
    let r = dispatch("/file.txt", "/srv/www", Lookup::NotDirectory);
    assert_eq!(r.status, 501);
    assert!(r.body.contains("<li class=\"crumb\">file.txt</li>"));
}

#[test]
fn listing_links_every_child_encoded() {
    let names = ["plain", "with space", "q?x", "ü", "a+b&c"];
    let lookup = Lookup::Directory(Ok(names.iter().map(|n| text(n)).collect()));
    let r = dispatch("/d/e f", "/srv/www", lookup);
    assert_eq!(r.status, 200);
    assert!(r.body.contains("<a href=\"d/e%20f/plain\">plain</a><br/>"));
    assert!(r.body.contains("<a href=\"d/e%20f/with%20space\">with space</a><br/>"));
    assert!(r.body.contains("<a href=\"d/e%20f/q%3Fx\">q?x</a><br/>"));
    assert!(r.body.contains("<a href=\"d/e%20f/%C3%BC\">ü</a><br/>"));
    assert!(r.body.contains("<a href=\"d/e%20f/a%2Bb%26c\">a+b&c</a><br/>"));
}

#[test]
fn root_listing_links_names_alone() {
    let lookup = Lookup::Directory(Ok(vec![text("x.txt")]));
    let r = dispatch("/", "/srv/www", lookup);
    assert_eq!(r.status, 200);
    assert!(r.body.contains("<a href=\"x.txt\">x.txt</a><br/>"));
    assert!(r.body.contains("<li class=\"crumb\">/</li>"));
}

#[test]
fn empty_directory_lists_nothing() {
    let r = dispatch("/empty", "/srv/www", Lookup::Directory(Ok(vec![])));
    assert_eq!(r.status, 200);
    assert!(!r.body.contains("<br/>"));
}

#[test]
fn non_text_child_is_a_server_error() {
    let lookup = Lookup::Directory(Ok(vec![text("a"), ChildName::NotText]));
    let r = dispatch("/docs", "/srv/www", lookup);
    assert_eq!(r.status, 500);
    assert_eq!(
        r.body,
        "Error dispatching request: The directory responder raised an error: Path is invalid utf-8 string"
    );
}

#[test]
fn listing_vanished_is_not_found() {
    let lookup = Lookup::Directory(Err(io(IoErrorKind::NotFound, "gone")));
    let r = dispatch("/docs", "/srv/www", lookup);
    assert_eq!(r.status, 404);
    assert!(r.body.contains("<li class=\"crumb\">docs</li>"));
}

#[test]
fn listing_denied_is_io_error() {
    let lookup = Lookup::Directory(Err(io(IoErrorKind::Other, "Permission denied")));
    let r = dispatch("/docs", "/srv/www", lookup);
    assert_eq!(r.status, 500);
    assert_eq!(r.body, "Unknown IO Error: Permission denied");
}

#[test]
fn unresolved_other_is_dispatch_error() {
    let lookup = Lookup::Unresolved(io(IoErrorKind::Other, "Permission denied"));
    let r = dispatch("/docs", "/srv/www", lookup);
    assert_eq!(r.status, 500);
    assert_eq!(r.body, "Error dispatching request: Permission denied");
}

#[test]
fn empty_request_path_cannot_render() {
    let r = dispatch("", "/srv/www", Lookup::NotDirectory);
    assert_eq!(r.status, 500);
    assert_eq!(r.body, "Unknown error: Path in `breadcrumbs` must not be empty");
    let r = dispatch("", "/srv/www", Lookup::Unresolved(io(IoErrorKind::NotFound, "x")));
    assert_eq!(r.status, 500);
    assert_eq!(
        r.body,
        "An error occurred\nThe not_found responder raised an error: render error\nWith child: Path in `breadcrumbs` must not be empty"
    );
}

#[test]
fn leading_separator_gives_same_candidate() {
    assert_eq!(prefixed_path("foo/bar", "/srv/www"), prefixed_path("/foo/bar", "/srv/www"));
    assert_eq!(prefixed_path("/foo/bar", "/srv/www"), "/srv/www/foo/bar");
    assert_eq!(prefixed_path("/", "/srv/www"), "/srv/www");
    assert_eq!(prefixed_path("a", "/srv/www/"), "/srv/www/a");
    let d = Dispatcher::new("/docs", "/srv/www");
    assert_eq!(d.prefixed_path(), "/srv/www/docs");
}

#[test]
fn error_map_downgrades_only_missing() {
    let d = Dispatcher::new("/docs", "/srv/www");
    let e = ResponderError::new("directory", "Error reading the directory")
        .with_error(Cause::Io(io(IoErrorKind::NotFound, "gone")));
    assert_eq!(d.error_map(e).status, 404);
    let e = ResponderError::new("directory", "Error reading the directory")
        .with_error(Cause::Io(io(IoErrorKind::Other, "busy")));
    let r = d.error_map(e);
    assert_eq!((r.status, r.body.as_str()), (500, "Unknown IO Error: busy"));
    let e = ResponderError::new("directory", "render error")
        .with_error(Cause::Render(RenderFailure::Engine("boom".to_string())));
    let r = d.error_map(e);
    assert_eq!((r.status, r.body.as_str()), (500, "Unknown error: boom"));
    let r = d.error_map(ResponderError::new("directory", "odd"));
    assert_eq!(
        (r.status, r.body.as_str()),
        (500, "Error dispatching request: The directory responder raised an error: odd")
    );
}

#[test]
fn responder_error_text_names_cause() {
    let e = ResponderError::new("not_found", "render error");
    assert_eq!(e.text(), "The not_found responder raised an error: render error");
    let e = e.with_error(Cause::Io(io(IoErrorKind::Other, "disk")));
    assert_eq!(
        e.text(),
        "The not_found responder raised an error: render error\nWith child: disk"
    );
}

#[test]
fn relative_dot_path_lists_directory() {
    let r = dispatch(".", "/srv/www", Lookup::Directory(Ok(vec![text("k")])));
    assert_eq!(r.status, 200);
    assert!(r.body.contains("<li class=\"crumb\">.</li>"));
    assert!(r.body.contains("<a href=\"./k\">k</a><br/>"));
}
