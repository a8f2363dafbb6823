use static_media_server::helpers::{breadcrumbs, file_entries};
use static_media_server::paths::{path_to_slice, prefixed_path};
use static_media_server::responders::{
    run_responder, ChildName, DirectoryResponder, NotFoundResponder, UnimplementedResponder,
};
use static_media_server::templating::{
    render, Directory, PathOnly, RenderFailure, Templates, DIRECTORY_AFTER, DIRECTORY_BEFORE,
    DIRECTORY_TEMPLATE, NOT_FOUND_AFTER, NOT_FOUND_BEFORE, NOT_FOUND_TEMPLATE,
    UNIMPLEMENTED_AFTER, UNIMPLEMENTED_BEFORE, UNIMPLEMENTED_TEMPLATE,
};

fn strings(v: &[&str]) -> Vec<String> {
    v.iter().map(|s| s.to_string()).collect()
}

#[test]
fn segments_of_paths() {
    assert_eq!(path_to_slice("/docs/a"), strings(&["/", "docs", "a"]));
    assert_eq!(path_to_slice("docs//a/./b/"), strings(&["docs", "a", "b"]));
    assert_eq!(path_to_slice("/"), strings(&["/"]));
    assert_eq!(path_to_slice("/../x"), strings(&["/", "..", "x"]));
    assert!(path_to_slice("").is_empty());
}

#[test]
fn leading_dot_is_kept() {
    assert_eq!(path_to_slice("./a"), strings(&[".", "a"]));
    assert_eq!(path_to_slice("."), strings(&["."]));
    assert_eq!(path_to_slice("./"), strings(&["."]));
    assert_eq!(path_to_slice("a/./b"), strings(&["a", "b"]));
    assert_eq!(path_to_slice(".a/b"), strings(&[".a", "b"]));
    assert_eq!(path_to_slice("/./a"), strings(&["/", "a"]));
}

#[test]
fn templates_are_text_around_one_slot() {
    for (template, before, after) in [
        (DIRECTORY_TEMPLATE, DIRECTORY_BEFORE, DIRECTORY_AFTER),
        (NOT_FOUND_TEMPLATE, NOT_FOUND_BEFORE, NOT_FOUND_AFTER),
        (UNIMPLEMENTED_TEMPLATE, UNIMPLEMENTED_BEFORE, UNIMPLEMENTED_AFTER),
    ] {
        assert_eq!(template, format!("{}{{{{{{content}}}}}}{}", before, after));
        assert!(!before.contains('{') && !before.contains('\\'));
        assert!(!after.contains('{') && !after.contains('\\'));
    }
}

#[test]
fn page_is_template_text_around_content() {
    let page = render(Templates::NotFound(PathOnly::new("m"))).ok().unwrap();
    let expected = format!(
        "{}<ul class=\"breadcrumbs\"><li class=\"crumb\">m</li></ul>\n{}",
        NOT_FOUND_BEFORE, NOT_FOUND_AFTER
    );
    assert_eq!(page, expected);
}

#[test]
fn candidate_paths() {
    assert_eq!(prefixed_path("/docs", "/srv/www"), "/srv/www/docs");
    assert_eq!(prefixed_path("docs", "/srv/www"), "/srv/www/docs");
    assert_eq!(prefixed_path("", "/srv/www"), "/srv/www");
}

#[test]
fn trail_of_three_segments() {
    let b = breadcrumbs(&strings(&["a", "b", "c"])).unwrap();
    assert_eq!(
        b,
        "<li class=\"crumb\"><a href=\"a\">a</a></li><li class=\"crumb\"><a href=\"a/b\">b</a></li><li class=\"crumb\">c</li>"
    );
}

#[test]
fn trail_under_root() {
    let b = breadcrumbs(&path_to_slice("/x/y")).unwrap();
    assert_eq!(
        b,
        "<li class=\"crumb\"><a href=\"/\">/</a></li><li class=\"crumb\"><a href=\"/x\">x</a></li><li class=\"crumb\">y</li>"
    );
    assert!(breadcrumbs(&vec![]).is_none());
}

#[test]
fn entries_are_encoded() {
    let e = file_entries(&path_to_slice("/a b"), &strings(&["c d", "e"]));
    assert_eq!(e, "<a href=\"a%20b/c%20d\">c d</a><br/><a href=\"a%20b/e\">e</a><br/>");
}

#[test]
fn render_each_kind() {
    let p = render(Templates::NotFound(PathOnly::new("/m"))).ok().unwrap();
    assert!(p.contains("<li class=\"crumb\">m</li>"));
    let p = render(Templates::Unimplemented(PathOnly::new("/f"))).ok().unwrap();
    assert!(p.contains("<li class=\"crumb\">f</li>"));
    let d = Directory::new("/", strings(&["k"]));
    let p = render(Templates::Directory(d)).ok().unwrap();
    assert!(p.contains("<a href=\"k\">k</a><br/>"));
    match render(Templates::NotFound(PathOnly::new(""))) {
        Err(RenderFailure::EmptyPath) => {}
        _ => panic!("an empty path must not render"),
    }
}

#[test]
fn responders_give_their_status() {
    let r = run_responder(NotFoundResponder::new("/m", "/srv/www/m").respond());
    assert_eq!(r.status, 404);
    let r = run_responder(UnimplementedResponder::new("/f").respond());
    assert_eq!(r.status, 501);
    let d = DirectoryResponder::new("/d", "/srv/www");
    let r = run_responder(d.respond(Ok(vec![ChildName::Text("z".to_string())])));
    assert_eq!(r.status, 200);
    assert!(r.body.contains("<a href=\"d/z\">z</a>"));
    let r = run_responder(d.respond(Ok(vec![ChildName::NotText])));
    assert_eq!(r.status, 500);
    assert!(r.body.starts_with("An error occurred\n"));
}

#[test]
fn reordered_segments_give_another_trail() {
    let abc = breadcrumbs(&strings(&["a", "b", "c"])).unwrap();
    let bac = breadcrumbs(&strings(&["b", "a", "c"])).unwrap();
    let acb = breadcrumbs(&strings(&["a", "c", "b"])).unwrap();
    assert_ne!(abc, bac);
    assert_ne!(abc, acb);
    assert_ne!(bac, acb);
}
