use sync_stores::error::ErrorKind;
use sync_stores::paths::{
    ensure_url_path, memory_db_name, normalize_path, normalize_path_next, unurl_path,
    NormalizeStep,
};

#[test]
fn file_urls_become_paths() {
    assert_eq!(unurl_path("file:///tmp/places.db"), "/tmp/places.db");
    assert_eq!(unurl_path("file:///tmp/with%20space.db"), "/tmp/with space.db");
    assert_eq!(unurl_path("file://localhost/tmp/places.db"), "/tmp/places.db");
}

#[test]
fn other_names_stay_as_they_are() {
    assert_eq!(unurl_path("/tmp/places.db"), "/tmp/places.db");
    assert_eq!(unurl_path("places.db"), "places.db");
    assert_eq!(unurl_path("../places.db"), "../places.db");
    assert_eq!(unurl_path("http://example.com/places.db"), "http://example.com/places.db");
    assert_eq!(unurl_path("file://example.com/places.db"), "file://example.com/places.db");
    assert_eq!(unurl_path(""), "");
}

#[test]
fn paths_become_file_urls() {
    assert_eq!(ensure_url_path("/tmp/places.db"), Ok("file:///tmp/places.db".to_string()));
    assert_eq!(
        ensure_url_path("/tmp/with space.db"),
        Ok("file:///tmp/with%20space.db".to_string())
    );
    assert_eq!(ensure_url_path("file:///tmp/places.db"), Ok("file:///tmp/places.db".to_string()));
    assert_eq!(ensure_url_path("file:/tmp/places.db"), Ok("file:///tmp/places.db".to_string()));
}

#[test]
fn relative_paths_and_other_schemes_are_illegal() {
    assert_eq!(
        ensure_url_path("places.db"),
        Err(ErrorKind::IllegalPath("places.db".to_string()))
    );
    assert_eq!(
        ensure_url_path("../places.db"),
        Err(ErrorKind::IllegalPath("../places.db".to_string()))
    );
    assert_eq!(
        ensure_url_path("http://example.com/places.db"),
        Err(ErrorKind::IllegalPath("http://example.com/places.db".to_string()))
    );
}

#[test]
fn memory_names() {
    assert_eq!(memory_db_name("test-api-0"), "file:test-api-0?mode=memory&cache=shared");
    assert_eq!(memory_db_name(""), "file:?mode=memory&cache=shared");
}

#[test]
fn existing_path_is_done_with_its_canonical_form() {
    let step = normalize_path("file:///tmp/places.db");
    assert_eq!(step, NormalizeStep::Canonicalize("/tmp/places.db".to_string()));
    assert_eq!(
        normalize_path_next(step, Some("/private/tmp/places.db".to_string())),
        NormalizeStep::Done("/private/tmp/places.db".to_string())
    );
}

#[test]
fn new_path_goes_through_its_parent() {
    let step = normalize_path("/tmp/sub/../places.db");
    assert_eq!(step, NormalizeStep::Canonicalize("/tmp/sub/../places.db".to_string()));
    let step = normalize_path_next(step, None);
    assert_eq!(
        step,
        NormalizeStep::CanonicalizeParent {
            path: "/tmp/sub/../places.db".to_string(),
            parent: "/tmp/sub/..".to_string(),
            file_name: "places.db".to_string(),
        }
    );
    assert_eq!(
        normalize_path_next(step, Some("/private/tmp".to_string())),
        NormalizeStep::Done("/private/tmp/places.db".to_string())
    );
}

#[test]
fn missing_parent_is_illegal() {
    let step = normalize_path_next(normalize_path("/nowhere/places.db"), None);
    assert!(matches!(step, NormalizeStep::CanonicalizeParent { .. }));
    assert_eq!(
        normalize_path_next(step, None),
        NormalizeStep::Failed(ErrorKind::IllegalPath("/nowhere/places.db".to_string()))
    );
}

#[test]
fn paths_without_file_name_or_parent_are_illegal() {
    assert_eq!(
        normalize_path_next(normalize_path("/tmp/.."), None),
        NormalizeStep::Failed(ErrorKind::IllegalPath("/tmp/..".to_string()))
    );
    assert_eq!(
        normalize_path_next(normalize_path("/"), None),
        NormalizeStep::Failed(ErrorKind::IllegalPath("/".to_string()))
    );
    assert_eq!(
        normalize_path_next(normalize_path(""), None),
        NormalizeStep::Failed(ErrorKind::IllegalPath("".to_string()))
    );
}

#[test]
fn bare_file_name_is_looked_for_in_the_current_directory() {
    let step = normalize_path_next(normalize_path("places.db"), None);
    assert_eq!(
        step,
        NormalizeStep::CanonicalizeParent {
            path: "places.db".to_string(),
            parent: ".".to_string(),
            file_name: "places.db".to_string(),
        }
    );
    assert_eq!(
        normalize_path_next(step, Some("/home/user".to_string())),
        NormalizeStep::Done("/home/user/places.db".to_string())
    );
}

#[test]
fn file_name_in_a_directory_keeps_its_parent() {
    assert_eq!(
        normalize_path_next(normalize_path("data/places.db"), None),
        NormalizeStep::CanonicalizeParent {
            path: "data/places.db".to_string(),
            parent: "data".to_string(),
            file_name: "places.db".to_string(),
        }
    );
}

#[test]
fn finished_steps_stay() {
    let done = NormalizeStep::Done("/a".to_string());
    assert_eq!(normalize_path_next(done.clone(), Some("/b".to_string())), done);
    let failed = NormalizeStep::Failed(ErrorKind::IllegalPath("x".to_string()));
    assert_eq!(normalize_path_next(failed.clone(), None), failed);
}
