use hugo_server::cache::cache_control_value;
use hugo_server::paths::{join_path, path_has_parent, path_is_valid};

#[test]
fn plain_names_are_valid() {
    assert!(path_is_valid("report.pdf"));
    assert!(path_is_valid("a"));
    assert!(path_is_valid("a/"));
    assert!(path_is_valid("a/./"));
    assert!(path_is_valid("résumé.txt"));
}

#[test]
fn paths_that_leave_or_nest_are_invalid() {
    assert!(!path_is_valid(""));
    assert!(!path_is_valid("/etc/passwd"));
    assert!(!path_is_valid("../secret"));
    assert!(!path_is_valid(".."));
    assert!(!path_is_valid("."));
    assert!(!path_is_valid("./a"));
    assert!(!path_is_valid("a/b"));
    assert!(!path_is_valid("a/.."));
    assert!(!path_is_valid("//"));
}

#[test]
fn join_follows_pathbuf_push() {
    assert_eq!(join_path("/srv", "blog"), "/srv/blog");
    assert_eq!(join_path("/srv/", "blog"), "/srv/blog");
    assert_eq!(join_path("", "blog"), "blog");
    assert_eq!(join_path("/srv", "/etc/key.pem"), "/etc/key.pem");
    assert_eq!(join_path("/srv", ""), "/srv/");
}

#[test]
fn parents_exist_below_the_root() {
    assert!(path_has_parent("/srv/site"));
    assert!(path_has_parent("site"));
    assert!(!path_has_parent("/"));
    assert!(!path_has_parent(""));
}

#[test]
fn pages_and_directories_are_revalidated() {
    assert_eq!(cache_control_value("/index.html"), "no-cache");
    assert_eq!(cache_control_value("/posts/"), "no-cache");
    assert_eq!(cache_control_value("/posts/hello"), "no-cache");
    assert_eq!(cache_control_value("/"), "no-cache");
}

#[test]
fn assets_are_cached_for_a_day() {
    assert_eq!(cache_control_value("/css/style.css"), "public, max-age=86400");
    assert_eq!(cache_control_value("/img/logo.png"), "public, max-age=86400");
    assert_eq!(cache_control_value("/index.htm"), "public, max-age=86400");
}
