use fs_more::directory::join_relative_source_path_onto_destination;
use fs_more::path::{components, join_paths, paths_are_equal, path_starts_with_base, strip_path_prefix};

#[test]
fn properly_rejoin_source_subpath_onto_target() {
    let root_a = "/hello/there";
    let foo = "/hello/there/some/content";
    let root_b = "/different/root";

    assert_eq!(
        join_relative_source_path_onto_destination(root_a, foo, root_b).unwrap(),
        "/different/root/some/content",
        "rejoin_source_subpath_onto_target did not rejoin the path properly."
    );

    let foo = "/foo";
    let foo_hello_world = "/foo/abc/hello-world.txt";
    let bar = "/bar";

    assert_eq!(
        join_relative_source_path_onto_destination(foo, foo_hello_world, bar).unwrap(),
        "/bar/abc/hello-world.txt"
    );
}

#[test]
fn error_on_subpath_not_being_under_source_root() {
    let root_a = "/hello/there";
    let foo = "/completely/different/path";
    let root_b = "/different/root";

    let rejoin_result = join_relative_source_path_onto_destination(root_a, foo, root_b);

    assert!(
        rejoin_result.is_err(),
        "rejoin_source_subpath_onto_target did not return Err when \
        the source path to rejoin wasn't under the source root path"
    );
}

#[test]
fn rejoining_the_source_root_itself_gives_the_target_root() {
    assert_eq!(
        join_relative_source_path_onto_destination("/hello/there", "/hello/there", "/different/root").unwrap(),
        "/different/root"
    );
}

#[test]
fn rejoin_error_names_the_offending_path_joined_onto_the_base() {
    let error = join_relative_source_path_onto_destination("/hello/there", "relative/path", "/target").unwrap_err();
    assert_eq!(error.path, "/hello/there/relative/path");
}

#[test]
fn path_prefix_is_component_wise() {
    assert!(path_starts_with_base("/a/b/c", "/a/b"));
    assert!(path_starts_with_base("/a/b", "/a/b"));
    assert!(!path_starts_with_base("/a/bc", "/a/b"));
    assert!(!path_starts_with_base("/a", "/a/b"));
}

#[test]
fn equal_paths_ignore_redundant_separators_and_current_directory_components() {
    assert!(paths_are_equal("/a//b/", "/a/b"));
    assert!(paths_are_equal("/a/./b", "/a/b"));
    assert!(!paths_are_equal("/a/b", "a/b"));
}

#[test]
fn stripping_a_prefix_leaves_the_remaining_components() {
    assert_eq!(strip_path_prefix("/a/b/c/d", "/a/b").unwrap(), "c/d");
    assert_eq!(strip_path_prefix("/a/b", "/a/b").unwrap(), "");
    assert!(strip_path_prefix("/x/b", "/a").is_none());
}

#[test]
fn joining_follows_path_push_rules() {
    assert_eq!(join_paths("/a", "b"), "/a/b");
    assert_eq!(join_paths("/a/", "b"), "/a/b");
    assert_eq!(join_paths("/a", "/b"), "/b");
    assert_eq!(join_paths("", "b"), "b");
}

#[test]
fn components_keep_the_root_and_drop_empty_pieces() {
    assert_eq!(components("/a//b/./c"), vec!["/".to_string(), "a".to_string(), "b".to_string(), "c".to_string()]);
    assert_eq!(components("./a"), vec![".".to_string(), "a".to_string()]);
}

#[test]
fn a_rejoined_path_lies_under_the_target_root() {
    let rejoined = join_relative_source_path_onto_destination("/src/root", "/src/root/a/b.txt", "/dst").unwrap();
    assert_eq!(rejoined, "/dst/a/b.txt");
    assert!(path_starts_with_base(&rejoined, "/dst"));

    let rejoined = join_relative_source_path_onto_destination("/src", "/src/x", "relative/dst/").unwrap();
    assert_eq!(rejoined, "relative/dst/x");
    assert!(path_starts_with_base(&rejoined, "relative/dst/"));
}

#[test]
fn rejoining_back_gives_the_sub_path_again() {
    let there = join_relative_source_path_onto_destination("/src/root", "/src/root/a/b.txt", "/dst").unwrap();
    let back = join_relative_source_path_onto_destination("/dst", &there, "/src/root").unwrap();
    assert_eq!(back, "/src/root/a/b.txt");

    let there = join_relative_source_path_onto_destination("/src/root", "/src/root", "/dst").unwrap();
    assert_eq!(join_relative_source_path_onto_destination("/dst", &there, "/src/root").unwrap(), "/src/root");

    let there = join_relative_source_path_onto_destination("", "a/b", "/dst").unwrap();
    assert_eq!(there, "/dst/a/b");
    assert_eq!(join_relative_source_path_onto_destination("/dst", &there, "").unwrap(), "a/b");

    let there = join_relative_source_path_onto_destination("/src", "/src/a", "").unwrap();
    assert_eq!(there, "a");
    assert_eq!(join_relative_source_path_onto_destination("", &there, "/src").unwrap(), "/src/a");
}
