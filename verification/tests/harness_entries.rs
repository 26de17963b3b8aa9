use fs_more::harness::entry_names::{directory_entry_names, symlink_entry_names};
use fs_more::harness::registry::{PreparedEntryRegistry, TreeRegistryError};
use fs_more::harness::tree_generator::NameCollisionAvoider;

#[test]
fn directory_entries_are_named_from_their_dot_separated_chunks() {
    let mut avoider = NameCollisionAvoider::new_empty();
    let names = directory_entry_names("sub/dir", "foo.txt", &mut avoider);
    assert_eq!(names.struct_name, "FooTxt");
    assert_eq!(names.preferred_field_name, "foo_txt");
    assert_eq!(names.relative_path, "sub/dir/foo.txt");

    let again = directory_entry_names("", "foo.txt", &mut avoider);
    assert_eq!(again.struct_name, "FooTxt2");
    assert_eq!(again.preferred_field_name, "foo_txt");
    assert_eq!(again.relative_path, "foo.txt");

    let nested = directory_entry_names("a", "empty-dir", &mut avoider);
    assert_eq!(nested.struct_name, "EmptyDir");
    assert_eq!(nested.preferred_field_name, "empty_dir");
    assert_eq!(nested.relative_path, "a/empty-dir");
}

#[test]
fn symbolic_link_entries_are_named_from_their_dot_separated_chunks() {
    let mut avoider = NameCollisionAvoider::new_empty();
    let names = symlink_entry_names("upper", "my-link.txt", &mut avoider);
    assert_eq!(names.struct_name, "MyLinkTxt");
    assert_eq!(names.preferred_field_name, "my_link_txt");
    assert_eq!(names.relative_path, "upper/my-link.txt");

    let file = directory_entry_names("upper", "my-link.txt", &mut avoider);
    assert_eq!(file.struct_name, "MyLinkTxt2");
}

#[test]
fn entry_identifiers_are_registered_once() {
    let mut registry: PreparedEntryRegistry<u32> = PreparedEntryRegistry::new();
    assert!(registry.add_prepared_entry(Some("a".to_string()), 1).is_ok());
    assert!(registry.add_prepared_entry(None, 2).is_ok());
    assert!(registry.add_prepared_entry(Some("b".to_string()), 3).is_ok());
    match registry.add_prepared_entry(Some("a".to_string()), 4) {
        Err(TreeRegistryError::DuplicateEntryId { id }) => assert_eq!(id, "a"),
        other => panic!("unexpected result {:?}", other),
    }
    assert_eq!(registry.entry_by_id("a"), Some(&1));
    assert_eq!(registry.entry_by_id("b"), Some(&3));
    assert_eq!(registry.entry_by_id("c"), None);
}
