use fs_more::harness::schema::{
    BrokenSymlinkEntry, DirectoryEntry, FileDataConfiguration, FileEntry, FileSystemHarnessEntry,
    FileSystemHarnessSchema, FileSystemHarnessStructure, SymlinkDestinationType, SymlinkEntry,
};
use fs_more::harness::tree_format::{file_data_description, format_entry_line, format_tree_structure_as_string, sized_data_description};

fn file(name: &str, data: Option<FileDataConfiguration>) -> FileSystemHarnessEntry {
    FileSystemHarnessEntry::File(FileEntry { name: name.to_string(), id: None, data })
}

fn sample_schema() -> FileSystemHarnessSchema {
    let directory = DirectoryEntry {
        name: "dir".to_string(),
        id: Some("d".to_string()),
        entries: Some(vec![
            file(
                "x.bin",
                Some(FileDataConfiguration::DeterministicRandom { seed: 7, file_size_bytes: 1536 }),
            ),
            FileSystemHarnessEntry::Symlink(SymlinkEntry {
                name: "link".to_string(),
                id: None,
                destination_entry_id: "d".to_string(),
            }),
            FileSystemHarnessEntry::BrokenSymlink(BrokenSymlinkEntry {
                name: "broken".to_string(),
                id: Some("b".to_string()),
                destination_relative_path: "../nowhere".to_string(),
                destination_type: SymlinkDestinationType::File,
            }),
            FileSystemHarnessEntry::Directory(DirectoryEntry {
                name: "empty".to_string(),
                id: None,
                entries: Some(vec![]),
            }),
        ]),
    };
    FileSystemHarnessSchema {
        name: "sample".to_string(),
        file_name: "sample.rs".to_string(),
        description: None,
        structure: FileSystemHarnessStructure {
            entries: vec![
                file("a.txt", Some(FileDataConfiguration::Text { content: "hello".to_string() })),
                FileSystemHarnessEntry::Directory(directory),
                file("e", None),
            ],
        },
    }
}

#[test]
fn tree_structure_is_drawn_depth_first_with_sizes_and_ids() {
    let expected = "```md\n\
        .\n\
        |-> a.txt (text data, 5 B)\n\
        |-- dir [ID \"d\"]\n\
        |   |-- empty\n\
        |   |-> broken (broken symlink to \"../nowhere\") [ID \"b\"]\n\
        |   |-> link (symlink to \"d\")\n\
        |   |-> x.bin (binary data, 1.50 KiB)\n\
        |-> e (empty)\n\
        ```";
    assert_eq!(format_tree_structure_as_string(&sample_schema()), expected);
}

#[test]
fn an_empty_tree_is_only_its_root() {
    let schema = FileSystemHarnessSchema {
        name: "nothing".to_string(),
        file_name: "nothing.rs".to_string(),
        description: Some("no entries".to_string()),
        structure: FileSystemHarnessStructure { entries: vec![] },
    };
    assert_eq!(format_tree_structure_as_string(&schema), "```md\n.\n```");
}

#[test]
fn data_descriptions_put_the_size_text_after_the_kind_of_data() {
    let text = Some(FileDataConfiguration::Text { content: "abc".to_string() });
    let random = Some(FileDataConfiguration::DeterministicRandom { seed: 1, file_size_bytes: 2048 });
    assert_eq!(sized_data_description(&text, "SIZE"), "text data, SIZE");
    assert_eq!(sized_data_description(&random, "SIZE"), "binary data, SIZE");
    assert_eq!(sized_data_description(&None, "SIZE"), "empty");
    assert_eq!(sized_data_description(&Some(FileDataConfiguration::Empty), "SIZE"), "empty");
}

#[test]
fn data_sizes_are_formatted_in_binary_units() {
    assert_eq!(
        file_data_description(&Some(FileDataConfiguration::DeterministicRandom { seed: 1, file_size_bytes: 2048 })),
        "binary data, 2 KiB"
    );
    // A text's size is its length in UTF-8 bytes.
    assert_eq!(
        file_data_description(&Some(FileDataConfiguration::Text { content: "é".to_string() })),
        "text data, 2 B"
    );
}

#[test]
fn entry_lines_are_indented_below_their_prefix() {
    let entry = file("f", Some(FileDataConfiguration::Empty));
    assert_eq!(format_entry_line(&entry, "|   |   "), "|   |   |-> f (empty)");
}
