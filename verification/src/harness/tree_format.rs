//! A harness tree drawn as text, one entry per line, for the documentation of a harness.
use vstd::prelude::*;
use vstd::utf8::encode_utf8;

use super::schema::{FileDataConfiguration, FileSystemHarnessEntry, FileSystemHarnessSchema};
use crate::path::strings_view;

verus! {

/// The text `humansize::format_size` gives for a number of bytes, in binary (IEC) units.
pub uninterp spec fn binary_size_text(bytes: usize) -> Seq<char>;

/// Formats a number of bytes with `humansize::format_size` and its `BINARY` options.
///
/// Claimed of the outside function: its text depends on the number of bytes alone
/// (it is named, not stated).
#[verifier::external_body]
fn format_binary_size(bytes: usize) -> (r: String)
    ensures
        r@ == binary_size_text(bytes),
{
    humansize::format_size(bytes, humansize::BINARY)
}

/// The number of bytes whose size describes a file's data (none for an empty file).
pub open spec fn data_size(data: Option<FileDataConfiguration>) -> usize {
    match data {
        Some(FileDataConfiguration::Text { content }) => encode_utf8(content@).len() as usize,
        Some(FileDataConfiguration::DeterministicRandom { file_size_bytes, .. }) => file_size_bytes,
        _ => 0,
    }
}

/// The description of a file's data, given the text of its size.
pub open spec fn data_description_with(data: Option<FileDataConfiguration>, size_text: Seq<char>) -> Seq<char> {
    match data {
        Some(FileDataConfiguration::Text { .. }) => "text data, "@ + size_text,
        Some(FileDataConfiguration::DeterministicRandom { .. }) => "binary data, "@ + size_text,
        _ => "empty"@,
    }
}

/// The description of a file's data.
pub open spec fn data_description(data: Option<FileDataConfiguration>) -> Seq<char> {
    data_description_with(data, binary_size_text(data_size(data)))
}

/// The suffix that names an entry's identifier, if it has one.
pub open spec fn id_suffix(id: Option<String>) -> Seq<char> {
    match id {
        Some(id) => " [ID \""@ + id@ + "\"]"@,
        None => Seq::empty(),
    }
}

/// The marker before an entry's name: a branch for a directory, an arrow otherwise.
pub open spec fn entry_marker(entry: FileSystemHarnessEntry) -> Seq<char> {
    if entry is Directory {
        "|-- "@
    } else {
        "|-> "@
    }
}

/// What a line says of an entry.
pub open spec fn entry_label(entry: FileSystemHarnessEntry) -> Seq<char> {
    match entry {
        FileSystemHarnessEntry::File(f) => f.name@ + " ("@ + data_description(f.data) + ")"@ + id_suffix(f.id),
        FileSystemHarnessEntry::Directory(d) => d.name@ + id_suffix(d.id),
        FileSystemHarnessEntry::Symlink(s) => s.name@ + " (symlink to \""@ + s.destination_entry_id@ + "\")"@
            + id_suffix(s.id),
        FileSystemHarnessEntry::BrokenSymlink(b) => b.name@ + " (broken symlink to \""@
            + b.destination_relative_path@ + "\")"@ + id_suffix(b.id),
    }
}

/// The line of an entry, below the indentation `prefix`.
pub open spec fn entry_line(entry: FileSystemHarnessEntry, prefix: Seq<char>) -> Seq<char> {
    prefix + entry_marker(entry) + entry_label(entry)
}

/// The indentation of the entries one level deeper than those indented by `prefix`.
pub open spec fn deeper_prefix(prefix: Seq<char>) -> Seq<char> {
    prefix + "|   "@
}

/// The lines of an entry and everything under it: its own line, then the entries of a
/// directory, the last one first, each followed by what is under it.
pub open spec fn tree_lines(entry: FileSystemHarnessEntry, prefix: Seq<char>) -> Seq<Seq<char>>
    decreases entry, 0nat,
{
    seq![entry_line(entry, prefix)] + match entry {
        FileSystemHarnessEntry::Directory(d) => match d.entries {
            Some(children) => children_lines(children@, children@.len(), deeper_prefix(prefix)),
            None => Seq::empty(),
        },
        _ => Seq::empty(),
    }
}

/// The lines of the first `count` entries of `children`, the last of them first.
pub open spec fn children_lines(children: Seq<FileSystemHarnessEntry>, count: nat, prefix: Seq<char>) -> Seq<Seq<char>>
    decreases children, count,
{
    if count == 0 || count > children.len() {
        Seq::empty()
    } else {
        tree_lines(children[count - 1], prefix) + children_lines(children, (count - 1) as nat, prefix)
    }
}

/// The lines of top-level entries, in their order.
pub open spec fn entries_lines(entries: Seq<FileSystemHarnessEntry>) -> Seq<Seq<char>>
    decreases entries.len(),
{
    if entries.len() == 0 {
        Seq::empty()
    } else {
        entries_lines(entries.drop_last()) + tree_lines(entries.last(), Seq::empty())
    }
}

/// Lines joined by newlines.
pub open spec fn joined_lines(lines: Seq<Seq<char>>) -> Seq<char>
    decreases lines.len(),
{
    if lines.len() == 0 {
        Seq::empty()
    } else if lines.len() == 1 {
        lines[0]
    } else {
        joined_lines(lines.drop_last()) + "\n"@ + lines.last()
    }
}

/// The tree of a harness drawn as text: a `.` for the root, then a line per entry, in a
/// Markdown code block.
pub open spec fn formatted_tree(schema: FileSystemHarnessSchema) -> Seq<char> {
    "```md\n"@ + joined_lines(seq!["."@] + entries_lines(schema.structure.entries@)) + "\n```"@
}

/// The description of a file's data, given the text of its size.
pub fn sized_data_description(data: &Option<FileDataConfiguration>, size_text: &str) -> (r: String)
    ensures
        r@ == data_description_with(*data, size_text@),
{
    match data {
        Some(FileDataConfiguration::Text { .. }) => {
            let mut r = String::from_str("text data, ");
            r.append(size_text);
            r
        },
        Some(FileDataConfiguration::DeterministicRandom { .. }) => {
            let mut r = String::from_str("binary data, ");
            r.append(size_text);
            r
        },
        _ => String::from_str("empty"),
    }
}

/// The description of a file's data, with its size formatted in binary units.
pub fn file_data_description(data: &Option<FileDataConfiguration>) -> (r: String)
    ensures
        r@ == data_description(*data),
{
    let size: usize = match data {
        Some(FileDataConfiguration::Text { content }) => content.as_str().len(),
        Some(FileDataConfiguration::DeterministicRandom { file_size_bytes, .. }) => *file_size_bytes,
        _ => 0,
    };
    let size_text = format_binary_size(size);
    sized_data_description(data, size_text.as_str())
}

/// Appends the suffix naming `id`, if there is one.
fn append_id_suffix(out: &mut String, id: &Option<String>)
    ensures
        final(out)@ == old(out)@ + id_suffix(*id),
{
    match id {
        Some(id) => {
            out.append(" [ID \"");
            out.append(id.as_str());
            out.append("\"]");
        },
        None => {
            assert(old(out)@ + id_suffix(None) =~= old(out)@);
        },
    }
}

/// The line of `entry`, below the indentation `prefix`.
pub fn format_entry_line(entry: &FileSystemHarnessEntry, prefix: &str) -> (r: String)
    ensures
        r@ == entry_line(*entry, prefix@),
{
    let mut line = String::from_str(prefix);
    match entry {
        FileSystemHarnessEntry::Directory(d) => {
            line.append("|-- ");
            line.append(d.name.as_str());
            append_id_suffix(&mut line, &d.id);
        },
        FileSystemHarnessEntry::File(f) => {
            line.append("|-> ");
            line.append(f.name.as_str());
            line.append(" (");
            let description = file_data_description(&f.data);
            line.append(description.as_str());
            line.append(")");
            append_id_suffix(&mut line, &f.id);
        },
        FileSystemHarnessEntry::Symlink(s) => {
            line.append("|-> ");
            line.append(s.name.as_str());
            line.append(" (symlink to \"");
            line.append(s.destination_entry_id.as_str());
            line.append("\")");
            append_id_suffix(&mut line, &s.id);
        },
        FileSystemHarnessEntry::BrokenSymlink(b) => {
            line.append("|-> ");
            line.append(b.name.as_str());
            line.append(" (broken symlink to \"");
            line.append(b.destination_relative_path.as_str());
            line.append("\")");
            append_id_suffix(&mut line, &b.id);
        },
    }
    line
}

/// Appends the lines of `entry` and everything under it.
fn push_tree_lines(entry: &FileSystemHarnessEntry, prefix: &String, lines: &mut Vec<String>)
    ensures
        strings_view(final(lines)@) == strings_view(old(lines)@) + tree_lines(*entry, prefix@),
    decreases entry,
{
    let line = format_entry_line(entry, prefix.as_str());
    lines.push(line);
    proof {
        assert(strings_view(lines@) =~= strings_view(old(lines)@) + seq![entry_line(*entry, prefix@)]);
    }
    match entry {
        FileSystemHarnessEntry::Directory(d) => match &d.entries {
            Some(children) => {
                let mut child_prefix = prefix.clone();
                child_prefix.append("|   ");
                let ghost start = strings_view(lines@);
                let ghost target = start + children_lines(children@, children@.len(), child_prefix@);
                let mut i: usize = children.len();
                while i > 0
                    invariant
                        i <= children@.len(),
                        *entry == FileSystemHarnessEntry::Directory(*d),
                        d.entries == Some(*children),
                        strings_view(lines@) + children_lines(children@, i as nat, child_prefix@) == target,
                    decreases i,
                {
                    let ghost before = strings_view(lines@);
                    proof {
                        let ghost entries = d.entries;
                        assert(decreases_to!(*entry => (*entry)->Directory_0));
                        assert(decreases_to!(*d => d.entries));
                        assert(decreases_to!(entries => entries->Some_0));
                        assert(decreases_to!(*children => children@));
                        assert(decreases_to!(children@ => children@[i - 1]));
                        assert(decreases_to!(*entry => children@[i - 1]));
                    }
                    push_tree_lines(&children[i - 1], &child_prefix, lines);
                    i = i - 1;
                    proof {
                        let c = children@[i as int];
                        assert(children_lines(children@, (i + 1) as nat, child_prefix@)
                            == tree_lines(c, child_prefix@) + children_lines(children@, i as nat, child_prefix@));
                        assert(strings_view(lines@) + children_lines(children@, i as nat, child_prefix@)
                            =~= before + children_lines(children@, (i + 1) as nat, child_prefix@));
                    }
                }
                proof {
                    assert(children_lines(children@, 0, child_prefix@) =~= Seq::<Seq<char>>::empty());
                    assert(strings_view(lines@) =~= target);
                    assert(deeper_prefix(prefix@) =~= child_prefix@);
                }
            },
            None => {
                assert(strings_view(lines@) =~= strings_view(old(lines)@) + tree_lines(*entry, prefix@));
            },
        },
        _ => {
            assert(strings_view(lines@) =~= strings_view(old(lines)@) + tree_lines(*entry, prefix@));
        },
    }
}

/// Lines joined by newlines.
fn join_lines(lines: &Vec<String>) -> (r: String)
    ensures
        r@ == joined_lines(strings_view(lines@)),
{
    let ghost v = strings_view(lines@);
    let mut out = String::new();
    let mut i: usize = 0;
    while i < lines.len()
        invariant
            v == strings_view(lines@),
            i <= lines.len(),
            out@ == joined_lines(v.take(i as int)),
        decreases lines.len() - i,
    {
        assert(v.take(i + 1).drop_last() =~= v.take(i as int));
        assert(v.take(i + 1).last() == lines@[i as int]@);
        if i > 0 {
            out.append("\n");
        } else {
            assert(out@ =~= Seq::<char>::empty());
            assert(joined_lines(v.take(1)) == v.take(1)[0]);
        }
        out.append(lines[i].as_str());
        i = i + 1;
    }
    assert(v.take(lines.len() as int) =~= v);
    out
}

/// Draws the tree of a harness as text: a `.` for the root, then a line per entry (each
/// indented one step per level, with `|-- ` before a directory and `|-> ` before anything
/// else), in a Markdown code block.
pub fn format_tree_structure_as_string(schema: &FileSystemHarnessSchema) -> (r: String)
    ensures
        r@ == formatted_tree(*schema),
{
    let entries = &schema.structure.entries;
    let mut lines: Vec<String> = Vec::new();
    lines.push(String::from_str("."));
    let empty = String::new();
    let mut i: usize = 0;
    while i < entries.len()
        invariant
            i <= entries@.len(),
            *entries == schema.structure.entries,
            empty@ == Seq::<char>::empty(),
            strings_view(lines@) == seq!["."@] + entries_lines(entries@.take(i as int)),
        decreases entries.len() - i,
    {
        let ghost before = strings_view(lines@);
        push_tree_lines(&entries[i], &empty, &mut lines);
        proof {
            assert(entries@.take(i + 1).drop_last() =~= entries@.take(i as int));
            assert(entries@.take(i + 1).last() == entries@[i as int]);
            assert(strings_view(lines@) =~= seq!["."@] + entries_lines(entries@.take(i + 1)));
        }
        i = i + 1;
    }
    assert(entries@.take(entries.len() as int) =~= entries@);
    let joined = join_lines(&lines);
    let mut out = String::from_str("```md\n");
    out.append(joined.as_str());
    out.append("\n```");
    out
}

} // verus!
