//! The names a harness tree gives its entries: the struct that stands for an entry, the
//! field that holds it on its parent, and its path relative to the tree root.
use vstd::prelude::*;

use heck::{ToSnakeCase, ToUpperCamelCase};
use path_slash::PathExt;

use super::names::decimal;
use super::tree_generator::NameCollisionAvoider;
use crate::path::{join_paths, path_join, piece_of, strings_view};

verus! {

/// The text that heck's `to_upper_camel_case` makes of `text`.
pub uninterp spec fn upper_camel_case(text: Seq<char>) -> Seq<char>;

/// The text that heck's `to_snake_case` makes of `text`.
pub uninterp spec fn snake_case(text: Seq<char>) -> Seq<char>;

/// The path that path_slash's `to_slash` makes of `path` (its separators written as `/`).
pub uninterp spec fn slash_form(path: Seq<char>) -> Seq<char>;

/// heck's `ToUpperCamelCase::to_upper_camel_case` on `text`; the result is named
/// [`upper_camel_case`], a function of the text alone.
#[verifier::external_body]
fn to_upper_camel_case(text: &str) -> (r: String)
    ensures
        r@ == upper_camel_case(text@),
{
    text.to_upper_camel_case()
}

/// heck's `ToSnakeCase::to_snake_case` on `text`; the result is named [`snake_case`], a
/// function of the text alone.
#[verifier::external_body]
fn to_snake_case(text: &str) -> (r: String)
    ensures
        r@ == snake_case(text@),
{
    text.to_snake_case()
}

/// path_slash's `PathExt::to_slash` on the path `path`. Its source returns `None` only for a
/// path that is not valid UTF-8, which a path made from a `&str` always is: so the result is
/// `Some`, holding the text named [`slash_form`].
#[verifier::external_body]
fn to_slash(path: &str) -> (r: Option<String>)
    ensures
        r is Some,
        r->Some_0@ == slash_form(path@),
{
    std::path::Path::new(path).to_slash().map(|slash| slash.into_owned())
}

/// Scans `s` from left to right: the chunks that a `.` has already closed, and the chunk
/// that is still open.
pub open spec fn dot_scan(s: Seq<char>) -> (Seq<Seq<char>>, Seq<char>)
    decreases s.len(),
{
    if s.len() == 0 {
        (Seq::empty(), Seq::empty())
    } else {
        let (done, open) = dot_scan(s.drop_last());
        if s.last() == '.' {
            (done.push(open), Seq::empty())
        } else {
            (done, open.push(s.last()))
        }
    }
}

/// The chunks of `s` between dots (empty chunks included), as `str::split('.')` gives them.
pub open spec fn dot_chunks(s: Seq<char>) -> Seq<Seq<char>> {
    dot_scan(s).0.push(dot_scan(s).1)
}

/// `chunks` written one after the other, with `separator` between two of them.
pub open spec fn joined_with(chunks: Seq<Seq<char>>, separator: Seq<char>) -> Seq<char>
    decreases chunks.len(),
{
    if chunks.len() == 0 {
        Seq::empty()
    } else if chunks.len() == 1 {
        chunks[0]
    } else {
        joined_with(chunks.drop_last(), separator) + separator + chunks.last()
    }
}

/// Each chunk in upper camel case (`upper`) or in snake case.
pub open spec fn cased(chunks: Seq<Seq<char>>, upper: bool) -> Seq<Seq<char>> {
    chunks.map_values(|c: Seq<char>| if upper { upper_camel_case(c) } else { snake_case(c) })
}

/// The struct name an entry named `name` asks for: its dot-separated chunks in upper camel
/// case, written together with `separator` between them, and the whole in upper camel case.
pub open spec fn preferred_struct_name(name: Seq<char>, separator: Seq<char>) -> Seq<char> {
    upper_camel_case(joined_with(cased(dot_chunks(name), true), separator))
}

/// The field name an entry named `name` asks for on its parent: its dot-separated chunks in
/// snake case, joined by `_`.
pub open spec fn preferred_field_name(name: Seq<char>) -> Seq<char> {
    joined_with(cased(dot_chunks(name), false), seq!['_'])
}

/// The path, relative to the tree root, of an entry named `name` in the directory at
/// `parent_relative_path`.
pub open spec fn entry_relative_path(parent_relative_path: Seq<char>, name: Seq<char>) -> Seq<char> {
    slash_form(path_join(parent_relative_path, name))
}

/// The name `avoider` hands out for `preferred` (the name itself the first time, then the
/// name followed by the count of requests).
pub open spec fn handed_out_name(usages: Map<Seq<char>, nat>, preferred: Seq<char>) -> Seq<char> {
    if usages.contains_key(preferred) {
        preferred + decimal(usages[preferred] + 1)
    } else {
        preferred
    }
}

/// The usages of an avoider after it handed out a name for `preferred`.
pub open spec fn usages_after(usages: Map<Seq<char>, nat>, preferred: Seq<char>) -> Map<Seq<char>, nat> {
    if usages.contains_key(preferred) {
        usages.insert(preferred, usages[preferred] + 1)
    } else {
        usages.insert(preferred, 1)
    }
}

/// The chunks of `s` between dots.
fn dot_chunks_of(s: &str) -> (r: Vec<String>)
    ensures
        strings_view(r@) == dot_chunks(s@),
{
    let chars = crate::path::chars_of(s);
    let mut done: Vec<String> = Vec::new();
    let mut start: usize = 0;
    let mut i: usize = 0;
    while i < chars.len()
        invariant
            chars@ == s@,
            start <= i <= chars.len(),
            dot_scan(s@.take(i as int)) == (strings_view(done@), s@.subrange(start as int, i as int)),
        decreases chars.len() - i,
    {
        assert(s@.take(i + 1).drop_last() == s@.take(i as int));
        if chars[i] == '.' {
            let chunk = piece_of(s, start, i);
            done.push(chunk);
            start = i + 1;
            assert(strings_view(done@) == strings_view(done@.drop_last()).push(chunk@));
        } else {
            assert(s@.subrange(start as int, i + 1) == s@.subrange(start as int, i as int).push(chars@[i as int]));
        }
        i = i + 1;
    }
    assert(s@.take(chars.len() as int) == s@);
    let last = piece_of(s, start, chars.len());
    done.push(last);
    assert(strings_view(done@) == strings_view(done@.drop_last()).push(last@));
    done
}

/// Each of `chunks` in upper camel case (`upper`) or in snake case.
fn cased_chunks(chunks: &Vec<String>, upper: bool) -> (r: Vec<String>)
    ensures
        strings_view(r@) == cased(strings_view(chunks@), upper),
{
    let mut out: Vec<String> = Vec::new();
    let mut i: usize = 0;
    while i < chunks.len()
        invariant
            i <= chunks.len(),
            strings_view(out@) == cased(strings_view(chunks@.take(i as int)), upper),
        decreases chunks.len() - i,
    {
        let c = if upper {
            to_upper_camel_case(chunks[i].as_str())
        } else {
            to_snake_case(chunks[i].as_str())
        };
        out.push(c);
        assert(strings_view(out@) == strings_view(out@.drop_last()).push(c@));
        assert(chunks@.take(i + 1) == chunks@.take(i as int).push(chunks@[i as int]));
        assert(strings_view(chunks@.take(i + 1)) == strings_view(chunks@.take(i as int)).push(chunks@[i as int]@));
        assert(cased(strings_view(chunks@.take(i + 1)), upper) =~= cased(strings_view(chunks@.take(i as int)), upper).push(
            c@,
        ));
        i = i + 1;
    }
    assert(chunks@.take(chunks.len() as int) == chunks@);
    out
}

/// `chunks` written one after the other, with `separator` between two of them.
fn join_chunks(chunks: &Vec<String>, separator: &str) -> (r: String)
    ensures
        r@ == joined_with(strings_view(chunks@), separator@),
{
    let mut out = String::new();
    let mut i: usize = 0;
    while i < chunks.len()
        invariant
            i <= chunks.len(),
            out@ == joined_with(strings_view(chunks@.take(i as int)), separator@),
        decreases chunks.len() - i,
    {
        let ghost before = strings_view(chunks@.take(i as int));
        assert(strings_view(chunks@.take(i + 1)) =~= before.push(chunks@[i as int]@));
        assert(strings_view(chunks@.take(i + 1)).drop_last() =~= before);
        if i > 0 {
            out.append(separator);
        }
        out.append(chunks[i].as_str());
        i = i + 1;
    }
    assert(chunks@.take(chunks.len() as int) == chunks@);
    out
}

/// The names of a directory or file entry of a harness tree.
pub struct DirectoryEntryNames {
    /// The name of the struct that stands for the entry, not handed out before.
    pub struct_name: String,
    /// The name of the field that holds the entry on its parent, as the entry asks for it.
    pub preferred_field_name: String,
    /// The entry's path relative to the tree root, with `/` separators.
    pub relative_path: String,
}

/// The names of the entry named `directory_name` in the directory at `relative_path` (relative
/// to the tree root): a struct name that `avoider` hands out from the entry's chunks in upper
/// camel case, the field name of its chunks in snake case, and its path. Directories and
/// files of a harness tree are named alike.
pub fn directory_entry_names(relative_path: &str, directory_name: &str, avoider: &mut NameCollisionAvoider) -> (r:
    DirectoryEntryNames)
    requires
        old(avoider).usages_view().contains_key(preferred_struct_name(directory_name@, Seq::empty()))
            ==> old(avoider).usages_view()[preferred_struct_name(directory_name@, Seq::empty())] < usize::MAX,
    ensures
        r.struct_name@ == handed_out_name(old(avoider).usages_view(), preferred_struct_name(directory_name@, Seq::empty())),
        final(avoider).usages_view() == usages_after(
            old(avoider).usages_view(),
            preferred_struct_name(directory_name@, Seq::empty()),
        ),
        r.preferred_field_name@ == preferred_field_name(directory_name@),
        r.relative_path@ == entry_relative_path(relative_path@, directory_name@),
{
    let chunks = dot_chunks_of(directory_name);
    let upper = cased_chunks(&chunks, true);
    let empty = "";
    proof {
        reveal_strlit("");
    }
    assert(empty@ =~= Seq::<char>::empty());
    let together = join_chunks(&upper, empty);
    assert(together@ == joined_with(cased(dot_chunks(directory_name@), true), Seq::empty()));
    let preferred = to_upper_camel_case(together.as_str());
    let struct_name = avoider.collision_free_name(preferred.as_str());
    let snake = cased_chunks(&chunks, false);
    let underscore = "_";
    proof {
        reveal_strlit("_");
    }
    assert(underscore@ =~= seq!['_']);
    let field = join_chunks(&snake, underscore);
    let joined = join_paths(relative_path, directory_name);
    let path = match to_slash(joined.as_str()) {
        Some(p) => p,
        None => String::new(),
    };
    DirectoryEntryNames { struct_name, preferred_field_name: field, relative_path: path }
}

/// The names of a symbolic link entry of a harness tree.
pub struct SymlinkEntryNames {
    /// The name of the struct that stands for the link, not handed out before.
    pub struct_name: String,
    /// The name of the field that holds the link on its parent, as the link asks for it.
    pub preferred_field_name: String,
    /// The link's path relative to the tree root, with `/` separators.
    pub relative_path: String,
}

/// The names of the symbolic link named `symlink_name` in the directory at `relative_path`:
/// a struct name that `avoider` hands out from the link's chunks in upper camel case
/// (separated by spaces before the whole is cased again), the field name of its chunks in
/// snake case joined by `_` and cased again, and its path.
pub fn symlink_entry_names(relative_path: &str, symlink_name: &str, avoider: &mut NameCollisionAvoider) -> (r:
    SymlinkEntryNames)
    requires
        old(avoider).usages_view().contains_key(preferred_struct_name(symlink_name@, seq![' ']))
            ==> old(avoider).usages_view()[preferred_struct_name(symlink_name@, seq![' '])] < usize::MAX,
    ensures
        r.struct_name@ == handed_out_name(old(avoider).usages_view(), preferred_struct_name(symlink_name@, seq![' '])),
        final(avoider).usages_view() == usages_after(old(avoider).usages_view(), preferred_struct_name(symlink_name@, seq![' '])),
        r.preferred_field_name@ == snake_case(preferred_field_name(symlink_name@)),
        r.relative_path@ == entry_relative_path(relative_path@, symlink_name@),
{
    let chunks = dot_chunks_of(symlink_name);
    let upper = cased_chunks(&chunks, true);
    let space = " ";
    proof {
        reveal_strlit(" ");
    }
    assert(space@ =~= seq![' ']);
    let together = join_chunks(&upper, space);
    assert(together@ == joined_with(cased(dot_chunks(symlink_name@), true), seq![' ']));
    let preferred = to_upper_camel_case(together.as_str());
    let struct_name = avoider.collision_free_name(preferred.as_str());
    let snake = cased_chunks(&chunks, false);
    let underscore = "_";
    proof {
        reveal_strlit("_");
    }
    assert(underscore@ =~= seq!['_']);
    let field = join_chunks(&snake, underscore);
    let field = to_snake_case(field.as_str());
    let joined = join_paths(relative_path, symlink_name);
    let path = match to_slash(joined.as_str()) {
        Some(p) => p,
        None => String::new(),
    };
    SymlinkEntryNames { struct_name, preferred_field_name: field, relative_path: path }
}

} // verus!
