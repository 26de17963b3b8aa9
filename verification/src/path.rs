//! Filesystem paths as the library reasons about them.
//!
//! A path is held as a `String`. Paths are compared, prefixed and stripped by their
//! components, as `std::path` does on Unix targets: a leading `/` is the root component,
//! empty pieces and `.` pieces are skipped (a leading `.` of a relative path is kept),
//! and every other piece between two separators is a normal component.
use vstd::prelude::*;
use vstd::string::*;

verus! {

/// The separator between two pieces of a path.
pub open spec fn is_separator(c: char) -> bool {
    c == '/'
}

/// Scans `s` from left to right: the pieces that a separator has already closed,
/// and the piece that is still open.
pub open spec fn split_scan(s: Seq<char>) -> (Seq<Seq<char>>, Seq<char>)
    decreases s.len(),
{
    if s.len() == 0 {
        (Seq::empty(), Seq::empty())
    } else {
        let (done, open) = split_scan(s.drop_last());
        if is_separator(s.last()) {
            (done.push(open), Seq::empty())
        } else {
            (done, open.push(s.last()))
        }
    }
}

/// The pieces of `s` between separators (empty pieces included).
pub open spec fn pieces(s: Seq<char>) -> Seq<Seq<char>> {
    split_scan(s).0.push(split_scan(s).1)
}

/// The component that stands for the root directory.
pub open spec fn root_component() -> Seq<char> {
    seq!['/']
}

/// The component that stands for the current directory.
pub open spec fn current_directory_component() -> Seq<char> {
    seq!['.']
}

/// Whether a piece is kept as a normal component.
pub open spec fn is_normal_piece(p: Seq<char>) -> bool {
    p.len() > 0 && p != current_directory_component()
}

/// The pieces of `ps` that are normal components, in order.
pub open spec fn normal_pieces(ps: Seq<Seq<char>>) -> Seq<Seq<char>>
    decreases ps.len(),
{
    if ps.len() == 0 {
        Seq::empty()
    } else {
        let rest = normal_pieces(ps.drop_last());
        if is_normal_piece(ps.last()) {
            rest.push(ps.last())
        } else {
            rest
        }
    }
}

/// Whether the path starts at the root directory.
pub open spec fn path_is_absolute(s: Seq<char>) -> bool {
    s.len() > 0 && is_separator(s[0])
}

/// The components of a path.
pub open spec fn path_components(s: Seq<char>) -> Seq<Seq<char>> {
    let ps = pieces(s);
    let head = if path_is_absolute(s) {
        seq![root_component()]
    } else if ps[0] == current_directory_component() {
        seq![current_directory_component()]
    } else {
        Seq::empty()
    };
    head + normal_pieces(ps)
}

/// Two paths are equal when they have the same components.
pub open spec fn paths_equal(a: Seq<char>, b: Seq<char>) -> bool {
    path_components(a) == path_components(b)
}

/// `path` starts with `base` when the components of `base` are a prefix of those of `path`.
pub open spec fn path_starts_with(path: Seq<char>, base: Seq<char>) -> bool {
    path_components(base).is_prefix_of(path_components(path))
}

/// Components joined by single separators (without a root).
pub open spec fn joined_pieces(cs: Seq<Seq<char>>) -> Seq<char>
    decreases cs.len(),
{
    if cs.len() == 0 {
        Seq::empty()
    } else if cs.len() == 1 {
        cs[0]
    } else {
        joined_pieces(cs.drop_last()) + seq!['/'] + cs.last()
    }
}

/// The path written from a sequence of components.
pub open spec fn render_components(cs: Seq<Seq<char>>) -> Seq<char> {
    if cs.len() > 0 && cs[0] == root_component() {
        seq!['/'] + joined_pieces(cs.drop_first())
    } else {
        joined_pieces(cs)
    }
}

/// `path` with the leading components of `base` removed, if `path` starts with `base`.
pub open spec fn path_strip_prefix(path: Seq<char>, base: Seq<char>) -> Option<Seq<char>> {
    if path_starts_with(path, base) {
        Some(
            render_components(
                path_components(path).skip(path_components(base).len() as int),
            ),
        )
    } else {
        None
    }
}

/// `tail` pushed onto `base`: an absolute `tail` replaces `base`; otherwise a separator
/// is put between the two unless `base` is empty or already ends with one.
pub open spec fn path_join(base: Seq<char>, tail: Seq<char>) -> Seq<char> {
    if path_is_absolute(tail) {
        tail
    } else if base.len() > 0 && !is_separator(base.last()) {
        base + seq!['/'] + tail
    } else {
        base + tail
    }
}

/// The views of a sequence of strings.
pub open spec fn strings_view(v: Seq<String>) -> Seq<Seq<char>> {
    v.map_values(|s: String| s@)
}

/// The characters of a string slice.
pub fn chars_of(s: &str) -> (r: Vec<char>)
    ensures
        r@ == s@,
{
    let mut r: Vec<char> = Vec::new();
    for c in it: s.chars()
        invariant
            r@ == it.seq().take(it.index() as int),
    {
        r.push(c);
    }
    r
}

/// A string made of the characters `chars[from..to]` of `s`.
pub(crate) fn piece_of(s: &str, from: usize, to: usize) -> (r: String)
    requires
        from <= to <= s@.len(),
    ensures
        r@ == s@.subrange(from as int, to as int),
{
    String::from_str(s.substring_char(from, to))
}

/// The pieces of `s` between separators.
pub fn split_pieces(s: &str) -> (r: Vec<String>)
    ensures
        strings_view(r@) == pieces(s@),
{
    let chars = chars_of(s);
    let mut done: Vec<String> = Vec::new();
    let mut start: usize = 0;
    let mut i: usize = 0;
    while i < chars.len()
        invariant
            chars@ == s@,
            start <= i <= chars.len(),
            split_scan(s@.take(i as int)) == (strings_view(done@), s@.subrange(
                start as int,
                i as int,
            )),
        decreases chars.len() - i,
    {
        assert(s@.take(i + 1).drop_last() == s@.take(i as int));
        if chars[i] == '/' {
            let piece = piece_of(s, start, i);
            done.push(piece);
            start = i + 1;
            assert(strings_view(done@) == strings_view(done@.drop_last()).push(piece@));
        } else {
            assert(s@.subrange(start as int, i + 1) == s@.subrange(start as int, i as int).push(
                chars@[i as int],
            ));
        }
        i = i + 1;
    }
    assert(s@.take(chars.len() as int) == s@);
    let last = piece_of(s, start, chars.len());
    done.push(last);
    assert(strings_view(done@) == strings_view(done@.drop_last()).push(last@));
    done
}

/// Whether two strings hold the same characters.
pub fn strings_equal(a: &String, b: &String) -> (r: bool)
    ensures
        r == (a@ == b@),
{
    a.eq(b)
}

/// The components of a path.
pub fn components(s: &str) -> (r: Vec<String>)
    ensures
        strings_view(r@) == path_components(s@),
{
    let ps = split_pieces(s);
    let ghost pv = strings_view(ps@);
    let mut r: Vec<String> = Vec::new();
    let chars = chars_of(s);
    let root = String::from_str("/");
    let dot = String::from_str(".");
    proof {
        reveal_strlit("/");
        reveal_strlit(".");
    }
    assert(root@ =~= root_component());
    assert(dot@ =~= current_directory_component());
    assert(pv.len() > 0);
    let absolute = chars.len() > 0 && chars[0] == '/';
    if absolute {
        r.push(root);
        assert(strings_view(r@) == seq![root_component()]);
    } else if strings_equal(&ps[0], &dot) {
        r.push(dot.clone());
        assert(strings_view(r@) == seq![current_directory_component()]);
    }
    let ghost head = strings_view(r@);
    assert(pv.take(0) == Seq::<Seq<char>>::empty());
    let mut i: usize = 0;
    while i < ps.len()
        invariant
            pv == strings_view(ps@),
            i <= ps.len(),
            dot@ == current_directory_component(),
            strings_view(r@) == head + normal_pieces(pv.take(i as int)),
        decreases ps.len() - i,
    {
        assert(pv.take(i + 1).drop_last() == pv.take(i as int));
        assert(pv.take(i + 1).last() == ps@[i as int]@);
        let p = &ps[i];
        let keep = p.as_str().unicode_len() > 0 && !strings_equal(p, &dot);
        if keep {
            r.push(p.clone());
            assert(strings_view(r@) == strings_view(r@.drop_last()).push(p@));
            assert(is_normal_piece(p@));
            assert(head + normal_pieces(pv.take(i + 1)) =~= (head + normal_pieces(
                pv.take(i as int),
            )).push(p@));
        } else {
            assert(!is_normal_piece(p@));
        }
        i = i + 1;
    }
    assert(pv.take(ps.len() as int) == pv);
    r
}

/// Whether two component sequences are equal.
fn component_lists_equal(a: &Vec<String>, b: &Vec<String>) -> (r: bool)
    ensures
        r == (strings_view(a@) == strings_view(b@)),
{
    if a.len() != b.len() {
        assert(strings_view(a@).len() != strings_view(b@).len());
        return false;
    }
    let mut i: usize = 0;
    while i < a.len()
        invariant
            a.len() == b.len(),
            i <= a.len(),
            forall|j: int| 0 <= j < i ==> a@[j]@ == b@[j]@,
        decreases a.len() - i,
    {
        if !strings_equal(&a[i], &b[i]) {
            assert(strings_view(a@)[i as int] != strings_view(b@)[i as int]);
            return false;
        }
        i = i + 1;
    }
    assert(strings_view(a@) =~= strings_view(b@));
    true
}

/// Whether `prefix` is a prefix of `whole`.
fn component_list_is_prefix(prefix: &Vec<String>, whole: &Vec<String>) -> (r: bool)
    ensures
        r == strings_view(prefix@).is_prefix_of(strings_view(whole@)),
{
    if prefix.len() > whole.len() {
        return false;
    }
    let mut i: usize = 0;
    while i < prefix.len()
        invariant
            prefix.len() <= whole.len(),
            i <= prefix.len(),
            forall|j: int| 0 <= j < i ==> prefix@[j]@ == whole@[j]@,
        decreases prefix.len() - i,
    {
        if !strings_equal(&prefix[i], &whole[i]) {
            assert(strings_view(prefix@)[i as int] != strings_view(whole@).subrange(
                0,
                prefix.len() as int,
            )[i as int]);
            return false;
        }
        i = i + 1;
    }
    assert(strings_view(prefix@) =~= strings_view(whole@).subrange(0, prefix.len() as int));
    true
}

/// Whether two paths have the same components.
pub fn paths_are_equal(a: &str, b: &str) -> (r: bool)
    ensures
        r == paths_equal(a@, b@),
{
    let ca = components(a);
    let cb = components(b);
    component_lists_equal(&ca, &cb)
}

/// Whether `path` starts with the components of `base`.
pub fn path_starts_with_base(path: &str, base: &str) -> (r: bool)
    ensures
        r == path_starts_with(path@, base@),
{
    let cp = components(path);
    let cb = components(base);
    component_list_is_prefix(&cb, &cp)
}

/// Components `cs[from..]` joined by single separators.
fn join_pieces_from(cs: &Vec<String>, from: usize) -> (r: String)
    requires
        from <= cs.len(),
    ensures
        r@ == joined_pieces(strings_view(cs@).skip(from as int)),
{
    let ghost v = strings_view(cs@).skip(from as int);
    let mut out = String::new();
    let sep = "/";
    proof {
        reveal_strlit("/");
    }
    assert(sep@ =~= seq!['/']);
    let mut i: usize = from;
    while i < cs.len()
        invariant
            v == strings_view(cs@).skip(from as int),
            from <= i <= cs.len(),
            out@ == joined_pieces(v.take(i - from)),
            sep@ == seq!['/'],
        decreases cs.len() - i,
    {
        let ghost k = i - from;
        assert(v.take(k + 1).drop_last() == v.take(k));
        assert(v.take(k + 1).last() == cs@[i as int]@);
        assert(sep@ =~= seq!['/']);
        if i > from {
            out.append(sep);
        } else {
            assert(out@ =~= Seq::<char>::empty());
        }
        out.append(cs[i].as_str());
        i = i + 1;
    }
    assert(v.take(cs.len() - from) == v);
    out
}

/// The path written from components `cs[from..]`.
fn render_from(cs: &Vec<String>, from: usize) -> (r: String)
    requires
        from <= cs.len(),
    ensures
        r@ == render_components(strings_view(cs@).skip(from as int)),
{
    let ghost v = strings_view(cs@).skip(from as int);
    let root = String::from_str("/");
    proof {
        reveal_strlit("/");
    }
    assert(root@ =~= root_component());
    if from < cs.len() && strings_equal(&cs[from], &root) {
        assert(v[0] == root_component());
        let rest = join_pieces_from(cs, from + 1);
        assert(v.drop_first() == strings_view(cs@).skip(from + 1));
        let mut out = String::from_str("/");
        out.append(rest.as_str());
        assert(out@ =~= seq!['/'] + rest@);
        out
    } else {
        join_pieces_from(cs, from)
    }
}

/// `path` with the leading components of `base` removed, if `path` starts with `base`.
pub fn strip_path_prefix(path: &str, base: &str) -> (r: Option<String>)
    ensures
        r matches Some(s) ==> path_strip_prefix(path@, base@) == Some(s@),
        r is None ==> path_strip_prefix(path@, base@) is None,
{
    let cp = components(path);
    let cb = components(base);
    if component_list_is_prefix(&cb, &cp) {
        Some(render_from(&cp, cb.len()))
    } else {
        None
    }
}

/// `tail` pushed onto `base`.
pub fn join_paths(base: &str, tail: &str) -> (r: String)
    ensures
        r@ == path_join(base@, tail@),
{
    let base_chars = chars_of(base);
    let tail_chars = chars_of(tail);
    if tail_chars.len() > 0 && tail_chars[0] == '/' {
        return String::from_str(tail);
    }
    let mut out = String::from_str(base);
    if base_chars.len() > 0 && base_chars[base_chars.len() - 1] != '/' {
        let sep = "/";
        proof {
            reveal_strlit("/");
        }
        out.append(sep);
    }
    out.append(tail);
    out
}

/// Whether a sequence of characters holds no separator.
pub open spec fn has_no_separator(p: Seq<char>) -> bool {
    forall|i: int| 0 <= i < p.len() ==> !is_separator(#[trigger] p[i])
}

/// Scanning past a separator starts afresh: what follows it is split on its own.
pub proof fn lemma_split_scan_after_separator(a: Seq<char>, b: Seq<char>)
    requires
        a.len() > 0,
        is_separator(a.last()),
    ensures
        split_scan(a + b) == (split_scan(a).0 + split_scan(b).0, split_scan(b).1),
    decreases b.len(),
{
    if b.len() == 0 {
        assert(a + b =~= a);
        assert(split_scan(a).0 + split_scan(b).0 =~= split_scan(a).0);
    } else {
        lemma_split_scan_after_separator(a, b.drop_last());
        assert((a + b).drop_last() =~= a + b.drop_last());
        assert((a + b).last() == b.last());
        let (d, o) = split_scan(b.drop_last());
        if is_separator(b.last()) {
            assert((split_scan(a).0 + d).push(o) =~= split_scan(a).0 + d.push(o));
        }
    }
}

/// No piece of a path holds a separator.
pub proof fn lemma_split_scan_pieces_have_no_separator(s: Seq<char>)
    ensures
        forall|i: int| 0 <= i < split_scan(s).0.len() ==> has_no_separator(#[trigger] split_scan(s).0[i]),
        has_no_separator(split_scan(s).1),
    decreases s.len(),
{
    if s.len() > 0 {
        lemma_split_scan_pieces_have_no_separator(s.drop_last());
        let (d, o) = split_scan(s.drop_last());
        if !is_separator(s.last()) {
            assert forall|i: int| 0 <= i < o.push(s.last()).len() implies !is_separator(
                #[trigger] o.push(s.last())[i],
            ) by {
                if i < o.len() {
                    assert(o.push(s.last())[i] == o[i]);
                }
            }
        }
    }
}

/// The normal components of two runs of pieces are those of each run, in order.
pub proof fn lemma_normal_pieces_concat(x: Seq<Seq<char>>, y: Seq<Seq<char>>)
    ensures
        normal_pieces(x + y) == normal_pieces(x) + normal_pieces(y),
    decreases y.len(),
{
    if y.len() == 0 {
        assert(x + y =~= x);
        assert(normal_pieces(x) + normal_pieces(y) =~= normal_pieces(x));
    } else {
        lemma_normal_pieces_concat(x, y.drop_last());
        assert((x + y).drop_last() =~= x + y.drop_last());
        assert((x + y).last() == y.last());
        if is_normal_piece(y.last()) {
            assert((normal_pieces(x) + normal_pieces(y.drop_last())).push(y.last())
                =~= normal_pieces(x) + normal_pieces(y.drop_last()).push(y.last()));
        }
    }
}

/// Every normal component is one of the pieces it was taken from, and is normal.
pub proof fn lemma_normal_pieces_are_pieces(ps: Seq<Seq<char>>)
    ensures
        forall|i: int| 0 <= i < normal_pieces(ps).len() ==> is_normal_piece(#[trigger] normal_pieces(ps)[i])
            && ps.contains(normal_pieces(ps)[i]),
    decreases ps.len(),
{
    if ps.len() > 0 {
        lemma_normal_pieces_are_pieces(ps.drop_last());
        let rest = normal_pieces(ps.drop_last());
        assert forall|i: int| 0 <= i < normal_pieces(ps).len() implies is_normal_piece(
            #[trigger] normal_pieces(ps)[i],
        ) && ps.contains(normal_pieces(ps)[i]) by {
            if i < rest.len() {
                assert(normal_pieces(ps)[i] == rest[i]);
                let j = choose|j: int| 0 <= j < ps.drop_last().len() && ps.drop_last()[j] == rest[i];
                assert(ps[j] == rest[i]);
            } else {
                assert(ps[ps.len() - 1] == ps.last());
            }
        }
    }
}

/// Every component of a path is the root, at the front of an absolute path, or a
/// non-empty piece without separators.
pub proof fn lemma_components_shape(s: Seq<char>)
    ensures
        forall|i: int| 0 <= i < path_components(s).len() ==> {
            let c = #[trigger] path_components(s)[i];
            (c == root_component() && i == 0 && path_is_absolute(s)) || (c.len() > 0
                && has_no_separator(c))
        },
{
    let ps = pieces(s);
    lemma_split_scan_pieces_have_no_separator(s);
    lemma_normal_pieces_are_pieces(ps);
    assert forall|j: int| 0 <= j < ps.len() implies has_no_separator(#[trigger] ps[j]) by {
        if j < split_scan(s).0.len() {
            assert(ps[j] == split_scan(s).0[j]);
        }
    }
    let head = if path_is_absolute(s) {
        seq![root_component()]
    } else if ps[0] == current_directory_component() {
        seq![current_directory_component()]
    } else {
        Seq::<Seq<char>>::empty()
    };
    let ns = normal_pieces(ps);
    assert(path_components(s) == head + ns);
    assert forall|i: int| 0 <= i < path_components(s).len() implies {
        let c = #[trigger] path_components(s)[i];
        (c == root_component() && i == 0 && path_is_absolute(s)) || (c.len() > 0
            && has_no_separator(c))
    } by {
        if i >= head.len() {
            let c = ns[i - head.len()];
            assert(path_components(s)[i] == c);
            let j = choose|j: int| 0 <= j < ps.len() && ps[j] == c;
            assert(has_no_separator(ps[j]));
        } else if !path_is_absolute(s) {
            assert(path_components(s)[i] == current_directory_component());
            assert(has_no_separator(current_directory_component()));
        }
    }
}

/// A path made of components that starts with no root component does not start
/// with a separator.
pub proof fn lemma_joined_pieces_starts_with_first(cs: Seq<Seq<char>>)
    requires
        cs.len() > 0,
        cs[0].len() > 0,
    ensures
        joined_pieces(cs).len() > 0,
        joined_pieces(cs)[0] == cs[0][0],
    decreases cs.len(),
{
    if cs.len() > 1 {
        lemma_joined_pieces_starts_with_first(cs.drop_last());
        let j = joined_pieces(cs.drop_last());
        assert((j + seq!['/'] + cs.last())[0] == j[0]);
    }
}

/// `base` is a component-wise prefix of the path that joins a relative `tail` onto it.
pub proof fn lemma_join_extends_base(base: Seq<char>, tail: Seq<char>)
    requires
        !path_is_absolute(tail),
    ensures
        path_starts_with(path_join(base, tail), base),
        base.len() > 0 ==> path_components(path_join(base, tail)) == path_components(base) + normal_pieces(pieces(tail)),
{
    let p = path_join(base, tail);
    if base.len() == 0 {
        assert(pieces(base) =~= seq![Seq::<char>::empty()]);
        let e = pieces(base);
        assert(e.drop_last() =~= Seq::<Seq<char>>::empty());
        assert(!is_normal_piece(e.last()));
        assert(normal_pieces(Seq::<Seq<char>>::empty()) =~= Seq::<Seq<char>>::empty());
        assert(normal_pieces(e) =~= Seq::<Seq<char>>::empty());
        assert(path_components(base) =~= Seq::<Seq<char>>::empty());
    } else {
        // `p` is `a + tail`, where `a` is `base` closed by a separator.
        let a = if is_separator(base.last()) { base } else { base + seq!['/'] };
        assert(p =~= a + tail);
        assert(a.len() > 0 && is_separator(a.last()));
        lemma_split_scan_after_separator(a, tail);
        let sa = split_scan(a).0;
        if !is_separator(base.last()) {
            assert(a.drop_last() =~= base);
            assert(sa == pieces(base));
        } else {
            assert(pieces(base) == sa.push(Seq::<char>::empty()));
            lemma_normal_pieces_concat(sa, seq![Seq::<char>::empty()]);
            let e = seq![Seq::<char>::empty()];
            assert(e.drop_last() =~= Seq::<Seq<char>>::empty());
            assert(!is_normal_piece(e.last()));
            assert(normal_pieces(Seq::<Seq<char>>::empty()) =~= Seq::<Seq<char>>::empty());
            assert(normal_pieces(e) =~= Seq::<Seq<char>>::empty());
            assert(pieces(base) =~= sa + e);
            assert(normal_pieces(pieces(base)) =~= normal_pieces(sa));
            assert(sa.len() > 0);
        }
        assert(pieces(p) =~= sa + pieces(tail));
        lemma_normal_pieces_concat(sa, pieces(tail));
        assert(sa.len() > 0);
        assert(pieces(p)[0] == sa[0]);
        assert(pieces(base)[0] == sa[0]);
        assert(p[0] == base[0]);
        let head = if path_is_absolute(base) {
            seq![root_component()]
        } else if pieces(base)[0] == current_directory_component() {
            seq![current_directory_component()]
        } else {
            Seq::<Seq<char>>::empty()
        };
        assert(path_components(base) == head + normal_pieces(sa));
        assert(path_components(p) =~= (head + normal_pieces(sa)) + normal_pieces(pieces(tail)));
    }
}

/// A piece without separators is split into nothing but itself.
pub proof fn lemma_split_scan_without_separator(b: Seq<char>)
    requires
        has_no_separator(b),
    ensures
        split_scan(b) == (Seq::<Seq<char>>::empty(), b),
    decreases b.len(),
{
    if b.len() > 0 {
        assert(has_no_separator(b.drop_last())) by {
            assert forall|i: int| 0 <= i < b.drop_last().len() implies !is_separator(#[trigger] b.drop_last()[i]) by {
                assert(b.drop_last()[i] == b[i]);
            }
        }
        lemma_split_scan_without_separator(b.drop_last());
        assert(!is_separator(b[b.len() - 1]));
        assert(b.drop_last().push(b.last()) =~= b);
    }
}

/// Joining pieces without separators, and splitting the result, gives the pieces back.
pub proof fn lemma_pieces_of_joined(cs: Seq<Seq<char>>)
    requires
        cs.len() > 0,
        forall|i: int| 0 <= i < cs.len() ==> has_no_separator(#[trigger] cs[i]),
    ensures
        pieces(joined_pieces(cs)) == cs,
    decreases cs.len(),
{
    if cs.len() == 1 {
        lemma_split_scan_without_separator(cs[0]);
        assert(pieces(joined_pieces(cs)) =~= cs);
    } else {
        let rest = cs.drop_last();
        assert forall|i: int| 0 <= i < rest.len() implies has_no_separator(#[trigger] rest[i]) by {
            assert(rest[i] == cs[i]);
        }
        lemma_pieces_of_joined(rest);
        let a = joined_pieces(rest) + seq!['/'];
        assert(a.drop_last() =~= joined_pieces(rest));
        assert(has_no_separator(cs[cs.len() - 1]));
        lemma_split_scan_without_separator(cs.last());
        lemma_split_scan_after_separator(a, cs.last());
        assert(joined_pieces(cs) == a + cs.last());
        assert(split_scan(a).0 == pieces(joined_pieces(rest)));
        assert(split_scan(a).0 + Seq::<Seq<char>>::empty() =~= rest);
        assert(rest.push(cs.last()) =~= cs);
    }
}

/// A run of normal components is its own run of normal components.
pub proof fn lemma_normal_pieces_of_normal(cs: Seq<Seq<char>>)
    requires
        forall|i: int| 0 <= i < cs.len() ==> is_normal_piece(#[trigger] cs[i]),
    ensures
        normal_pieces(cs) == cs,
    decreases cs.len(),
{
    if cs.len() > 0 {
        let rest = cs.drop_last();
        assert forall|i: int| 0 <= i < rest.len() implies is_normal_piece(#[trigger] rest[i]) by {
            assert(rest[i] == cs[i]);
        }
        lemma_normal_pieces_of_normal(rest);
        assert(is_normal_piece(cs[cs.len() - 1]));
        assert(rest.push(cs.last()) =~= cs);
    }
}

/// Normal components without separators, joined, are the components of the path they make.
pub proof fn lemma_components_of_joined(cs: Seq<Seq<char>>)
    requires
        forall|i: int| 0 <= i < cs.len() ==> is_normal_piece(#[trigger] cs[i]) && has_no_separator(cs[i]),
    ensures
        path_components(joined_pieces(cs)) == cs,
        !path_is_absolute(joined_pieces(cs)),
        pieces(joined_pieces(cs)).len() > 0,
        normal_pieces(pieces(joined_pieces(cs))) == cs,
{
    lemma_normal_pieces_of_normal(cs);
    if cs.len() == 0 {
        let e = joined_pieces(cs);
        assert(e =~= Seq::<char>::empty());
        assert(pieces(e) =~= seq![Seq::<char>::empty()]);
        assert(pieces(e).drop_last() =~= Seq::<Seq<char>>::empty());
        assert(normal_pieces(Seq::<Seq<char>>::empty()) =~= Seq::<Seq<char>>::empty());
        assert(!is_normal_piece(pieces(e).last()));
        assert(normal_pieces(pieces(e)) =~= Seq::<Seq<char>>::empty());
        assert(path_components(e) =~= cs);
    } else {
        assert forall|i: int| 0 <= i < cs.len() implies has_no_separator(#[trigger] cs[i]) by {}
        lemma_pieces_of_joined(cs);
        assert(cs[0].len() > 0);
        lemma_joined_pieces_starts_with_first(cs);
        assert(has_no_separator(cs[0]));
        assert(!is_separator(cs[0][0]));
        assert(pieces(joined_pieces(cs))[0] != current_directory_component());
        assert(path_components(joined_pieces(cs)) =~= normal_pieces(cs));
    }
}

/// Past its first, every component of a path is a normal one without separators.
pub proof fn lemma_components_tail_normal(s: Seq<char>)
    ensures
        forall|i: int| 1 <= i < path_components(s).len() ==> is_normal_piece(#[trigger] path_components(s)[i])
            && has_no_separator(path_components(s)[i]),
{
    let ps = pieces(s);
    lemma_split_scan_pieces_have_no_separator(s);
    lemma_normal_pieces_are_pieces(ps);
    assert forall|j: int| 0 <= j < ps.len() implies has_no_separator(#[trigger] ps[j]) by {
        if j < split_scan(s).0.len() {
            assert(ps[j] == split_scan(s).0[j]);
        }
    }
    let head = if path_is_absolute(s) {
        seq![root_component()]
    } else if ps[0] == current_directory_component() {
        seq![current_directory_component()]
    } else {
        Seq::<Seq<char>>::empty()
    };
    let ns = normal_pieces(ps);
    assert(path_components(s) == head + ns);
    assert forall|i: int| 1 <= i < path_components(s).len() implies is_normal_piece(#[trigger] path_components(s)[i])
        && has_no_separator(path_components(s)[i]) by {
        let c = ns[i - head.len()];
        assert(path_components(s)[i] == c);
        let j = choose|j: int| 0 <= j < ps.len() && ps[j] == c;
        assert(has_no_separator(ps[j]));
    }
}

} // verus!
