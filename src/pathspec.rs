//! Path specifications and their split into what a sparse filter can express
//! and what it cannot.
use vstd::prelude::*;

verus! {

/// A path specification handed to `git`.
#[derive(Debug)]
pub enum PathSpec {
    /// A literal path, anchored at the root of the working copy, in its
    /// displayed form.
    Path(String),
}

impl View for PathSpec {
    type V = Seq<char>;

    /// The path that the specification encompasses.
    open spec fn view(&self) -> Seq<char> {
        match self {
            PathSpec::Path(p) => p@,
        }
    }
}

/// The views of a sequence of path specifications.
pub open spec fn views(ps: Seq<PathSpec>) -> Seq<Seq<char>> {
    ps.map_values(|p: PathSpec| p@)
}

/// A path can stand in a sparse filter when it holds neither a line break nor
/// a NUL: the filter's format has no escaping.
pub open spec fn is_simple(p: Seq<char>) -> bool {
    !p.contains('\n') && !p.contains('\0')
}

/// The magic prefix that makes `git` read a path literally, from the top.
pub open spec fn top_literal_prefix() -> Seq<char> {
    seq![':', '(', 't', 'o', 'p', ',', 'l', 'i', 't', 'e', 'r', 'a', 'l', ')']
}

/// The displayed form of a literal path specification.
pub open spec fn displayed(p: Seq<char>) -> Seq<char> {
    top_literal_prefix() + p
}

/// Each item followed by `sep`, all concatenated.
pub open spec fn terminated(items: Seq<Seq<char>>, sep: char) -> Seq<char>
    decreases items.len(),
{
    if items.len() == 0 {
        Seq::empty()
    } else {
        terminated(items.drop_last(), sep) + items.last().push(sep)
    }
}

/// Whether `c` is escaped in a sparse-checkout pattern: the characters that
/// gitignore syntax treats specially, and the space, which it drops at the
/// end of a line.
pub open spec fn needs_escape(c: char) -> bool {
    c == '\\' || c == '*' || c == '?' || c == '[' || c == '!' || c == '#' || c == ' '
}

/// How `c` is written in a sparse-checkout pattern.
pub open spec fn escape_unit(c: char) -> Seq<char> {
    if needs_escape(c) {
        seq!['\\', c]
    } else {
        seq![c]
    }
}

/// `p` with each special character preceded by a backslash.
pub open spec fn escaped(p: Seq<char>) -> Seq<char>
    decreases p.len(),
{
    if p.len() == 0 {
        Seq::empty()
    } else {
        escaped(p.drop_last()) + escape_unit(p.last())
    }
}

/// The sparse-checkout pattern that matches exactly the literal path `p`
/// below the top of the worktree: anchored by a leading `/`, and escaped.
pub open spec fn sparse_pattern(p: Seq<char>) -> Seq<char> {
    seq!['/'] + escaped(p)
}

impl PathSpec {
    /// The sparse-checkout pattern for this specification.
    pub fn sparse_pattern(&self) -> (r: String)
        ensures
            r@ == sparse_pattern(self@),
    {
        match self {
            PathSpec::Path(p) => {
                let s = p.as_str();
                let n = s.unicode_len();
                let mut out = String::from_str("/");
                proof {
                    reveal_strlit("/");
                    reveal_strlit("\\");
                }
                assert(s@.take(0) =~= Seq::<char>::empty());
                assert(out@ =~= seq!['/'] + escaped(s@.take(0)));
                let mut i: usize = 0;
                while i < n
                    invariant
                        i <= n,
                        n == s@.len(),
                        s@ == self@,
                        out@ == seq!['/'] + escaped(s@.take(i as int)),
                    decreases n - i,
                {
                    let c = s.get_char(i);
                    let ghost before = out@;
                    proof {
                        reveal_strlit("\\");
                    }
                    if c == '\\' || c == '*' || c == '?' || c == '[' || c == '!' || c == '#' || c
                        == ' ' {
                        out.append("\\");
                    }
                    out.append(s.substring_char(i, i + 1));
                    assert(s@.take(i + 1).drop_last() =~= s@.take(i as int));
                    assert(s@.subrange(i as int, i + 1) =~= seq![c]);
                    assert(out@ =~= before + escape_unit(c));
                    assert(escaped(s@.take(i + 1)) == escaped(s@.take(i as int)) + escape_unit(c));
                    assert(out@ =~= seq!['/'] + escaped(s@.take(i + 1)));
                    i = i + 1;
                }
                assert(s@.take(n as int) =~= s@);
                out
            },
        }
    }

    /// The path that a sparse checkout would have to include for this
    /// specification.
    pub fn as_encompassing_path(&self) -> (r: Option<&str>)
        ensures
            r matches Some(p) && p@ == self@,
    {
        match self {
            PathSpec::Path(p) => Some(p.as_str()),
        }
    }

    /// A copy of the specification.
    pub fn duplicate(&self) -> (r: PathSpec)
        ensures
            r@ == self@,
    {
        match self {
            PathSpec::Path(p) => PathSpec::Path(p.clone()),
        }
    }

    /// Whether a sparse filter can express this specification.
    pub fn is_simple(&self) -> (r: bool)
        ensures
            r == is_simple(self@),
    {
        match self {
            PathSpec::Path(p) => {
                let s = p.as_str();
                let n = s.unicode_len();
                let mut i: usize = 0;
                while i < n
                    invariant
                        i <= n,
                        n == s@.len(),
                        s@ == self@,
                        forall|j: int| 0 <= j < i ==> s@[j] != '\n' && s@[j] != '\0',
                    decreases n - i,
                {
                    let c = s.get_char(i);
                    if c == '\n' || c == '\0' {
                        assert(s@[i as int] == c);
                        return false;
                    }
                    i = i + 1;
                }
                true
            },
        }
    }

    /// The form in which `git` reads the specification as a pathspec.
    pub fn display(&self) -> (r: String)
        ensures
            r@ == displayed(self@),
    {
        match self {
            PathSpec::Path(p) => {
                let mut s = String::from_str(":(top,literal)");
                s.append(p.as_str());
                proof {
                    reveal_strlit(":(top,literal)");
                }
                assert(s@ =~= displayed(self@));
                s
            },
        }
    }
}

/// Requested paths, split by whether a sparse filter can express them.
#[derive(Debug)]
pub struct PathSpecFilter {
    /// The specifications a sparse filter can express, in request order.
    pub simple_filter: Vec<PathSpec>,
    /// All others, in request order.
    pub complex_paths: Vec<PathSpec>,
}

impl PathSpecFilter {
    /// No paths at all.
    pub fn new() -> (r: PathSpecFilter)
        ensures
            r.simple_filter@.len() == 0,
            r.complex_paths@.len() == 0,
    {
        PathSpecFilter { simple_filter: Vec::new(), complex_paths: Vec::new() }
    }

    /// Sorts each of `paths` into the simple or the complex ones, keeping
    /// their order.
    pub fn extend(&mut self, paths: &Vec<PathSpec>)
        ensures
            views(final(self).simple_filter@) == views(old(self).simple_filter@) + views(
                paths@,
            ).filter(|p: Seq<char>| is_simple(p)),
            views(final(self).complex_paths@) == views(old(self).complex_paths@) + views(
                paths@,
            ).filter(|p: Seq<char>| !is_simple(p)),
    {
        let ghost simple0 = views(self.simple_filter@);
        let ghost complex0 = views(self.complex_paths@);
        let ghost all = views(paths@);
        let mut i: usize = 0;
        assert(all.take(0).filter(|p: Seq<char>| is_simple(p)) =~= Seq::empty()) by {
            reveal(Seq::filter);
        }
        assert(all.take(0).filter(|p: Seq<char>| !is_simple(p)) =~= Seq::empty()) by {
            reveal(Seq::filter);
        }
        assert(simple0 + Seq::<Seq<char>>::empty() =~= simple0);
        assert(complex0 + Seq::<Seq<char>>::empty() =~= complex0);
        while i < paths.len()
            invariant
                i <= paths@.len(),
                all == views(paths@),
                views(self.simple_filter@) == simple0 + all.take(i as int).filter(|p: Seq<char>| is_simple(p)),
                views(self.complex_paths@) == complex0 + all.take(i as int).filter(|p: Seq<char>| !is_simple(p)),
            decreases paths@.len() - i,
        {
            let p = paths[i].duplicate();
            assert(all.take(i + 1).drop_last() =~= all.take(i as int));
            assert(all.take(i + 1).last() == p@);
            let ghost before_simple = views(self.simple_filter@);
            let ghost before_complex = views(self.complex_paths@);
            let simple = p.is_simple();
            assert(all.take(i + 1).len() > 0);
            if simple {
                self.simple_filter.push(p);
                assert(views(self.simple_filter@) =~= before_simple.push(p@));
                assert(all.take(i + 1).filter(|p: Seq<char>| is_simple(p)) == all.take(i as int).filter(
                    |p: Seq<char>| is_simple(p),
                ).push(p@)) by {
                    reveal(Seq::filter);
                }
                assert(all.take(i + 1).filter(|p: Seq<char>| !is_simple(p)) == all.take(i as int).filter(
                    |p: Seq<char>| !is_simple(p),
                )) by {
                    reveal(Seq::filter);
                }
            } else {
                self.complex_paths.push(p);
                assert(views(self.complex_paths@) =~= before_complex.push(p@));
                assert(all.take(i + 1).filter(|p: Seq<char>| !is_simple(p)) == all.take(i as int).filter(
                    |p: Seq<char>| !is_simple(p),
                ).push(p@)) by {
                    reveal(Seq::filter);
                }
                assert(all.take(i + 1).filter(|p: Seq<char>| is_simple(p)) == all.take(i as int).filter(
                    |p: Seq<char>| is_simple(p),
                )) by {
                    reveal(Seq::filter);
                }
            }
            i = i + 1;
        }
        assert(all.take(i as int) =~= all);
    }

    /// The split of `paths`.
    pub fn from_paths(paths: &Vec<PathSpec>) -> (r: PathSpecFilter)
        ensures
            views(r.simple_filter@) == views(paths@).filter(|p: Seq<char>| is_simple(p)),
            views(r.complex_paths@) == views(paths@).filter(|p: Seq<char>| !is_simple(p)),
    {
        let mut r = PathSpecFilter::new();
        assert(views(r.simple_filter@) =~= Seq::empty());
        assert(views(r.complex_paths@) =~= Seq::empty());
        r.extend(paths);
        assert(views(r.simple_filter@) =~= views(paths@).filter(|p: Seq<char>| is_simple(p)));
        assert(views(r.complex_paths@) =~= views(paths@).filter(|p: Seq<char>| !is_simple(p)));
        r
    }
}

/// The views of a sequence of strings.
pub open spec fn texts(ss: Seq<String>) -> Seq<Seq<char>> {
    ss.map_values(|s: String| s@)
}

/// The separator that ends each item of a stream: NUL or a line break.
pub open spec fn separator(nul: bool) -> char {
    if nul {
        '\0'
    } else {
        '\n'
    }
}

/// Each of `items` followed by NUL (`nul`) or by a line break.
fn terminated_text(items: &Vec<String>, nul: bool) -> (r: String)
    ensures
        r@ == terminated(texts(items@), separator(nul)),
{
    let mut out = String::new();
    let mut i: usize = 0;
    assert(texts(items@).take(0) =~= Seq::empty());
    while i < items.len()
        invariant
            i <= items@.len(),
            out@ == terminated(texts(items@).take(i as int), separator(nul)),
        decreases items@.len() - i,
    {
        out.append(items[i].as_str());
        if nul {
            out.append("\0");
        } else {
            out.append("\n");
        }
        proof {
            reveal_strlit("\0");
            reveal_strlit("\n");
            let t = texts(items@);
            assert(t.take(i + 1).drop_last() =~= t.take(i as int));
            assert(t.take(i + 1).last() == items@[i as int]@);
        }
        assert(out@ =~= terminated(texts(items@).take(i + 1), separator(nul)));
        i = i + 1;
    }
    assert(texts(items@).take(i as int) =~= texts(items@));
    out
}

/// The encompassing paths of `paths`, in order.
fn path_texts(paths: &Vec<PathSpec>) -> (r: Vec<String>)
    ensures
        texts(r@) == views(paths@),
{
    let mut r: Vec<String> = Vec::new();
    let mut i: usize = 0;
    while i < paths.len()
        invariant
            i <= paths@.len(),
            texts(r@) == views(paths@).take(i as int),
        decreases paths@.len() - i,
    {
        let c = match &paths[i] {
            PathSpec::Path(p) => p.clone(),
        };
        let ghost before = r@;
        r.push(c);
        assert(texts(r@) =~= texts(before).push(paths@[i as int]@));
        assert(texts(r@) =~= views(paths@).take(i + 1));
        i = i + 1;
    }
    assert(views(paths@).take(i as int) =~= views(paths@));
    r
}

/// The displayed forms of `paths`, in order.
fn displayed_texts(paths: &Vec<PathSpec>) -> (r: Vec<String>)
    ensures
        texts(r@) == views(paths@).map_values(|p: Seq<char>| displayed(p)),
{
    let mut r: Vec<String> = Vec::new();
    let mut i: usize = 0;
    while i < paths.len()
        invariant
            i <= paths@.len(),
            texts(r@) == views(paths@).map_values(|p: Seq<char>| displayed(p)).take(i as int),
        decreases paths@.len() - i,
    {
        let d = paths[i].display();
        let ghost before = r@;
        r.push(d);
        assert(texts(r@) =~= texts(before).push(displayed(paths@[i as int]@)));
        assert(texts(r@) =~= views(paths@).map_values(|p: Seq<char>| displayed(p)).take(i + 1));
        i = i + 1;
    }
    assert(views(paths@).map_values(|p: Seq<char>| displayed(p)).take(i as int) =~= views(
        paths@,
    ).map_values(|p: Seq<char>| displayed(p)));
    r
}

/// The sparse-checkout patterns of `paths`, in order.
fn pattern_texts(paths: &Vec<PathSpec>) -> (r: Vec<String>)
    ensures
        texts(r@) == views(paths@).map_values(|p: Seq<char>| sparse_pattern(p)),
{
    let mut r: Vec<String> = Vec::new();
    let mut i: usize = 0;
    while i < paths.len()
        invariant
            i <= paths@.len(),
            texts(r@) == views(paths@).map_values(|p: Seq<char>| sparse_pattern(p)).take(i as int),
        decreases paths@.len() - i,
    {
        let d = paths[i].sparse_pattern();
        let ghost before = r@;
        r.push(d);
        assert(texts(r@) =~= texts(before).push(sparse_pattern(paths@[i as int]@)));
        assert(texts(r@) =~= views(paths@).map_values(|p: Seq<char>| sparse_pattern(p)).take(i + 1));
        i = i + 1;
    }
    assert(views(paths@).map_values(|p: Seq<char>| sparse_pattern(p)).take(i as int) =~= views(
        paths@,
    ).map_values(|p: Seq<char>| sparse_pattern(p)));
    r
}

/// The input from which `git hash-object` stores a sparse filter for `paths`:
/// each path followed by NUL.
pub fn sparse_filter_input(paths: &Vec<PathSpec>) -> (r: String)
    ensures
        r@ == terminated(views(paths@), '\0'),
{
    let items = path_texts(paths);
    terminated_text(&items, true)
}

/// The patterns that `git sparse-checkout set --no-cone --stdin` reads for
/// `paths`: each path's anchored, escaped pattern followed by a line break.
pub fn sparse_checkout_input(paths: &Vec<PathSpec>) -> (r: String)
    ensures
        r@ == terminated(views(paths@).map_values(|p: Seq<char>| sparse_pattern(p)), '\n'),
{
    let items = pattern_texts(paths);
    terminated_text(&items, false)
}

/// The pathspec file that `git checkout --pathspec-file-nul` reads for
/// `paths`: each displayed form followed by NUL.
pub fn pathspec_file_input(paths: &Vec<PathSpec>) -> (r: String)
    ensures
        r@ == terminated(views(paths@).map_values(|p: Seq<char>| displayed(p)), '\0'),
{
    let items = displayed_texts(paths);
    terminated_text(&items, true)
}

/// The complex part of a split is empty exactly when every path is simple,
/// and then the simple part is all of the paths, in order.
pub proof fn lemma_no_complex(ps: Seq<Seq<char>>)
    ensures
        ps.filter(|p: Seq<char>| !is_simple(p)).len() == 0 <==> forall|i: int|
            0 <= i < ps.len() ==> is_simple(#[trigger] ps[i]),
        ps.filter(|p: Seq<char>| !is_simple(p)).len() == 0 ==> ps.filter(
            |p: Seq<char>| is_simple(p),
        ) == ps,
    decreases ps.len(),
{
    reveal(Seq::filter);
    if ps.len() > 0 {
        let q = ps.drop_last();
        lemma_no_complex(q);
        assert(q.filter(|p: Seq<char>| !is_simple(p)).len() <= ps.filter(
            |p: Seq<char>| !is_simple(p),
        ).len());
        if forall|i: int| 0 <= i < ps.len() ==> is_simple(#[trigger] ps[i]) {
            assert forall|i: int| 0 <= i < q.len() implies is_simple(#[trigger] q[i]) by {
                assert(q[i] == ps[i]);
            }
            assert(is_simple(ps[ps.len() - 1]));
            assert(q.push(ps.last()) =~= ps);
        }
    } else {
        assert(ps.filter(|p: Seq<char>| !is_simple(p)) =~= ps);
    }
}

/// Splitting loses and adds no path: the simple part followed by the complex
/// part holds each path as often as the request does.
pub proof fn lemma_split_keeps_all(ps: Seq<Seq<char>>)
    ensures
        (ps.filter(|p: Seq<char>| is_simple(p)) + ps.filter(
            |p: Seq<char>| !is_simple(p),
        )).to_multiset() == ps.to_multiset(),
    decreases ps.len(),
{
    broadcast use vstd::seq_lib::lemma_multiset_commutative, vstd::multiset::group_multiset_axioms;

    reveal(Seq::filter);
    let s = ps.filter(|p: Seq<char>| is_simple(p));
    let c = ps.filter(|p: Seq<char>| !is_simple(p));
    if ps.len() == 0 {
        assert(s + c =~= ps);
    } else {
        let q = ps.drop_last();
        let x = ps.last();
        lemma_split_keeps_all(q);
        let qs = q.filter(|p: Seq<char>| is_simple(p));
        let qc = q.filter(|p: Seq<char>| !is_simple(p));
        q.to_multiset_ensures();
        qs.to_multiset_ensures();
        qc.to_multiset_ensures();
        assert(q.push(x) =~= ps);
        assert((qs + qc).to_multiset() =~= qs.to_multiset().add(qc.to_multiset()));
        assert((s + c).to_multiset() =~= s.to_multiset().add(c.to_multiset()));
        if is_simple(x) {
            assert(s == qs.push(x));
            assert(c == qc);
        } else {
            assert(s == qs);
            assert(c == qc.push(x));
        }
        assert((s + c).to_multiset() =~= q.to_multiset().insert(x));
    }
}

/// A non-empty stream ends with the separator.
proof fn lemma_terminated_ends(items: Seq<Seq<char>>, sep: char)
    ensures
        items.len() == 0 ==> terminated(items, sep).len() == 0,
        items.len() > 0 ==> terminated(items, sep).len() > 0 && terminated(items, sep).last() == sep,
{
    if items.len() > 0 {
        let t = terminated(items, sep);
        assert(t == terminated(items.drop_last(), sep) + items.last().push(sep));
    }
}

/// Items that hold no separator are told apart by their stream: equal
/// streams come only from equal item lists.
pub proof fn lemma_terminated_injective(a: Seq<Seq<char>>, b: Seq<Seq<char>>, sep: char)
    requires
        forall|i: int| 0 <= i < a.len() ==> !(#[trigger] a[i]).contains(sep),
        forall|i: int| 0 <= i < b.len() ==> !(#[trigger] b[i]).contains(sep),
        terminated(a, sep) == terminated(b, sep),
    ensures
        a == b,
    decreases a.len(),
{
    let ta = terminated(a, sep);
    let tb = terminated(b, sep);
    lemma_terminated_ends(a, sep);
    lemma_terminated_ends(b, sep);
    if a.len() == 0 || b.len() == 0 {
        assert(a =~= b);
    } else {
        let a0 = a.drop_last();
        let b0 = b.drop_last();
        let x = a.last();
        let y = b.last();
        let pa = terminated(a0, sep);
        let pb = terminated(b0, sep);
        assert(ta == pa + x.push(sep));
        assert(tb == pb + y.push(sep));
        lemma_terminated_ends(a0, sep);
        lemma_terminated_ends(b0, sep);
        assert(!x.contains(sep)) by {
            assert(x == a[a.len() - 1]);
        }
        assert(!y.contains(sep)) by {
            assert(y == b[b.len() - 1]);
        }
        if x.len() < y.len() {
            let k = pa.len() - 1;
            assert(a0.len() > 0);
            assert(ta[k] == sep);
            assert(tb[k] == y[k - pb.len()]);
            assert(y.contains(sep));
        }
        if y.len() < x.len() {
            let k = pb.len() - 1;
            assert(b0.len() > 0);
            assert(tb[k] == sep);
            assert(ta[k] == x[k - pa.len()]);
            assert(x.contains(sep));
        }
        assert(pa.len() == pb.len());
        assert(pa =~= ta.subrange(0, pa.len() as int));
        assert(pb =~= tb.subrange(0, pb.len() as int));
        assert(x =~= ta.subrange(pa.len() as int, (pa.len() + x.len()) as int));
        assert(y =~= tb.subrange(pb.len() as int, (pb.len() + y.len()) as int));
        assert forall|i: int| 0 <= i < a0.len() implies !(#[trigger] a0[i]).contains(sep) by {
            assert(a0[i] == a[i]);
        }
        assert forall|i: int| 0 <= i < b0.len() implies !(#[trigger] b0[i]).contains(sep) by {
            assert(b0[i] == b[i]);
        }
        lemma_terminated_injective(a0, b0, sep);
        assert(a =~= a0.push(x));
        assert(b =~= b0.push(y));
    }
}

/// Escaping is undone by reading from the end: a character that needs an
/// escape always comes with its backslash, so equal escapes come from equal
/// paths.
proof fn lemma_escaped_injective(x: Seq<char>, y: Seq<char>)
    requires
        escaped(x) == escaped(y),
    ensures
        x == y,
    decreases x.len(),
{
    if x.len() == 0 || y.len() == 0 {
        if x.len() > 0 {
            assert(escaped(x).len() > 0);
        }
        if y.len() > 0 {
            assert(escaped(y).len() > 0);
        }
        assert(x =~= y);
    } else {
        let ex = escaped(x);
        let ux = escape_unit(x.last());
        let uy = escape_unit(y.last());
        assert(ex == escaped(x.drop_last()) + ux);
        assert(escaped(y) == escaped(y.drop_last()) + uy);
        assert(ex.last() == ux.last());
        assert(ex.last() == uy.last());
        assert(x.last() == y.last());
        assert(escaped(x.drop_last()) =~= ex.subrange(0, ex.len() - ux.len()));
        assert(escaped(y.drop_last()) =~= ex.subrange(0, ex.len() - uy.len()));
        lemma_escaped_injective(x.drop_last(), y.drop_last());
        assert(x =~= x.drop_last().push(x.last()));
        assert(y =~= y.drop_last().push(y.last()));
    }
}

/// Escaping adds only backslashes.
proof fn lemma_escaped_adds_no(p: Seq<char>, c: char)
    requires
        c != '\\',
        !p.contains(c),
    ensures
        !escaped(p).contains(c),
    decreases p.len(),
{
    if p.len() > 0 {
        let q = p.drop_last();
        assert(!q.contains(c)) by {
            if q.contains(c) {
                let j = choose|j: int| 0 <= j < q.len() && q[j] == c;
                assert(p[j] == c);
            }
        }
        lemma_escaped_adds_no(q, c);
        assert(p.last() != c) by {
            if p.last() == c {
                assert(p[p.len() - 1] == c);
            }
        }
        let e = escaped(p);
        assert(e == escaped(q) + escape_unit(p.last()));
        if e.contains(c) {
            let j = choose|j: int| 0 <= j < e.len() && e[j] == c;
            if j < escaped(q).len() {
                assert(escaped(q)[j] == c);
            }
        }
    }
}

/// The inputs fed to the sparse filter and to sparse checkout name exactly
/// the requested simple paths: two lists of simple paths with the same
/// NUL-terminated stream, or the same stream of sparse-checkout patterns,
/// are the same list.
pub proof fn lemma_sparse_inputs_determine_paths(a: Seq<Seq<char>>, b: Seq<Seq<char>>)
    requires
        forall|i: int| 0 <= i < a.len() ==> is_simple(#[trigger] a[i]),
        forall|i: int| 0 <= i < b.len() ==> is_simple(#[trigger] b[i]),
    ensures
        terminated(a, '\0') == terminated(b, '\0') ==> a == b,
        terminated(a.map_values(|p: Seq<char>| sparse_pattern(p)), '\n') == terminated(
            b.map_values(|p: Seq<char>| sparse_pattern(p)),
            '\n',
        ) ==> a == b,
{
    if terminated(a, '\0') == terminated(b, '\0') {
        lemma_terminated_injective(a, b, '\0');
    }
    let pa = a.map_values(|p: Seq<char>| sparse_pattern(p));
    let pb = b.map_values(|p: Seq<char>| sparse_pattern(p));
    if terminated(pa, '\n') == terminated(pb, '\n') {
        assert forall|i: int| 0 <= i < pa.len() implies !(#[trigger] pa[i]).contains('\n') by {
            lemma_escaped_adds_no(a[i], '\n');
            assert(pa[i] == seq!['/'] + escaped(a[i]));
            if pa[i].contains('\n') {
                let j = choose|j: int| 0 <= j < pa[i].len() && pa[i][j] == '\n';
                assert(escaped(a[i])[j - 1] == '\n');
            }
        }
        assert forall|i: int| 0 <= i < pb.len() implies !(#[trigger] pb[i]).contains('\n') by {
            lemma_escaped_adds_no(b[i], '\n');
            assert(pb[i] == seq!['/'] + escaped(b[i]));
            if pb[i].contains('\n') {
                let j = choose|j: int| 0 <= j < pb[i].len() && pb[i][j] == '\n';
                assert(escaped(b[i])[j - 1] == '\n');
            }
        }
        lemma_terminated_injective(pa, pb, '\n');
        assert forall|i: int| 0 <= i < a.len() implies #[trigger] a[i] == b[i] by {
            assert(pa[i] == pb[i]);
            assert(escaped(a[i]) =~= pa[i].subrange(1, pa[i].len() as int));
            assert(escaped(b[i]) =~= pb[i].subrange(1, pb[i].len() as int));
            lemma_escaped_injective(a[i], b[i]);
        }
        assert(a =~= b);
    }
}

} // verus!
