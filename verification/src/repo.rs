use crate::error::GiError;
use crate::flow::{before_in_progress, Action, Event};
use vstd::prelude::*;
use vstd::seq_lib::to_multiset_contains;
use vstd::string::*;

verus! {

/// The order of texts that `String`'s `Ord` gives: lexicographic by character (UTF-8
/// byte order and code point order agree).
pub open spec fn text_le(a: Seq<char>, b: Seq<char>) -> bool
    decreases a.len(),
{
    if a.len() == 0 {
        true
    } else if b.len() == 0 {
        false
    } else if a[0] < b[0] {
        true
    } else if a[0] > b[0] {
        false
    } else {
        text_le(a.drop_first(), b.drop_first())
    }
}

/// The texts are in ascending order.
pub open spec fn sorted_texts(s: Seq<Seq<char>>) -> bool {
    forall|i: int, j: int| 0 <= i < j < s.len() ==> text_le(#[trigger] s[i], #[trigger] s[j])
}

/// Any two texts are ordered one way or the other.
pub proof fn lemma_text_le_total(a: Seq<char>, b: Seq<char>)
    ensures
        text_le(a, b) || text_le(b, a),
    decreases a.len(),
{
    if a.len() > 0 && b.len() > 0 && a[0] == b[0] {
        lemma_text_le_total(a.drop_first(), b.drop_first());
    }
}

/// The order is transitive.
pub proof fn lemma_text_le_transitive(a: Seq<char>, b: Seq<char>, c: Seq<char>)
    requires
        text_le(a, b),
        text_le(b, c),
    ensures
        text_le(a, c),
    decreases a.len(),
{
    if a.len() > 0 && b.len() > 0 && c.len() > 0 && a[0] == b[0] && b[0] == c[0] {
        lemma_text_le_transitive(a.drop_first(), b.drop_first(), c.drop_first());
    }
}

/// Two texts that are each ordered before the other are equal.
pub proof fn lemma_text_le_antisymmetric(a: Seq<char>, b: Seq<char>)
    requires
        text_le(a, b),
        text_le(b, a),
    ensures
        a == b,
    decreases a.len(),
{
    if a.len() > 0 && b.len() > 0 {
        lemma_text_le_antisymmetric(a.drop_first(), b.drop_first());
        assert(a =~= seq![a[0]] + a.drop_first());
        assert(b =~= seq![b[0]] + b.drop_first());
    }
}

/// Texts are ordered by their first differing character, and a text comes before every text
/// that it begins.
pub proof fn text_order_is_by_characters(a: Seq<char>, b: Seq<char>, k: int)
    requires
        0 <= k <= a.len(),
        k <= b.len(),
        a.subrange(0, k) == b.subrange(0, k),
    ensures
        k == a.len() ==> text_le(a, b),
        k < a.len() && k < b.len() && a[k] < b[k] ==> text_le(a, b) && !text_le(b, a),
    decreases k,
{
    if k > 0 {
        assert(a[0] == a.subrange(0, k)[0]);
        assert(b[0] == b.subrange(0, k)[0]);
        assert(a.drop_first().subrange(0, k - 1) =~= b.drop_first().subrange(0, k - 1)) by {
            assert forall|i: int| 0 <= i < k - 1 implies #[trigger] a.drop_first().subrange(0, k - 1)[i]
                == b.drop_first().subrange(0, k - 1)[i] by {
                assert(a.subrange(0, k)[i + 1] == b.subrange(0, k)[i + 1]);
                assert(a.drop_first().subrange(0, k - 1)[i] == a[i + 1]);
                assert(b.drop_first().subrange(0, k - 1)[i] == b[i + 1]);
                assert(a.subrange(0, k)[i + 1] == a[i + 1]);
                assert(b.subrange(0, k)[i + 1] == b[i + 1]);
            }
        }
        text_order_is_by_characters(a.drop_first(), b.drop_first(), k - 1);
    }
}

/// Whether `a` comes before or with `b` in the order of texts.
pub fn text_leq(a: &str, b: &str) -> (r: bool)
    ensures
        r == text_le(a@, b@),
{
    let x = crate::text::chars_of(a);
    let y = crate::text::chars_of(b);
    let mut i: usize = 0;
    assert(a@.skip(0) =~= a@);
    assert(b@.skip(0) =~= b@);
    while i < x.len() && i < y.len() && x[i] == y[i]
        invariant
            x@ == a@,
            y@ == b@,
            i <= x@.len(),
            i <= y@.len(),
            forall|k: int| 0 <= k < i ==> x@[k] == y@[k],
            text_le(a@, b@) == text_le(a@.skip(i as int), b@.skip(i as int)),
        decreases x@.len() - i,
    {
        assert(a@.skip(i as int).drop_first() =~= a@.skip(i + 1));
        assert(b@.skip(i as int).drop_first() =~= b@.skip(i + 1));
        i = i + 1;
    }
    if i == x.len() {
        assert(a@.skip(i as int).len() == 0);
        true
    } else if i == y.len() {
        assert(a@.skip(i as int)[0] == a@[i as int]);
        assert(b@.skip(i as int).len() == 0);
        false
    } else {
        assert(a@.skip(i as int)[0] == a@[i as int]);
        assert(b@.skip(i as int)[0] == b@[i as int]);
        assert(x@[i as int] != y@[i as int]);
        x[i] < y[i]
    }
}

/// Sorts texts into ascending order, as `Vec::<String>::sort` does.
pub fn sort_texts(items: Vec<String>) -> (r: Vec<String>)
    ensures
        r@.to_multiset() == items@.to_multiset(),
        sorted_texts(r.deep_view()),
{
    broadcast use vstd::seq_lib::group_to_multiset_ensures;

    let mut r: Vec<String> = Vec::new();
    let mut i: usize = 0;
    while i < items.len()
        invariant
            i <= items@.len(),
            r@.to_multiset() == items@.take(i as int).to_multiset(),
            sorted_texts(r.deep_view()),
        decreases items@.len() - i,
    {
        let x = items[i].clone();
        let mut pos: usize = 0;
        while pos < r.len() && text_leq(r[pos].as_str(), x.as_str())
            invariant
                pos <= r@.len(),
                i < items@.len(),
                r@.to_multiset() == items@.take(i as int).to_multiset(),
                sorted_texts(r.deep_view()),
                x == items@[i as int],
                forall|k: int| 0 <= k < pos ==> text_le(#[trigger] r@[k]@, x@),
            decreases r@.len() - pos,
        {
            pos = pos + 1;
        }
        let ghost before = r@;
        let ghost bd = r.deep_view();
        proof {
            if pos < r@.len() {
                lemma_text_le_total(r@[pos as int]@, x@);
            }
        }
        r.insert(pos, x);
        proof {
            before.insert_ensures(pos as int, x);
            assert(r@ == before.insert(pos as int, x));
            assert(r@.remove(pos as int) =~= before);
            r@.to_multiset_ensures();
            assert(r@.remove(pos as int).to_multiset() == r@.to_multiset().remove(r@[pos as int]));
            assert(r@.to_multiset().count(x) > 0) by {
                assert(r@.contains(x)) by {
                    assert(r@[pos as int] == x);
                }
            }
            assert(r@.to_multiset() =~= before.to_multiset().insert(x));
            assert(items@.take(i + 1) =~= items@.take(i as int).push(items@[i as int]));
            items@.take(i as int).to_multiset_ensures();
            let d = r.deep_view();
            assert forall|a: int, b: int| 0 <= a < b < d.len() implies text_le(
                #[trigger] d[a],
                #[trigger] d[b],
            ) by {
                assert(before.len() + 1 == d.len());
                assert(forall|k: int| 0 <= k < before.len() ==> bd[k] == #[trigger] before[k]@);
                if b < pos {
                    assert(d[a] == before[a]@ && d[b] == before[b]@);
                    assert(text_le(bd[a], bd[b]));
                } else if b == pos {
                    assert(d[b] == x@);
                    assert(d[a] == before[a]@);
                } else if a == pos {
                    assert(d[a] == x@);
                    assert(d[b] == before[b - 1]@);
                    if b - 1 > pos {
                        assert(text_le(bd[pos as int], bd[b - 1]));
                        lemma_text_le_transitive(x@, before[pos as int]@, before[b - 1]@);
                    }
                } else if a < pos {
                    assert(d[a] == before[a]@ && d[b] == before[b - 1]@);
                    assert(text_le(bd[a], bd[b - 1]));
                } else {
                    assert(d[a] == before[a - 1]@ && d[b] == before[b - 1]@);
                    assert(text_le(bd[a - 1], bd[b - 1]));
                }
            }
        }
        i = i + 1;
    }
    assert(items@.take(items@.len() as int) =~= items@);
    r
}


/// A file that the status of the working tree reports: its path, when the path is valid
/// UTF-8, and whether the file is new (untracked) in the working tree.
#[derive(Debug, PartialEq)]
pub struct StatusEntry {
    pub path: Option<String>,
    pub untracked: bool,
}

/// The values that are present, in order.
pub open spec fn present<T>(s: Seq<Option<T>>) -> Seq<T>
    decreases s.len(),
{
    if s.len() == 0 {
        seq![]
    } else {
        match s.last() {
            Some(v) => present(s.drop_last()).push(v),
            None => present(s.drop_last()),
        }
    }
}

/// The paths of the untracked files, in order.
pub open spec fn untracked_paths(s: Seq<StatusEntry>) -> Seq<String>
    decreases s.len(),
{
    if s.len() == 0 {
        seq![]
    } else {
        match s.last().path {
            Some(p) if s.last().untracked => untracked_paths(s.drop_last()).push(p),
            _ => untracked_paths(s.drop_last()),
        }
    }
}

/// The files with changes that are not staged, as the add command lists them: the
/// paths of the modified files (those of the diff between the index and the working tree
/// that have a path) and those of the untracked files, sorted.
pub fn unstaged_files(modified: Vec<Option<String>>, statuses: Vec<StatusEntry>) -> (r: Vec<String>)
    ensures
        r@.to_multiset() == (present(modified@) + untracked_paths(statuses@)).to_multiset(),
        sorted_texts(r.deep_view()),
        forall|i: int|
            0 <= i < modified@.len() ==> (#[trigger] modified@[i] matches Some(p) ==> r@.contains(p)),
        forall|i: int|
            0 <= i < statuses@.len() ==> (#[trigger] statuses@[i].path matches Some(p) ==> (
            statuses@[i].untracked ==> r@.contains(p))),
{
    let mut files: Vec<String> = Vec::new();
    let mut i: usize = 0;
    while i < modified.len()
        invariant
            i <= modified@.len(),
            files@ == present(modified@.take(i as int)),
        decreases modified@.len() - i,
    {
        assert(modified@.take(i + 1).drop_last() =~= modified@.take(i as int));
        match &modified[i] {
            Some(p) => files.push(p.clone()),
            None => {},
        }
        i = i + 1;
    }
    assert(modified@.take(modified@.len() as int) =~= modified@);
    let ghost first = files@;
    let mut j: usize = 0;
    while j < statuses.len()
        invariant
            j <= statuses@.len(),
            first == present(modified@),
            files@ == first + untracked_paths(statuses@.take(j as int)),
        decreases statuses@.len() - j,
    {
        assert(statuses@.take(j + 1).drop_last() =~= statuses@.take(j as int));
        let e = &statuses[j];
        if e.untracked {
            match &e.path {
                Some(p) => files.push(p.clone()),
                None => {},
            }
        }
        j = j + 1;
    }
    assert(statuses@.take(statuses@.len() as int) =~= statuses@);
    let r = sort_texts(files);
    proof {
        let all = present(modified@) + untracked_paths(statuses@);
        modified_paths_keep_every_path(modified@);
        untracked_paths_keep_every_path(statuses@);
        assert forall|p: String| all.contains(p) implies r@.contains(p) by {
            to_multiset_contains(all, p);
            to_multiset_contains(r@, p);
        }
        assert forall|i: int| 0 <= i < modified@.len() implies (#[trigger] modified@[i] matches Some(
            p,
        ) ==> r@.contains(p)) by {
            if let Some(p) = modified@[i] {
                let k = choose|k: int| 0 <= k < present(modified@).len() && present(modified@)[k] == p;
                assert(all[k] == p);
                assert(all.contains(p));
            }
        }
        assert forall|i: int| 0 <= i < statuses@.len() implies (#[trigger] statuses@[i].path matches Some(
            p,
        ) ==> (statuses@[i].untracked ==> r@.contains(p))) by {
            if let Some(p) = statuses@[i].path {
                if statuses@[i].untracked {
                    let u = untracked_paths(statuses@);
                    let k = choose|k: int| 0 <= k < u.len() && u[k] == p;
                    assert(all[present(modified@).len() + k] == p);
                    assert(all.contains(p));
                }
            }
        }
    }
    r
}

/// The names that could be read, in order: entries that failed or whose name is not valid
/// UTF-8 are left out.
pub open spec fn readable_names<E>(s: Seq<Result<Option<String>, E>>) -> Seq<String>
    decreases s.len(),
{
    if s.len() == 0 {
        seq![]
    } else {
        match s.last() {
            Ok(Some(n)) => readable_names(s.drop_last()).push(n),
            _ => readable_names(s.drop_last()),
        }
    }
}

/// The branch names, as the commands list them, from the branches that the
/// repository lists: each entry is the branch's name, `None` where it is not valid UTF-8,
/// or the error met while reading the branch.
pub fn branch_names(entries: Vec<Result<Option<String>, git2::Error>>) -> (r: Vec<String>)
    ensures
        r@ == readable_names(entries@),
        forall|i: int|
            0 <= i < entries@.len() ==> (#[trigger] entries@[i] matches Ok(Some(n)) ==> r@.contains(n)),
{
    let mut names: Vec<String> = Vec::new();
    let mut i: usize = 0;
    while i < entries.len()
        invariant
            i <= entries@.len(),
            names@ == readable_names(entries@.take(i as int)),
        decreases entries@.len() - i,
    {
        assert(entries@.take(i + 1).drop_last() =~= entries@.take(i as int));
        match &entries[i] {
            Ok(Some(n)) => names.push(n.clone()),
            _ => {},
        }
        i = i + 1;
    }
    assert(entries@.take(entries@.len() as int) =~= entries@);
    proof {
        branch_names_keep_every_readable_name(entries@);
    }
    names
}


/// An element that `f` keeps is in what `s.filter_map(f)` gives.
pub proof fn lemma_filter_map_keeps<A, B>(s: Seq<A>, f: spec_fn(A) -> Option<B>, i: int)
    requires
        0 <= i < s.len(),
        f(s[i]) is Some,
    ensures
        s.filter_map(f).contains(f(s[i])->0),
    decreases s.len(),
{
    let rest = s.drop_last();
    if i < s.len() - 1 {
        assert(rest[i] == s[i]);
        lemma_filter_map_keeps(rest, f, i);
        let r = rest.filter_map(f);
        let j = choose|j: int| 0 <= j < r.len() && r[j] == f(s[i])->0;
        match f(s.last()) {
            Some(v) => assert((r + seq![v])[j] == r[j]),
            None => {},
        }
    } else {
        let r = rest.filter_map(f);
        let v = f(s.last())->0;
        assert((r + seq![v])[r.len() as int] == v);
    }
}

/// Everything that `s.filter_map(f)` gives is what `f` keeps of an element of `s`.
pub proof fn lemma_filter_map_from<A, B>(s: Seq<A>, f: spec_fn(A) -> Option<B>, j: int)
    requires
        0 <= j < s.filter_map(f).len(),
    ensures
        exists|i: int| 0 <= i < s.len() && f(s[i]) == Some(s.filter_map(f)[j]),
    decreases s.len(),
{
    let rest = s.drop_last();
    let r = rest.filter_map(f);
    if j < r.len() {
        match f(s.last()) {
            Some(v) => assert((r + seq![v])[j] == r[j]),
            None => {},
        }
        lemma_filter_map_from(rest, f, j);
        let i = choose|i: int| 0 <= i < rest.len() && f(rest[i]) == Some(r[j]);
        assert(s[i] == rest[i]);
    } else {
        let v = f(s.last())->0;
        assert((r + seq![v])[j] == v);
        assert(f(s[s.len() - 1]) == Some(s.filter_map(f)[j]));
    }
}

/// The branch names listed are those of the branches whose name could be read, every one of
/// them whatever its text, in the order of the branches, and nothing else.
pub proof fn branch_names_keep_every_readable_name<E>(s: Seq<Result<Option<String>, E>>)
    ensures
        readable_names(s) == s.filter_map(
            |x: Result<Option<String>, E>|
                match x {
                    Ok(Some(n)) => Some(n),
                    _ => None,
                },
        ),
        forall|i: int|
            0 <= i < s.len() ==> (#[trigger] s[i] matches Ok(Some(n)) ==> readable_names(
                s,
            ).contains(n)),
        forall|j: int|
            0 <= j < readable_names(s).len() ==> exists|i: int|
                0 <= i < s.len() && s[i] == Ok::<Option<String>, E>(
                    Some(#[trigger] readable_names(s)[j]),
                ),
    decreases s.len(),
{
    let f = |x: Result<Option<String>, E>|
        match x {
            Ok(Some(n)) => Some(n),
            _ => None,
        };
    if s.len() > 0 {
        branch_names_keep_every_readable_name(s.drop_last());
        assert(readable_names(s) =~= s.filter_map(f));
    }
    assert forall|i: int| 0 <= i < s.len() implies (#[trigger] s[i] matches Ok(Some(n))
        ==> readable_names(s).contains(n)) by {
        if s[i] is Ok && s[i]->Ok_0 is Some {
            lemma_filter_map_keeps(s, f, i);
        }
    }
    assert forall|j: int| 0 <= j < readable_names(s).len() implies exists|i: int|
        0 <= i < s.len() && s[i] == Ok::<Option<String>, E>(
            Some(#[trigger] readable_names(s)[j]),
        ) by {
        lemma_filter_map_from(s, f, j);
        let i = choose|i: int| 0 <= i < s.len() && f(s[i]) == Some(s.filter_map(f)[j]);
        assert(s[i] == Ok::<Option<String>, E>(Some(readable_names(s)[j])));
    }
}

/// The paths of the modified files are all those present, in order, and nothing else.
pub proof fn modified_paths_keep_every_path(m: Seq<Option<String>>)
    ensures
        present(m) == m.filter_map(|x: Option<String>| x),
        forall|i: int| 0 <= i < m.len() ==> (#[trigger] m[i] matches Some(p) ==> present(m).contains(p)),
    decreases m.len(),
{
    let f = |x: Option<String>| x;
    if m.len() > 0 {
        modified_paths_keep_every_path(m.drop_last());
        assert(present(m) =~= m.filter_map(f));
    }
    assert forall|i: int| 0 <= i < m.len() implies (#[trigger] m[i] matches Some(p)
        ==> present(m).contains(p)) by {
        if m[i] is Some {
            lemma_filter_map_keeps(m, f, i);
        }
    }
}

/// Some entry of `s` is untracked and has the path `p`.
pub open spec fn untracked_with_path(s: Seq<StatusEntry>, p: String) -> bool {
    exists|i: int| 0 <= i < s.len() && s[i].untracked && s[i].path == Some(p)
}

/// The paths of the untracked files are those of every entry that is untracked and has a
/// path, whatever the path holds, in order, and nothing else.
pub proof fn untracked_paths_keep_every_path(s: Seq<StatusEntry>)
    ensures
        untracked_paths(s) == s.filter_map(
            |e: StatusEntry|
                if e.untracked {
                    e.path
                } else {
                    None
                },
        ),
        forall|i: int|
            0 <= i < s.len() ==> (#[trigger] s[i].path matches Some(p) ==> (s[i].untracked
                ==> untracked_paths(s).contains(p))),
        forall|j: int|
            0 <= j < untracked_paths(s).len() ==> untracked_with_path(
                s,
                #[trigger] untracked_paths(s)[j],
            ),
    decreases s.len(),
{
    let f = |e: StatusEntry|
        if e.untracked {
            e.path
        } else {
            None
        };
    if s.len() > 0 {
        untracked_paths_keep_every_path(s.drop_last());
        assert(untracked_paths(s) =~= s.filter_map(f));
    }
    assert forall|i: int| 0 <= i < s.len() implies (#[trigger] s[i].path matches Some(p) ==> (
    s[i].untracked ==> untracked_paths(s).contains(p))) by {
        if s[i].path is Some && s[i].untracked {
            lemma_filter_map_keeps(s, f, i);
        }
    }
    assert forall|j: int| 0 <= j < untracked_paths(s).len() implies untracked_with_path(
        s,
        #[trigger] untracked_paths(s)[j],
    ) by {
        lemma_filter_map_from(s, f, j);
        let i = choose|i: int| 0 <= i < s.len() && f(s[i]) == Some(s.filter_map(f)[j]);
        assert(s[i].untracked && s[i].path == Some(untracked_paths(s)[j]));
    }
}

/// The message of the error met when no signature for commits is configured.
pub open spec fn no_signature_text() -> Seq<char> {
    "Failed to get signature. Please configure user.name and user.email"@
}

/// The signature for commits that the repository gave, or, when it gave none, the error
/// that asks the user to configure one.
pub fn signature_result<T>(found: Result<T, git2::Error>) -> (r: Result<T, GiError>)
    ensures
        match found {
            Ok(s) => r == Ok::<T, GiError>(s),
            Err(_) => r matches Err(GiError::Other(m)) && m@ == no_signature_text(),
        },
{
    match found {
        Ok(s) => Ok(s),
        Err(_) => Err(
            GiError::Other("Failed to get signature. Please configure user.name and user.email".to_owned()),
        ),
    }
}

/// The search for the repository that holds the current directory, made before any command
/// runs: the current directory, then up to `max_depth` of its parent directories, are tried,
/// nearest first.
#[derive(Debug, PartialEq)]
pub enum Discovery {
    Begin { max_depth: usize },
    /// Waiting for the current directory to be read.
    ReadingDir { max_depth: usize },
    /// Waiting to know whether a repository opens at the directory reached; `left` counts
    /// the parent directories that may still be tried.
    Opening { max_depth: usize, left: usize },
    /// Waiting to know whether the directory reached has a parent, which `left` counts.
    Ascending { max_depth: usize, left: usize },
    Done,
}

impl Discovery {
    /// The search, trying the current directory and at most `max_depth` parent directories.
    pub fn start(max_depth: usize) -> (d: Discovery)
        ensures
            d == (Discovery::Begin { max_depth }),
    {
        Discovery::Begin { max_depth }
    }

    /// The replies that the search waits for.
    pub open spec fn expects(self, e: Event) -> bool {
        match self {
            Discovery::Begin { .. } => e is Start,
            Discovery::ReadingDir { .. } => e is Done || e is Failed,
            Discovery::Opening { .. } => e is Answer,
            Discovery::Ascending { .. } => e is Answer,
            Discovery::Done => false,
        }
    }

    /// The count of parent directories left is within the depth.
    pub open spec fn well_formed(self) -> bool {
        match self {
            Discovery::Opening { max_depth, left } => left <= max_depth,
            Discovery::Ascending { max_depth, left } => 1 <= left <= max_depth,
            _ => true,
        }
    }

    /// `self` is a search of the depth `max`, not yet over.
    pub open spec fn searches(self, max: usize) -> bool {
        match self {
            Discovery::Begin { max_depth } => max_depth == max,
            Discovery::ReadingDir { max_depth } => max_depth == max,
            Discovery::Opening { max_depth, .. } => max_depth == max,
            Discovery::Ascending { max_depth, .. } => max_depth == max,
            Discovery::Done => false,
        }
    }

    /// `a` ends the search: no repository in the current directory nor in `max_depth`
    /// parent directories.
    pub open spec fn gives_up(a: Action, max_depth: usize) -> bool {
        a == Action::Finish(Err(GiError::NotARepository { depth: max_depth }))
    }

    /// The state that the step from `self` on the reply `e` leads to, and the step it asks for.
    pub open spec fn transition(self, e: Event) -> (Discovery, Action) {
        match (self, e) {
            (Discovery::Begin { max_depth }, Event::Start) => (
                Discovery::ReadingDir { max_depth },
                Action::ReadWorkingDir,
            ),
            (Discovery::ReadingDir { max_depth }, Event::Done) => (
                Discovery::Opening { max_depth, left: max_depth },
                Action::OpenRepository,
            ),
            (Discovery::ReadingDir { .. }, Event::Failed(err)) => (
                Discovery::Done,
                Action::Finish(Err(err)),
            ),
            (Discovery::Opening { max_depth, left }, Event::Answer(opened)) => if opened {
                (Discovery::Done, Action::Finish(Ok(())))
            } else if left == 0 {
                (Discovery::Done, Action::Finish(Err(GiError::NotARepository { depth: max_depth })))
            } else {
                (Discovery::Ascending { max_depth, left }, Action::MoveToParent)
            },
            (Discovery::Ascending { max_depth, left }, Event::Answer(moved)) => if moved {
                (Discovery::Opening { max_depth, left: (left - 1) as usize }, Action::OpenRepository)
            } else {
                (Discovery::Done, Action::Finish(Err(GiError::NotARepository { depth: max_depth })))
            },
            _ => (Discovery::Done, Action::Finish(Ok(()))),
        }
    }

    /// The step from `self` on the reply `e` leads to `next` and asks for `a`.
    pub open spec fn moves(self, e: Event, next: Discovery, a: Action) -> bool {
        self.expects(e) && self.transition(e) == (next, a)
    }

    /// How many more repositories the search may try to open.
    pub open spec fn budget(self) -> nat {
        match self {
            Discovery::Begin { max_depth } => (max_depth + 1) as nat,
            Discovery::ReadingDir { max_depth } => (max_depth + 1) as nat,
            Discovery::Opening { left, .. } => left as nat,
            Discovery::Ascending { left, .. } => left as nat,
            Discovery::Done => 0,
        }
    }

    /// How far the search is from its end.
    pub open spec fn progress(self) -> (nat, nat) {
        match self {
            Discovery::Begin { .. } => (3, 0),
            Discovery::ReadingDir { .. } => (2, 0),
            Discovery::Opening { left, .. } => (1, (2 * left + 2) as nat),
            Discovery::Ascending { left, .. } => (1, (2 * left + 1) as nat),
            Discovery::Done => (0, 0),
        }
    }

    /// Whether the search waits for the reply `e`.
    pub fn accepts(&self, e: &Event) -> (r: bool)
        ensures
            r == self.expects(*e),
    {
        match self {
            Discovery::Begin { .. } => matches!(e, Event::Start),
            Discovery::ReadingDir { .. } => matches!(e, Event::Done) || matches!(e, Event::Failed { .. }),
            Discovery::Opening { .. } => matches!(e, Event::Answer { .. }),
            Discovery::Ascending { .. } => matches!(e, Event::Answer { .. }),
            Discovery::Done => false,
        }
    }

    /// Takes the reply to the last step and gives the next one.
    pub fn step(self, e: Event) -> (r: (Discovery, Action))
        requires
            self.expects(e),
            self.well_formed(),
        ensures
            self.moves(e, r.0, r.1),
            r.0.well_formed(),
    {
        match (self, e) {
            (Discovery::Begin { max_depth }, Event::Start) => (
                Discovery::ReadingDir { max_depth },
                Action::ReadWorkingDir,
            ),
            (Discovery::ReadingDir { max_depth }, Event::Done) => (
                Discovery::Opening { max_depth, left: max_depth },
                Action::OpenRepository,
            ),
            (Discovery::ReadingDir { .. }, Event::Failed(err)) => (
                Discovery::Done,
                Action::Finish(Err(err)),
            ),
            (Discovery::Opening { max_depth, left }, Event::Answer(opened)) => {
                if opened {
                    (Discovery::Done, Action::Finish(Ok(())))
                } else if left == 0 {
                    (
                        Discovery::Done,
                        Action::Finish(Err(GiError::NotARepository { depth: max_depth })),
                    )
                } else {
                    (Discovery::Ascending { max_depth, left }, Action::MoveToParent)
                }
            },
            (Discovery::Ascending { max_depth, left }, Event::Answer(moved)) => {
                if moved {
                    (Discovery::Opening { max_depth, left: left - 1 }, Action::OpenRepository)
                } else {
                    (
                        Discovery::Done,
                        Action::Finish(Err(GiError::NotARepository { depth: max_depth })),
                    )
                }
            },
            _ => {
                proof {
                    assert(false);
                }
                (Discovery::Done, Action::Finish(Ok(())))
            },
        }
    }

    /// How the search ends, from the reply `e` at the directory `pos` of a walk up the
    /// directories `opens` (see [`walk_reply`]): its result and the directory it stopped at;
    /// `None` when it does not wait for `e`.
    pub open spec fn run(self, e: Event, pos: nat, opens: Seq<bool>) -> Option<
        (Result<(), GiError>, nat),
    >
        decreases self.progress().0, self.progress().1,
    {
        if !self.expects(e) || !self.well_formed() {
            None
        } else {
            let (t, a) = self.transition(e);
            match a {
                Action::Finish(r) => Some((r, pos)),
                _ => {
                    proof {
                        discovery_tries_within_depth(self, e, t, a);
                    }
                    let (e2, p2) = walk_reply(a, pos, opens);
                    t.run(e2, p2, opens)
                },
            }
        }
    }
}

/// The reply that the directories give to a step of a search upwards, and the directory
/// reached: `opens[k]` tells whether a repository opens at the `k`-th directory up from the
/// current one (the current one is the `0`-th), and the last directory of `opens` has no
/// parent.
pub open spec fn walk_reply(a: Action, pos: nat, opens: Seq<bool>) -> (Event, nat) {
    match a {
        Action::ReadWorkingDir => (Event::Done, 0),
        Action::OpenRepository => (Event::Answer(pos < opens.len() && opens[pos as int]), pos),
        Action::MoveToParent => if pos + 1 < opens.len() {
            (Event::Answer(true), pos + 1)
        } else {
            (Event::Answer(false), pos)
        },
        _ => (Event::Done, pos),
    }
}

/// The nearest of the first `count` directories at which a repository opens.
pub open spec fn nearest_repository(opens: Seq<bool>, count: nat) -> Option<nat>
    decreases count,
{
    if count == 0 {
        None
    } else {
        match nearest_repository(opens, (count - 1) as nat) {
            Some(k) => Some(k),
            None => if count - 1 < opens.len() && opens[count - 1] {
                Some((count - 1) as nat)
            } else {
                None
            },
        }
    }
}

/// Looking at more directories never loses nor moves the nearest repository found among
/// fewer; past the last directory, nothing more is found.
pub proof fn lemma_nearest_grows(opens: Seq<bool>, c1: nat, c2: nat)
    requires
        c1 <= c2,
    ensures
        nearest_repository(opens, c1) is Some ==> nearest_repository(opens, c2) == nearest_repository(opens, c1),
        nearest_repository(opens, c1) is None && c1 >= opens.len() ==> nearest_repository(opens, c2) is None,
    decreases c2,
{
    if c2 > c1 {
        lemma_nearest_grows(opens, c1, (c2 - 1) as nat);
    }
}

/// The search tries the current directory and at most `max_depth` parents: each attempt to
/// open a repository uses one unit of a budget that starts at `max_depth + 1` and never
/// grows.
pub proof fn discovery_tries_within_depth(s: Discovery, e: Event, t: Discovery, a: Action)
    requires
        s.well_formed(),
        s.moves(e, t, a),
    ensures
        t.well_formed(),
        a == Action::OpenRepository ==> s.budget() >= 1 && t.budget() == s.budget() - 1,
        a != Action::OpenRepository ==> t.budget() <= s.budget(),
        before_in_progress(t.progress(), s.progress()),
{
}

/// When the search gives up, its error tells how many parent directories it searched: the
/// depth asked for. Any other error is the one that reading the current directory met.
pub proof fn discovery_reports_depth(s: Discovery, e: Event, t: Discovery, a: Action, err: GiError)
    requires
        s.moves(e, t, a),
        a == Action::Finish(Err(err)),
    ensures
        e == Event::Failed(err) || (match s {
            Discovery::Opening { max_depth, .. } => err == GiError::NotARepository {
                depth: max_depth,
            },
            Discovery::Ascending { max_depth, .. } => err == GiError::NotARepository {
                depth: max_depth,
            },
            _ => false,
        }),
{
}

proof fn discovery_from_opening(max_depth: usize, left: usize, pos: nat, opens: Seq<bool>)
    requires
        left <= max_depth,
        pos + left == max_depth,
        pos < opens.len(),
        nearest_repository(opens, pos) is None,
    ensures
        finds_nearest(
            (Discovery::Opening { max_depth, left }).run(Event::Answer(opens[pos as int]), pos, opens),
            max_depth,
            opens,
        ),
    decreases left,
{
    let s = Discovery::Opening { max_depth, left };
    let e = Event::Answer(opens[pos as int]);
    assert(nearest_repository(opens, pos + 1) == if opens[pos as int] {
        Some(pos)
    } else {
        None::<nat>
    });
    lemma_nearest_grows(opens, pos + 1, (max_depth + 1) as nat);
    if !opens[pos as int] && left > 0 {
        let asc = Discovery::Ascending { max_depth, left };
        assert(s.run(e, pos, opens) == asc.run(walk_reply(Action::MoveToParent, pos, opens).0, walk_reply(Action::MoveToParent, pos, opens).1, opens));
        if pos + 1 < opens.len() {
            let op = Discovery::Opening { max_depth, left: (left - 1) as usize };
            assert(asc.run(Event::Answer(true), pos + 1, opens) == op.run(
                Event::Answer(opens[pos + 1 as int]),
                pos + 1,
                opens,
            ));
            discovery_from_opening(max_depth, (left - 1) as usize, pos + 1, opens);
        }
    }
}

/// The outcome of the search follows its steps: a step that ends the search gives its result
/// at once; any other step leads to the outcome of the state it moves to, on the reply of the
/// directories.
pub proof fn discovery_run_follows_steps(
    s: Discovery,
    e: Event,
    t: Discovery,
    a: Action,
    pos: nat,
    opens: Seq<bool>,
)
    requires
        s.well_formed(),
        s.moves(e, t, a),
    ensures
        a matches Action::Finish(r) ==> s.run(e, pos, opens) == Some((r, pos)),
        !(a is Finish) ==> s.run(e, pos, opens) == t.run(
            walk_reply(a, pos, opens).0,
            walk_reply(a, pos, opens).1,
            opens,
        ),
{
}

/// The outcome `res` of a search of depth `max_depth` stops at the nearest repository among
/// the current directory and `max_depth` parents, and gives up when there is none.
pub open spec fn finds_nearest(
    res: Option<(Result<(), GiError>, nat)>,
    max_depth: usize,
    opens: Seq<bool>,
) -> bool {
    match nearest_repository(opens, (max_depth + 1) as nat) {
        Some(k) => res == Some((Ok::<(), GiError>(()), k)),
        None => res matches Some((r, _)) && r == Err::<(), GiError>(
            GiError::NotARepository { depth: max_depth },
        ),
    }
}

/// In a walk up directories `opens` from a current directory that can be read, the search
/// opens the nearest repository among the current directory and `max_depth` parents, and
/// gives up with the depth when there is none.
pub proof fn discovery_finds_nearest(max_depth: usize, opens: Seq<bool>)
    requires
        opens.len() >= 1,
    ensures
        finds_nearest((Discovery::Begin { max_depth }).run(Event::Start, 0, opens), max_depth, opens),
{
    let b = Discovery::Begin { max_depth };
    let r = Discovery::ReadingDir { max_depth };
    let o = Discovery::Opening { max_depth, left: max_depth };
    assert(b.run(Event::Start, 0, opens) == r.run(Event::Done, 0, opens));
    assert(r.run(Event::Done, 0, opens) == o.run(Event::Answer(opens[0]), 0, opens));
    discovery_from_opening(max_depth, max_depth, 0, opens);
}

/// A deeper search never loses nor moves the repository that a shallower one finds in the
/// same directories.
pub proof fn discovery_deeper_finds_same(d1: usize, d2: usize, opens: Seq<bool>, k: nat)
    requires
        d1 <= d2,
        opens.len() >= 1,
        (Discovery::Begin { max_depth: d1 }).run(Event::Start, 0, opens) == Some(
            (Ok::<(), GiError>(()), k),
        ),
    ensures
        (Discovery::Begin { max_depth: d2 }).run(Event::Start, 0, opens) == Some(
            (Ok::<(), GiError>(()), k),
        ),
{
    discovery_finds_nearest(d1, opens);
    discovery_finds_nearest(d2, opens);
    lemma_nearest_grows(opens, (d1 + 1) as nat, (d2 + 1) as nat);
}

} // verus!
