//! Paths, and when two spellings are one path.
//!
//! A path is kept as it was spelled; its separator is `/`. Two spellings are the
//! same path when they have the same parts: a repeated or a trailing separator does
//! not count, and neither does a `.`, except where it leads a relative path. No file
//! system is looked at, so `..` is a part like any other.

use vstd::prelude::*;

use crate::text::chars_of;

verus! {

/// The text between two separators is a part.
pub open spec fn counts(piece: Seq<char>) -> bool {
    piece.len() > 0 && piece != seq!['.']
}

/// The parts of a path from `from` on.
pub open spec fn parts_from(path: Seq<char>, from: int) -> Seq<Seq<char>>
    decreases path.len() - from,
{
    if from < 0 || from > path.len() {
        Seq::empty()
    } else {
        let to = crate::text::find_from(path, '/', from);
        let piece = path.subrange(from, to);
        let rest = if from <= to < path.len() {
            parts_from(path, to + 1)
        } else {
            Seq::empty()
        };
        if counts(piece) {
            seq![piece] + rest
        } else {
            rest
        }
    }
}

/// What a path starts from: the root, the directory it is looked at from when it
/// says so, or neither.
pub open spec fn path_start(path: Seq<char>) -> Seq<Seq<char>> {
    if path.len() > 0 && path[0] == '/' {
        seq![seq!['/']]
    } else if path.len() > 0 && path[0] == '.' && (path.len() == 1 || path[1] == '/') {
        seq![seq!['.']]
    } else {
        Seq::empty()
    }
}

/// The parts of a path: the root or a leading `.`, then every part that is neither
/// empty nor `.`.
pub open spec fn path_parts(path: Seq<char>) -> Seq<Seq<char>> {
    path_start(path) + parts_from(path, 0)
}

/// Two spellings of one path.
pub open spec fn is_same_path(a: Seq<char>, b: Seq<char>) -> bool {
    path_parts(a) == path_parts(b)
}

/// Two optional paths are none or the same.
pub open spec fn is_same_optional(a: Option<Seq<char>>, b: Option<Seq<char>>) -> bool {
    match (a, b) {
        (Some(a), Some(b)) => is_same_path(a, b),
        (None, None) => true,
        _ => false,
    }
}

spec fn views(parts: Seq<Vec<char>>) -> Seq<Seq<char>> {
    parts.map_values(|part: Vec<char>| part@)
}

fn subrange_of(chars: &Vec<char>, from: usize, to: usize) -> (r: Vec<char>)
    requires
        from <= to <= chars@.len(),
    ensures
        r@ == chars@.subrange(from as int, to as int),
{
    let mut out: Vec<char> = Vec::new();
    let mut i: usize = from;
    while i < to
        invariant
            from <= i <= to <= chars@.len(),
            out@ == chars@.subrange(from as int, i as int),
        decreases to - i,
    {
        out.push(chars[i]);
        i += 1;
        assert(out@ =~= chars@.subrange(from as int, i as int));
    }
    out
}

fn parts_of(chars: &Vec<char>) -> (r: Vec<Vec<char>>)
    ensures
        views(r@) == path_parts(chars@),
{
    let mut out: Vec<Vec<char>> = Vec::new();
    if chars.len() > 0 && chars[0] == '/' {
        let mut root: Vec<char> = Vec::new();
        root.push('/');
        assert(root@ =~= seq!['/']);
        out.push(root);
    } else if chars.len() > 0 && chars[0] == '.' && (chars.len() == 1 || chars[1] == '/') {
        let mut here: Vec<char> = Vec::new();
        here.push('.');
        assert(here@ =~= seq!['.']);
        out.push(here);
    }
    assert(views(out@) =~= path_start(chars@));
    let mut from: usize = 0;
    let mut to: usize = 0;
    while to < chars.len()
        invariant
            from <= to <= chars@.len(),
            forall|j: int| from <= j < to ==> chars@[j] != '/',
            views(out@) + parts_from(chars@, from as int) == path_parts(chars@),
        decreases chars@.len() - to,
    {
        if chars[to] == '/' {
            proof {
                crate::text::lemma_find_is(chars@, '/', from as int, to as int);
            }
            let piece = subrange_of(chars, from, to);
            add_part(&mut out, piece, Ghost(parts_from(chars@, to + 1)));
            from = to + 1;
        }
        to += 1;
    }
    proof {
        crate::text::lemma_find_is(chars@, '/', from as int, to as int);
    }
    let piece = subrange_of(chars, from, to);
    add_part(&mut out, piece, Ghost(Seq::empty()));
    assert(views(out@) + Seq::<Seq<char>>::empty() =~= views(out@));
    out
}

/// Adds a part that counts; `rest` is what follows it.
fn add_part(out: &mut Vec<Vec<char>>, piece: Vec<char>, rest: Ghost<Seq<Seq<char>>>)
    ensures
        views(final(out)@) + rest@ == views(old(out)@) + (if counts(piece@) {
            seq![piece@] + rest@
        } else {
            rest@
        }),
{
    assert(piece@.len() == 1 && piece@[0] == '.' ==> piece@ =~= seq!['.']);
    if piece.len() > 0 && !(piece.len() == 1 && piece[0] == '.') {
        let ghost text = piece@;
        assert(counts(text)) by {
            assert(seq!['.'].len() == 1 && seq!['.'][0] == '.');
        }
        out.push(piece);
        assert(views(out@) =~= views(old(out)@).push(text));
        assert(views(out@) + rest@ =~= views(old(out)@) + (seq![text] + rest@));
    }
}

fn same_chars(a: &Vec<char>, b: &Vec<char>) -> (r: bool)
    ensures
        r == (a@ == b@),
{
    if a.len() != b.len() {
        return false;
    }
    let mut i: usize = 0;
    while i < a.len()
        invariant
            i <= a@.len() == b@.len(),
            forall|j: int| 0 <= j < i ==> a@[j] == b@[j],
        decreases a@.len() - i,
    {
        if a[i] != b[i] {
            return false;
        }
        i += 1;
    }
    assert(a@ =~= b@);
    true
}

/// Whether two spellings are one path.
pub fn same_path(a: &str, b: &str) -> (r: bool)
    ensures
        r == (path_parts(a@) == path_parts(b@)),
{
    let first = parts_of(&chars_of(a));
    let second = parts_of(&chars_of(b));
    let ghost x = path_parts(a@);
    let ghost y = path_parts(b@);
    assert(x.len() == first@.len() && y.len() == second@.len());
    if first.len() != second.len() {
        return false;
    }
    let mut i: usize = 0;
    while i < first.len()
        invariant
            i <= first@.len() == second@.len(),
            x == views(first@),
            y == views(second@),
            x == path_parts(a@),
            y == path_parts(b@),
            forall|j: int| 0 <= j < i ==> x[j] == y[j],
        decreases first@.len() - i,
    {
        assert(x[i as int] == first@[i as int]@ && y[i as int] == second@[i as int]@);
        if !same_chars(&first[i], &second[i]) {
            return false;
        }
        i += 1;
    }
    assert(x =~= y);
    true
}

/// Whether two optional paths are none or the same.
pub fn same_optional_path(a: &Option<String>, b: &Option<String>) -> (r: bool)
    ensures
        r == is_same_optional(crate::text::opt_view(*a), crate::text::opt_view(*b)),
{
    match (a, b) {
        (Some(a), Some(b)) => same_path(a.as_str(), b.as_str()),
        (None, None) => true,
        _ => false,
    }
}

} // verus!
