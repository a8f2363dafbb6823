//! Request paths as sequences of segments, and joining them to the served root.

use vstd::prelude::*;

verus! {

/// The text of each string, in order.
pub open spec fn views(v: Seq<String>) -> Seq<Seq<char>> {
    v.map_values(|s: String| s@)
}

/// A piece between separators is a segment unless it is empty or `.`.
pub open spec fn kept(p: Seq<char>) -> bool {
    p.len() > 0 && p != seq!['.']
}

/// The characters after the last separator of `s`.
pub open spec fn last_piece(s: Seq<char>) -> Seq<char>
    decreases s.len(),
{
    if s.len() == 0 {
        seq![]
    } else if s.last() == '/' {
        seq![]
    } else {
        last_piece(s.drop_last()).push(s.last())
    }
}

/// The kept pieces of `s` that a separator has closed.
pub open spec fn closed_pieces(s: Seq<char>) -> Seq<Seq<char>>
    decreases s.len(),
{
    if s.len() == 0 {
        seq![]
    } else if s.last() == '/' {
        let p = last_piece(s.drop_last());
        if kept(p) {
            closed_pieces(s.drop_last()).push(p)
        } else {
            closed_pieces(s.drop_last())
        }
    } else {
        closed_pieces(s.drop_last())
    }
}

/// The root segment `/` of an absolute path.
pub open spec fn root_part(s: Seq<char>) -> Seq<Seq<char>> {
    if s.len() > 0 && s[0] == '/' {
        seq![seq!['/']]
    } else {
        seq![]
    }
}

/// The `.` that a relative path starts with, when it stands alone before
/// the first separator or the end.
pub open spec fn lead_dot(s: Seq<char>) -> Seq<Seq<char>> {
    if s.len() > 0 && s[0] == '.' && (s.len() == 1 || s[1] == '/') {
        seq![seq!['.']]
    } else {
        seq![]
    }
}

/// The segments of a path: the root `/` for an absolute path, or a leading
/// `.` for a relative one that starts with it, then each non-empty piece
/// between separators other than `.`, in order.
pub open spec fn path_segments(s: Seq<char>) -> Seq<Seq<char>> {
    let last = last_piece(s);
    root_part(s) + lead_dot(s) + closed_pieces(s) + (if kept(last) {
        seq![last]
    } else {
        seq![]
    })
}

/// `s` without one leading separator.
pub open spec fn strip_root(s: Seq<char>) -> Seq<char> {
    if s.len() > 0 && s[0] == '/' {
        s.drop_first()
    } else {
        s
    }
}

/// Appends `seg` to `acc` the way a path buffer does: a separator goes
/// between them unless `acc` is empty or already ends in one.
pub open spec fn push_segment(acc: Seq<char>, seg: Seq<char>) -> Seq<char> {
    if acc.len() == 0 || acc.last() == '/' {
        acc + seg
    } else {
        acc + seq!['/'] + seg
    }
}

/// The path made of the given segments.
pub open spec fn join_path(segs: Seq<Seq<char>>) -> Seq<char>
    decreases segs.len(),
{
    if segs.len() == 0 {
        seq![]
    } else {
        push_segment(join_path(segs.drop_last()), segs.last())
    }
}

/// The candidate path: the root joined with the request path, whose leading
/// separator, if any, is dropped first.
pub open spec fn candidate_path(request: Seq<char>, root: Seq<char>) -> Seq<char> {
    let rel = strip_root(request);
    if rel.len() == 0 {
        root
    } else {
        push_segment(root, rel)
    }
}

/// A request path names the same candidate path with or without a leading
/// separator.
pub proof fn leading_separator_ignored(p: Seq<char>, root: Seq<char>)
    requires
        p.len() == 0 || p[0] != '/',
    ensures
        candidate_path(seq!['/'] + p, root) == candidate_path(p, root),
{
    assert((seq!['/'] + p).drop_first() =~= p);
}

fn is_separator(c: char) -> (r: bool)
    ensures
        r == (c == '/'),
{
    c == '/'
}

fn is_kept(p: &str) -> (r: bool)
    ensures
        r == kept(p@),
{
    let n = p.unicode_len();
    if n == 0 {
        return false;
    }
    if n == 1 && p.get_char(0) == '.' {
        assert(p@ =~= seq!['.']);
        return false;
    }
    true
}

/// Splits a path into its segments.
pub fn path_to_slice(path: &str) -> (r: Vec<String>)
    ensures
        views(r@) == path_segments(path@),
{
    let n = path.unicode_len();
    let mut out: Vec<String> = Vec::new();
    let mut start: usize = 0;
    if n > 0 && is_separator(path.get_char(0)) {
        out.push(String::from_str("/"));
        proof {
            reveal_strlit("/");
        }
        assert(out@[0]@ =~= seq!['/']);
        assert(views(out@) =~= seq![seq!['/']]);
    } else if n > 0 && path.get_char(0) == '.' && (n == 1 || is_separator(path.get_char(1))) {
        out.push(String::from_str("."));
        proof {
            reveal_strlit(".");
        }
        assert(out@[0]@ =~= seq!['.']);
        assert(views(out@) =~= seq![seq!['.']]);
    }
    assert(path@.subrange(0, 0) =~= Seq::<char>::empty());
    assert(views(out@) =~= root_part(path@) + lead_dot(path@) + closed_pieces(path@.subrange(0, 0)));
    let mut i: usize = 0;
    while i < n
        invariant
            n == path@.len(),
            i <= n,
            start <= i,
            path@.subrange(start as int, i as int) == last_piece(path@.subrange(0, i as int)),
            views(out@) == root_part(path@) + lead_dot(path@) + closed_pieces(path@.subrange(0, i as int)),
        decreases n - i,
    {
        let c = path.get_char(i);
        let ghost pre = path@.subrange(0, i as int);
        let ghost next = path@.subrange(0, i + 1);
        assert(next.drop_last() =~= pre);
        assert(next.last() == c);
        if is_separator(c) {
            let piece = path.substring_char(start, i);
            assert(closed_pieces(next) == (if kept(piece@) {
                closed_pieces(pre).push(piece@)
            } else {
                closed_pieces(pre)
            }));
            if is_kept(piece) {
                let ghost before = out@;
                out.push(String::from_str(piece));
                assert(views(out@) =~= views(before).push(piece@));
                assert(views(out@) =~= root_part(path@) + lead_dot(path@) + closed_pieces(next));
            }
            assert(path@.subrange(i + 1, i + 1) =~= last_piece(next));
            start = i + 1;
        } else {
            assert(path@.subrange(start as int, i + 1) =~= path@.subrange(start as int, i as int).push(c));
        }
        i = i + 1;
    }
    assert(path@.subrange(0, n as int) =~= path@);
    let piece = path.substring_char(start, n);
    if is_kept(piece) {
        let ghost before = out@;
        out.push(String::from_str(piece));
        assert(views(out@) =~= views(before).push(piece@));
    }
    assert(views(out@) =~= path_segments(path@));
    out
}

/// Joins the request path to the root; a leading separator of the request
/// path is dropped first.
pub fn prefixed_path(path: &str, root: &str) -> (r: String)
    ensures
        r@ == candidate_path(path@, root@),
{
    let n = path.unicode_len();
    let rel = if n > 0 && is_separator(path.get_char(0)) {
        path.substring_char(1, n)
    } else {
        path.substring_char(0, n)
    };
    assert(rel@ =~= strip_root(path@));
    let mut r = String::from_str(root);
    let m = rel.unicode_len();
    if m == 0 {
        return r;
    }
    let k = root.unicode_len();
    if k > 0 && !is_separator(root.get_char(k - 1)) {
        r.append("/");
        proof {
            reveal_strlit("/");
        }
    }
    r.append(rel);
    assert(r@ =~= candidate_path(path@, root@));
    r
}

} // verus!
