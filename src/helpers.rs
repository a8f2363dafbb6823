//! The two fragments that pages are made of: the breadcrumb trail of a path
//! and the link to each entry of a directory.

use crate::encoding::{encode, url_encoded};
use crate::paths::{join_path, push_segment, views};
use vstd::prelude::*;

verus! {

/// A linked breadcrumb.
pub open spec fn crumb_link(href: Seq<char>, seg: Seq<char>) -> Seq<char> {
    "<li class=\"crumb\">"@ + "<a href=\""@ + href + "\">"@ + seg + "</a></li>"@
}

/// The last breadcrumb, as plain text.
pub open spec fn crumb_text(seg: Seq<char>) -> Seq<char> {
    "<li class=\"crumb\">"@ + seg + "</li>"@
}

/// Links to the first `n` segments, each to the path made of the segments up
/// to and including it.
pub open spec fn crumb_links(segs: Seq<Seq<char>>, n: int) -> Seq<char>
    decreases n,
{
    if n <= 0 {
        seq![]
    } else {
        crumb_links(segs, n - 1) + crumb_link(join_path(segs.take(n)), segs[n - 1])
    }
}

/// The breadcrumb trail of a non-empty segment sequence: a link to each
/// ancestor, then the last segment unlinked.
pub open spec fn breadcrumbs_html(segs: Seq<Seq<char>>) -> Seq<char> {
    crumb_links(segs, segs.len() - 1) + crumb_text(segs.last())
}

/// The segments of a directory's display path without the root segment.
pub open spec fn non_root(segs: Seq<Seq<char>>) -> Seq<Seq<char>> {
    if segs.len() > 0 && segs[0] == seq!['/'] {
        segs.drop_first()
    } else {
        segs
    }
}

/// Each segment encoded and followed by a separator.
pub open spec fn dir_prefix(segs: Seq<Seq<char>>) -> Seq<char>
    decreases segs.len(),
{
    if segs.len() == 0 {
        seq![]
    } else {
        dir_prefix(segs.drop_last()) + url_encoded(segs.last()) + seq!['/']
    }
}

/// The link target of entry `name` in the directory at `dir`.
pub open spec fn entry_href(dir: Seq<Seq<char>>, name: Seq<char>) -> Seq<char> {
    dir_prefix(non_root(dir)) + url_encoded(name)
}

/// The link to one entry: encoded target, raw visible name.
pub open spec fn entry_html(dir: Seq<Seq<char>>, name: Seq<char>) -> Seq<char> {
    "<a href=\""@ + entry_href(dir, name) + "\">"@ + name + "</a><br/>"@
}

/// The links to all entries, in order.
pub open spec fn entries_html(dir: Seq<Seq<char>>, names: Seq<Seq<char>>) -> Seq<char>
    decreases names.len(),
{
    if names.len() == 0 {
        seq![]
    } else {
        entries_html(dir, names.drop_last()) + entry_html(dir, names.last())
    }
}

/// The links of two runs of names, one after the other, are the links of
/// the joined run.
pub proof fn entries_concat(dir: Seq<Seq<char>>, xs: Seq<Seq<char>>, ys: Seq<Seq<char>>)
    ensures
        entries_html(dir, xs + ys) == entries_html(dir, xs) + entries_html(dir, ys),
    decreases ys.len(),
{
    if ys.len() == 0 {
        assert(xs + ys =~= xs);
        assert(entries_html(dir, xs) + entries_html(dir, ys) =~= entries_html(dir, xs));
    } else {
        entries_concat(dir, xs, ys.drop_last());
        assert((xs + ys).drop_last() =~= xs + ys.drop_last());
        assert(entries_html(dir, xs + ys) =~= entries_html(dir, xs) + entries_html(dir, ys));
    }
}

/// A listing holds the link to each entry exactly at its place: the links
/// of the entries before it, its own link, then the links of the entries
/// after it.
pub proof fn entry_in_listing(dir: Seq<Seq<char>>, names: Seq<Seq<char>>, i: int)
    requires
        0 <= i < names.len(),
    ensures
        entries_html(dir, names) == entries_html(dir, names.take(i)) + entry_html(dir, names[i])
            + entries_html(dir, names.skip(i + 1)),
{
    let one = seq![names[i]];
    assert(one.drop_last() =~= Seq::<Seq<char>>::empty());
    assert(entries_html(dir, one.drop_last()) == Seq::<char>::empty());
    assert(one.last() == names[i]);
    assert(entries_html(dir, one) =~= entry_html(dir, names[i]));
    assert(names =~= names.take(i) + one + names.skip(i + 1));
    entries_concat(dir, names.take(i), one);
    entries_concat(dir, names.take(i) + one, names.skip(i + 1));
}

/// The trail of three segments `a`, `b`, `c` links to `a`, then to `a/b`,
/// then shows `c` unlinked, in that order.
pub proof fn three_segment_trail(a: Seq<char>, b: Seq<char>, c: Seq<char>)
    requires
        a.len() > 0,
        a.last() != '/',
    ensures
        breadcrumbs_html(seq![a, b, c]) == crumb_link(a, a) + crumb_link(a + seq!['/'] + b, b)
            + crumb_text(c),
{
    let segs = seq![a, b, c];
    assert(segs.take(1).drop_last() =~= Seq::<Seq<char>>::empty());
    assert(segs.take(2).drop_last() =~= segs.take(1));
    assert(join_path(Seq::<Seq<char>>::empty()) == Seq::<char>::empty());
    assert(segs.take(1).last() == a);
    assert(segs.take(2).last() == b);
    assert(join_path(segs.take(1)) == push_segment(Seq::<char>::empty(), a));
    assert(join_path(segs.take(1)) =~= a);
    assert(join_path(segs.take(2)) == push_segment(a, b));
    assert(join_path(segs.take(2)) =~= a + seq!['/'] + b);
    assert(crumb_links(segs, 0) =~= Seq::<char>::empty());
    assert(crumb_links(segs, 1) =~= crumb_link(a, a));
    assert(segs.len() - 1 == 2);
    assert(segs.last() == c);
    assert(crumb_links(segs, 2) =~= crumb_link(a, a) + crumb_link(a + seq!['/'] + b, b));
}

/// A segment that can stand in a trail unambiguously: non-empty, with no
/// `<` and no `"`.
pub open spec fn plain_segment(seg: Seq<char>) -> bool {
    seg.len() > 0 && forall|j: int| 0 <= j < seg.len() ==> #[trigger] seg[j] != '<' && seg[j] != '"'
}

/// The links to segments `k` up to `m`, from the front.
pub open spec fn links_from(segs: Seq<Seq<char>>, k: int, m: int) -> Seq<char>
    decreases m - k,
{
    if k >= m {
        seq![]
    } else {
        crumb_link(join_path(segs.take(k + 1)), segs[k]) + links_from(segs, k + 1, m)
    }
}

/// The part of a trail from the link to segment `k` on.
pub open spec fn trail_from(segs: Seq<Seq<char>>, k: int) -> Seq<char> {
    links_from(segs, k, segs.len() - 1) + crumb_text(segs.last())
}

proof fn links_from_snoc(segs: Seq<Seq<char>>, k: int, m: int)
    requires
        k < m,
    ensures
        links_from(segs, k, m) == links_from(segs, k, m - 1) + crumb_link(
            join_path(segs.take(m)),
            segs[m - 1],
        ),
    decreases m - k,
{
    if k + 1 == m {
        assert(links_from(segs, k + 1, m) == Seq::<char>::empty());
        assert(links_from(segs, k, m - 1) == Seq::<char>::empty());
        assert(links_from(segs, k, m) =~= links_from(segs, k, m - 1) + crumb_link(
            join_path(segs.take(m)),
            segs[m - 1],
        ));
    } else {
        links_from_snoc(segs, k + 1, m);
        assert(links_from(segs, k, m) =~= links_from(segs, k, m - 1) + crumb_link(
            join_path(segs.take(m)),
            segs[m - 1],
        ));
    }
}

proof fn links_split(segs: Seq<Seq<char>>, k: int, m: int)
    requires
        0 <= k <= m,
    ensures
        crumb_links(segs, m) == crumb_links(segs, k) + links_from(segs, k, m),
    decreases m - k,
{
    if k == m {
        assert(crumb_links(segs, m) =~= crumb_links(segs, k) + links_from(segs, k, m));
    } else {
        links_split(segs, k, m - 1);
        links_from_snoc(segs, k, m);
        assert(crumb_links(segs, m) =~= crumb_links(segs, k) + links_from(segs, k, m));
    }
}

proof fn cancel_prefix(a: Seq<char>, x: Seq<char>, y: Seq<char>)
    requires
        a + x == a + y,
    ensures
        x == y,
{
    assert(x =~= (a + x).subrange(a.len() as int, (a + x).len() as int));
    assert(y =~= (a + y).subrange(a.len() as int, (a + y).len() as int));
}

/// Two quote-free texts that follow the same prefix and are each followed by
/// a quote are equal, and so is what follows them.
proof fn split_at_quote(pre: Seq<char>, a: Seq<char>, t1: Seq<char>, b: Seq<char>, t2: Seq<char>)
    requires
        pre + a + t1 == pre + b + t2,
        t1.len() > 0 && t1[0] == '"',
        t2.len() > 0 && t2[0] == '"',
        forall|j: int| 0 <= j < a.len() ==> a[j] != '"',
        forall|j: int| 0 <= j < b.len() ==> b[j] != '"',
    ensures
        a == b,
        t1 == t2,
{
    let x = pre + a + t1;
    let i: int = pre.len() as int + a.len() as int;
    let k: int = pre.len() as int + b.len() as int;
    if a.len() < b.len() {
        assert(x[i] == t1[0]);
        assert((pre + b + t2)[i] == b[a.len() as int]);
    } else if b.len() < a.len() {
        assert((pre + b + t2)[k] == t2[0]);
        assert(x[k] == a[b.len() as int]);
    }
    assert(a =~= x.subrange(pre.len() as int, i));
    assert(b =~= (pre + b + t2).subrange(pre.len() as int, k));
    cancel_prefix(pre + a, t1, t2);
}

proof fn last_crumbs_equal(s1: Seq<Seq<char>>, s2: Seq<Seq<char>>, k: int)
    requires
        0 <= k,
        k + 1 == s1.len(),
        k + 1 == s2.len(),
        s1.take(k) == s2.take(k),
        trail_from(s1, k) == trail_from(s2, k),
    ensures
        s1 == s2,
{
    let li = "<li class=\"crumb\">"@;
    let end = "</li>"@;
    assert(links_from(s1, k, k) == Seq::<char>::empty());
    assert(links_from(s2, k, k) == Seq::<char>::empty());
    assert(trail_from(s1, k) =~= li + (s1.last() + end));
    assert(trail_from(s2, k) =~= li + (s2.last() + end));
    cancel_prefix(li, s1.last() + end, s2.last() + end);
    assert(s1.last() =~= (s1.last() + end).subrange(0, s1.last().len() as int));
    assert(s2.last() =~= (s2.last() + end).subrange(0, s2.last().len() as int));
    assert forall|i: int| 0 <= i < s1.len() implies s1[i] == s2[i] by {
        if i < k {
            assert(s1[i] == s1.take(k)[i]);
            assert(s2[i] == s2.take(k)[i]);
        }
    }
    assert(s1 =~= s2);
}

proof fn last_crumb_is_not_link(short: Seq<Seq<char>>, long: Seq<Seq<char>>, k: int)
    requires
        0 <= k,
        k + 1 == short.len(),
        k + 1 < long.len(),
        plain_segment(short[k]),
    ensures
        trail_from(short, k) != trail_from(long, k),
{
    let li = "<li class=\"crumb\">"@;
    let ah = "<a href=\""@;
    let end = "</li>"@;
    reveal_strlit("<a href=\"");
    let a = short.last();
    assert(links_from(short, k, k) == Seq::<char>::empty());
    assert(trail_from(short, k) =~= li + (a + end));
    let head = crumb_link(join_path(long.take(k + 1)), long[k]);
    assert(links_from(long, k, long.len() - 1) == head + links_from(long, k + 1, long.len() - 1));
    let t = ah + join_path(long.take(k + 1)) + "\">"@ + long[k] + "</a></li>"@ + links_from(
        long,
        k + 1,
        long.len() - 1,
    ) + crumb_text(long.last());
    assert(trail_from(long, k) =~= li + t);
    if trail_from(short, k) == trail_from(long, k) {
        cancel_prefix(li, a + end, t);
        assert((a + end)[0] == a[0]);
        assert(t[0] == ah[0]);
    }
}

/// `acc` ready for one more segment: with a separator unless it is empty
/// or already ends in one.
pub open spec fn open_path(acc: Seq<char>) -> Seq<char> {
    if acc.len() == 0 || acc.last() == '/' {
        acc
    } else {
        acc + seq!['/']
    }
}

proof fn trail_step(s: Seq<Seq<char>>, k: int)
    requires
        0 <= k,
        k + 1 < s.len(),
    ensures
        trail_from(s, k) == "<li class=\"crumb\">"@ + "<a href=\""@ + open_path(join_path(s.take(k)))
            + s[k] + ("\">"@ + s[k] + "</a></li>"@ + trail_from(s, k + 1)),
{
    assert(s.take(k + 1).drop_last() =~= s.take(k));
    assert(join_path(s.take(k + 1)) =~= open_path(join_path(s.take(k))) + s[k]);
    assert(links_from(s, k, s.len() - 1) == crumb_link(join_path(s.take(k + 1)), s[k])
        + links_from(s, k + 1, s.len() - 1));
    assert(trail_from(s, k) =~= "<li class=\"crumb\">"@ + "<a href=\""@ + open_path(
        join_path(s.take(k)),
    ) + s[k] + ("\">"@ + s[k] + "</a></li>"@ + trail_from(s, k + 1)));
}

proof fn link_crumbs_equal(s1: Seq<Seq<char>>, s2: Seq<Seq<char>>, k: int)
    requires
        0 <= k,
        k + 1 < s1.len(),
        k + 1 < s2.len(),
        s1.take(k) == s2.take(k),
        plain_segment(s1[k]),
        plain_segment(s2[k]),
        trail_from(s1, k) == trail_from(s2, k),
    ensures
        s1.take(k + 1) == s2.take(k + 1),
        trail_from(s1, k + 1) == trail_from(s2, k + 1),
{
    let qt = "\">"@;
    let close = "</a></li>"@;
    reveal_strlit("\">");
    trail_step(s1, k);
    trail_step(s2, k);
    let pre = "<li class=\"crumb\">"@ + "<a href=\""@ + open_path(join_path(s1.take(k)));
    let t1 = qt + s1[k] + close + trail_from(s1, k + 1);
    let t2 = qt + s2[k] + close + trail_from(s2, k + 1);
    assert(t1[0] == qt[0]);
    assert(t2[0] == qt[0]);
    split_at_quote(pre, s1[k], t1, s2[k], t2);
    cancel_prefix(qt + s1[k] + close, trail_from(s1, k + 1), trail_from(s2, k + 1));
    assert(s1.take(k + 1) =~= s2.take(k + 1));
}

proof fn trail_from_unique(s1: Seq<Seq<char>>, s2: Seq<Seq<char>>, k: int)
    requires
        0 <= k < s1.len(),
        k < s2.len(),
        s1.take(k) == s2.take(k),
        forall|i: int| 0 <= i < s1.len() ==> plain_segment(#[trigger] s1[i]),
        forall|i: int| 0 <= i < s2.len() ==> plain_segment(#[trigger] s2[i]),
        trail_from(s1, k) == trail_from(s2, k),
    ensures
        s1 == s2,
    decreases s1.len() - k,
{
    if k + 1 == s1.len() && k + 1 == s2.len() {
        last_crumbs_equal(s1, s2, k);
    } else if k + 1 == s1.len() {
        last_crumb_is_not_link(s1, s2, k);
    } else if k + 1 == s2.len() {
        last_crumb_is_not_link(s2, s1, k);
    } else {
        link_crumbs_equal(s1, s2, k);
        trail_from_unique(s1, s2, k + 1);
    }
}

/// Different segment sequences, such as the same segments in another order,
/// give different breadcrumb trails, as long as no segment is empty or holds
/// `<` or `"`.
pub proof fn trail_is_injective(s1: Seq<Seq<char>>, s2: Seq<Seq<char>>)
    requires
        s1.len() > 0,
        s2.len() > 0,
        forall|i: int| 0 <= i < s1.len() ==> plain_segment(#[trigger] s1[i]),
        forall|i: int| 0 <= i < s2.len() ==> plain_segment(#[trigger] s2[i]),
        breadcrumbs_html(s1) == breadcrumbs_html(s2),
    ensures
        s1 == s2,
{
    links_split(s1, 0, s1.len() - 1);
    links_split(s2, 0, s2.len() - 1);
    assert(crumb_links(s1, 0) == Seq::<char>::empty());
    assert(crumb_links(s2, 0) == Seq::<char>::empty());
    assert(breadcrumbs_html(s1) =~= trail_from(s1, 0));
    assert(breadcrumbs_html(s2) =~= trail_from(s2, 0));
    assert(s1.take(0) =~= s2.take(0));
    trail_from_unique(s1, s2, 0);
}

fn ends_open(s: &String) -> (r: bool)
    ensures
        r == (s@.len() == 0 || s@.last() == '/'),
{
    let k = s.as_str().unicode_len();
    k == 0 || s.as_str().get_char(k - 1) == '/'
}

/// The breadcrumb trail of a path; `None` for a path without segments.
pub fn breadcrumbs(path: &Vec<String>) -> (r: Option<String>)
    ensures
        r is None <==> path@.len() == 0,
        r matches Some(s) ==> s@ == breadcrumbs_html(views(path@)),
{
    let n = path.len();
    if n == 0 {
        return None;
    }
    let ghost segs = views(path@);
    let mut current = String::new();
    let mut out = String::new();
    let mut i: usize = 0;
    assert(segs.take(0) =~= Seq::<Seq<char>>::empty());
    while i + 1 < n
        invariant
            n == path@.len(),
            segs == views(path@),
            i < n,
            current@ == join_path(segs.take(i as int)),
            out@ == crumb_links(segs, i as int),
        decreases n - i,
    {
        let seg = &path[i];
        assert(segs.take(i + 1).drop_last() =~= segs.take(i as int));
        assert(segs.take(i + 1).last() == seg@);
        if ends_open(&current) {
            current.append(seg.as_str());
        } else {
            current.append("/");
            proof {
                reveal_strlit("/");
            }
            assert("/"@ =~= seq!['/']);
            current.append(seg.as_str());
        }
        assert(current@ =~= push_segment(join_path(segs.take(i as int)), seg@));
        out.append("<li class=\"crumb\">");
        out.append("<a href=\"");
        out.append(current.as_str());
        out.append("\">");
        out.append(seg.as_str());
        out.append("</a></li>");
        assert(out@ =~= crumb_links(segs, i as int) + crumb_link(
            join_path(segs.take(i + 1)),
            segs[i as int],
        ));
        i = i + 1;
    }
    out.append("<li class=\"crumb\">");
    out.append(path[n - 1].as_str());
    out.append("</li>");
    assert(out@ =~= breadcrumbs_html(segs));
    Some(out)
}

fn encoded_dir_prefix(path: &Vec<String>) -> (r: String)
    ensures
        r@ == dir_prefix(non_root(views(path@))),
{
    let ghost segs = views(path@);
    let n = path.len();
    let mut start: usize = 0;
    if n > 0 && path[0].as_str().unicode_len() == 1 && path[0].as_str().get_char(0) == '/' {
        assert(path@[0]@ =~= seq!['/']);
        start = 1;
    }
    assert(non_root(segs) =~= segs.subrange(start as int, n as int));
    let mut r = String::new();
    let mut i: usize = start;
    assert(segs.subrange(start as int, start as int) =~= Seq::<Seq<char>>::empty());
    while i < n
        invariant
            n == path@.len(),
            segs == views(path@),
            start <= i <= n,
            r@ == dir_prefix(segs.subrange(start as int, i as int)),
        decreases n - i,
    {
        let e = encode(path[i].as_str());
        r.append(e.as_str());
        r.append("/");
        proof {
            reveal_strlit("/");
        }
        assert("/"@ =~= seq!['/']);
        assert(segs.subrange(start as int, i + 1).drop_last() =~= segs.subrange(
            start as int,
            i as int,
        ));
        assert(r@ =~= dir_prefix(segs.subrange(start as int, i + 1)));
        i = i + 1;
    }
    r
}

/// The links to the entries `files` of the directory at `path`.
pub fn file_entries(path: &Vec<String>, files: &Vec<String>) -> (r: String)
    ensures
        r@ == entries_html(views(path@), views(files@)),
{
    let ghost dir = views(path@);
    let ghost names = views(files@);
    let prefix = encoded_dir_prefix(path);
    let mut out = String::new();
    let mut i: usize = 0;
    assert(names.take(0) =~= Seq::<Seq<char>>::empty());
    while i < files.len()
        invariant
            dir == views(path@),
            names == views(files@),
            i <= files@.len(),
            prefix@ == dir_prefix(non_root(dir)),
            out@ == entries_html(dir, names.take(i as int)),
        decreases files@.len() - i,
    {
        let name = &files[i];
        let e = encode(name.as_str());
        out.append("<a href=\"");
        out.append(prefix.as_str());
        out.append(e.as_str());
        out.append("\">");
        out.append(name.as_str());
        out.append("</a><br/>");
        assert(names.take(i + 1).drop_last() =~= names.take(i as int));
        assert(out@ =~= entries_html(dir, names.take(i + 1)));
        i = i + 1;
    }
    assert(names.take(files@.len() as int) =~= names);
    out
}

} // verus!
