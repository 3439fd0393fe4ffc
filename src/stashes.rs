use vstd::prelude::*;

use crate::text::{trim, trim_str};

verus! {

/// The pieces of `s` between newlines, the first of them continuing `cur`.
pub open spec fn split_lines_from(s: Seq<char>, cur: Seq<char>) -> Seq<Seq<char>>
    decreases s.len(),
{
    if s.len() == 0 {
        seq![cur]
    } else if s[0] == '\n' {
        seq![cur] + split_lines_from(s.drop_first(), seq![])
    } else {
        split_lines_from(s.drop_first(), cur.push(s[0]))
    }
}

/// The pieces of `s` between newlines; `n` newlines give `n + 1` pieces.
pub open spec fn split_lines(s: Seq<char>) -> Seq<Seq<char>> {
    split_lines_from(s, seq![])
}

/// `lines` without the empty entries at its end.
pub open spec fn drop_trailing_empty(lines: Seq<Seq<char>>) -> Seq<Seq<char>>
    decreases lines.len(),
{
    if lines.len() > 0 && lines.last().len() == 0 {
        drop_trailing_empty(lines.drop_last())
    } else {
        lines
    }
}

/// The entries of a stash list body: its lines, each trimmed, without the
/// empty entries at the end.
pub open spec fn stash_entries(body: Seq<char>) -> Seq<Seq<char>> {
    drop_trailing_empty(split_lines(body).map_values(|l: Seq<char>| trim(l)))
}

/// What a stash list body yields: no list where it has no entries.
pub open spec fn spec_parse_stash_list(body: Seq<char>) -> Option<Seq<Seq<char>>> {
    if stash_entries(body).len() == 0 {
        None
    } else {
        Some(stash_entries(body))
    }
}

/// The characters of each string.
pub open spec fn views(v: Seq<String>) -> Seq<Seq<char>> {
    v.map_values(|x: String| x@)
}

proof fn lemma_views_push(v: Seq<String>, x: String, raw: Seq<Seq<char>>, l: Seq<char>)
    requires
        views(v) == raw.map_values(|l: Seq<char>| trim(l)),
        x@ == trim(l),
    ensures
        views(v.push(x)) == raw.push(l).map_values(|l: Seq<char>| trim(l)),
{
    let a = views(v.push(x));
    let b = raw.push(l).map_values(|l: Seq<char>| trim(l));
    assert(views(v).len() == v.len());
    assert forall|k: int| 0 <= k < a.len() implies a[k] == b[k] by {
        if k < v.len() {
            assert(a[k] == v[k]@);
            assert(views(v)[k] == v[k]@);
        }
    }
    assert(a =~= b);
}

/// Whether a stash list source is configured; where it is not, no request is made.
pub fn is_stash_list_configured(url: &str) -> (r: bool)
    ensures
        r == (url@.len() > 0),
{
    url.unicode_len() > 0
}

/// Splits a newline-separated list of stash addresses: each line is trimmed
/// and the empty entries at the end are dropped. A body with no entry left
/// gives `None`.
pub fn parse_stash_list(body: &str) -> (r: Option<Vec<String>>)
    ensures
        match r {
            Some(v) => spec_parse_stash_list(body@) == Some(views(v@)),
            None => spec_parse_stash_list(body@).is_none(),
        },
{
    let n = body.unicode_len();
    let mut out: Vec<String> = Vec::new();
    let ghost mut raw: Seq<Seq<char>> = seq![];
    let mut start: usize = 0;
    let mut i: usize = 0;
    proof {
        assert(body@.subrange(0, n as int) =~= body@);
        assert(body@.subrange(0, 0) =~= Seq::<char>::empty());
    }
    while i < n
        invariant
            n == body@.len(),
            start <= i <= n,
            raw + split_lines_from(body@.subrange(i as int, n as int), body@.subrange(
                start as int,
                i as int,
            )) == split_lines(body@),
            views(out@) == raw.map_values(|l: Seq<char>| trim(l)),
        decreases n - i,
    {
        let c = body.get_char(i);
        let ghost rest = body@.subrange(i as int, n as int);
        let ghost cur = body@.subrange(start as int, i as int);
        proof {
            assert(rest.drop_first() =~= body@.subrange(i + 1, n as int));
            assert(rest[0] == c);
        }
        if c == '\n' {
            let piece = body.substring_char(start, i);
            let entry = String::from_str(trim_str(piece));
            let ghost before = out@;
            out.push(entry);
            proof {
                lemma_views_push(before, entry, raw, cur);
                let old_raw = raw;
                raw = raw.push(cur);
                assert(body@.subrange(i + 1, i + 1) =~= Seq::<char>::empty());
                assert(raw + split_lines_from(body@.subrange(i + 1, n as int), seq![]) =~= old_raw
                    + (seq![cur] + split_lines_from(body@.subrange(i + 1, n as int), seq![])));
            }
            start = i + 1;
        } else {
            proof {
                assert(cur.push(c) =~= body@.subrange(start as int, i + 1));
            }
        }
        i = i + 1;
    }
    let last = body.substring_char(start, n);
    let entry = String::from_str(trim_str(last));
    let ghost before = out@;
    out.push(entry);
    proof {
        let cur = body@.subrange(start as int, n as int);
        lemma_views_push(before, entry, raw, cur);
        assert(body@.subrange(n as int, n as int) =~= Seq::<char>::empty());
        assert(split_lines_from(Seq::<char>::empty(), cur) == seq![cur]);
        assert(raw.push(cur) =~= raw + seq![cur]);
        raw = raw.push(cur);
    }
    while out.len() > 0 && out[out.len() - 1].as_str().unicode_len() == 0
        invariant
            drop_trailing_empty(views(out@)) == stash_entries(body@),
        decreases out.len(),
    {
        let ghost before = out@;
        proof {
            assert(views(before).last() == before.last()@);
        }
        out.pop();
        proof {
            assert(views(out@) =~= views(before).drop_last());
        }
    }
    if out.len() == 0 {
        None
    } else {
        Some(out)
    }
}

} // verus!
