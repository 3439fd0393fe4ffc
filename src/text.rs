use vstd::prelude::*;

verus! {

/// The characters with the Unicode `White_Space` property, as `char::is_whitespace` lists them.
pub open spec fn is_white(c: char) -> bool {
    ('\u{9}' <= c && c <= '\u{d}') || c == ' ' || c == '\u{85}' || c == '\u{a0}' || c == '\u{1680}'
        || ('\u{2000}' <= c && c <= '\u{200a}') || c == '\u{2028}' || c == '\u{2029}' || c
        == '\u{202f}' || c == '\u{205f}' || c == '\u{3000}'
}

/// `s` without its leading white space.
pub open spec fn trim_start(s: Seq<char>) -> Seq<char>
    decreases s.len(),
{
    if s.len() > 0 && is_white(s[0]) {
        trim_start(s.drop_first())
    } else {
        s
    }
}

/// `s` without its trailing white space.
pub open spec fn trim_end(s: Seq<char>) -> Seq<char>
    decreases s.len(),
{
    if s.len() > 0 && is_white(s.last()) {
        trim_end(s.drop_last())
    } else {
        s
    }
}

/// `s` without white space at either end.
pub open spec fn trim(s: Seq<char>) -> Seq<char> {
    trim_end(trim_start(s))
}

pub fn is_white_char(c: char) -> (r: bool)
    ensures
        r == is_white(c),
{
    ('\u{9}' <= c && c <= '\u{d}') || c == ' ' || c == '\u{85}' || c == '\u{a0}' || c == '\u{1680}'
        || ('\u{2000}' <= c && c <= '\u{200a}') || c == '\u{2028}' || c == '\u{2029}' || c
        == '\u{202f}' || c == '\u{205f}' || c == '\u{3000}'
}

/// The part of `s` between its leading and its trailing white space.
pub fn trim_str(s: &str) -> (r: &str)
    ensures
        r@ == trim(s@),
{
    let n = s.unicode_len();
    let mut a: usize = 0;
    proof {
        assert(s@.subrange(0, n as int) =~= s@);
    }
    while a < n && is_white_char(s.get_char(a))
        invariant
            n == s@.len(),
            a <= n,
            trim_start(s@.subrange(a as int, n as int)) == trim_start(s@),
        decreases n - a,
    {
        proof {
            let t = s@.subrange(a as int, n as int);
            assert(t.drop_first() =~= s@.subrange(a + 1, n as int));
        }
        a = a + 1;
    }
    proof {
        assert(trim_start(s@.subrange(a as int, n as int)) == s@.subrange(a as int, n as int));
    }
    let mut b: usize = n;
    while b > a && is_white_char(s.get_char(b - 1))
        invariant
            n == s@.len(),
            a <= b <= n,
            trim_end(s@.subrange(a as int, b as int)) == trim(s@),
        decreases b,
    {
        proof {
            let t = s@.subrange(a as int, b as int);
            assert(t.drop_last() =~= s@.subrange(a as int, b - 1));
        }
        b = b - 1;
    }
    proof {
        assert(trim_end(s@.subrange(a as int, b as int)) == s@.subrange(a as int, b as int));
    }
    s.substring_char(a, b)
}

/// Whether two strings hold the same characters.
pub fn str_equal(x: &str, y: &str) -> (r: bool)
    ensures
        r == (x@ == y@),
{
    let n = x.unicode_len();
    if n != y.unicode_len() {
        return false;
    }
    let mut i: usize = 0;
    while i < n
        invariant
            n == x@.len(),
            n == y@.len(),
            i <= n,
            forall|k: int| 0 <= k < i ==> x@[k] == y@[k],
        decreases n - i,
    {
        if x.get_char(i) != y.get_char(i) {
            return false;
        }
        i = i + 1;
    }
    proof {
        assert(x@ =~= y@);
    }
    true
}

} // verus!
