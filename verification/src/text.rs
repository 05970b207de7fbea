//! Verified text primitives: substring search, separator splitting, decimal
//! rendering, and path joining. The gateway's routing and validation logic is
//! defined over these, so each executable function is pinned to a spec-level
//! definition on `Seq<char>`.

use vstd::prelude::*;
use vstd::string::StrSliceExecFns;
use vstd::string::StringExecFns;

verus! {

/// Relies on std's String::push: appends exactly the one character.
#[verifier::external_body]
pub(crate) fn push_char(s: &mut String, c: char)
    ensures
        final(s)@ == old(s)@.push(c),
{
    s.push(c);
}

/// `needle` occurs as a contiguous run of characters somewhere in `hay`.
pub open spec fn contains_seq(hay: Seq<char>, needle: Seq<char>) -> bool {
    exists|i: int|
        0 <= i && i + needle.len() <= hay.len() && #[trigger] hay.subrange(
            i,
            i + needle.len() as int,
        ) == needle
}

/// Character-for-character equality of two string slices.
pub fn str_eq(a: &str, b: &str) -> (r: bool)
    ensures
        r == (a@ == b@),
{
    let a_len = a.unicode_len();
    let b_len = b.unicode_len();
    if a_len != b_len {
        return false;
    }
    let mut i: usize = 0;
    while i < a_len
        invariant
            a_len == a@.len(),
            b_len == b@.len(),
            a_len == b_len,
            i <= a_len,
            forall|k: int| 0 <= k < i ==> a@[k] == b@[k],
        decreases a_len - i,
    {
        if a.get_char(i) != b.get_char(i) {
            return false;
        }
        i = i + 1;
    }
    proof {
        assert(a@ =~= b@);
    }
    true
}

/// Does `needle` start at position `i` of `hay`?
fn match_at(hay: &str, i: usize, needle: &str) -> (m: bool)
    requires
        i + needle@.len() <= hay@.len(),
    ensures
        m == (hay@.subrange(i as int, i + needle@.len() as int) == needle@),
{
    let h_len = hay.unicode_len();
    let n_len = needle.unicode_len();
    let mut j: usize = 0;
    while j < n_len
        invariant
            j <= n_len,
            n_len == needle@.len(),
            h_len == hay@.len(),
            i + n_len <= h_len,
            forall|t: int| 0 <= t < j ==> hay@[i + t] == needle@[t],
        decreases n_len - j,
    {
        if hay.get_char(i + j) != needle.get_char(j) {
            assert(hay@.subrange(i as int, i + needle@.len() as int) != needle@) by {
                assert(hay@.subrange(i as int, i + needle@.len() as int)[j as int] == hay@[
                    i + j
                ]);
            }
            return false;
        }
        j = j + 1;
    }
    proof {
        assert(hay@.subrange(i as int, i + needle@.len() as int) =~= needle@);
    }
    true
}

/// Substring search, the primitive behind readiness validation: reports
/// whether `needle` occurs anywhere in `hay`.
pub fn contains_str(hay: &str, needle: &str) -> (found: bool)
    ensures
        found == contains_seq(hay@, needle@),
{
    let h_len = hay.unicode_len();
    let n_len = needle.unicode_len();
    if n_len > h_len {
        return false;
    }
    if n_len == 0 {
        proof {
            assert(hay@.subrange(0, 0 + needle@.len() as int) =~= needle@);
        }
        return true;
    }
    let mut i: usize = 0;
    while i <= h_len - n_len
        invariant
            h_len == hay@.len(),
            n_len == needle@.len(),
            1 <= n_len <= h_len,
            i <= h_len - n_len + 1,
            forall|k: int|
                0 <= k < i ==> #[trigger] hay@.subrange(k, k + needle@.len() as int)
                    != needle@,
        decreases h_len - n_len + 1 - i,
    {
        if match_at(hay, i, needle) {
            return true;
        }
        i = i + 1;
    }
    false
}

/// Pushes `p` onto the front of the first segment.
pub open spec fn prepend_seg(p: Seq<char>, segs: Seq<Seq<char>>) -> Seq<Seq<char>>
    recommends
        segs.len() > 0,
{
    segs.update(0, p + segs[0])
}

/// The segments of `s` between occurrences of `sep`. As with `str::split`,
/// splitting the empty sequence gives one empty segment, and a leading,
/// trailing or doubled separator contributes an empty segment.
pub open spec fn split_on(s: Seq<char>, sep: char) -> Seq<Seq<char>>
    decreases s.len(),
{
    if s.len() == 0 {
        seq![Seq::<char>::empty()]
    } else if s[0] == sep {
        seq![Seq::<char>::empty()] + split_on(s.drop_first(), sep)
    } else {
        prepend_seg(seq![s[0]], split_on(s.drop_first(), sep))
    }
}

pub proof fn lemma_split_on_len(s: Seq<char>, sep: char)
    ensures
        split_on(s, sep).len() >= 1,
    decreases s.len(),
{
    if s.len() > 0 {
        lemma_split_on_len(s.drop_first(), sep);
    }
}

/// The views of a sequence of strings.
pub open spec fn str_views(v: Seq<String>) -> Seq<Seq<char>> {
    v.map_values(|x: String| x@)
}

/// Splits `s` at every occurrence of `sep`.
pub fn split_str(s: &str, sep: char) -> (segs: Vec<String>)
    ensures
        str_views(segs@) == split_on(s@, sep),
{
    let len = s.unicode_len();
    let mut segs: Vec<String> = Vec::new();
    let mut cur: String = String::new();
    let mut i: usize = 0;
    proof {
        assert(s@.subrange(0, len as int) =~= s@);
        lemma_split_on_len(s@, sep);
        assert(str_views(segs@) + prepend_seg(cur@, split_on(s@, sep)) =~~= split_on(
            s@,
            sep,
        ));
    }
    while i < len
        invariant
            len == s@.len(),
            i <= len,
            split_on(s@, sep) == str_views(segs@) + prepend_seg(
                cur@,
                split_on(s@.subrange(i as int, len as int), sep),
            ),
        decreases len - i,
    {
        let c = s.get_char(i);
        proof {
            lemma_split_on_len(s@.subrange(i as int, len as int).drop_first(), sep);
            assert(s@.subrange(i as int, len as int).drop_first() =~= s@.subrange(
                i + 1,
                len as int,
            ));
            assert(s@.subrange(i as int, len as int)[0] == s@[i as int]);
        }
        let ghost rest_split = split_on(s@.subrange(i + 1, len as int), sep);
        let ghost old_segs = segs@;
        let ghost old_cur = cur@;
        if c == sep {
            segs.push(cur);
            cur = String::new();
            proof {
                assert(prepend_seg(
                    old_cur,
                    seq![Seq::<char>::empty()] + rest_split,
                ) =~~= seq![old_cur] + prepend_seg(cur@, rest_split));
                assert(str_views(segs@) =~~= str_views(old_segs) + seq![old_cur]);
                assert(str_views(segs@) + prepend_seg(cur@, rest_split) =~~= str_views(
                    old_segs,
                ) + prepend_seg(old_cur, seq![Seq::<char>::empty()] + rest_split));
            }
        } else {
            push_char(&mut cur, c);
            proof {
                assert(prepend_seg(old_cur, prepend_seg(seq![s@[i as int]], rest_split))
                    =~~= prepend_seg(cur@, rest_split));
            }
        }
        i = i + 1;
    }
    proof {
        assert(s@.subrange(len as int, len as int) =~= Seq::<char>::empty());
        assert(prepend_seg(cur@, split_on(Seq::<char>::empty(), sep)) =~~= seq![cur@]);
    }
    let ghost old_segs = segs@;
    let ghost old_cur = cur@;
    segs.push(cur);
    proof {
        assert(str_views(segs@) =~~= str_views(old_segs) + seq![old_cur]);
        assert(str_views(segs@) =~~= split_on(s@, sep));
    }
    segs
}

/// A path with its single leading separator stripped.
pub open spec fn spec_normalize(p: Seq<char>) -> Seq<char> {
    if p.len() > 0 && p[0] == '/' {
        p.drop_first()
    } else {
        p
    }
}

/// Strips one leading separator, if present.
pub fn normalize_path(p: &str) -> (r: String)
    ensures
        r@ == spec_normalize(p@),
{
    let len = p.unicode_len();
    if len > 0 && p.get_char(0) == '/' {
        let sub = p.substring_char(1, len);
        proof {
            assert(p@.subrange(1, len as int) =~= p@.drop_first());
        }
        sub.to_owned()
    } else {
        p.to_owned()
    }
}

/// The decimal digit `d` as a character, for `0 <= d <= 9`.
pub open spec fn spec_digit_char(d: int) -> char {
    if d == 0 {
        '0'
    } else if d == 1 {
        '1'
    } else if d == 2 {
        '2'
    } else if d == 3 {
        '3'
    } else if d == 4 {
        '4'
    } else if d == 5 {
        '5'
    } else if d == 6 {
        '6'
    } else if d == 7 {
        '7'
    } else if d == 8 {
        '8'
    } else {
        '9'
    }
}

/// The usual decimal rendering of `n`, most significant digit first,
/// without leading zeros (except for `n == 0` itself).
pub open spec fn spec_dec(n: nat) -> Seq<char>
    decreases n,
{
    if n < 10 {
        seq![spec_digit_char(n as int)]
    } else {
        spec_dec(n / 10).push(spec_digit_char((n % 10) as int))
    }
}

fn digit_char(d: u16) -> (c: char)
    requires
        d < 10,
    ensures
        c == spec_digit_char(d as int),
{
    match d {
        0 => '0',
        1 => '1',
        2 => '2',
        3 => '3',
        4 => '4',
        5 => '5',
        6 => '6',
        7 => '7',
        8 => '8',
        _ => '9',
    }
}

/// Renders `n` in decimal.
pub fn u16_to_dec(n: u16) -> (s: String)
    ensures
        s@ == spec_dec(n as nat),
    decreases n,
{
    if n < 10 {
        let mut s = String::new();
        let c = digit_char(n);
        push_char(&mut s, c);
        s
    } else {
        let mut s = u16_to_dec(n / 10);
        let c = digit_char(n % 10);
        push_char(&mut s, c);
        s
    }
}

/// Joining a child onto a base path: a single separator stands between them,
/// and an empty base contributes nothing.
pub open spec fn spec_join(base: Seq<char>, child: Seq<char>) -> Seq<char> {
    if base.len() == 0 {
        child
    } else if base[base.len() - 1] == '/' {
        base + child
    } else {
        base + seq!['/'] + child
    }
}

/// Appends `child` to `base` with exactly one separator between them.
pub fn join_path(base: &str, child: &str) -> (r: String)
    ensures
        r@ == spec_join(base@, child@),
{
    let len = base.unicode_len();
    if len == 0 {
        return child.to_owned();
    }
    let mut s = base.to_owned();
    if base.get_char(len - 1) != '/' {
        push_char(&mut s, '/');
        proof {
            assert(s@ =~= base@ + seq!['/']);
        }
    }
    s.append(child);
    s
}

/// Index of the last separator in `s`, or -1 when there is none.
pub open spec fn last_sep(s: Seq<char>) -> int
    decreases s.len(),
{
    if s.len() == 0 {
        -1
    } else if s[s.len() - 1] == '/' {
        s.len() - 1
    } else {
        last_sep(s.drop_last())
    }
}

pub proof fn lemma_last_sep_bounds(s: Seq<char>)
    ensures
        -1 <= last_sep(s) < s.len(),
    decreases s.len(),
{
    if s.len() > 0 && s[s.len() - 1] != '/' {
        lemma_last_sep_bounds(s.drop_last());
    }
}

/// The parent of a path: everything before the final separator; the root
/// stays the root, and a path without separators has the empty parent.
pub open spec fn spec_parent(s: Seq<char>) -> Seq<char> {
    let i = last_sep(s);
    if i < 0 {
        Seq::<char>::empty()
    } else if i == 0 {
        seq!['/']
    } else {
        s.subrange(0, i)
    }
}

/// Strips the final component of a path.
pub fn parent_of(s: &str) -> (r: String)
    ensures
        r@ == spec_parent(s@),
{
    let len = s.unicode_len();
    proof {
        assert(s@.subrange(0, len as int) =~= s@);
    }
    let mut i: usize = len;
    while i > 0
        invariant
            i <= len,
            len == s@.len(),
            last_sep(s@) == last_sep(s@.subrange(0, i as int)),
        decreases i,
    {
        if s.get_char(i - 1) == '/' {
            proof {
                assert(s@.subrange(0, i as int)[i - 1] == s@[i - 1]);
                assert(last_sep(s@.subrange(0, i as int)) == i - 1);
            }
            if i - 1 == 0 {
                let mut root = String::new();
                push_char(&mut root, '/');
                proof {
                    assert(root@ =~= seq!['/']);
                }
                return root;
            }
            let par = s.substring_char(0, i - 1);
            return par.to_owned();
        }
        proof {
            assert(s@.subrange(0, i as int).drop_last() =~= s@.subrange(0, i - 1));
            assert(s@.subrange(0, i as int)[i - 1] == s@[i - 1]);
        }
        i = i - 1;
    }
    proof {
        assert(s@.subrange(0, 0) =~= Seq::<char>::empty());
        lemma_last_sep_bounds(s@);
    }
    String::new()
}

} // verus!
