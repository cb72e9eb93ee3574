//! Small verified string utilities: substring search, prefix and suffix
//! tests, suffix stripping and whitespace trimming, each pinned to a
//! recursive specification over the string's character sequence.
use vstd::prelude::*;

verus! {

/// Index of the first occurrence of `p` in `s`, if any.
pub open spec fn first_hit(s: Seq<char>, p: Seq<char>) -> Option<int>
    decreases s.len(),
{
    if p.is_prefix_of(s) {
        Some(0int)
    } else if s.len() == 0 {
        None
    } else {
        match first_hit(s.drop_first(), p) {
            None => None,
            Some(i) => Some(i + 1),
        }
    }
}

proof fn lemma_first_hit_at_min(s: Seq<char>, p: Seq<char>, k: int)
    requires
        0 <= k <= s.len(),
        forall|j: int| 0 <= j < k ==> !p.is_prefix_of(#[trigger] s.skip(j)),
        p.is_prefix_of(s.skip(k)),
    ensures
        first_hit(s, p) == Some(k),
    decreases k,
{
    assert(s.skip(0) =~= s);
    if k == 0 {
    } else {
        assert(!p.is_prefix_of(s));
        let t = s.drop_first();
        assert(t =~= s.skip(1));
        assert forall|j: int| 0 <= j < k - 1 implies !p.is_prefix_of(#[trigger] t.skip(j)) by {
            assert(t.skip(j) =~= s.skip(j + 1));
            assert(!p.is_prefix_of(s.skip(j + 1)));
        }
        assert(t.skip(k - 1) =~= s.skip(k));
        lemma_first_hit_at_min(t, p, k - 1);
    }
}

proof fn lemma_first_hit_none(s: Seq<char>, p: Seq<char>)
    requires
        forall|j: int| 0 <= j <= s.len() ==> !p.is_prefix_of(#[trigger] s.skip(j)),
    ensures
        first_hit(s, p) == None::<int>,
    decreases s.len(),
{
    assert(s.skip(0) =~= s);
    if s.len() == 0 {
    } else {
        let t = s.drop_first();
        assert(t =~= s.skip(1));
        assert forall|j: int| 0 <= j <= t.len() implies !p.is_prefix_of(#[trigger] t.skip(j)) by {
            assert(t.skip(j) =~= s.skip(j + 1));
            assert(!p.is_prefix_of(s.skip(j + 1)));
        }
        lemma_first_hit_none(t, p);
    }
}

/// A first occurrence lies inside `s` and `p` really occurs there.
pub proof fn lemma_first_hit_bounds(s: Seq<char>, p: Seq<char>, i: int)
    requires
        first_hit(s, p) == Some(i),
    ensures
        0 <= i,
        i + p.len() <= s.len(),
        p.is_prefix_of(s.skip(i)),
    decreases s.len(),
{
    if p.is_prefix_of(s) {
        assert(s.skip(0) =~= s);
    } else {
        let t = s.drop_first();
        lemma_first_hit_bounds(t, p, i - 1);
        assert(t.skip(i - 1) =~= s.skip(i));
    }
}

/// Whether `p` occurs in `s` starting at character position `k`.
fn matches_at(s: &str, p: &str, k: usize, n: usize, m: usize) -> (r: bool)
    requires
        n == s@.len(),
        m == p@.len(),
        k + m <= n,
    ensures
        r == p@.is_prefix_of(s@.skip(k as int)),
{
    let mut i: usize = 0;
    while i < m
        invariant
            n == s@.len(),
            m == p@.len(),
            k + m <= n,
            0 <= i <= m,
            forall|j: int| 0 <= j < i ==> s@[k + j] == p@[j],
        decreases m - i,
    {
        if s.get_char(k + i) != p.get_char(i) {
            assert(s@.skip(k as int)[i as int] == s@[k + i]);
            assert(!p@.is_prefix_of(s@.skip(k as int)));
            return false;
        }
        i += 1;
    }
    proof {
        assert(p@ =~= s@.skip(k as int).subrange(0, m as int));
    }
    true
}

/// First occurrence of `p` in `s`, as a character index.
pub fn find_sub(s: &str, p: &str) -> (r: Option<usize>)
    ensures
        (match r {
            Some(i) => first_hit(s@, p@) == Some(i as int),
            None => first_hit(s@, p@) == None::<int>,
        }),
{
    let n = s.unicode_len();
    let m = p.unicode_len();
    if m > n {
        proof {
            assert forall|j: int| 0 <= j <= s@.len() implies !p@.is_prefix_of(
                #[trigger] s@.skip(j),
            ) by {
                assert(s@.skip(j).len() <= s@.len());
            }
            lemma_first_hit_none(s@, p@);
        }
        return None;
    }
    let mut k: usize = 0;
    while k <= n - m
        invariant
            n == s@.len(),
            m == p@.len(),
            m <= n,
            0 <= k <= n - m + 1,
            forall|j: int| 0 <= j < k ==> !p@.is_prefix_of(#[trigger] s@.skip(j)),
        decreases n - k,
    {
        if matches_at(s, p, k, n, m) {
            proof {
                lemma_first_hit_at_min(s@, p@, k as int);
            }
            return Some(k);
        }
        k += 1;
    }
    proof {
        assert forall|j: int| 0 <= j <= s@.len() implies !p@.is_prefix_of(
            #[trigger] s@.skip(j),
        ) by {
            if j < k {
                assert(!p@.is_prefix_of(s@.skip(j)));
            } else {
                assert(s@.skip(j).len() == s@.len() - j);
                assert(s@.skip(j).len() < m);
            }
        }
        lemma_first_hit_none(s@, p@);
    }
    None
}

/// Whether `s` starts with `p`.
pub fn starts_with_sub(s: &str, p: &str) -> (r: bool)
    ensures
        r == p@.is_prefix_of(s@),
{
    let n = s.unicode_len();
    let m = p.unicode_len();
    if m > n {
        return false;
    }
    let r = matches_at(s, p, 0, n, m);
    proof {
        assert(s@.skip(0) =~= s@);
    }
    r
}

/// Whether `s` ends with `p`.
pub fn ends_with_sub(s: &str, p: &str) -> (r: bool)
    ensures
        r == p@.is_suffix_of(s@),
{
    let n = s.unicode_len();
    let m = p.unicode_len();
    if m > n {
        return false;
    }
    let r = matches_at(s, p, n - m, n, m);
    proof {
        assert(s@.skip(n - m) =~= s@.subrange(s@.len() - p@.len(), s@.len() as int));
    }
    r
}

/// The `.git` suffix that remote URLs carry.
pub open spec fn git_suffix() -> Seq<char> {
    seq!['.', 'g', 'i', 't']
}

/// `s` with every trailing `.git` removed.
pub open spec fn strip_git_suffix(s: Seq<char>) -> Seq<char>
    decreases s.len(),
{
    if git_suffix().is_suffix_of(s) {
        strip_git_suffix(s.take(s.len() - 4))
    } else {
        s
    }
}

/// Strips repeated trailing `.git` suffixes from `s`.
pub fn strip_git(s: &str) -> (r: String)
    ensures
        r@ == strip_git_suffix(s@),
    decreases s@.len(),
{
    proof {
        reveal_strlit(".git");
        assert(".git"@ =~= git_suffix());
    }
    let n = s.unicode_len();
    if n >= 4 && ends_with_sub(s, ".git") {
        let head = s.substring_char(0, n - 4);
        proof {
            assert(head@ =~= s@.take(s@.len() - 4));
        }
        strip_git(head)
    } else {
        proof {
            if n < 4 {
                assert(!git_suffix().is_suffix_of(s@));
            }
        }
        s.to_owned()
    }
}

/// The characters that trimming removes: those with the Unicode
/// `White_Space` property.
pub open spec fn is_space(c: char) -> bool {
    (0x09 <= c as int <= 0x0D)  // tab, line feed, vertical tab, form feed, carriage return
     || c as int == 0x20  // space
     || c as int == 0x85  // next line
     || c as int == 0xA0  // no-break space
     || c as int == 0x1680  // ogham space mark
     || (0x2000 <= c as int <= 0x200A)  // en quad ..= hair space
     || c as int == 0x2028  // line separator
     || c as int == 0x2029  // paragraph separator
     || c as int == 0x202F  // narrow no-break space
     || c as int == 0x205F  // medium mathematical space
     || c as int == 0x3000  // ideographic space
}

/// `s` with leading and trailing Unicode whitespace removed.
pub open spec fn trim_spec(s: Seq<char>) -> Seq<char>
    decreases s.len(),
{
    if s.len() == 0 {
        s
    } else if is_space(s[0]) {
        trim_spec(s.drop_first())
    } else if is_space(s[s.len() - 1]) {
        trim_spec(s.drop_last())
    } else {
        s
    }
}

fn is_space_exec(c: char) -> (r: bool)
    ensures
        r == is_space(c),
{
    let x = c as u32;
    (0x09 <= x && x <= 0x0D) || x == 0x20 || x == 0x85 || x == 0xA0 || x == 0x1680 || (0x2000 <= x
        && x <= 0x200A) || x == 0x2028 || x == 0x2029 || x == 0x202F || x == 0x205F || x == 0x3000
}

/// Removes leading and trailing whitespace from `s`.
pub fn trim_str(s: &str) -> (r: String)
    ensures
        r@ == trim_spec(s@),
    decreases s@.len(),
{
    let n = s.unicode_len();
    if n == 0 {
        return s.to_owned();
    }
    if is_space_exec(s.get_char(0)) {
        let tail = s.substring_char(1, n);
        proof {
            assert(tail@ =~= s@.drop_first());
        }
        return trim_str(tail);
    }
    if is_space_exec(s.get_char(n - 1)) {
        let head = s.substring_char(0, n - 1);
        proof {
            assert(head@ =~= s@.drop_last());
        }
        return trim_str(head);
    }
    s.to_owned()
}

/// Whether the character sequences of `a` and `b` are equal.
pub fn str_eq(a: &str, b: &str) -> (r: bool)
    ensures
        r == (a@ == b@),
{
    let n = a.unicode_len();
    let m = b.unicode_len();
    if n != m {
        return false;
    }
    let r = matches_at(a, b, 0, n, m);
    proof {
        assert(a@.skip(0) =~= a@);
        if b@.is_prefix_of(a@) {
            assert(a@ =~= b@);
        }
    }
    r
}

} // verus!
