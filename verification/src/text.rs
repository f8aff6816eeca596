//! Verified character-sequence utilities: token search, token replacement,
//! repeated delimiter construction, and lexicographic ordering of paths.

use vstd::prelude::*;
use vstd::string::StrSliceExecFns;

verus! {

/// The token `t` occurs in `h` starting at position `i`.
pub open spec fn contains_at(h: Seq<char>, t: Seq<char>, i: int) -> bool {
    &&& 0 <= i
    &&& i + t.len() <= h.len()
    &&& h.subrange(i, i + t.len() as int) == t
}

/// The token `t` occurs somewhere in `h`.
pub open spec fn contains_token(h: Seq<char>, t: Seq<char>) -> bool {
    exists|i: int| contains_at(h, t, i)
}

/// Left-to-right replacement of every occurrence of the token `t` in `h` by
/// `r`, the way the textual substitution of a placeholder works: scan from
/// the left, and on a match skip the whole token and continue after it.
/// An empty token leaves the text unchanged.
pub open spec fn replace_all(h: Seq<char>, t: Seq<char>, r: Seq<char>) -> Seq<char>
    decreases h.len(),
{
    if t.len() == 0 || h.len() < t.len() {
        h
    } else if h.subrange(0, t.len() as int) == t {
        r + replace_all(h.skip(t.len() as int), t, r)
    } else {
        seq![h[0]] + replace_all(h.skip(1), t, r)
    }
}

/// Whether the token `t` matches `h` at position `i`.
pub fn token_matches_at(h: &Vec<char>, t: &Vec<char>, i: usize) -> (b: bool)
    requires
        i <= h@.len(),
    ensures
        b == contains_at(h@, t@, i as int),
{
    if h.len() - i < t.len() {
        assert(!contains_at(h@, t@, i as int));
        return false;
    }
    let hl = h.len();
    let mut j: usize = 0;
    while j < t.len()
        invariant
            hl == h@.len(),
            i + t@.len() <= h@.len(),
            j <= t@.len(),
            forall|k: int| 0 <= k < j ==> h@[i + k] == t@[k],
        decreases t@.len() - j,
    {
        assert(i + j < h@.len());
        let idx = i + j;
        if h[idx] != t[j] {
            assert(!contains_at(h@, t@, i as int)) by {
                if contains_at(h@, t@, i as int) {
                    assert(h@.subrange(i as int, i + t@.len() as int)[j as int] == h@[i + j]);
                }
            }
            return false;
        }
        j += 1;
    }
    assert(h@.subrange(i as int, i + t@.len() as int) =~= t@);
    true
}

/// Replace every occurrence of the token `t` in `h` by `r`, scanning from
/// the left and skipping over each replaced occurrence.
pub fn replace_token(h: &Vec<char>, t: &Vec<char>, r: &Vec<char>) -> (out: Vec<char>)
    ensures
        out@ == replace_all(h@, t@, r@),
{
    let mut out: Vec<char> = Vec::new();
    if t.len() == 0 {
        let mut i: usize = 0;
        while i < h.len()
            invariant
                t@.len() == 0,
                i <= h@.len(),
                out@ == h@.subrange(0, i as int),
            decreases h@.len() - i,
        {
            out.push(h[i]);
            assert(out@ =~= h@.subrange(0, i + 1));
            i += 1;
        }
        assert(out@ =~= h@);
        return out;
    }
    let mut i: usize = 0;
    proof {
        assert(h@.skip(0) =~= h@);
        assert(out@ + replace_all(h@, t@, r@) =~= replace_all(h@, t@, r@));
    }
    while i < h.len()
        invariant
            t@.len() >= 1,
            i <= h@.len(),
            replace_all(h@, t@, r@) == out@ + replace_all(h@.skip(i as int), t@, r@),
        decreases h@.len() - i,
    {
        if token_matches_at(h, t, i) {
            let ghost pre = out@;
            let mut j: usize = 0;
            while j < r.len()
                invariant
                    j <= r@.len(),
                    out@ == pre + r@.subrange(0, j as int),
                decreases r@.len() - j,
            {
                out.push(r[j]);
                assert(out@ =~= pre + r@.subrange(0, j + 1));
                j += 1;
            }
            assert(out@ =~= pre + r@);
            proof {
                let rest = h@.skip(i as int);
                assert(rest.subrange(0, t@.len() as int) =~= h@.subrange(
                    i as int,
                    i + t@.len() as int,
                ));
                assert(replace_all(rest, t@, r@) == r@ + replace_all(
                    rest.skip(t@.len() as int),
                    t@,
                    r@,
                ));
                assert(rest.skip(t@.len() as int) =~= h@.skip(i + t@.len() as int));
                assert(out@ + replace_all(h@.skip(i + t@.len()), t@, r@) =~= pre + (r@
                    + replace_all(h@.skip(i + t@.len()), t@, r@)));
            }
            i += t.len();
        } else {
            out.push(h[i]);
            proof {
                let rest = h@.skip(i as int);
                if rest.len() < t@.len() {
                    // No match can start at or after `i`; in particular the
                    // definition returns the remainder unchanged.
                    assert(replace_all(rest, t@, r@) == rest);
                    assert(rest =~= seq![h@[i as int]] + h@.skip(i + 1));
                    assert(h@.skip(i + 1).len() < t@.len());
                    assert(replace_all(h@.skip(i + 1), t@, r@) == h@.skip(i + 1));
                } else {
                    assert(rest.subrange(0, t@.len() as int) =~= h@.subrange(
                        i as int,
                        i + t@.len() as int,
                    ));
                    assert(rest.subrange(0, t@.len() as int) != t@) by {
                        if rest.subrange(0, t@.len() as int) == t@ {
                            assert(contains_at(h@, t@, i as int));
                        }
                    }
                    assert(replace_all(rest, t@, r@) == seq![rest[0]] + replace_all(
                        rest.skip(1),
                        t@,
                        r@,
                    ));
                }
                assert(h@.skip(i as int).skip(1) =~= h@.skip(i + 1));
                assert(out@ + replace_all(h@.skip(i + 1), t@, r@) =~= (out@.drop_last() + (seq![
                    h@[i as int],
                ] + replace_all(h@.skip(i + 1), t@, r@))));
            }
            i += 1;
        }
    }
    proof {
        assert(h@.skip(i as int) =~= Seq::<char>::empty());
        assert(replace_all(h@.skip(i as int), t@, r@) == h@.skip(i as int));
        assert(out@ + Seq::<char>::empty() =~= out@);
    }
    out
}

/// Decide whether the token `t` occurs anywhere in `h`.
pub fn has_token(h: &Vec<char>, t: &Vec<char>) -> (b: bool)
    ensures
        b == contains_token(h@, t@),
{
    if t.len() == 0 {
        assert(contains_at(h@, t@, 0)) by {
            assert(h@.subrange(0, 0) =~= t@);
        }
        return true;
    }
    if t.len() > h.len() {
        assert(!contains_token(h@, t@)) by {
            if contains_token(h@, t@) {
                let p = choose|p: int| contains_at(h@, t@, p);
            }
        }
        return false;
    }
    let limit = h.len() - t.len();
    let mut i: usize = 0;
    while i <= limit
        invariant
            t@.len() >= 1,
            t@.len() <= h@.len(),
            limit == h@.len() - t@.len(),
            limit < usize::MAX,
            i <= limit + 1,
            forall|k: int| 0 <= k < i ==> !contains_at(h@, t@, k),
        decreases limit + 1 - i,
    {
        if token_matches_at(h, t, i) {
            assert(contains_token(h@, t@));
            return true;
        }
        i += 1;
    }
    assert(!contains_token(h@, t@)) by {
        if contains_token(h@, t@) {
            let p = choose|p: int| contains_at(h@, t@, p);
            assert(p <= limit);
        }
    }
    false
}

/// No character is shared between `r` and `s`.
pub open spec fn chars_disjoint(r: Seq<char>, s: Seq<char>) -> bool {
    forall|a: int, b: int| 0 <= a < r.len() && 0 <= b < s.len() ==> r[a] != s[b]
}

/// An occurrence in a suffix of `h` is an occurrence in `h`.
proof fn lemma_contains_skip(h: Seq<char>, t: Seq<char>, k: int)
    requires
        0 <= k <= h.len(),
        contains_token(h.skip(k), t),
    ensures
        contains_token(h, t),
{
    let p = choose|p: int| contains_at(h.skip(k), t, p);
    assert(h.subrange(k + p, k + p + t.len() as int) =~= h.skip(k).subrange(p, p + t.len() as int));
    assert(contains_at(h, t, k + p));
}

/// A sequence that shares no character with the replacement and stands at
/// the front of the replaced text already stood at the front of the
/// original text: the replacement cannot have put it there.
proof fn lemma_replace_prefix(h: Seq<char>, t: Seq<char>, r: Seq<char>, s: Seq<char>)
    requires
        t.len() >= 1,
        r.len() >= 1,
        s.len() >= 1,
        chars_disjoint(r, s),
        s.is_prefix_of(replace_all(h, t, r)),
    ensures
        s.is_prefix_of(h),
    decreases h.len(),
{
    let out = replace_all(h, t, r);
    if h.len() < t.len() {
        // Nothing was replaced.
        assert(out == h);
    } else if h.subrange(0, t.len() as int) == t {
        // The replaced text starts with `r`, whose first character cannot
        // begin `s`.
        assert(out == r + replace_all(h.skip(t.len() as int), t, r));
        assert(s.subrange(0, s.len() as int)[0] == out[0]);
        assert(out[0] == r[0]);
        assert(false);
    } else {
        let rest = replace_all(h.skip(1), t, r);
        assert(out == seq![h[0]] + rest);
        assert(s[0] == out.subrange(0, s.len() as int)[0]);
        assert(s[0] == h[0]);
        if s.len() == 1 {
            assert(s.subrange(0, 1) =~= s);
            assert(s.is_prefix_of(h));
        } else {
            assert(s.skip(1).is_prefix_of(rest)) by {
                assert forall|k: int| 0 <= k < s.len() - 1 implies s.skip(1)[k] == rest.subrange(
                    0,
                    s.len() - 1,
                )[k] by {
                    assert(s[k + 1] == out.subrange(0, s.len() as int)[k + 1]);
                    assert(out[k + 1] == rest[k]);
                }
                assert(s.skip(1) =~= rest.subrange(0, s.len() - 1));
            }
            assert(chars_disjoint(r, s.skip(1)));
            lemma_replace_prefix(h.skip(1), t, r, s.skip(1));
            assert(s.is_prefix_of(h)) by {
                assert forall|k: int| 0 <= k < s.len() implies s[k] == h.subrange(
                    0,
                    s.len() as int,
                )[k] by {
                    if k > 0 {
                        assert(s.skip(1)[k - 1] == h.skip(1).subrange(0, s.len() - 1)[k - 1]);
                    }
                }
                assert(s =~= h.subrange(0, s.len() as int));
            }
        }
    }
}

/// Substitution is exhaustive: when the replacement is nonempty and shares
/// no character with the token, no occurrence of the token survives or is
/// created, so none is left in the replaced text.
pub proof fn lemma_substitution_exhaustive(h: Seq<char>, t: Seq<char>, r: Seq<char>)
    requires
        t.len() >= 1,
        r.len() >= 1,
        chars_disjoint(r, t),
    ensures
        !contains_token(replace_all(h, t, r), t),
    decreases h.len(),
{
    let out = replace_all(h, t, r);
    if contains_token(out, t) {
        let p = choose|p: int| contains_at(out, t, p);
        assert(out.subrange(p, p + t.len() as int)[0] == out[p]);
        if h.len() < t.len() {
            assert(out == h);
        } else if h.subrange(0, t.len() as int) == t {
            let rest = replace_all(h.skip(t.len() as int), t, r);
            assert(out == r + rest);
            lemma_substitution_exhaustive(h.skip(t.len() as int), t, r);
            if p < r.len() {
                assert(out[p] == r[p]);
                assert(t[0] == r[p]);
            } else {
                assert(out.subrange(p, p + t.len() as int) =~= rest.subrange(
                    p - r.len(),
                    p - r.len() + t.len(),
                ));
                assert(contains_at(rest, t, p - r.len()));
            }
        } else {
            let rest = replace_all(h.skip(1), t, r);
            assert(out == seq![h[0]] + rest);
            lemma_substitution_exhaustive(h.skip(1), t, r);
            if p == 0 {
                assert(t.is_prefix_of(out)) by {
                    assert(t =~= out.subrange(0, t.len() as int));
                }
                lemma_replace_prefix(h, t, r, t);
                assert(h.subrange(0, t.len() as int) =~= t);
            } else {
                assert(out.subrange(p, p + t.len() as int) =~= rest.subrange(
                    p - 1,
                    p - 1 + t.len(),
                ));
                assert(contains_at(rest, t, p - 1));
            }
        }
    }
}

/// Substituting one token does not plant another: when the replacement is
/// nonempty and shares no character with a token the text does not hold,
/// the replaced text does not hold that token either.
pub proof fn lemma_substitution_preserves_absence(
    h: Seq<char>,
    t: Seq<char>,
    r: Seq<char>,
    other: Seq<char>,
)
    requires
        t.len() >= 1,
        r.len() >= 1,
        other.len() >= 1,
        chars_disjoint(r, other),
        !contains_token(h, other),
    ensures
        !contains_token(replace_all(h, t, r), other),
    decreases h.len(),
{
    let out = replace_all(h, t, r);
    if contains_token(out, other) {
        let p = choose|p: int| contains_at(out, other, p);
        assert(out.subrange(p, p + other.len() as int)[0] == out[p]);
        if h.len() < t.len() {
            assert(out == h);
        } else if h.subrange(0, t.len() as int) == t {
            let rest = replace_all(h.skip(t.len() as int), t, r);
            assert(out == r + rest);
            assert(!contains_token(h.skip(t.len() as int), other)) by {
                if contains_token(h.skip(t.len() as int), other) {
                    lemma_contains_skip(h, other, t.len() as int);
                }
            }
            lemma_substitution_preserves_absence(h.skip(t.len() as int), t, r, other);
            if p < r.len() {
                assert(out[p] == r[p]);
                assert(other[0] == r[p]);
            } else {
                assert(out.subrange(p, p + other.len() as int) =~= rest.subrange(
                    p - r.len(),
                    p - r.len() + other.len(),
                ));
                assert(contains_at(rest, other, p - r.len()));
            }
        } else {
            let rest = replace_all(h.skip(1), t, r);
            assert(out == seq![h[0]] + rest);
            assert(!contains_token(h.skip(1), other)) by {
                if contains_token(h.skip(1), other) {
                    lemma_contains_skip(h, other, 1);
                }
            }
            lemma_substitution_preserves_absence(h.skip(1), t, r, other);
            if p == 0 {
                assert(other.is_prefix_of(out)) by {
                    assert(other =~= out.subrange(0, other.len() as int));
                }
                lemma_replace_prefix(h, t, r, other);
                assert(h.subrange(0, other.len() as int) =~= other);
                assert(contains_at(h, other, 0));
            } else {
                assert(out.subrange(p, p + other.len() as int) =~= rest.subrange(
                    p - 1,
                    p - 1 + other.len(),
                ));
                assert(contains_at(rest, other, p - 1));
            }
        }
    }
}

/// The characters of `s`, in order.
pub fn str_to_chars(s: &str) -> (v: Vec<char>)
    ensures
        v@ == s@,
{
    let n = s.unicode_len();
    let mut v: Vec<char> = Vec::new();
    let mut i: usize = 0;
    while i < n
        invariant
            n == s@.len(),
            i <= n,
            v@ == s@.subrange(0, i as int),
        decreases n - i,
    {
        let c = s.get_char(i);
        v.push(c);
        assert(v@ =~= s@.subrange(0, i + 1));
        i += 1;
    }
    assert(v@ =~= s@);
    v
}

/// Whether the characters of `w` read exactly as `s`.
pub fn word_eq(w: &Vec<char>, s: &str) -> (b: bool)
    ensures
        b == (w@ == s@),
{
    let n = s.unicode_len();
    if w.len() != n {
        return false;
    }
    let mut i: usize = 0;
    while i < n
        invariant
            n == s@.len(),
            w@.len() == n,
            i <= n,
            forall|k: int| 0 <= k < i ==> w@[k] == s@[k],
        decreases n - i,
    {
        if w[i] != s.get_char(i) {
            return false;
        }
        i += 1;
    }
    assert(w@ =~= s@);
    true
}

/// Relies on `String`'s `FromIterator<char>` implementation: collecting an
/// iterator of characters yields the string of exactly those characters.
#[verifier::external_body]
pub fn chars_to_string(v: &Vec<char>) -> (s: String)
    ensures
        s@ == v@,
{
    v.iter().collect()
}

/// `n` repetitions of the escaped line-break unit `\n` (a backslash followed
/// by the letter `n`), the raw two-character form that line breaks take
/// inside quoted rule literals.
pub open spec fn escaped_newlines(n: nat) -> Seq<char>
    decreases n,
{
    if n == 0 {
        Seq::empty()
    } else {
        escaped_newlines((n - 1) as nat) + seq!['\\', 'n']
    }
}

/// Each escaped line-break unit is two characters long.
pub proof fn lemma_escaped_newlines_len(n: nat)
    ensures
        escaped_newlines(n).len() == 2 * n,
    decreases n,
{
    if n > 0 {
        lemma_escaped_newlines_len((n - 1) as nat);
    }
}

/// Build `n` repetitions of the escaped line-break unit.
pub fn escaped_newline_text(n: usize) -> (v: Vec<char>)
    ensures
        v@ == escaped_newlines(n as nat),
{
    let mut v: Vec<char> = Vec::new();
    let mut i: usize = 0;
    while i < n
        invariant
            i <= n,
            v@ == escaped_newlines(i as nat),
        decreases n - i,
    {
        v.push('\\');
        v.push('n');
        assert(v@ =~= escaped_newlines(i as nat) + seq!['\\', 'n']);
        i += 1;
    }
    v
}

/// `n` space characters.
pub open spec fn space_chars(n: nat) -> Seq<char>
    decreases n,
{
    if n == 0 {
        Seq::empty()
    } else {
        space_chars((n - 1) as nat).push(' ')
    }
}

/// Build `n` space characters.
pub fn space_text(n: usize) -> (v: Vec<char>)
    ensures
        v@ == space_chars(n as nat),
{
    let mut v: Vec<char> = Vec::new();
    let mut i: usize = 0;
    while i < n
        invariant
            i <= n,
            v@ == space_chars(i as nat),
        decreases n - i,
    {
        v.push(' ');
        i += 1;
    }
    v
}

/// Lexicographic order on character sequences, by code point.
pub open spec fn lex_le(a: Seq<char>, b: Seq<char>) -> bool
    decreases a.len(),
{
    if a.len() == 0 {
        true
    } else if b.len() == 0 {
        false
    } else if a[0] == b[0] {
        lex_le(a.skip(1), b.skip(1))
    } else {
        (a[0] as int) < (b[0] as int)
    }
}

/// Strict lexicographic order.
pub open spec fn lex_lt(a: Seq<char>, b: Seq<char>) -> bool {
    lex_le(a, b) && a != b
}

/// The order is total: of any two sequences, one is less than or equal to
/// the other.
pub proof fn lemma_lex_le_total(a: Seq<char>, b: Seq<char>)
    ensures
        lex_le(a, b) || lex_le(b, a),
    decreases a.len(),
{
    if a.len() == 0 {
    } else if b.len() == 0 {
    } else if a[0] == b[0] {
        lemma_lex_le_total(a.skip(1), b.skip(1));
    } else {
        assert((a[0] as int) != (b[0] as int));
    }
}

/// The order is antisymmetric: mutual order means equality.
pub proof fn lemma_lex_le_antisymmetric(a: Seq<char>, b: Seq<char>)
    requires
        lex_le(a, b),
        lex_le(b, a),
    ensures
        a == b,
    decreases a.len(),
{
    if a.len() == 0 {
        assert(b.len() == 0);
        assert(a =~= b);
    } else {
        assert(b.len() != 0);
        if a[0] == b[0] {
            lemma_lex_le_antisymmetric(a.skip(1), b.skip(1));
            assert(a =~= seq![a[0]] + a.skip(1));
            assert(b =~= seq![b[0]] + b.skip(1));
        } else {
            assert((a[0] as u32) < (b[0] as u32) && (b[0] as u32) < (a[0] as u32));
        }
    }
}

/// The order is transitive.
pub proof fn lemma_lex_le_transitive(a: Seq<char>, b: Seq<char>, c: Seq<char>)
    requires
        lex_le(a, b),
        lex_le(b, c),
    ensures
        lex_le(a, c),
    decreases a.len(),
{
    if a.len() != 0 {
        assert(b.len() != 0);
        assert(c.len() != 0);
        if a[0] == b[0] && b[0] == c[0] {
            lemma_lex_le_transitive(a.skip(1), b.skip(1), c.skip(1));
        }
    }
}

/// Strictness carries through the order.
pub proof fn lemma_lex_lt_transitive(a: Seq<char>, b: Seq<char>, c: Seq<char>)
    requires
        lex_lt(a, b),
        lex_lt(b, c),
    ensures
        lex_lt(a, c),
{
    lemma_lex_le_transitive(a, b, c);
    if a == c {
        lemma_lex_le_antisymmetric(a, b);
    }
}

/// Compare two strings in the lexicographic order.
pub fn lex_le_str(a: &str, b: &str) -> (res: bool)
    ensures
        res == lex_le(a@, b@),
{
    let a_len = a.unicode_len();
    let b_len = b.unicode_len();
    let mut i: usize = 0;
    proof {
        assert(a@.skip(0) =~= a@);
        assert(b@.skip(0) =~= b@);
    }
    loop
        invariant
            a_len == a@.len(),
            b_len == b@.len(),
            i <= a_len,
            i <= b_len,
            lex_le(a@, b@) == lex_le(a@.skip(i as int), b@.skip(i as int)),
            lex_le(b@, a@) == lex_le(b@.skip(i as int), a@.skip(i as int)),
        decreases a_len - i,
    {
        if i == a_len {
            return true;
        }
        if i == b_len {
            return false;
        }
        let ca = a.get_char(i);
        let cb = b.get_char(i);
        if ca == cb {
            proof {
                assert(a@.skip(i as int).skip(1) =~= a@.skip(i + 1));
                assert(b@.skip(i as int).skip(1) =~= b@.skip(i + 1));
            }
            i += 1;
        } else {
            let lt = (ca as u32) < (cb as u32);
            proof {
                assert(ca as int <= 0x10FFFF && cb as int <= 0x10FFFF);
                assert(lt == ((a@[i as int] as int) < (b@[i as int] as int)));
            }
            return lt;
        }
    }
}

/// Whether a file name carries the language's canonical extension: it ends
/// in `.elm` with a nonempty name before the dot.
pub open spec fn elm_file_name(name: Seq<char>) -> bool {
    name.len() > 4 && name.subrange(name.len() - 4, name.len() as int) == ".elm"@
}

/// Decide whether a file name carries the language's canonical extension.
pub fn is_elm_file_name(name: &str) -> (b: bool)
    ensures
        b == elm_file_name(name@),
{
    let n = name.unicode_len();
    if n <= 4 {
        return false;
    }
    let b = name.get_char(n - 4) == '.' && name.get_char(n - 3) == 'e' && name.get_char(n - 2)
        == 'l' && name.get_char(n - 1) == 'm';
    proof {
        reveal_strlit(".elm");
        let tail = name@.subrange(n - 4, n as int);
        assert(tail[0] == name@[n - 4]);
        assert(tail[1] == name@[n - 3]);
        assert(tail[2] == name@[n - 2]);
        assert(tail[3] == name@[n - 1]);
        if b {
            assert(tail =~= ".elm"@);
        }
    }
    b
}

/// Some element of `s` reads as the character sequence `x`.
pub open spec fn seq_contains_view(s: Seq<String>, x: Seq<char>) -> bool {
    exists|i: int| 0 <= i < s.len() && s[i]@ == x
}

/// Strictly ascending in the lexicographic order; in particular, all
/// elements are distinct.
pub open spec fn strictly_sorted(s: Seq<String>) -> bool {
    forall|i: int, j: int| 0 <= i < j < s.len() ==> lex_lt(#[trigger] s[i]@, #[trigger] s[j]@)
}

/// Insert `x` into the strictly sorted `out`, keeping it strictly sorted;
/// an `x` already present is dropped.
pub fn insert_sorted(out: &mut Vec<String>, x: String)
    requires
        strictly_sorted(old(out)@),
    ensures
        strictly_sorted(final(out)@),
        forall|y: Seq<char>|
            #[trigger] seq_contains_view(final(out)@, y) <==> (seq_contains_view(old(out)@, y)
                || y == x@),
{
    let mut p: usize = 0;
    while p < out.len() && lex_le_str(out[p].as_str(), x.as_str()) && !out[p].eq(&x)
        invariant
            strictly_sorted(out@),
            out@ == old(out)@,
            p <= out@.len(),
            forall|k: int| 0 <= k < p ==> lex_lt(#[trigger] out@[k]@, x@),
        decreases out@.len() - p,
    {
        proof {
            if out@[p as int]@ == x@ {
            } else {
                assert(lex_lt(out@[p as int]@, x@));
            }
        }
        p += 1;
    }
    if p < out.len() && out[p].eq(&x) {
        // Already present: an insertion would break uniqueness.
        assert(seq_contains_view(out@, x@));
        return ;
    }
    proof {
        if p < out@.len() {
            // The scan stopped without finding x, so x comes strictly
            // before the element at p.
            lemma_lex_le_total(out@[p as int]@, x@);
            if !lex_le(out@[p as int]@, x@) {
                lemma_lex_le_total(x@, out@[p as int]@);
                assert(lex_lt(x@, out@[p as int]@)) by {
                    if x@ == out@[p as int]@ {
                        lemma_lex_le_antisymmetric(x@, out@[p as int]@);
                    }
                }
            } else {
                assert(lex_lt(x@, out@[p as int]@)) by {
                    if x@ == out@[p as int]@ {
                    } else {
                        lemma_lex_le_antisymmetric(out@[p as int]@, x@);
                    }
                }
            }
        }
    }
    let ghost pre = out@;
    out.insert(p, x);
    proof {
        assert(forall|k: int| 0 <= k < p ==> out@[k] == pre[k]);
        assert(forall|k: int| p < k < out@.len() ==> out@[k] == pre[k - 1]);
        assert(out@[p as int]@ == x@);
        assert forall|i: int, j: int| 0 <= i < j < out@.len() implies lex_lt(
            #[trigger] out@[i]@,
            #[trigger] out@[j]@,
        ) by {
            if i < p && j == p {
                assert(lex_lt(pre[i]@, x@));
            } else if i == p && j > p {
                assert(lex_lt(x@, pre[j - 1]@)) by {
                    if p < pre.len() {
                        if j - 1 > p {
                            lemma_lex_lt_transitive(x@, pre[p as int]@, pre[j - 1]@);
                        }
                    }
                }
            } else if i < p && j > p {
                assert(lex_lt(pre[i]@, pre[j - 1]@)) by {
                    if j - 1 == i {
                        assert(lex_lt(pre[i]@, x@));
                        assert(lex_lt(x@, pre[j - 1]@));
                    }
                }
            }
        }
        assert forall|y: Seq<char>| #[trigger]
            seq_contains_view(out@, y) <==> (seq_contains_view(pre, y) || y == x@) by {
            if seq_contains_view(out@, y) {
                let i = choose|i: int| 0 <= i < out@.len() && out@[i]@ == y;
                if i < p {
                    assert(pre[i]@ == y);
                } else if i == p {
                } else {
                    assert(pre[i - 1]@ == y);
                }
            }
            if seq_contains_view(pre, y) {
                let i = choose|i: int| 0 <= i < pre.len() && pre[i]@ == y;
                if i < p {
                    assert(out@[i]@ == y);
                } else {
                    assert(out@[i + 1]@ == y);
                }
            }
            if y == x@ {
                assert(out@[p as int]@ == y);
            }
        }
    }
}

/// Sort the given paths lexicographically and drop duplicates: the result is
/// strictly ascending and holds exactly the character sequences of the input.
pub fn normalize_paths(input: &Vec<String>) -> (out: Vec<String>)
    ensures
        strictly_sorted(out@),
        forall|y: Seq<char>|
            #[trigger] seq_contains_view(out@, y) <==> seq_contains_view(input@, y),
{
    let mut out: Vec<String> = Vec::new();
    let mut i: usize = 0;
    while i < input.len()
        invariant
            i <= input@.len(),
            strictly_sorted(out@),
            forall|y: Seq<char>|
                #[trigger] seq_contains_view(out@, y) <==> seq_contains_view(
                    input@.subrange(0, i as int),
                    y,
                ),
        decreases input@.len() - i,
    {
        let x = input[i].clone();
        assert(x@ == input@[i as int]@);
        insert_sorted(&mut out, x);
        proof {
            let prefix = input@.subrange(0, i as int);
            let prefix1 = input@.subrange(0, i + 1);
            assert forall|y: Seq<char>| #[trigger]
                seq_contains_view(out@, y) <==> seq_contains_view(prefix1, y) by {
                if seq_contains_view(out@, y) {
                    if seq_contains_view(prefix, y) {
                        let k = choose|k: int| 0 <= k < prefix.len() && prefix[k]@ == y;
                        assert(prefix1[k]@ == y);
                    } else {
                        assert(prefix1[i as int]@ == y);
                    }
                }
                if seq_contains_view(prefix1, y) {
                    let k = choose|k: int| 0 <= k < prefix1.len() && prefix1[k]@ == y;
                    if k < i {
                        assert(prefix[k]@ == y);
                        assert(seq_contains_view(prefix, y));
                    } else {
                        assert(y == input@[i as int]@);
                    }
                }
            }
        }
        i += 1;
    }
    assert(input@.subrange(0, i as int) =~= input@);
    out
}

} // verus!
