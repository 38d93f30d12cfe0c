//! Literal substring substitution over strings, the engine behind
//! template rendering.
//!
//! A replacement table is an ordered list of `(token, value)` pairs.
//! Applying the table is a left fold: each pair performs a plain,
//! leftmost, non-overlapping substring replacement over the cumulative
//! result of the pairs before it.  This is deliberate and documented:
//! a value inserted by an earlier pair can itself be matched by a later
//! token (there is no protection against that), and the lemmas at the
//! bottom of this file state exactly under which conditions no token
//! survives a full pass.

use vstd::prelude::*;

verus! {

/// `pat` occurs in `hay` starting at position `i`.
pub open spec fn occurs_at(hay: Seq<char>, pat: Seq<char>, i: int) -> bool {
    0 <= i && i + pat.len() <= hay.len() && hay.subrange(i, i + pat.len()) == pat
}

/// `pat` occurs somewhere in `hay`.
pub open spec fn occurs(hay: Seq<char>, pat: Seq<char>) -> bool {
    exists|i: int| occurs_at(hay, pat, i)
}

/// One leftmost, non-overlapping replacement pass: every occurrence of
/// `from` in `s`, scanned left to right, is replaced by `to`.  On a
/// mismatch the scanner advances one character; on a match it consumes
/// the whole occurrence, so occurrences never overlap.
pub open spec fn replace_all_spec(s: Seq<char>, from: Seq<char>, to: Seq<char>) -> Seq<char>
    decreases s.len(),
{
    if from.len() == 0 || s.len() < from.len() {
        s
    } else if s.subrange(0, from.len() as int) == from {
        to + replace_all_spec(s.subrange(from.len() as int, s.len() as int), from, to)
    } else {
        seq![s[0]] + replace_all_spec(s.subrange(1, s.len() as int), from, to)
    }
}

/// The full table, applied as a left fold: the first pair runs over the
/// original content, each later pair over the cumulative result.
pub open spec fn apply_all_spec(s: Seq<char>, reps: Seq<(Seq<char>, Seq<char>)>) -> Seq<char>
    decreases reps.len(),
{
    if reps.len() == 0 {
        s
    } else {
        apply_all_spec(replace_all_spec(s, reps[0].0, reps[0].1), reps.drop_first())
    }
}

/// The views of a vector of owned `(token, value)` pairs.
pub open spec fn pair_views(reps: Seq<(String, String)>) -> Seq<(Seq<char>, Seq<char>)> {
    reps.map_values(|p: (String, String)| (p.0@, p.1@))
}

/// Whether `pat` occurs in `s` at position `i` (false whenever the
/// pattern would run past the end of `s`).
pub fn matches_at(s: &str, i: usize, pat: &str) -> (b: bool)
    requires
        i <= s@.len(),
    ensures
        b == occurs_at(s@, pat@, i as int),
{
    let n = s.unicode_len();
    let m = pat.unicode_len();
    if m > n - i {
        return false;
    }
    let mut j: usize = 0;
    while j < m
        invariant
            0 <= j <= m,
            i + m <= n,
            n == s@.len(),
            m == pat@.len(),
            forall|k: int| 0 <= k < j ==> s@[i + k] == pat@[k],
        decreases m - j,
    {
        if s.get_char(i + j) != pat.get_char(j) {
            assert(s@.subrange(i as int, i + m) != pat@) by {
                assert(s@.subrange(i as int, i + m)[j as int] != pat@[j as int]);
            }
            return false;
        }
        j = j + 1;
    }
    assert(s@.subrange(i as int, i + m) =~= pat@);
    true
}

/// Replaces every occurrence of `from` in `s` by `to`, scanning left to
/// right without overlaps, exactly as `replace_all_spec` describes.
pub fn replace_all(s: &str, from: &str, to: &str) -> (res: String)
    requires
        from@.len() >= 1,
    ensures
        res@ == replace_all_spec(s@, from@, to@),
{
    let n = s.unicode_len();
    let m = from.unicode_len();
    let mut out = String::new();
    let mut i: usize = 0;
    proof {
        assert(s@.subrange(0, n as int) =~= s@);
        assert(out@ + replace_all_spec(s@, from@, to@) =~= replace_all_spec(s@, from@, to@));
    }
    while i < n
        invariant
            0 <= i <= n,
            n == s@.len(),
            m == from@.len(),
            m >= 1,
            out@ + replace_all_spec(s@.subrange(i as int, n as int), from@, to@)
                == replace_all_spec(s@, from@, to@),
        decreases n - i,
    {
        let ghost tail = s@.subrange(i as int, n as int);
        if matches_at(s, i, from) {
            assert(tail.subrange(0, m as int) =~= s@.subrange(i as int, i + m));
            assert(tail.subrange(m as int, tail.len() as int)
                =~= s@.subrange(i + m, n as int));
            out.append(to);
            i = i + m;
            assert(out@ + replace_all_spec(s@.subrange(i as int, n as int), from@, to@)
                =~= replace_all_spec(s@, from@, to@));
        } else {
            let piece = s.substring_char(i, i + 1);
            if m <= n - i {
                assert(tail.subrange(0, m as int) =~= s@.subrange(i as int, i + m));
            } else {
                assert(tail.len() < m);
                assert(s@.subrange(i + 1, n as int).len() < m);
                assert(tail =~= seq![s@[i as int]]
                    + replace_all_spec(s@.subrange(i + 1, n as int), from@, to@));
            }
            assert(tail.subrange(1, tail.len() as int) =~= s@.subrange(i + 1, n as int));
            assert(seq![tail[0]] =~= piece@);
            out.append(piece);
            i = i + 1;
            assert(out@ + replace_all_spec(s@.subrange(i as int, n as int), from@, to@)
                =~= replace_all_spec(s@, from@, to@));
        }
    }
    assert(s@.subrange(n as int, n as int) =~= Seq::<char>::empty());
    assert(out@ =~= replace_all_spec(s@, from@, to@));
    out
}

/// Applies the whole replacement table to `s` as a left fold, in table
/// order.
pub fn apply_replacements(s: &str, reps: &Vec<(String, String)>) -> (res: String)
    requires
        forall|k: int| 0 <= k < reps@.len() ==> (#[trigger] reps@[k]).0@.len() >= 1,
    ensures
        res@ == apply_all_spec(s@, pair_views(reps@)),
{
    let ghost pv = pair_views(reps@);
    let mut cur = s.to_owned();
    let mut k: usize = 0;
    proof {
        assert(pv.subrange(0, pv.len() as int) =~= pv);
    }
    while k < reps.len()
        invariant
            0 <= k <= reps@.len(),
            pv == pair_views(reps@),
            forall|j: int| 0 <= j < reps@.len() ==> (#[trigger] reps@[j]).0@.len() >= 1,
            apply_all_spec(cur@, pv.subrange(k as int, pv.len() as int))
                == apply_all_spec(s@, pv),
        decreases reps@.len() - k,
    {
        let ghost rest = pv.subrange(k as int, pv.len() as int);
        let pair = &reps[k];
        cur = replace_all(cur.as_str(), pair.0.as_str(), pair.1.as_str());
        proof {
            assert(rest[0] == pv[k as int]);
            assert(rest.drop_first() =~= pv.subrange(k + 1, pv.len() as int));
        }
        k = k + 1;
    }
    assert(pv.subrange(pv.len() as int, pv.len() as int) =~= Seq::<(Seq<char>, Seq<char>)>::empty());
    cur
}

/// No brace occurs in `v`.
pub open spec fn brace_free(v: Seq<char>) -> bool {
    forall|i: int| 0 <= i < v.len() ==> v[i] != '{' && v[i] != '}'
}

/// `t` has the shape of a placeholder token: it opens and closes with
/// a brace.
pub open spec fn token_shaped(t: Seq<char>) -> bool {
    t.len() >= 2 && t[0] == '{' && t[t.len() - 1] == '}'
}

/// The alphabet the recognized tokens are written in: upper-case
/// letters, the underscore, and the two braces.
pub open spec fn token_charset(c: char) -> bool {
    ('A' <= c && c <= 'Z') || c == '_' || c == '{' || c == '}'
}

/// Every character of `t` belongs to the token alphabet.
pub open spec fn token_chars_ok(t: Seq<char>) -> bool {
    forall|i: int| 0 <= i < t.len() ==> token_charset(#[trigger] t[i])
}

/// A value visibly foreign to every token: non-empty, brace-free, and
/// opening with a character outside the token alphabet.
pub open spec fn token_safe_value(v: Seq<char>) -> bool {
    v.len() >= 1 && brace_free(v) && !token_charset(v[0])
}

/// `v` is fit to be one of the table's values: non-empty, brace-free,
/// and no substring of any of the table's tokens.
pub open spec fn value_safe_for(v: Seq<char>, reps: Seq<(Seq<char>, Seq<char>)>) -> bool {
    v.len() >= 1 && brace_free(v) && forall|j: int|
        0 <= j < reps.len() ==> !occurs((#[trigger] reps[j]).0, v)
}

/// A value that opens with a character outside the token alphabet
/// cannot occur inside a token written in that alphabet.
pub proof fn lemma_token_safe_no_occurrence(t: Seq<char>, v: Seq<char>)
    requires
        token_chars_ok(t),
        token_safe_value(v),
    ensures
        !occurs(t, v),
{
    if occurs(t, v) {
        let i = choose|i: int| occurs_at(t, v, i);
        assert(v[0] == t.subrange(i, i + v.len() as int)[0]);
        assert(token_charset(t[i]));
        assert(false);
    }
}

/// Law: a replacement whose pattern does not occur leaves the text
/// unchanged — the patch steps are no-ops on content that lacks their
/// placeholder.
pub proof fn lemma_replace_all_absent(s: Seq<char>, from: Seq<char>, to: Seq<char>)
    requires
        !occurs(s, from),
    ensures
        replace_all_spec(s, from, to) == s,
    decreases s.len(),
{
    if from.len() == 0 || s.len() < from.len() {
        // Nothing to scan for.
    } else if s.subrange(0, from.len() as int) == from {
        assert(occurs_at(s, from, 0));
        assert(false);
    } else {
        let s1 = s.subrange(1, s.len() as int);
        assert(!occurs(s1, from)) by {
            if occurs(s1, from) {
                let i = choose|i: int| occurs_at(s1, from, i);
                assert(s.subrange(1 + i, 1 + i + from.len()) =~= s1.subrange(i, i + from.len()));
                assert(occurs_at(s, from, 1 + i));
                assert(false);
            }
        }
        lemma_replace_all_absent(s1, from, to);
        assert(seq![s[0]] + s1 =~= s);
    }
}

/// If a strict suffix of the token `tok` opens the replacement's
/// result, that same suffix already opened the input.  (A replacement
/// pass cannot manufacture the tail of a token at the front of its
/// output: the inserted value is brace-free, so it can hold neither the
/// closing brace of `tok` nor, being no substring of `tok`, an interior
/// piece of it.)
proof fn lemma_elim_aux(s: Seq<char>, from: Seq<char>, to: Seq<char>, tok: Seq<char>, j: int)
    requires
        from.len() >= 1,
        token_shaped(tok),
        to.len() >= 1,
        brace_free(to),
        !occurs(tok, to),
        1 <= j < tok.len(),
        tok.skip(j).is_prefix_of(replace_all_spec(s, from, to)),
    ensures
        tok.skip(j).is_prefix_of(s),
    decreases s.len(),
{
    let r = replace_all_spec(s, from, to);
    let u = tok.skip(j);
    assert(u[u.len() - 1] == tok[tok.len() - 1]);
    if s.len() < from.len() {
        // The pass left `s` unchanged.
    } else if s.subrange(0, from.len() as int) == from {
        let s2 = s.subrange(from.len() as int, s.len() as int);
        let r2 = replace_all_spec(s2, from, to);
        assert(r == to + r2);
        if u.len() <= to.len() {
            // The closing brace of `tok` would be a character of `to`.
            assert(u[u.len() - 1] == r[u.len() - 1]);
            assert(r[u.len() - 1] == to[u.len() - 1]);
            assert(false);
        } else {
            // `to` would occur inside `tok` itself.
            assert forall|k: int| 0 <= k < to.len() implies tok[j + k] == to[k] by {
                assert(u[k] == r[k]);
                assert(r[k] == to[k]);
            }
            assert(tok.subrange(j, j + to.len()) =~= to);
            assert(occurs_at(tok, to, j));
            assert(false);
        }
    } else {
        let s1 = s.subrange(1, s.len() as int);
        let r1 = replace_all_spec(s1, from, to);
        assert(r == seq![s[0]] + r1);
        assert(u[0] == r[0]);
        if u.len() == 1 {
            assert(u =~= s.subrange(0, 1));
        } else {
            assert(tok.skip(j + 1).is_prefix_of(r1)) by {
                assert forall|k: int| 0 <= k < tok.len() - j - 1 implies tok.skip(j + 1)[k]
                    == r1[k] by {
                    assert(u[k + 1] == r[k + 1]);
                }
                assert(tok.skip(j + 1) =~= r1.subrange(0, tok.len() - j - 1));
            }
            lemma_elim_aux(s1, from, to, tok, j + 1);
            assert(u =~= s.subrange(0, u.len() as int)) by {
                assert forall|k: int| 1 <= k < u.len() implies u[k] == s[k] by {
                    assert(tok.skip(j + 1)[k - 1] == s1.subrange(0, tok.len() - j - 1)[k - 1]);
                }
            }
        }
    }
}

/// One replacement pass leaves no occurrence of the token `tok`,
/// provided `tok` is brace-delimited, the inserted value is non-empty,
/// brace-free and no substring of `tok`, and either this pass replaces
/// `tok` itself or the input held no occurrence of `tok` to begin with.
proof fn lemma_elim_one(s: Seq<char>, from: Seq<char>, to: Seq<char>, tok: Seq<char>)
    requires
        from.len() >= 1,
        token_shaped(tok),
        to.len() >= 1,
        brace_free(to),
        !occurs(tok, to),
        from == tok || !occurs(s, tok),
    ensures
        !occurs(replace_all_spec(s, from, to), tok),
    decreases s.len(),
{
    let r = replace_all_spec(s, from, to);
    if s.len() < from.len() {
        if occurs(r, tok) {
            let i = choose|i: int| occurs_at(r, tok, i);
            if from == tok {
                assert(false);
            } else {
                assert(occurs_at(s, tok, i));
                assert(false);
            }
        }
    } else if s.subrange(0, from.len() as int) == from {
        let s2 = s.subrange(from.len() as int, s.len() as int);
        let r2 = replace_all_spec(s2, from, to);
        assert(r == to + r2);
        if from != tok {
            assert(!occurs(s2, tok)) by {
                if occurs(s2, tok) {
                    let i = choose|i: int| occurs_at(s2, tok, i);
                    assert(s.subrange(from.len() + i, from.len() + i + tok.len()) =~= s2.subrange(
                        i,
                        i + tok.len(),
                    ));
                    assert(occurs_at(s, tok, from.len() + i));
                    assert(false);
                }
            }
        }
        lemma_elim_one(s2, from, to, tok);
        if occurs(r, tok) {
            let i = choose|i: int| occurs_at(r, tok, i);
            assert(tok[0] == r.subrange(i, i + tok.len())[0]);
            if i < to.len() {
                assert(r[i] == to[i]);
                assert(false);
            } else {
                assert(r2.subrange(i - to.len(), i - to.len() + tok.len()) =~= r.subrange(
                    i,
                    i + tok.len(),
                ));
                assert(occurs_at(r2, tok, i - to.len()));
                assert(false);
            }
        }
    } else {
        let s1 = s.subrange(1, s.len() as int);
        let r1 = replace_all_spec(s1, from, to);
        assert(r == seq![s[0]] + r1);
        if from != tok {
            assert(!occurs(s1, tok)) by {
                if occurs(s1, tok) {
                    let i = choose|i: int| occurs_at(s1, tok, i);
                    assert(s.subrange(1 + i, 1 + i + tok.len()) =~= s1.subrange(i, i + tok.len()));
                    assert(occurs_at(s, tok, 1 + i));
                    assert(false);
                }
            }
        }
        lemma_elim_one(s1, from, to, tok);
        if occurs(r, tok) {
            let i = choose|i: int| occurs_at(r, tok, i);
            if i >= 1 {
                assert(r1.subrange(i - 1, i - 1 + tok.len()) =~= r.subrange(i, i + tok.len()));
                assert(occurs_at(r1, tok, i - 1));
                assert(false);
            } else {
                assert(tok[0] == r.subrange(0, tok.len() as int)[0]);
                assert(tok.skip(1).is_prefix_of(r1)) by {
                    assert forall|k: int| 0 <= k < tok.len() - 1 implies tok.skip(1)[k]
                        == r1[k] by {
                        assert(tok[k + 1] == r.subrange(0, tok.len() as int)[k + 1]);
                    }
                    assert(tok.skip(1) =~= r1.subrange(0, tok.len() - 1));
                }
                lemma_elim_aux(s1, from, to, tok, 1);
                assert(tok =~= s.subrange(0, tok.len() as int)) by {
                    assert forall|k: int| 1 <= k < tok.len() implies tok[k] == s[k] by {
                        assert(tok.skip(1)[k - 1] == s1.subrange(0, tok.len() - 1)[k - 1]);
                    }
                }
                if from == tok {
                    assert(s.subrange(0, from.len() as int) == from);
                    assert(false);
                } else {
                    assert(occurs_at(s, tok, 0));
                    assert(false);
                }
            }
        }
    }
}

/// Once a token is absent, applying further table entries (non-empty,
/// brace-free values that are no substring of the token) cannot bring
/// it back.
proof fn lemma_fold_preserves_absence(
    s: Seq<char>,
    reps: Seq<(Seq<char>, Seq<char>)>,
    tok: Seq<char>,
)
    requires
        token_shaped(tok),
        forall|i: int| 0 <= i < reps.len() ==> (#[trigger] reps[i]).0.len() >= 1,
        forall|i: int|
            0 <= i < reps.len() ==> (#[trigger] reps[i]).1.len() >= 1 && brace_free(reps[i].1)
                && !occurs(tok, reps[i].1),
        !occurs(s, tok),
    ensures
        !occurs(apply_all_spec(s, reps), tok),
    decreases reps.len(),
{
    if reps.len() > 0 {
        let s1 = replace_all_spec(s, reps[0].0, reps[0].1);
        lemma_elim_one(s, reps[0].0, reps[0].1, tok);
        lemma_fold_preserves_absence(s1, reps.drop_first(), tok);
    }
}

/// Law: a full pass of the table eliminates every token of the table.
/// After applying all `(token, value)` pairs in order, no token of the
/// table occurs in the result, provided every token is brace-delimited
/// and every value is non-empty, brace-free, and no substring of any
/// token.  (The provisos are necessary: a value that is empty, carries
/// a brace, or completes a token's interior can recreate a token, as
/// the left fold offers no protection against values that reintroduce
/// token patterns.)
pub proof fn lemma_apply_all_eliminates_tokens(
    s: Seq<char>,
    reps: Seq<(Seq<char>, Seq<char>)>,
    k: int,
)
    requires
        forall|i: int| 0 <= i < reps.len() ==> token_shaped((#[trigger] reps[i]).0),
        forall|i: int|
            0 <= i < reps.len() ==> (#[trigger] reps[i]).1.len() >= 1 && brace_free(reps[i].1),
        forall|i: int, j: int|
            0 <= i < reps.len() && 0 <= j < reps.len() ==> !occurs(
                (#[trigger] reps[j]).0,
                (#[trigger] reps[i]).1,
            ),
        0 <= k < reps.len(),
    ensures
        !occurs(apply_all_spec(s, reps), reps[k].0),
    decreases reps.len(),
{
    let s1 = replace_all_spec(s, reps[0].0, reps[0].1);
    if k == 0 {
        lemma_elim_one(s, reps[0].0, reps[0].1, reps[0].0);
        lemma_fold_preserves_absence(s1, reps.drop_first(), reps[0].0);
    } else {
        lemma_apply_all_eliminates_tokens(s1, reps.drop_first(), k - 1);
        assert(reps.drop_first()[k - 1] == reps[k]);
    }
}

} // verus!
