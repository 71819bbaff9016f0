//! Verified text primitives: substring occurrence, literal substring
//! replacement, and whitespace splitting.  Template substitution and
//! argument handling are built on these.

use vstd::prelude::*;

verus! {

/// `needle` occurs in `hay` starting at index `i`.
pub open spec fn occurs_at(hay: Seq<char>, needle: Seq<char>, i: int) -> bool {
    0 <= i && i + needle.len() <= hay.len() && hay.subrange(i, i + needle.len() as int)
        == needle
}

/// `needle` occurs somewhere in `hay`.
pub open spec fn occurs(hay: Seq<char>, needle: Seq<char>) -> bool {
    exists|i: int| occurs_at(hay, needle, i)
}

/// Leftmost, non-overlapping replacement of `pat` by `rep` throughout `s`.
/// An empty pattern never matches: the string comes back unchanged.
pub open spec fn replace_spec(s: Seq<char>, pat: Seq<char>, rep: Seq<char>) -> Seq<char>
    decreases s.len(),
{
    if pat.len() == 0 || s.len() < pat.len() {
        s
    } else if s.subrange(0, pat.len() as int) == pat {
        rep + replace_spec(s.skip(pat.len() as int), pat, rep)
    } else {
        seq![s[0]] + replace_spec(s.skip(1), pat, rep)
    }
}

/// The four ASCII whitespace characters that argument strings may use as
/// separators.
pub open spec fn is_ws(c: char) -> bool {
    c == ' ' || c == '\t' || c == '\n' || c == '\r'
}

/// Splitting helper: `cur` is the word accumulated so far.
pub open spec fn split_ws_rec(s: Seq<char>, cur: Seq<char>) -> Seq<Seq<char>>
    decreases s.len(),
{
    if s.len() == 0 {
        if cur.len() == 0 {
            Seq::empty()
        } else {
            seq![cur]
        }
    } else if is_ws(s[0]) {
        if cur.len() == 0 {
            split_ws_rec(s.skip(1), Seq::empty())
        } else {
            seq![cur] + split_ws_rec(s.skip(1), Seq::empty())
        }
    } else {
        split_ws_rec(s.skip(1), cur.push(s[0]))
    }
}

/// The words of `s`: maximal runs of non-whitespace characters, in order.
pub open spec fn split_ws_spec(s: Seq<char>) -> Seq<Seq<char>> {
    split_ws_rec(s, Seq::empty())
}

/// Whether the characters of `s` at positions `i..i + pat.len()` equal `pat`.
fn match_at(s: &str, i: usize, pat: &str) -> (r: bool)
    requires
        i + pat@.len() <= s@.len(),
        s@.len() <= usize::MAX,
    ensures
        r == (s@.subrange(i as int, i + pat@.len()) == pat@),
{
    let m = pat.unicode_len();
    let ghost sub = s@.subrange(i as int, i + pat@.len());
    let mut j: usize = 0;
    while j < m
        invariant
            m == pat@.len(),
            i + m <= s@.len() <= usize::MAX,
            j <= m,
            sub == s@.subrange(i as int, i + pat@.len()),
            forall|k: int| 0 <= k < j ==> s@[i + k] == pat@[k],
        decreases m - j,
    {
        if s.get_char(i + j) != pat.get_char(j) {
            proof {
                assert(sub[j as int] == s@[i + j]);
                assert(sub != pat@) by {
                    if sub == pat@ {
                        assert(sub[j as int] == pat@[j as int]);
                    }
                }
            }
            return false;
        }
        j += 1;
    }
    proof {
        assert(sub =~= pat@);
    }
    true
}

/// String equality by characters.
pub fn str_eq(a: &str, b: &str) -> (r: bool)
    ensures
        r == (a@ == b@),
{
    let n = a.unicode_len();
    let m = b.unicode_len();
    if n != m {
        proof {
            assert(a@ != b@) by {
                if a@ == b@ {
                    assert(a@.len() == b@.len());
                }
            }
        }
        return false;
    }
    let r = match_at(a, 0, b);
    proof {
        assert(a@.subrange(0, a@.len() as int) =~= a@);
    }
    r
}

/// Replaces every leftmost, non-overlapping occurrence of `pat` in `s` by
/// `rep`; an empty `pat` leaves `s` unchanged.
pub fn replace_str(s: &str, pat: &str, rep: &str) -> (r: String)
    ensures
        r@ == replace_spec(s@, pat@, rep@),
{
    let n = s.unicode_len();
    let m = pat.unicode_len();
    if m == 0 {
        return String::from_str(s);
    }
    let mut out = String::new();
    let mut i: usize = 0;
    proof {
        assert(s@.skip(0) =~= s@);
        assert(out@ + replace_spec(s@, pat@, rep@) =~= replace_spec(s@, pat@, rep@));
    }
    while i < n
        invariant
            n == s@.len(),
            m == pat@.len(),
            m >= 1,
            i <= n,
            out@ + replace_spec(s@.skip(i as int), pat@, rep@) == replace_spec(
                s@,
                pat@,
                rep@,
            ),
        decreases n - i,
    {
        let ghost cur = s@.skip(i as int);
        let ghost prev = out@;
        if n - i >= m && match_at(s, i, pat) {
            proof {
                assert(cur.subrange(0, m as int) =~= s@.subrange(i as int, i + m));
                assert(cur.skip(m as int) =~= s@.skip(i + m));
                assert(replace_spec(cur, pat@, rep@) == rep@ + replace_spec(
                    s@.skip(i + m),
                    pat@,
                    rep@,
                ));
            }
            out.append(rep);
            proof {
                assert(out@ + replace_spec(s@.skip(i + m), pat@, rep@) =~= prev
                    + replace_spec(cur, pat@, rep@));
            }
            i += m;
        } else {
            let ch = s.substring_char(i, i + 1);
            proof {
                assert(cur.skip(1) =~= s@.skip(i + 1));
                assert(seq![cur[0]] =~= ch@);
                if cur.len() < m {
                    assert(replace_spec(cur, pat@, rep@) == cur);
                    assert(replace_spec(s@.skip(i + 1), pat@, rep@) == s@.skip(i + 1));
                    assert(cur =~= ch@ + s@.skip(i + 1));
                } else {
                    assert(cur.subrange(0, m as int) =~= s@.subrange(i as int, i + m));
                    assert(cur.subrange(0, m as int) != pat@);
                    assert(replace_spec(cur, pat@, rep@) == seq![cur[0]] + replace_spec(
                        s@.skip(i + 1),
                        pat@,
                        rep@,
                    ));
                }
            }
            out.append(ch);
            proof {
                assert(out@ + replace_spec(s@.skip(i + 1), pat@, rep@) =~= prev
                    + replace_spec(cur, pat@, rep@));
            }
            i += 1;
        }
    }
    proof {
        assert(s@.skip(n as int) =~= Seq::<char>::empty());
        assert(replace_spec(Seq::<char>::empty(), pat@, rep@) == Seq::<char>::empty());
        assert(out@ + Seq::<char>::empty() =~= out@);
    }
    out
}

/// Splits `s` into its maximal runs of non-whitespace characters.
pub fn split_whitespace_str(s: &str) -> (r: Vec<String>)
    ensures
        r.deep_view() == split_ws_spec(s@),
{
    let n = s.unicode_len();
    let mut out: Vec<String> = Vec::new();
    let mut cur = String::new();
    let mut i: usize = 0;
    proof {
        assert(s@.skip(0) =~= s@);
        assert(out.deep_view() =~= Seq::<Seq<char>>::empty());
        assert(out.deep_view() + split_ws_spec(s@) =~= split_ws_spec(s@));
    }
    while i < n
        invariant
            n == s@.len(),
            i <= n,
            out.deep_view() + split_ws_rec(s@.skip(i as int), cur@) == split_ws_spec(s@),
        decreases n - i,
    {
        let c = s.get_char(i);
        let ghost rest = s@.skip(i as int);
        let ghost prevo = out.deep_view();
        let ghost prevc = cur@;
        proof {
            assert(rest[0] == s@[i as int]);
            assert(rest.skip(1) =~= s@.skip(i + 1));
        }
        if c == ' ' || c == '\t' || c == '\n' || c == '\r' {
            if cur.as_str().unicode_len() > 0 {
                out.push(cur);
                cur = String::new();
                proof {
                    assert(out.deep_view() =~= prevo.push(prevc));
                    assert(split_ws_rec(rest, prevc) == seq![prevc] + split_ws_rec(
                        s@.skip(i + 1),
                        Seq::empty(),
                    ));
                    assert(out.deep_view() + split_ws_rec(s@.skip(i + 1), cur@) =~= prevo
                        + split_ws_rec(rest, prevc));
                }
            } else {
                proof {
                    assert(prevc =~= Seq::<char>::empty());
                    assert(split_ws_rec(rest, prevc) == split_ws_rec(
                        s@.skip(i + 1),
                        Seq::empty(),
                    ));
                    assert(split_ws_rec(s@.skip(i + 1), cur@) == split_ws_rec(
                        s@.skip(i + 1),
                        Seq::empty(),
                    ));
                }
            }
        } else {
            let ch = s.substring_char(i, i + 1);
            cur.append(ch);
            proof {
                assert(cur@ =~= prevc.push(rest[0]));
                assert(split_ws_rec(rest, prevc) == split_ws_rec(
                    s@.skip(i + 1),
                    prevc.push(rest[0]),
                ));
            }
        }
        i += 1;
    }
    proof {
        assert(s@.skip(n as int) =~= Seq::<char>::empty());
    }
    if cur.as_str().unicode_len() > 0 {
        let ghost prevo = out.deep_view();
        let ghost prevc = cur@;
        out.push(cur);
        proof {
            assert(out.deep_view() =~= prevo.push(prevc));
            assert(split_ws_rec(Seq::<char>::empty(), prevc) == seq![prevc]);
            assert(prevo.push(prevc) =~= prevo + seq![prevc]);
        }
    } else {
        proof {
            assert(cur@ =~= Seq::<char>::empty());
            assert(split_ws_rec(Seq::<char>::empty(), cur@) =~= Seq::<Seq<char>>::empty());
            assert(out.deep_view() + Seq::<Seq<char>>::empty() =~= out.deep_view());
        }
    }
    out
}

/// A prefix of a replacement result that contains no character of `rep`
/// is an untouched prefix of the original string.
proof fn lemma_replace_clean_prefix(s: Seq<char>, pat: Seq<char>, rep: Seq<char>, k: int)
    requires
        pat.len() > 0,
        rep.len() > 0,
        0 <= k <= replace_spec(s, pat, rep).len(),
        forall|j: int|
            0 <= j < k ==> !rep.contains(#[trigger] replace_spec(s, pat, rep)[j]),
    ensures
        k <= s.len(),
        replace_spec(s, pat, rep).subrange(0, k) == s.subrange(0, k),
    decreases s.len(),
{
    let r = replace_spec(s, pat, rep);
    if s.len() < pat.len() {
        assert(r == s);
    } else if s.subrange(0, pat.len() as int) == pat {
        if k > 0 {
            assert(r[0] == rep[0]);
            assert(rep.contains(r[0]));
            assert(false);
        }
        assert(r.subrange(0, 0) =~= s.subrange(0, 0));
    } else {
        let r2 = replace_spec(s.skip(1), pat, rep);
        assert(r == seq![s[0]] + r2);
        if k > 0 {
            assert forall|j: int| 0 <= j < k - 1 implies !rep.contains(#[trigger] r2[j]) by {
                assert(r2[j] == r[j + 1]);
            }
            lemma_replace_clean_prefix(s.skip(1), pat, rep, k - 1);
            assert(r.subrange(0, k) =~= s.subrange(0, k)) by {
                assert(r2.subrange(0, k - 1) == s.skip(1).subrange(0, k - 1));
                assert forall|j: int| 0 <= j < k implies r.subrange(0, k)[j] == s.subrange(
                    0,
                    k,
                )[j] by {
                    if j > 0 {
                        assert(r[j] == r2[j - 1]);
                        assert(r2.subrange(0, k - 1)[j - 1] == r2[j - 1]);
                        assert(s.skip(1).subrange(0, k - 1)[j - 1] == s[j]);
                    }
                }
            }
        } else {
            assert(r.subrange(0, 0) =~= s.subrange(0, 0));
        }
    }
}

/// Replacement introduces nothing: replacing a non-empty pattern by a
/// non-empty replacement, none of whose characters occurs in `x`, creates
/// no new occurrence of `x` — wherever the result contains `x`, the
/// original string already did.
pub proof fn lemma_replace_introduces_no_occurrence(
    s: Seq<char>,
    pat: Seq<char>,
    rep: Seq<char>,
    x: Seq<char>,
)
    requires
        pat.len() > 0,
        rep.len() > 0,
        x.len() > 0,
        forall|j: int| 0 <= j < rep.len() ==> !x.contains(#[trigger] rep[j]),
        occurs(replace_spec(s, pat, rep), x),
    ensures
        occurs(s, x),
    decreases s.len(),
{
    let r = replace_spec(s, pat, rep);
    let m = x.len() as int;
    let i = choose|i: int| occurs_at(r, x, i);
    let w = r.subrange(i, i + m);
    assert(w == x);
    if s.len() < pat.len() {
        assert(r == s);
    } else if s.subrange(0, pat.len() as int) == pat {
        let r2 = replace_spec(s.skip(pat.len() as int), pat, rep);
        assert(r == rep + r2);
        if i < rep.len() {
            assert(x[0] == w[0]);
            assert(w[0] == r[i]);
            assert(r[i] == rep[i]);
            assert(x.contains(rep[i]));
            assert(false);
        } else {
            assert(occurs_at(r2, x, i - rep.len())) by {
                assert(r2.subrange(i - rep.len(), i - rep.len() + m) =~= x) by {
                    assert forall|j: int| 0 <= j < m implies r2.subrange(
                        i - rep.len(),
                        i - rep.len() + m,
                    )[j] == x[j] by {
                        assert(r2[i - rep.len() + j] == r[i + j]);
                        assert(w[j] == r[i + j]);
                    }
                }
            }
            lemma_replace_introduces_no_occurrence(s.skip(pat.len() as int), pat, rep, x);
            let j = choose|j: int| occurs_at(s.skip(pat.len() as int), x, j);
            assert(occurs_at(s, x, j + pat.len())) by {
                assert(s.subrange(j + pat.len(), j + pat.len() + m) =~= s.skip(
                    pat.len() as int,
                ).subrange(j, j + m));
            }
        }
    } else {
        let r2 = replace_spec(s.skip(1), pat, rep);
        assert(r == seq![s[0]] + r2);
        if i >= 1 {
            assert(occurs_at(r2, x, i - 1)) by {
                assert(r2.subrange(i - 1, i - 1 + m) =~= x) by {
                    assert forall|j: int| 0 <= j < m implies r2.subrange(i - 1, i - 1 + m)[j]
                        == x[j] by {
                        assert(r2[i - 1 + j] == r[i + j]);
                        assert(w[j] == r[i + j]);
                    }
                }
            }
            lemma_replace_introduces_no_occurrence(s.skip(1), pat, rep, x);
            let j = choose|j: int| occurs_at(s.skip(1), x, j);
            assert(occurs_at(s, x, j + 1)) by {
                assert(s.subrange(j + 1, j + 1 + m) =~= s.skip(1).subrange(j, j + m));
            }
        } else {
            // The occurrence starts at the kept first character, so it lies
            // in an untouched prefix of s.
            assert forall|j: int| 0 <= j < m - 1 implies !rep.contains(#[trigger] r2[j]) by {
                if rep.contains(r2[j]) {
                    let l = choose|l: int| 0 <= l < rep.len() && rep[l] == r2[j];
                    assert(r2[j] == r[j + 1]);
                    assert(w[j + 1] == r[j + 1]);
                    assert(x[j + 1] == rep[l]);
                    assert(x.contains(rep[l]));
                }
            }
            lemma_replace_clean_prefix(s.skip(1), pat, rep, m - 1);
            assert(occurs_at(s, x, 0)) by {
                assert(s.subrange(0, m) =~= x) by {
                    assert forall|j: int| 0 <= j < m implies s.subrange(0, m)[j] == x[j] by {
                        assert(w[j] == r[j]);
                        if j > 0 {
                            assert(r[j] == r2[j - 1]);
                            assert(r2.subrange(0, m - 1)[j - 1] == r2[j - 1]);
                            assert(s.skip(1).subrange(0, m - 1)[j - 1] == s[j]);
                        }
                    }
                }
            }
        }
    }
}

/// Replacing every occurrence of a non-empty pattern `pat` by a replacement
/// `rep`, none of whose characters occurs in `pat`, leaves a string with no
/// occurrence of `pat` at all.  This is the heart of secret masking: after
/// masking, the secret is gone.
pub proof fn lemma_replace_mask(s: Seq<char>, pat: Seq<char>, rep: Seq<char>)
    requires
        pat.len() > 0,
        rep.len() > 0,
        forall|j: int| 0 <= j < rep.len() ==> !pat.contains(#[trigger] rep[j]),
    ensures
        !occurs(replace_spec(s, pat, rep), pat),
    decreases s.len(),
{
    let r = replace_spec(s, pat, rep);
    let m = pat.len() as int;
    assert forall|i: int| !occurs_at(r, pat, i) by {
        if occurs_at(r, pat, i) {
            let w = r.subrange(i, i + m);
            assert(w == pat);
            if s.len() < pat.len() {
                assert(r == s);
                assert(false);
            } else if s.subrange(0, m) == pat {
                let r2 = replace_spec(s.skip(m), pat, rep);
                assert(r == rep + r2);
                lemma_replace_mask(s.skip(m), pat, rep);
                if i < rep.len() {
                    assert(pat[0] == w[0]);
                    assert(w[0] == r[i]);
                    assert(r[i] == rep[i]);
                    assert(pat.contains(rep[i]));
                    assert(false);
                } else {
                    assert(occurs_at(r2, pat, i - rep.len())) by {
                        assert(r2.subrange(i - rep.len(), i - rep.len() + m) =~= pat) by {
                            assert forall|j: int| 0 <= j < m implies r2.subrange(
                                i - rep.len(),
                                i - rep.len() + m,
                            )[j] == pat[j] by {
                                assert(r2[i - rep.len() + j] == r[i + j]);
                                assert(r.subrange(i, i + m)[j] == r[i + j]);
                            }
                        }
                    }
                    assert(false);
                }
            } else {
                let r2 = replace_spec(s.skip(1), pat, rep);
                assert(r == seq![s[0]] + r2);
                lemma_replace_mask(s.skip(1), pat, rep);
                if i >= 1 {
                    assert(occurs_at(r2, pat, i - 1)) by {
                        assert(r2.subrange(i - 1, i - 1 + m) =~= pat) by {
                            assert forall|j: int| 0 <= j < m implies r2.subrange(
                                i - 1,
                                i - 1 + m,
                            )[j] == pat[j] by {
                                assert(r2[i - 1 + j] == r[i + j]);
                                assert(r.subrange(i, i + m)[j] == r[i + j]);
                            }
                        }
                    }
                    assert(false);
                } else {
                    // i == 0: the match would have to be an untouched prefix of s,
                    // contradicting that s has no pattern prefix here.
                    assert forall|j: int| 0 <= j < m - 1 implies !rep.contains(
                        #[trigger] r2[j],
                    ) by {
                        if rep.contains(r2[j]) {
                            let l = choose|l: int|
                                0 <= l < rep.len() && rep[l] == r2[j];
                            assert(r2[j] == r[j + 1]);
                            assert(r.subrange(0, m)[j + 1] == r[j + 1]);
                            assert(pat[j + 1] == rep[l]);
                            assert(pat.contains(rep[l]));
                        }
                    }
                    lemma_replace_clean_prefix(s.skip(1), pat, rep, m - 1);
                    assert(s.subrange(0, m) =~= pat) by {
                        assert forall|j: int| 0 <= j < m implies s.subrange(0, m)[j]
                            == pat[j] by {
                            assert(r.subrange(0, m)[j] == r[j]);
                            if j > 0 {
                                assert(r[j] == r2[j - 1]);
                                assert(r2.subrange(0, m - 1)[j - 1] == r2[j - 1]);
                                assert(s.skip(1).subrange(0, m - 1)[j - 1] == s[j]);
                            }
                        }
                    }
                    assert(false);
                }
            }
        }
    }
}

} // verus!
