use vstd::prelude::*;

use crate::chars::{chars_of, string_of};

verus! {

/// Whether `tok` occurs in `s` starting at position `i`.
pub open spec fn occurs_at(s: Seq<char>, tok: Seq<char>, i: int) -> bool {
    0 <= i && i + tok.len() <= s.len() && s.subrange(i, i + tok.len()) == tok
}

/// Whether `tok` occurs anywhere in `s`.
pub open spec fn occurs(s: Seq<char>, tok: Seq<char>) -> bool {
    exists|i: int| occurs_at(s, tok, i)
}

/// Every occurrence of `tok` in `s`, found left to right without overlap,
/// replaced by `v`. An empty `tok` leaves `s` as it is.
pub open spec fn replace_spec(s: Seq<char>, tok: Seq<char>, v: Seq<char>) -> Seq<char>
    decreases s.len(),
{
    if tok.len() == 0 || s.len() < tok.len() {
        s
    } else if s.subrange(0, tok.len() as int) == tok {
        v + replace_spec(s.skip(tok.len() as int), tok, v)
    } else {
        seq![s[0]] + replace_spec(s.skip(1), tok, v)
    }
}

/// Whether `tok` occurs in `s` at position `i`.
fn matches_at(s: &Vec<char>, i: usize, tok: &Vec<char>) -> (r: bool)
    requires
        i + tok@.len() <= s@.len(),
    ensures
        r == (s@.subrange(i as int, i + tok@.len()) == tok@),
{
    let n = s.len();
    let mut j: usize = 0;
    while j < tok.len()
        invariant
            n == s@.len(),
            i + tok@.len() <= s@.len(),
            j <= tok@.len(),
            forall|k: int| 0 <= k < j ==> s@[i + k] == tok@[k],
        decreases tok@.len() - j,
    {
        if s[i + j] != tok[j] {
            assert(s@.subrange(i as int, i + tok@.len())[j as int] != tok@[j as int]);
            return false;
        }
        j += 1;
    }
    assert(s@.subrange(i as int, i + tok@.len()) =~= tok@);
    true
}

/// Replaces every occurrence of `tok` in `s`, left to right and without
/// overlap, by `v`.
pub(crate) fn replace_chars(s: &Vec<char>, tok: &Vec<char>, v: &Vec<char>) -> (r: Vec<char>)
    requires
        tok@.len() > 0,
    ensures
        r@ == replace_spec(s@, tok@, v@),
{
    let n = s.len();
    let m = tok.len();
    let mut out: Vec<char> = Vec::new();
    let mut i: usize = 0;
    assert(s@.skip(0) =~= s@);
    assert(out@ + replace_spec(s@.skip(0), tok@, v@) =~= replace_spec(s@, tok@, v@));
    while i < n
        invariant
            n == s@.len(),
            m == tok@.len(),
            m > 0,
            i <= n,
            out@ + replace_spec(s@.skip(i as int), tok@, v@) == replace_spec(s@, tok@, v@),
        decreases n - i,
    {
        let rest = Ghost(s@.skip(i as int));
        if n - i < m {
            assert(replace_spec(rest@, tok@, v@) == rest@);
            let mut k: usize = i;
            while k < n
                invariant
                    i <= k <= n,
                    n == s@.len(),
                    rest@ == s@.skip(i as int),
                    out@ + s@.subrange(k as int, n as int) == replace_spec(s@, tok@, v@),
                decreases n - k,
            {
                assert(s@.subrange(k as int, n as int) =~= seq![s@[k as int]] + s@.subrange(k + 1, n as int));
                out.push(s[k]);
                k += 1;
            }
            assert(s@.subrange(n as int, n as int) =~= Seq::<char>::empty());
            assert(out@ =~= out@ + s@.subrange(n as int, n as int));
            assert(out@ + s@.skip(n as int) =~= out@);
            i = n;
            assert(s@.skip(i as int) =~= Seq::<char>::empty());
        } else if matches_at(s, i, tok) {
            assert(rest@.subrange(0, m as int) =~= s@.subrange(i as int, i + m));
            assert(rest@.skip(m as int) =~= s@.skip(i + m));
            let mut k: usize = 0;
            let ghost before = out@;
            while k < v.len()
                invariant
                    k <= v@.len(),
                    out@ == before + v@.subrange(0, k as int),
                decreases v@.len() - k,
            {
                out.push(v[k]);
                k += 1;
                assert(out@ =~= before + v@.subrange(0, k as int));
            }
            assert(v@.subrange(0, v@.len() as int) =~= v@);
            assert(before + (v@ + replace_spec(s@.skip(i + m), tok@, v@))
                =~= out@ + replace_spec(s@.skip(i + m), tok@, v@));
            i = i + m;
        } else {
            assert(rest@.subrange(0, m as int) =~= s@.subrange(i as int, i + m));
            assert(rest@.skip(1) =~= s@.skip(i + 1));
            assert(rest@[0] == s@[i as int]);
            let ghost before = out@;
            out.push(s[i]);
            assert(before + (seq![s@[i as int]] + replace_spec(s@.skip(i + 1), tok@, v@))
                =~= out@ + replace_spec(s@.skip(i + 1), tok@, v@));
            i = i + 1;
        }
    }
    assert(s@.skip(n as int) =~= Seq::<char>::empty());
    assert(out@ + replace_spec(s@.skip(n as int), tok@, v@) =~= out@);
    out
}

/// Replaces every occurrence of `tok` in `s`, left to right and without
/// overlap, by `v`.
pub fn replace_all(s: &str, tok: &str, v: &str) -> (r: String)
    requires
        tok@.len() > 0,
    ensures
        r@ == replace_spec(s@, tok@, v@),
{
    let sc = chars_of(s);
    let tc = chars_of(tok);
    let vc = chars_of(v);
    let out = replace_chars(&sc, &tc, &vc);
    string_of(&out)
}

} // verus!

verus! {

/// Text in which `tok` does not occur comes back unchanged.
pub proof fn lemma_replace_absent(s: Seq<char>, tok: Seq<char>, v: Seq<char>)
    requires
        tok.len() > 0,
        !occurs(s, tok),
    ensures
        replace_spec(s, tok, v) == s,
    decreases s.len(),
{
    if s.len() >= tok.len() {
        assert(!occurs_at(s, tok, 0));
        assert forall|i: int| !occurs_at(s.skip(1), tok, i) by {
            if occurs_at(s.skip(1), tok, i) {
                assert(s.skip(1).subrange(i, i + tok.len()) =~= s.subrange(i + 1, i + 1 + tok.len()));
                assert(occurs_at(s, tok, i + 1));
            }
        }
        lemma_replace_absent(s.skip(1), tok, v);
        assert(seq![s[0]] + s.skip(1) =~= s);
    }
}

/// Where every `tok[0]` of `s` begins an occurrence of `tok` and `v` holds no
/// `tok[0]`, the replacement holds no `tok[0]`, so no occurrence of `tok` is left.
pub proof fn lemma_replace_leaves_no_token(s: Seq<char>, tok: Seq<char>, v: Seq<char>)
    requires
        tok.len() > 0,
        forall|k: int| 0 <= k < v.len() ==> v[k] != tok[0],
        forall|i: int| 0 <= i < s.len() && s[i] == tok[0] ==> occurs_at(s, tok, i),
    ensures
        forall|k: int|
            0 <= k < replace_spec(s, tok, v).len() ==> replace_spec(s, tok, v)[k] != tok[0],
        !occurs(replace_spec(s, tok, v), tok),
    decreases s.len(),
{
    let r = replace_spec(s, tok, v);
    let m = tok.len() as int;
    if s.len() < tok.len() {
        assert forall|k: int| 0 <= k < r.len() implies r[k] != tok[0] by {
            if s[k] == tok[0] {
                assert(occurs_at(s, tok, k));
            }
        }
    } else if s.subrange(0, m) == tok {
        let rest = s.skip(m);
        assert forall|i: int| 0 <= i < rest.len() && rest[i] == tok[0] implies occurs_at(rest, tok, i) by {
            assert(occurs_at(s, tok, i + m));
            assert(rest.subrange(i, i + m) =~= s.subrange(i + m, i + m + m));
        }
        lemma_replace_leaves_no_token(rest, tok, v);
        let rr = replace_spec(rest, tok, v);
        assert(r == v + rr);
        assert forall|k: int| 0 <= k < r.len() implies r[k] != tok[0] by {
            if k >= v.len() {
                assert(r[k] == rr[k - v.len()]);
            }
        }
    } else {
        if s[0] == tok[0] {
            assert(occurs_at(s, tok, 0));
        }
        let rest = s.skip(1);
        assert forall|i: int| 0 <= i < rest.len() && rest[i] == tok[0] implies occurs_at(rest, tok, i) by {
            assert(occurs_at(s, tok, i + 1));
            assert(rest.subrange(i, i + m) =~= s.subrange(i + 1, i + 1 + m));
        }
        lemma_replace_leaves_no_token(rest, tok, v);
        let rr = replace_spec(rest, tok, v);
        assert(r == seq![s[0]] + rr);
        assert forall|k: int| 0 <= k < r.len() implies r[k] != tok[0] by {
            if k >= 1 {
                assert(r[k] == rr[k - 1]);
            }
        }
    }
    assert forall|i: int| !occurs_at(r, tok, i) by {
        if occurs_at(r, tok, i) {
            assert(r.subrange(i, i + m)[0] == r[i]);
        }
    }
}

} // verus!
