use vstd::prelude::*;
use crate::errors::AppError;
use crate::text::{
    ascii_upper, trimmed, trim_str, upper_str, upper_char,
    lemma_upper_keeps_white_space, lemma_trimmed_fixed, lemma_trimmed_ends,
};

verus! {

/// The canonical form of an accession: trimmed, then upper-cased.
pub open spec fn canonical(s: Seq<char>) -> Seq<char> {
    ascii_upper(trimmed(s))
}

/// The character sequences of a list of strings.
pub open spec fn views(v: Seq<String>) -> Seq<Seq<char>> {
    v.map_values(|s: String| s@)
}

/// The set of distinct, non-empty canonical forms of `xs`.
pub open spec fn accession_set(xs: Seq<Seq<char>>) -> Set<Seq<char>> {
    Set::new(
        |c: Seq<char>| c.len() > 0 && exists|i: int| 0 <= i < xs.len() && canonical(xs[i]) == c,
    )
}

/// Brings one raw accession into canonical form.
pub fn canonical_form(s: &str) -> (r: String)
    ensures
        r@ == canonical(s@),
{
    let t = trim_str(s);
    upper_str(t)
}

/// The canonical form of each accession, in order, duplicates kept.
pub fn canonical_forms(accessions: &Vec<String>) -> (r: Vec<String>)
    ensures
        views(r@) == views(accessions@).map_values(|s: Seq<char>| canonical(s)),
{
    let mut out: Vec<String> = Vec::new();
    let mut i: usize = 0;
    while i < accessions.len()
        invariant
            i <= accessions.len(),
            views(out@) == views(accessions@.take(i as int)).map_values(
                |s: Seq<char>| canonical(s),
            ),
        decreases accessions.len() - i,
    {
        let c = canonical_form(accessions[i].as_str());
        let ghost before = views(out@);
        out.push(c);
        proof {
            assert(accessions@.take(i + 1) =~= accessions@.take(i as int).push(accessions@[i as int]));
            assert(views(out@) =~= before.push(c@));
            assert(views(accessions@.take(i + 1)) =~= views(accessions@.take(i as int)).push(
                accessions@[i as int]@,
            ));
            assert(views(out@) =~= views(accessions@.take(i + 1)).map_values(
                |s: Seq<char>| canonical(s),
            ));
        }
        i += 1;
    }
    proof {
        assert(accessions@.take(i as int) == accessions@);
    }
    out
}

fn contains_string(v: &Vec<String>, s: &String) -> (r: bool)
    ensures
        r == views(v@).contains(s@),
{
    let mut j: usize = 0;
    while j < v.len()
        invariant
            j <= v.len(),
            forall|k: int| 0 <= k < j ==> v@[k]@ != s@,
        decreases v.len() - j,
    {
        if v[j] == *s {
            assert(views(v@)[j as int] == s@);
            return true;
        }
        j += 1;
    }
    proof {
        if views(v@).contains(s@) {
            let k = choose|k: int| 0 <= k < views(v@).len() && views(v@)[k] == s@;
            assert(v@[k]@ == s@);
        }
    }
    false
}

/// Normalizes and deduplicates raw accessions.
///
/// Each accession is trimmed and upper-cased; blank ones are dropped and equal
/// ones kept once. Fails when nothing is left.
pub fn accession_norm_filt(accessions: Vec<String>) -> (r: Result<Vec<String>, AppError>)
    ensures
        match r {
            Ok(v) => {
                &&& views(v@).to_set() == accession_set(views(accessions@))
                &&& views(v@).no_duplicates()
                &&& v@.len() == accession_set(views(accessions@)).len()
                &&& v@.len() > 0
            },
            Err(e) => {
                &&& e is EmptyAccessionList
                &&& accession_set(views(accessions@)) == Set::<Seq<char>>::empty()
            },
        },
{
    let mut out: Vec<String> = Vec::new();
    let mut i: usize = 0;
    while i < accessions.len()
        invariant
            i <= accessions.len(),
            views(out@).no_duplicates(),
            views(out@).to_set() == accession_set(views(accessions@.take(i as int))),
        decreases accessions.len() - i,
    {
        let c = canonical_form(accessions[i].as_str());
        let ghost before = views(out@);
        if c.as_str().unicode_len() > 0 && !contains_string(&out, &c) {
            out.push(c);
            proof {
                assert(views(out@) == before.push(c@));
            }
        }
        proof {
            let xs = views(accessions@.take(i as int));
            let ys = views(accessions@.take(i + 1));
            assert(accessions@.take(i + 1) =~= accessions@.take(i as int).push(accessions@[i as int]));
            assert(ys =~= xs.push(accessions@[i as int]@));
            assert(canonical(ys[i as int]) == c@);
            assert forall|d: Seq<char>| #[trigger] accession_set(ys).contains(d) <==> views(
                out@,
            ).to_set().contains(d) by {
                let now = views(out@);
                assert(now.to_set().contains(d) <==> now.contains(d));
                assert(before.to_set().contains(d) <==> before.contains(d));
                if now.len() > before.len() {
                    assert(now.contains(d) <==> (before.contains(d) || d == c@)) by {
                        if now.contains(d) {
                            let k = choose|k: int| 0 <= k < now.len() && now[k] == d;
                            if k < before.len() {
                                assert(before[k] == d);
                            }
                        }
                        if before.contains(d) {
                            let k = choose|k: int| 0 <= k < before.len() && before[k] == d;
                            assert(now[k] == d);
                        }
                        if d == c@ {
                            assert(now[now.len() - 1] == d);
                        }
                    }
                } else {
                    assert(now == before);
                }
                if accession_set(ys).contains(d) {
                    let k = choose|k: int| 0 <= k < ys.len() && canonical(ys[k]) == d;
                    if k < xs.len() {
                        assert(canonical(xs[k]) == d);
                        assert(accession_set(xs).contains(d));
                        assert(before.contains(d));
                    } else {
                        assert(d == c@);
                    }
                }
                if before.contains(d) {
                    assert(accession_set(xs).contains(d));
                    let k = choose|k: int| 0 <= k < xs.len() && canonical(xs[k]) == d;
                    assert(canonical(ys[k]) == d);
                }
            }
            assert(accession_set(ys) == views(out@).to_set());
        }
        i += 1;
    }
    proof {
        assert(accessions@.take(i as int) == accessions@);
        views(out@).unique_seq_to_set();
    }
    if out.len() == 0 {
        proof {
            assert(views(out@).to_set() == Set::<Seq<char>>::empty());
        }
        Err(AppError::EmptyAccessionList)
    } else {
        proof {
            assert(views(out@).to_set().contains(views(out@)[0]));
        }
        Ok(out)
    }
}

/// Canonical forms are fixed points: bringing a canonical accession into
/// canonical form again changes nothing.
pub proof fn lemma_canonical_idempotent(s: Seq<char>)
    ensures
        canonical(canonical(s)) == canonical(s),
{
    let t = trimmed(s);
    lemma_trimmed_ends(s);
    let u = ascii_upper(t);
    if t.len() > 0 {
        lemma_upper_keeps_white_space(t[0]);
        lemma_upper_keeps_white_space(t.last());
        assert(u[0] == upper_char(t[0]));
        assert(u.last() == upper_char(t.last()));
    }
    lemma_trimmed_fixed(u);
    assert forall|k: int| 0 <= k < u.len() implies #[trigger] upper_char(u[k]) == u[k] by {
        lemma_upper_keeps_white_space(t[k]);
    }
    assert(ascii_upper(u) == u);
}

/// Normalizing accessions that were already brought into canonical form gives
/// the same set as normalizing the raw accessions.
pub proof fn lemma_normalize_idempotent(xs: Seq<Seq<char>>)
    ensures
        accession_set(xs.map_values(|s: Seq<char>| canonical(s))) == accession_set(xs),
{
    let ys = xs.map_values(|s: Seq<char>| canonical(s));
    assert forall|d: Seq<char>| #[trigger] accession_set(ys).contains(d) <==> accession_set(
        xs,
    ).contains(d) by {
        if accession_set(ys).contains(d) {
            let k = choose|k: int| 0 <= k < ys.len() && canonical(ys[k]) == d;
            lemma_canonical_idempotent(xs[k]);
        }
        if accession_set(xs).contains(d) {
            let k = choose|k: int| 0 <= k < xs.len() && canonical(xs[k]) == d;
            lemma_canonical_idempotent(xs[k]);
            assert(canonical(ys[k]) == d);
        }
    }
    assert(accession_set(ys) == accession_set(xs));
}

/// Accessions that differ only in letter case and surrounding white space
/// normalize to a single identifier.
pub proof fn lemma_variants_collapse(xs: Seq<Seq<char>>)
    requires
        xs.len() > 0,
        canonical(xs[0]).len() > 0,
        forall|i: int| 0 <= i < xs.len() ==> #[trigger] canonical(xs[i]) == canonical(xs[0]),
    ensures
        accession_set(xs) == set![canonical(xs[0])],
        accession_set(xs).len() == 1,
{
    assert(accession_set(xs) == set![canonical(xs[0])]);
}

} // verus!
