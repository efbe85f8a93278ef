use vstd::multiset::Multiset;
use vstd::prelude::*;

verus! {

/// Lexicographic order on character sequences, comparing characters by their
/// Unicode scalar values. This is the order in which diagnostics payloads and
/// generated members are emitted.
pub open spec fn lex_le(a: Seq<char>, b: Seq<char>) -> bool
    decreases a.len(),
{
    if a.len() == 0 {
        true
    } else if b.len() == 0 {
        false
    } else if a[0] == b[0] {
        lex_le(a.skip(1), b.skip(1))
    } else {
        (a[0] as u32) < (b[0] as u32)
    }
}

pub proof fn lex_le_refl(a: Seq<char>)
    ensures
        lex_le(a, a),
    decreases a.len(),
{
    if a.len() > 0 {
        lex_le_refl(a.skip(1));
    }
}

pub proof fn lex_le_total(a: Seq<char>, b: Seq<char>)
    ensures
        lex_le(a, b) || lex_le(b, a),
    decreases a.len(),
{
    if a.len() == 0 {
        assert(lex_le(a, b));
    } else if b.len() == 0 {
        assert(lex_le(b, a));
    } else if a[0] == b[0] {
        lex_le_total(a.skip(1), b.skip(1));
        assert(lex_le(a, b) == lex_le(a.skip(1), b.skip(1)));
        assert(lex_le(b, a) == lex_le(b.skip(1), a.skip(1)));
    } else {
        vstd::utf8::char_u32_cast(a[0], a[0] as u32);
        vstd::utf8::char_u32_cast(b[0], b[0] as u32);
        assert((a[0] as u32) != (b[0] as u32));
        assert(lex_le(a, b) == ((a[0] as u32) < (b[0] as u32)));
        assert(lex_le(b, a) == ((b[0] as u32) < (a[0] as u32)));
    }
}

pub proof fn lex_le_trans(a: Seq<char>, b: Seq<char>, c: Seq<char>)
    requires
        lex_le(a, b),
        lex_le(b, c),
    ensures
        lex_le(a, c),
    decreases a.len(),
{
    if a.len() == 0 {
    } else if a[0] == b[0] && b[0] == c[0] {
        lex_le_trans(a.skip(1), b.skip(1), c.skip(1));
    }
}

pub proof fn lex_le_antisymmetric(a: Seq<char>, b: Seq<char>)
    requires
        lex_le(a, b),
        lex_le(b, a),
    ensures
        a == b,
    decreases a.len(),
{
    if a.len() == 0 {
        assert(b.len() == 0);
        assert(a =~= b);
    } else {
        assert(b.len() > 0);
        if a[0] != b[0] {
            vstd::utf8::char_u32_cast(a[0], a[0] as u32);
            vstd::utf8::char_u32_cast(b[0], b[0] as u32);
            assert(lex_le(a, b) == ((a[0] as u32) < (b[0] as u32)));
            assert(lex_le(b, a) == ((b[0] as u32) < (a[0] as u32)));
            assert((a[0] as u32) != (b[0] as u32));
            assert(false);
        }
        lex_le_antisymmetric(a.skip(1), b.skip(1));
        assert forall|i: int| 0 <= i < a.len() implies a[i] == b[i] by {
            if i > 0 {
                assert(a.skip(1)[i - 1] == b.skip(1)[i - 1]);
            }
        }
        assert(a =~= b);
    }
}

/// Decides `lex_le` on string slices.
pub fn str_le(a: &str, b: &str) -> (r: bool)
    ensures
        r == lex_le(a@, b@),
{
    let alen = a.unicode_len();
    let blen = b.unicode_len();
    let mut i: usize = 0;
    proof {
        assert(a@.skip(0) =~= a@);
        assert(b@.skip(0) =~= b@);
    }
    loop
        invariant
            i <= alen,
            i <= blen,
            alen == a@.len(),
            blen == b@.len(),
            lex_le(a@, b@) == lex_le(a@.skip(i as int), b@.skip(i as int)),
        decreases alen - i,
    {
        if i >= alen {
            assert(a@.skip(i as int).len() == 0);
            return true;
        }
        if i >= blen {
            assert(b@.skip(i as int).len() == 0);
            return false;
        }
        let ca = a.get_char(i);
        let cb = b.get_char(i);
        let cau = ca as u32;
        let cbu = cb as u32;
        if cau == cbu {
            proof {
                vstd::utf8::char_u32_cast(ca, cau);
                vstd::utf8::char_u32_cast(cb, cbu);
                assert(ca == cb);
                assert(a@.skip(i as int)[0] == a@[i as int]);
                assert(b@.skip(i as int)[0] == b@[i as int]);
                assert(a@.skip(i as int).skip(1) =~= a@.skip(i + 1));
                assert(b@.skip(i as int).skip(1) =~= b@.skip(i + 1));
            }
            i = i + 1;
        } else {
            proof {
                assert(a@.skip(i as int)[0] == a@[i as int]);
                assert(b@.skip(i as int)[0] == b@[i as int]);
            }
            return cau < cbu;
        }
    }
}

/// Strictly ascending in the lexicographic order: sorted, with no string
/// appearing twice.
pub open spec fn strictly_sorted(s: Seq<Seq<char>>) -> bool {
    forall|i: int, j: int|
        0 <= i < j < s.len() ==> lex_le(#[trigger] s[i], #[trigger] s[j]) && s[i] != s[j]
}

proof fn lemma_strict_head_removal(s: Seq<Seq<char>>)
    requires
        strictly_sorted(s),
        s.len() > 0,
    ensures
        s.skip(1).to_set() =~= s.to_set().remove(s[0]),
        strictly_sorted(s.skip(1)),
{
    assert forall|j: int, k: int| 0 <= j < k < s.skip(1).len() implies lex_le(
        #[trigger] s.skip(1)[j],
        #[trigger] s.skip(1)[k],
    ) && s.skip(1)[j] != s.skip(1)[k] by {
        assert(s.skip(1)[j] == s[j + 1]);
        assert(s.skip(1)[k] == s[k + 1]);
    }
    assert forall|x: Seq<char>| s.skip(1).to_set().contains(x) implies s.to_set().remove(
        s[0],
    ).contains(x) by {
        let i = choose|i: int| 0 <= i < s.skip(1).len() && s.skip(1)[i] == x;
        assert(s[i + 1] == x);
        assert(s.contains(x));
        assert(s[0] != s[i + 1]);
    }
    assert forall|x: Seq<char>| s.to_set().remove(s[0]).contains(x) implies s.skip(
        1,
    ).to_set().contains(x) by {
        let i = choose|i: int| 0 <= i < s.len() && s[i] == x;
        assert(i > 0);
        assert(s.skip(1)[i - 1] == x);
        assert(s.skip(1).contains(x));
    }
}

/// A strictly ascending sequence is determined by the set of its strings.
pub proof fn lemma_strictly_sorted_unique(a: Seq<Seq<char>>, b: Seq<Seq<char>>)
    requires
        strictly_sorted(a),
        strictly_sorted(b),
        a.to_set() == b.to_set(),
    ensures
        a == b,
    decreases a.len(),
{
    if a.len() == 0 {
        if b.len() > 0 {
            assert(b.contains(b[0]));
            assert(a.to_set().contains(b[0]));
            assert(false);
        }
        assert(a =~= b);
    } else if b.len() == 0 {
        assert(a.contains(a[0]));
        assert(b.to_set().contains(a[0]));
        assert(false);
    } else {
        assert(a.contains(a[0]));
        assert(b.to_set().contains(a[0]));
        let k = choose|k: int| 0 <= k < b.len() && b[k] == a[0];
        if k > 0 {
            assert(lex_le(b[0], b[k]));
        } else {
            lex_le_refl(b[0]);
        }
        assert(b.contains(b[0]));
        assert(a.to_set().contains(b[0]));
        let m = choose|m: int| 0 <= m < a.len() && a[m] == b[0];
        if m > 0 {
            assert(lex_le(a[0], a[m]));
        } else {
            lex_le_refl(a[0]);
        }
        lex_le_antisymmetric(a[0], b[0]);
        lemma_strict_head_removal(a);
        lemma_strict_head_removal(b);
        assert(a.skip(1).to_set() =~= b.skip(1).to_set());
        lemma_strictly_sorted_unique(a.skip(1), b.skip(1));
        assert forall|i: int| 0 <= i < a.len() implies a[i] == b[i] by {
            if i > 0 {
                assert(a.skip(1)[i - 1] == b.skip(1)[i - 1]);
            }
        }
        assert(a =~= b);
    }
}

/// The strictly ascending sequence holding exactly the strings of `d`: the
/// canonical order of a diagnostics payload.
pub open spec fn sorted_keys_of(d: Set<Seq<char>>) -> Seq<Seq<char>> {
    choose|p: Seq<Seq<char>>| strictly_sorted(p) && p.to_set() == d
}

/// Any strictly ascending sequence holding exactly the strings of `d` is the
/// canonical one.
pub proof fn lemma_sorted_keys_of(d: Set<Seq<char>>, witness: Seq<Seq<char>>)
    requires
        strictly_sorted(witness),
        witness.to_set() == d,
    ensures
        sorted_keys_of(d) == witness,
{
    assert(exists|p: Seq<Seq<char>>| strictly_sorted(p) && p.to_set() == d) by {
        assert(strictly_sorted(witness) && witness.to_set() == d);
    }
    let p = sorted_keys_of(d);
    assert(strictly_sorted(p) && p.to_set() == d);
    lemma_strictly_sorted_unique(p, witness);
}

/// A member that carries a string key by which lists of members are sorted.
pub trait SortKey: Sized {
    spec fn skey(&self) -> Seq<char>;

    fn key_le(&self, other: &Self) -> (r: bool)
        ensures
            r == lex_le(self.skey(), other.skey()),
    ;
}

impl SortKey for String {
    open spec fn skey(&self) -> Seq<char> {
        self@
    }

    fn key_le(&self, other: &Self) -> (r: bool) {
        str_le(self.as_str(), other.as_str())
    }
}

/// The sequence is ordered by the members' keys, ascending.
pub open spec fn sorted_by_skey<T: SortKey>(s: Seq<T>) -> bool {
    forall|i: int, j: int|
        0 <= i < j < s.len() ==> lex_le(#[trigger] s[i].skey(), #[trigger] s[j].skey())
}

/// Index of a least element, by key, of a non-empty vector.
fn min_key_index<T: SortKey>(v: &Vec<T>) -> (mi: usize)
    requires
        v@.len() > 0,
    ensures
        mi < v@.len(),
        forall|j: int| 0 <= j < v@.len() ==> lex_le(v@[mi as int].skey(), #[trigger] v@[j].skey()),
{
    let mut mi: usize = 0;
    let mut k: usize = 1;
    proof {
        lex_le_refl(v@[0].skey());
    }
    while k < v.len()
        invariant
            mi < k,
            k <= v@.len(),
            forall|j: int| 0 <= j < k ==> lex_le(v@[mi as int].skey(), #[trigger] v@[j].skey()),
        decreases v@.len() - k,
    {
        if !v[mi].key_le(&v[k]) {
            proof {
                lex_le_total(v@[mi as int].skey(), v@[k as int].skey());
                lex_le_refl(v@[k as int].skey());
            }
            assert forall|j: int| 0 <= j < k implies lex_le(
                v@[k as int].skey(),
                #[trigger] v@[j].skey(),
            ) by {
                lex_le_trans(v@[k as int].skey(), v@[mi as int].skey(), v@[j].skey());
            }
            mi = k;
        }
        k = k + 1;
    }
    mi
}

/// Clones a list of strings.
pub(crate) fn clone_strings(v: &Vec<String>) -> (r: Vec<String>)
    ensures
        r.deep_view() == v.deep_view(),
{
    let n = v.len();
    let mut out: Vec<String> = Vec::new();
    let mut i: usize = 0;
    while i < n
        invariant
            i <= n,
            n == v@.len(),
            out.deep_view().len() == i,
            forall|j: int| 0 <= j < i ==> out.deep_view()[j] == v.deep_view()[j],
        decreases n - i,
    {
        let ghost prev = out.deep_view();
        out.push(v[i].clone());
        proof {
            assert forall|j: int| 0 <= j < i + 1 implies out.deep_view()[j] == v.deep_view()[j] by {
                if j < i {
                    assert(out.deep_view()[j] == prev[j]);
                }
            }
        }
        i = i + 1;
    }
    proof {
        assert(out.deep_view() =~= v.deep_view());
    }
    out
}

/// Sorts a vector of members by their keys, ascending; the result is a
/// permutation of the input, at the member level and at the model level.
pub fn sort_by_skey<T: SortKey + DeepView>(v: Vec<T>) -> (r: Vec<T>)
    ensures
        sorted_by_skey(r@),
        r@.to_multiset() == v@.to_multiset(),
        r.deep_view().to_multiset() == v.deep_view().to_multiset(),
{
    broadcast use vstd::seq_lib::group_to_multiset_ensures;
    broadcast use vstd::multiset::group_multiset_axioms;

    let ghost orig = v@;
    let ghost orig_dv = v.deep_view();
    let mut rem = v;
    let mut out: Vec<T> = Vec::new();
    while rem.len() > 0
        invariant
            sorted_by_skey(out@),
            out@.to_multiset().add(rem@.to_multiset()) =~= orig.to_multiset(),
            out.deep_view().to_multiset().add(rem.deep_view().to_multiset()) =~= orig_dv
                .to_multiset(),
            forall|i: int, j: int|
                0 <= i < out@.len() && 0 <= j < rem@.len() ==> lex_le(
                    #[trigger] out@[i].skey(),
                    #[trigger] rem@[j].skey(),
                ),
        decreases rem.len(),
    {
        let ghost old_rem = rem@;
        let ghost old_rem_dv = rem.deep_view();
        let ghost old_out = out@;
        let ghost old_out_dv = out.deep_view();
        let mi = min_key_index(&rem);
        let x = rem.remove(mi);
        proof {
            assert(x == old_rem[mi as int]);
            assert(rem@ =~= old_rem.remove(mi as int));
            assert(rem.deep_view() =~= old_rem_dv.remove(mi as int));
        }
        out.push(x);
        proof {
            broadcast use vstd::multiset::group_multiset_axioms;

            vstd::seq_lib::to_multiset_build(old_out, x);
            vstd::seq_lib::to_multiset_remove(old_rem, mi as int);
            vstd::seq_lib::to_multiset_contains(old_rem, x);
            assert(out@ == old_out.push(x));
            assert(old_out.push(x).to_multiset() =~= old_out.to_multiset().insert(x));
            assert(old_rem.contains(x));
            assert(old_rem.to_multiset().count(x) > 0);
            assert(old_rem.to_multiset() =~= rem@.to_multiset().insert(x));
            assert(out@.to_multiset().add(rem@.to_multiset()) =~= orig.to_multiset());
            vstd::seq_lib::to_multiset_build(old_out_dv, x.deep_view());
            vstd::seq_lib::to_multiset_remove(old_rem_dv, mi as int);
            vstd::seq_lib::to_multiset_contains(old_rem_dv, x.deep_view());
            assert(out.deep_view() =~= old_out_dv.push(x.deep_view()));
            assert(old_rem_dv[mi as int] == x.deep_view());
            assert(old_rem_dv.contains(x.deep_view()));
            assert(old_rem_dv.to_multiset().count(x.deep_view()) > 0);
            assert(old_rem_dv.to_multiset() =~= rem.deep_view().to_multiset().insert(
                x.deep_view(),
            ));
            assert(out.deep_view().to_multiset().add(rem.deep_view().to_multiset()) =~= orig_dv
                .to_multiset());
            assert forall|j: int| 0 <= j < rem@.len() implies lex_le(
                x.skey(),
                #[trigger] rem@[j].skey(),
            ) by {
                if j < mi {
                    assert(rem@[j] == old_rem[j]);
                } else {
                    assert(rem@[j] == old_rem[j + 1]);
                }
            }
        }
    }
    proof {
        broadcast use vstd::multiset::group_multiset_axioms;

        assert forall|a: T| rem@.to_multiset().count(a) == 0 by {
            vstd::seq_lib::to_multiset_contains(rem@, a);
        }
        assert(rem@.to_multiset() =~= Multiset::<T>::empty());
        assert(out@.to_multiset() =~= orig.to_multiset());
        assert(rem.deep_view().len() == 0);
        assert forall|a: T::V| rem.deep_view().to_multiset().count(a) == 0 by {
            vstd::seq_lib::to_multiset_contains(rem.deep_view(), a);
        }
        assert(rem.deep_view().to_multiset() =~= Multiset::<T::V>::empty());
        assert(out.deep_view().to_multiset() =~= orig_dv.to_multiset());
    }
    out
}

proof fn lemma_to_set_push(s: Seq<Seq<char>>, x: Seq<char>)
    ensures
        s.push(x).to_set() =~= s.to_set().insert(x),
{
    assert forall|y: Seq<char>| s.push(x).to_set().contains(y) implies s.to_set().insert(
        x,
    ).contains(y) by {
        let i = choose|i: int| 0 <= i < s.push(x).len() && s.push(x)[i] == y;
        if i < s.len() {
            assert(s[i] == y);
            assert(s.contains(y));
        }
    }
    assert forall|y: Seq<char>| s.to_set().insert(x).contains(y) implies s.push(
        x,
    ).to_set().contains(y) by {
        if y == x {
            assert(s.push(x)[s.len() as int] == y);
            assert(s.push(x).contains(y));
        } else {
            let i = choose|i: int| 0 <= i < s.len() && s[i] == y;
            assert(s.push(x)[i] == y);
            assert(s.push(x).contains(y));
        }
    }
}

/// Sorts the strings ascending and drops duplicates: the canonical order of a
/// diagnostics payload.
pub fn canonical_keys(v: Vec<String>) -> (r: Vec<String>)
    ensures
        r.deep_view() == sorted_keys_of(v.deep_view().to_set()),
        strictly_sorted(r.deep_view()),
        r.deep_view().to_set() =~= v.deep_view().to_set(),
{
    let ghost orig = v@;
    let ghost orig_views = v.deep_view();
    let sorted = sort_by_skey(v);
    let ghost vs = sorted.deep_view();
    proof {
        assert forall|p: int, q: int| 0 <= p < q < vs.len() implies lex_le(vs[p], vs[q]) by {
            assert(lex_le(sorted@[p].skey(), sorted@[q].skey()));
        }
        assert forall|x: Seq<char>| vs.to_set().contains(x) implies orig_views.to_set().contains(
            x,
        ) by {
            let i = choose|i: int| 0 <= i < vs.len() && vs[i] == x;
            assert(sorted@.contains(sorted@[i]));
            vstd::seq_lib::to_multiset_contains(sorted@, sorted@[i]);
            vstd::seq_lib::to_multiset_contains(orig, sorted@[i]);
            let j = choose|j: int| 0 <= j < orig.len() && orig[j] == sorted@[i];
            assert(orig_views[j] == x);
            assert(orig_views.contains(x));
        }
        assert forall|x: Seq<char>| orig_views.to_set().contains(x) implies vs.to_set().contains(
            x,
        ) by {
            let i = choose|i: int| 0 <= i < orig_views.len() && orig_views[i] == x;
            assert(orig.contains(orig[i]));
            vstd::seq_lib::to_multiset_contains(orig, orig[i]);
            vstd::seq_lib::to_multiset_contains(sorted@, orig[i]);
            let j = choose|j: int| 0 <= j < sorted@.len() && sorted@[j] == orig[i];
            assert(vs[j] == x);
            assert(vs.contains(x));
        }
        assert(vs.to_set() =~= orig_views.to_set());
    }
    let n = sorted.len();
    let mut out: Vec<String> = Vec::new();
    let mut i: usize = 0;
    proof {
        assert(vs.take(0).to_set() =~= out.deep_view().to_set());
    }
    while i < n
        invariant
            i <= n,
            n == sorted@.len(),
            vs == sorted.deep_view(),
            vs.len() == n,
            forall|p: int, q: int| 0 <= p < q < vs.len() ==> lex_le(#[trigger] vs[p], #[trigger] vs[q]),
            strictly_sorted(out.deep_view()),
            out.deep_view().to_set() =~= vs.take(i as int).to_set(),
            i == 0 ==> out@.len() == 0,
            i > 0 ==> out@.len() > 0 && out.deep_view().last() == vs[i - 1],
        decreases n - i,
    {
        let keep: bool = if out.len() == 0 {
            true
        } else {
            !out[out.len() - 1].eq(&sorted[i])
        };
        let ghost prev = out.deep_view();
        if keep {
            out.push(sorted[i].clone());
            proof {
                assert(out.deep_view() =~= prev.push(vs[i as int]));
                assert forall|p: int| 0 <= p < prev.len() implies lex_le(prev[p], vs[i as int])
                    && prev[p] != vs[i as int] by {
                    assert(prev.contains(prev[p]));
                    assert(vs.take(i as int).to_set().contains(prev[p]));
                    let m = choose|m: int|
                        0 <= m < vs.take(i as int).len() && vs.take(i as int)[m] == prev[p];
                    assert(vs[m] == prev[p]);
                    assert(lex_le(vs[m], vs[i as int]));
                    if p == prev.len() - 1 {
                        assert(prev[p] != vs[i as int]);
                    } else {
                        assert(lex_le(prev[p], prev.last()) && prev[p] != prev.last());
                        assert(lex_le(vs[i - 1], vs[i as int]));
                        if prev[p] == vs[i as int] {
                            lex_le_antisymmetric(prev[p], prev.last());
                            assert(false);
                        }
                    }
                }
                lemma_to_set_push(prev, vs[i as int]);
                lemma_to_set_push(vs.take(i as int), vs[i as int]);
                assert(vs.take(i + 1) =~= vs.take(i as int).push(vs[i as int]));
                assert(out.deep_view().to_set() =~= vs.take(i + 1).to_set());
            }
        } else {
            proof {
                assert(out.deep_view().last() == vs[i as int]);
                assert(prev.contains(prev.last()));
                assert(out.deep_view().to_set().contains(vs[i as int]));
                lemma_to_set_push(vs.take(i as int), vs[i as int]);
                assert(vs.take(i + 1) =~= vs.take(i as int).push(vs[i as int]));
                assert(out.deep_view().to_set() =~= vs.take(i + 1).to_set());
            }
        }
        i = i + 1;
    }
    proof {
        assert(vs.take(n as int) =~= vs);
        assert(out.deep_view().to_set() =~= v.deep_view().to_set());
        lemma_sorted_keys_of(v.deep_view().to_set(), out.deep_view());
    }
    out
}

} // verus!
