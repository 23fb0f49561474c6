//! Evidence lists: the transcript IDs that back a summary item, kept only
//! when they name a real segment, without repeats, in ascending order.
use vstd::prelude::*;

verus! {

/// The views of a list of strings.
pub open spec fn views(v: Seq<String>) -> Seq<Seq<char>> {
    v.map_values(|s: String| s@)
}

/// Strict lexicographic order on texts by code point, the order of `String`.
pub open spec fn str_lt(a: Seq<char>, b: Seq<char>) -> bool
    decreases a.len(),
{
    if a.len() == 0 {
        b.len() > 0
    } else if b.len() == 0 {
        false
    } else if a[0] != b[0] {
        a[0] < b[0]
    } else {
        str_lt(a.drop_first(), b.drop_first())
    }
}

/// Every earlier entry is strictly smaller than every later one.
pub open spec fn strictly_sorted(s: Seq<Seq<char>>) -> bool {
    forall|i: int, j: int| 0 <= i < j < s.len() ==> str_lt(#[trigger] s[i], #[trigger] s[j])
}

/// `kept` is what remains of the evidence list `ids` once every ID that does not
/// name an allowed segment is dropped, the rest sorted and repeats removed.
pub open spec fn is_kept_evidence(ids: Seq<Seq<char>>, allowed: Seq<Seq<char>>, kept: Seq<Seq<char>>) -> bool {
    &&& strictly_sorted(kept)
    &&& forall|x: Seq<char>| #[trigger] kept.contains(x) <==> (ids.contains(x) && allowed.contains(x))
}

/// The evidence list kept from `ids` (unique by `lemma_kept_evidence_unique`).
pub open spec fn kept_evidence(ids: Seq<Seq<char>>, allowed: Seq<Seq<char>>) -> Seq<Seq<char>> {
    choose|kept: Seq<Seq<char>>| is_kept_evidence(ids, allowed, kept)
}

/// No text is smaller than itself.
pub proof fn lemma_str_lt_irreflexive(a: Seq<char>)
    ensures
        !str_lt(a, a),
    decreases a.len(),
{
    if a.len() > 0 {
        lemma_str_lt_irreflexive(a.drop_first());
    }
}

/// The order is transitive.
pub proof fn lemma_str_lt_transitive(a: Seq<char>, b: Seq<char>, c: Seq<char>)
    requires
        str_lt(a, b),
        str_lt(b, c),
    ensures
        str_lt(a, c),
    decreases a.len(),
{
    if a.len() > 0 && b.len() > 0 && c.len() > 0 {
        if a[0] == b[0] && b[0] == c[0] {
            lemma_str_lt_transitive(a.drop_first(), b.drop_first(), c.drop_first());
        }
    }
}

/// Two different texts are ordered one way or the other.
pub proof fn lemma_str_lt_total(a: Seq<char>, b: Seq<char>)
    requires
        a != b,
    ensures
        str_lt(a, b) || str_lt(b, a),
    decreases a.len(),
{
    if a.len() > 0 && b.len() > 0 && a[0] == b[0] {
        if a.drop_first() == b.drop_first() {
            assert(a =~= seq![a[0]] + a.drop_first());
            assert(b =~= seq![b[0]] + b.drop_first());
        }
        lemma_str_lt_total(a.drop_first(), b.drop_first());
    } else if a.len() == 0 && b.len() == 0 {
        assert(a =~= b);
    }
}

/// Two strictly sorted lists with the same entries are the same list.
pub proof fn lemma_sorted_same_entries_equal(a: Seq<Seq<char>>, b: Seq<Seq<char>>)
    requires
        strictly_sorted(a),
        strictly_sorted(b),
        forall|x: Seq<char>| a.contains(x) <==> b.contains(x),
    ensures
        a == b,
    decreases a.len(),
{
    if a.len() == 0 {
        if b.len() > 0 {
            assert(b.contains(b[0]));
        }
        assert(a =~= b);
    } else {
        assert(a.contains(a[0]));
        assert(b.len() > 0);
        assert(b.contains(b[0]));
        let k = choose|k: int| 0 <= k < b.len() && b[k] == a[0];
        let m = choose|m: int| 0 <= m < a.len() && a[m] == b[0];
        if k > 0 {
            assert(str_lt(b[0], b[k]));
            if m > 0 {
                assert(str_lt(a[0], a[m]));
                lemma_str_lt_transitive(a[0], b[0], a[0]);
            }
            lemma_str_lt_irreflexive(a[0]);
        }
        assert(a[0] == b[0]);
        let ta = a.drop_first();
        let tb = b.drop_first();
        assert forall|x: Seq<char>| ta.contains(x) <==> tb.contains(x) by {
            if ta.contains(x) {
                let i = choose|i: int| 0 <= i < ta.len() && ta[i] == x;
                assert(str_lt(a[0], a[i + 1]));
                lemma_str_lt_irreflexive(x);
                assert(a.contains(x));
                let j = choose|j: int| 0 <= j < b.len() && b[j] == x;
                assert(j != 0);
                assert(tb[j - 1] == x);
            }
            if tb.contains(x) {
                let i = choose|i: int| 0 <= i < tb.len() && tb[i] == x;
                assert(str_lt(b[0], b[i + 1]));
                lemma_str_lt_irreflexive(x);
                assert(b.contains(x));
                let j = choose|j: int| 0 <= j < a.len() && a[j] == x;
                assert(j != 0);
                assert(ta[j - 1] == x);
            }
        }
        lemma_sorted_same_entries_equal(ta, tb);
        assert(a =~= seq![a[0]] + ta);
        assert(b =~= seq![b[0]] + tb);
    }
}

/// The kept evidence list is determined by the IDs and the allowed segments.
pub proof fn lemma_kept_evidence_unique(ids: Seq<Seq<char>>, allowed: Seq<Seq<char>>, kept: Seq<Seq<char>>)
    requires
        is_kept_evidence(ids, allowed, kept),
    ensures
        kept == kept_evidence(ids, allowed),
{
    let other = kept_evidence(ids, allowed);
    assert(is_kept_evidence(ids, allowed, other));
    lemma_sorted_same_entries_equal(kept, other);
}


/// `x` placed into a strictly sorted list at its place, unless already there.
pub open spec fn insert_sorted(w: Seq<Seq<char>>, x: Seq<char>) -> Seq<Seq<char>>
    decreases w.len(),
{
    if w.len() == 0 {
        seq![x]
    } else if w[0] == x {
        w
    } else if str_lt(x, w[0]) {
        seq![x] + w
    } else {
        seq![w[0]] + insert_sorted(w.drop_first(), x)
    }
}

proof fn lemma_insert_sorted(w: Seq<Seq<char>>, x: Seq<char>)
    requires
        strictly_sorted(w),
    ensures
        strictly_sorted(insert_sorted(w, x)),
        forall|y: Seq<char>| #[trigger] insert_sorted(w, x).contains(y) <==> (w.contains(y) || y == x),
        insert_sorted(w, x).len() > 0,
        insert_sorted(w, x)[0] == x || (w.len() > 0 && insert_sorted(w, x)[0] == w[0]),
    decreases w.len(),
{
    let r = insert_sorted(w, x);
    if w.len() == 0 {
        assert forall|y: Seq<char>| #[trigger] r.contains(y) <==> (w.contains(y) || y == x) by {
            if y == x {
                assert(r[0] == y);
            }
        }
    } else if w[0] == x {
    } else if str_lt(x, w[0]) {
        assert forall|i: int, j: int| 0 <= i < j < r.len() implies str_lt(#[trigger] r[i], #[trigger] r[j]) by {
            if i == 0 {
                if j > 1 {
                    assert(str_lt(w[0], w[j - 1]));
                    lemma_str_lt_transitive(x, w[0], w[j - 1]);
                }
            } else {
                assert(r[i] == w[i - 1] && r[j] == w[j - 1]);
            }
        }
        assert forall|y: Seq<char>| #[trigger] r.contains(y) <==> (w.contains(y) || y == x) by {
            if r.contains(y) {
                let k = choose|k: int| 0 <= k < r.len() && r[k] == y;
                if k > 0 {
                    assert(w[k - 1] == y);
                }
            }
            if w.contains(y) {
                let k = choose|k: int| 0 <= k < w.len() && w[k] == y;
                assert(r[k + 1] == y);
            }
            if y == x {
                assert(r[0] == y);
            }
        }
    } else {
        lemma_str_lt_total(x, w[0]);
        let t = w.drop_first();
        assert forall|i: int, j: int| 0 <= i < j < t.len() implies str_lt(#[trigger] t[i], #[trigger] t[j]) by {
            assert(t[i] == w[i + 1] && t[j] == w[j + 1]);
        }
        lemma_insert_sorted(t, x);
        let rt = insert_sorted(t, x);
        assert(r == seq![w[0]] + rt);
        assert forall|i: int, j: int| 0 <= i < j < r.len() implies str_lt(#[trigger] r[i], #[trigger] r[j]) by {
            if i == 0 {
                assert(r[j] == rt[j - 1]);
                assert(rt.contains(rt[j - 1]));
                if rt[j - 1] != x {
                    let k = choose|k: int| 0 <= k < t.len() && t[k] == rt[j - 1];
                    assert(str_lt(w[0], w[k + 1]));
                }
            } else {
                assert(r[i] == rt[i - 1] && r[j] == rt[j - 1]);
            }
        }
        assert forall|y: Seq<char>| #[trigger] r.contains(y) <==> (w.contains(y) || y == x) by {
            if r.contains(y) {
                let k = choose|k: int| 0 <= k < r.len() && r[k] == y;
                if k > 0 {
                    assert(rt[k - 1] == y);
                    assert(rt.contains(y));
                    if t.contains(y) {
                        let m = choose|m: int| 0 <= m < t.len() && t[m] == y;
                        assert(w[m + 1] == y);
                    }
                } else {
                    assert(w[0] == y);
                }
            }
            if w.contains(y) {
                let k = choose|k: int| 0 <= k < w.len() && w[k] == y;
                if k == 0 {
                    assert(r[0] == y);
                } else {
                    assert(t[k - 1] == y);
                    assert(rt.contains(y));
                    let m = choose|m: int| 0 <= m < rt.len() && rt[m] == y;
                    assert(r[m + 1] == y);
                }
            }
            if y == x {
                assert(rt.contains(y));
                let m = choose|m: int| 0 <= m < rt.len() && rt[m] == y;
                assert(r[m + 1] == y);
            }
        }
    }
}

/// Every evidence list has a kept form.
pub proof fn lemma_kept_evidence_exists(ids: Seq<Seq<char>>, allowed: Seq<Seq<char>>)
    ensures
        is_kept_evidence(ids, allowed, kept_evidence(ids, allowed)),
    decreases ids.len(),
{
    if ids.len() == 0 {
        let e: Seq<Seq<char>> = seq![];
        assert(is_kept_evidence(ids, allowed, e));
    } else {
        let init = ids.drop_last();
        let x = ids.last();
        lemma_kept_evidence_exists(init, allowed);
        let w = kept_evidence(init, allowed);
        let cand = if allowed.contains(x) { insert_sorted(w, x) } else { w };
        if allowed.contains(x) {
            lemma_insert_sorted(w, x);
        }
        assert forall|y: Seq<char>| #[trigger] cand.contains(y) <==> (ids.contains(y) && allowed.contains(y)) by {
            if init.contains(y) {
                let k = choose|k: int| 0 <= k < init.len() && init[k] == y;
                assert(ids[k] == y);
            }
            if ids.contains(y) {
                let k = choose|k: int| 0 <= k < ids.len() && ids[k] == y;
                if k < ids.len() - 1 {
                    assert(init[k] == y);
                }
            }
            assert(ids[ids.len() - 1] == x);
        }
        assert(is_kept_evidence(ids, allowed, cand));
    }
}

/// Keeping evidence a second time changes nothing.
pub proof fn lemma_kept_evidence_idempotent(ids: Seq<Seq<char>>, allowed: Seq<Seq<char>>)
    ensures
        kept_evidence(kept_evidence(ids, allowed), allowed) == kept_evidence(ids, allowed),
{
    let k = kept_evidence(ids, allowed);
    lemma_kept_evidence_exists(ids, allowed);
    assert(is_kept_evidence(k, allowed, k));
    lemma_kept_evidence_unique(k, allowed, k);
}

/// `a < b` on strings.
pub fn str_less(a: &str, b: &str) -> (r: bool)
    ensures
        r == str_lt(a@, b@),
{
    let n = a.unicode_len();
    let m = b.unicode_len();
    let mut i: usize = 0;
    assert(a@.subrange(0, n as int) =~= a@);
    assert(b@.subrange(0, m as int) =~= b@);
    while i < n && i < m
        invariant
            n == a@.len(),
            m == b@.len(),
            i <= n,
            i <= m,
            str_lt(a@, b@) == str_lt(a@.subrange(i as int, n as int), b@.subrange(i as int, m as int)),
        decreases n - i,
    {
        let ca = a.get_char(i);
        let cb = b.get_char(i);
        if ca != cb {
            return ca < cb;
        }
        proof {
            let sa = a@.subrange(i as int, n as int);
            let sb = b@.subrange(i as int, m as int);
            assert(sa.drop_first() =~= a@.subrange(i + 1, n as int));
            assert(sb.drop_first() =~= b@.subrange(i + 1, m as int));
        }
        i = i + 1;
    }
    i < m
}

fn contains_id(allowed: &Vec<String>, id: &String) -> (r: bool)
    ensures
        r == views(allowed@).contains(id@),
{
    let n = allowed.len();
    let mut j: usize = 0;
    while j < n
        invariant
            n == allowed@.len(),
            j <= n,
            forall|k: int| 0 <= k < j ==> allowed@[k]@ != id@,
        decreases n - j,
    {
        if allowed[j] == *id {
            assert(views(allowed@)[j as int] == id@);
            return true;
        }
        j = j + 1;
    }
    proof {
        if views(allowed@).contains(id@) {
            let k = choose|k: int| 0 <= k < n && views(allowed@)[k] == id@;
            assert(allowed@[k]@ == id@);
        }
    }
    false
}

/// Inserts `x` into a strictly sorted list unless it is already there.
fn insert_sorted_unique(out: &mut Vec<String>, x: String)
    requires
        strictly_sorted(views(old(out)@)),
    ensures
        strictly_sorted(views(final(out)@)),
        forall|y: Seq<char>| #[trigger] views(final(out)@).contains(y) <==> (views(old(out)@).contains(y) || y == x@),
{
    let ghost before = views(out@);
    let n = out.len();
    let mut p: usize = 0;
    while p < n && str_less(out[p].as_str(), x.as_str())
        invariant
            n == out@.len(),
            before == views(out@),
            p <= n,
            forall|k: int| 0 <= k < p ==> str_lt(#[trigger] before[k], x@),
        decreases n - p,
    {
        p = p + 1;
    }
    if p < n && out[p] == x {
        assert(before[p as int] == x@);
        assert(before.contains(x@));
        return;
    }
    proof {
        if p < n {
            assert(before[p as int] != x@);
            lemma_str_lt_total(before[p as int], x@);
            assert(str_lt(x@, before[p as int]));
        }
    }
    out.insert(p, x);
    proof {
        let after = views(out@);
        assert(after =~= before.insert(p as int, x@));
        assert forall|i: int, j: int| 0 <= i < j < after.len() implies str_lt(#[trigger] after[i], #[trigger] after[j]) by {
            if j < p {
                assert(after[i] == before[i] && after[j] == before[j]);
            } else if j == p {
                assert(after[i] == before[i]);
            } else if i < p {
                assert(after[j] == before[j - 1]);
                if j - 1 > p {
                    assert(str_lt(before[p as int], before[j - 1]));
                    lemma_str_lt_transitive(x@, before[p as int], before[j - 1]);
                }
                lemma_str_lt_transitive(before[i], x@, before[j - 1]);
            } else if i == p {
                assert(after[j] == before[j - 1]);
                if j - 1 > p {
                    assert(str_lt(before[p as int], before[j - 1]));
                    lemma_str_lt_transitive(x@, before[p as int], before[j - 1]);
                }
            } else {
                assert(after[i] == before[i - 1] && after[j] == before[j - 1]);
            }
        }
        assert forall|y: Seq<char>| #[trigger] after.contains(y) <==> (before.contains(y) || y == x@) by {
            if after.contains(y) {
                let k = choose|k: int| 0 <= k < after.len() && after[k] == y;
                if k < p {
                    assert(before[k] == y);
                } else if k > p {
                    assert(before[k - 1] == y);
                }
            }
            if before.contains(y) {
                let k = choose|k: int| 0 <= k < before.len() && before[k] == y;
                if k < p {
                    assert(after[k] == y);
                } else {
                    assert(after[k + 1] == y);
                }
            }
            if y == x@ {
                assert(after[p as int] == y);
            }
        }
    }
}

/// The evidence IDs of `ids` that name an allowed segment, sorted, each once.
pub fn kept_evidence_ids(ids: &Vec<String>, allowed: &Vec<String>) -> (r: Vec<String>)
    ensures
        is_kept_evidence(views(ids@), views(allowed@), views(r@)),
        views(r@) == kept_evidence(views(ids@), views(allowed@)),
{
    let mut out: Vec<String> = Vec::new();
    let n = ids.len();
    let mut i: usize = 0;
    while i < n
        invariant
            n == ids@.len(),
            i <= n,
            strictly_sorted(views(out@)),
            forall|y: Seq<char>| #[trigger] views(out@).contains(y) <==> (views(ids@.subrange(0, i as int)).contains(y) && views(allowed@).contains(y)),
        decreases n - i,
    {
        let ghost prev = views(out@);
        let id = &ids[i];
        if contains_id(allowed, id) {
            insert_sorted_unique(&mut out, id.clone());
        }
        proof {
            let head = views(ids@.subrange(0, i as int));
            let next = views(ids@.subrange(0, i + 1));
            assert(next =~= head.push(ids@[i as int]@));
            assert forall|y: Seq<char>| #[trigger] views(out@).contains(y) <==> (next.contains(y) && views(allowed@).contains(y)) by {
                if next.contains(y) {
                    let k = choose|k: int| 0 <= k < next.len() && next[k] == y;
                    if k < i {
                        assert(head[k] == y);
                    }
                }
                if head.contains(y) {
                    let k = choose|k: int| 0 <= k < head.len() && head[k] == y;
                    assert(next[k] == y);
                }
                assert(next[i as int] == ids@[i as int]@);
            }
        }
        i = i + 1;
    }
    assert(ids@.subrange(0, n as int) =~= ids@);
    proof {
        lemma_kept_evidence_unique(views(ids@), views(allowed@), views(out@));
    }
    out
}

/// Keeps only the evidence IDs that name an allowed segment, sorted and
/// without repeats.
pub fn keep_evidence(ids: &mut Vec<String>, allowed: &Vec<String>)
    ensures
        is_kept_evidence(views(old(ids)@), views(allowed@), views(final(ids)@)),
        views(final(ids)@) == kept_evidence(views(old(ids)@), views(allowed@)),
{
    let kept = kept_evidence_ids(ids, allowed);
    *ids = kept;
}

} // verus!
