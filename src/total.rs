use vstd::prelude::*;

verus! {

/// Sum of all values of a finite map (zero for an infinite one).
pub open spec fn map_total<K>(m: Map<K, u128>) -> int
    decreases m.dom().len(),
{
    if m.dom().finite() && m.dom().len() > 0 {
        let k = m.dom().choose();
        m[k] + map_total(m.remove(k))
    } else {
        0
    }
}

/// A sum of unsigned values is never negative.
pub proof fn lemma_total_nonneg<K>(m: Map<K, u128>)
    ensures
        map_total(m) >= 0,
    decreases m.dom().len(),
{
    if m.dom().finite() && m.dom().len() > 0 {
        let k = m.dom().choose();
        lemma_total_nonneg(m.remove(k));
    }
}

/// The total splits into any one entry and the total of the others.
pub proof fn lemma_total_remove<K>(m: Map<K, u128>, k: K)
    requires
        m.dom().finite(),
        m.contains_key(k),
    ensures
        map_total(m) == m[k] + map_total(m.remove(k)),
    decreases m.dom().len(),
{
    let c = m.dom().choose();
    assert(m.dom().len() > 0);
    if c != k {
        let mc = m.remove(c);
        let mk = m.remove(k);
        lemma_total_remove(mc, k);
        lemma_total_remove(mk, c);
        assert(mc.remove(k) =~= mk.remove(c));
    }
}

/// Storing `v` at `k` replaces the old value of `k` in the total.
pub proof fn lemma_total_insert<K>(m: Map<K, u128>, k: K, v: u128)
    requires
        m.dom().finite(),
    ensures
        map_total(m.insert(k, v)) == map_total(m) - (if m.contains_key(k) {
            m[k] as int
        } else {
            0int
        }) + v,
{
    let n = m.insert(k, v);
    lemma_total_remove(n, k);
    if m.contains_key(k) {
        lemma_total_remove(m, k);
        assert(n.remove(k) =~= m.remove(k));
    } else {
        assert(n.remove(k) =~= m);
    }
}

/// No single value exceeds the total.
pub proof fn lemma_value_le_total<K>(m: Map<K, u128>, k: K)
    requires
        m.dom().finite(),
        m.contains_key(k),
    ensures
        m[k] <= map_total(m),
{
    lemma_total_remove(m, k);
    lemma_total_nonneg(m.remove(k));
}

} // verus!
