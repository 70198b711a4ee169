//! Gathering a product's metafields over the pages of its metafield
//! connection: edges without a node are left out.
use vstd::prelude::*;

verus! {

/// The values present in a sequence of optional values, in order.
pub open spec fn spec_present<T>(s: Seq<Option<T>>) -> Seq<T>
    decreases s.len(),
{
    if s.len() == 0 {
        Seq::empty()
    } else {
        let rest = spec_present(s.drop_last());
        match s.last() {
            Some(v) => rest.push(v),
            None => rest,
        }
    }
}

/// Keeps the nodes that are present, in order.
pub fn present_nodes<T>(nodes: Vec<Option<T>>) -> (r: Vec<T>)
    ensures
        r@ == spec_present(nodes@),
{
    let ghost all = nodes@;
    let mut rest = nodes;
    let mut out: Vec<T> = Vec::new();
    let n = rest.len();
    let mut i: usize = 0;
    assert(all.take(0) =~= Seq::<Option<T>>::empty());
    while i < n
        invariant
            n == all.len(),
            i <= n,
            rest@ == all.skip(i as int),
            out@ == spec_present(all.take(i as int)),
        decreases n - i,
    {
        let node = rest.remove(0);
        assert(all.skip(i as int).skip(1) == all.skip(i + 1));
        assert(all.take(i + 1).drop_last() == all.take(i as int));
        assert(all.take(i + 1).last() == all[i as int]);
        match node {
            Some(v) => out.push(v),
            None => {},
        }
        i = i + 1;
    }
    assert(all.take(n as int) == all);
    out
}

/// Gathering page by page keeps the same nodes as gathering all edges
/// first and keeping the present nodes at the end.
pub proof fn lemma_present_distributes<T>(a: Seq<Option<T>>, b: Seq<Option<T>>)
    ensures
        spec_present(a + b) == spec_present(a) + spec_present(b),
    decreases b.len(),
{
    if b.len() == 0 {
        assert(a + b =~= a);
        assert(spec_present(a) + spec_present(b) =~= spec_present(a));
    } else {
        lemma_present_distributes(a, b.drop_last());
        assert((a + b).drop_last() =~= a + b.drop_last());
        assert((a + b).last() == b.last());
    }
}

} // verus!
