use vstd::prelude::*;

verus! {

/// Row `i` of the upper triangle: `s[i]` with each later item, in order.
pub open spec fn upper_row<C>(s: Seq<C>, i: int) -> Seq<(C, C)> {
    Seq::new((s.len() - i - 1) as nat, |k: int| (s[i], s[i + 1 + k]))
}

/// The first `i` rows of the upper triangle of `s`, one after the other.
pub open spec fn upper_rows<C>(s: Seq<C>, i: int) -> Seq<(C, C)>
    decreases i,
{
    if i <= 0 {
        Seq::empty()
    } else {
        upper_rows(s, i - 1) + upper_row(s, i - 1)
    }
}

/// Every pair `(s[i], s[j])` with `i < j`, row by row.
pub open spec fn upper_pairs<C>(s: Seq<C>) -> Seq<(C, C)> {
    upper_rows(s, s.len() as int)
}

/// Row `i` of the cross product: `a[i]` with each item of `b`, in order.
pub open spec fn cross_row<C>(a: Seq<C>, b: Seq<C>, i: int) -> Seq<(C, C)> {
    Seq::new(b.len(), |k: int| (a[i], b[k]))
}

/// The first `i` rows of the cross product of `a` and `b`.
pub open spec fn cross_rows<C>(a: Seq<C>, b: Seq<C>, i: int) -> Seq<(C, C)>
    decreases i,
{
    if i <= 0 {
        Seq::empty()
    } else {
        cross_rows(a, b, i - 1) + cross_row(a, b, i - 1)
    }
}

/// Every pair `(a[i], b[j])`, row by row.
pub open spec fn cross_pairs<C>(a: Seq<C>, b: Seq<C>) -> Seq<(C, C)> {
    cross_rows(a, b, a.len() as int)
}

/// Every pair of distinct positions of `cs`, the earlier item first, in
/// row-major order of the upper triangle.
pub fn pairwise<C: Copy>(cs: &[C]) -> (r: Vec<(C, C)>)
    ensures
        r@ == upper_pairs(cs@),
{
    let n = cs.len();
    let mut r: Vec<(C, C)> = Vec::new();
    let mut i: usize = 0;
    while i < n
        invariant
            n == cs@.len(),
            i <= n,
            r@ == upper_rows(cs@, i as int),
        decreases n - i,
    {
        let ghost before = r@;
        let mut j: usize = i + 1;
        while j < n
            invariant
                n == cs@.len(),
                i < n,
                i + 1 <= j <= n,
                r@ =~= before + upper_row(cs@, i as int).take(j - i - 1),
            decreases n - j,
        {
            r.push((cs[i], cs[j]));
            j = j + 1;
        }
        assert(upper_row(cs@, i as int).take(j - i - 1) =~= upper_row(cs@, i as int));
        i = i + 1;
    }
    r
}

/// Every pair of an item of `a` with an item of `b`, in row-major order.
pub fn cross<C: Copy>(a: &[C], b: &[C]) -> (r: Vec<(C, C)>)
    ensures
        r@ == cross_pairs(a@, b@),
{
    let mut r: Vec<(C, C)> = Vec::new();
    let mut i: usize = 0;
    while i < a.len()
        invariant
            i <= a@.len(),
            r@ == cross_rows(a@, b@, i as int),
        decreases a@.len() - i,
    {
        let ghost before = r@;
        let mut j: usize = 0;
        while j < b.len()
            invariant
                i < a@.len(),
                j <= b@.len(),
                r@ =~= before + cross_row(a@, b@, i as int).take(j as int),
            decreases b@.len() - j,
        {
            r.push((a[i], b[j]));
            j = j + 1;
        }
        assert(cross_row(a@, b@, i as int).take(j as int) =~= cross_row(a@, b@, i as int));
        i = i + 1;
    }
    r
}

} // verus!
