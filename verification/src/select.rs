//! Selecting positions of a list by a predicate, and dropping repeats.
use vstd::prelude::*;

verus! {

/// The positions `0 <= i < n` at which `p` holds, in increasing order.
pub open spec fn selected(n: int, p: spec_fn(int) -> bool) -> Seq<usize>
    decreases n,
{
    if n <= 0 {
        Seq::empty()
    } else if p(n - 1) {
        selected(n - 1, p).push((n - 1) as usize)
    } else {
        selected(n - 1, p)
    }
}

/// One more position considered: it is appended exactly when `p` holds there.
pub proof fn lemma_selected_step(n: int, p: spec_fn(int) -> bool)
    requires
        n >= 0,
    ensures
        selected(n + 1, p) == if p(n) {
            selected(n, p).push(n as usize)
        } else {
            selected(n, p)
        },
{
}

/// The selected positions are in range, strictly increasing and satisfy `p`,
/// and every position in range that satisfies `p` is among them.
pub proof fn lemma_selected(n: int, p: spec_fn(int) -> bool)
    requires
        0 <= n <= usize::MAX + 1,
    ensures
        selected(n, p).len() <= n,
        forall|k: int| 0 <= k < selected(n, p).len() ==> 0 <= #[trigger] selected(n, p)[k] < n,
        forall|k: int| 0 <= k < selected(n, p).len() ==> p(#[trigger] selected(n, p)[k] as int),
        forall|k: int, l: int|
            0 <= k < l < selected(n, p).len() ==> #[trigger] selected(n, p)[k] < #[trigger] selected(
                n,
                p,
            )[l],
        forall|i: int| 0 <= i < n && #[trigger] p(i) ==> selected(n, p).contains(i as usize),
    decreases n,
{
    if n > 0 {
        lemma_selected(n - 1, p);
        let prev = selected(n - 1, p);
        let cur = selected(n, p);
        if p(n - 1) {
            assert(cur == prev.push((n - 1) as usize));
            assert forall|i: int| 0 <= i < n && #[trigger] p(i) implies cur.contains(i as usize) by {
                if i < n - 1 {
                    let k = choose|k: int| 0 <= k < prev.len() && prev[k] == i as usize;
                    assert(cur[k] == i as usize);
                } else {
                    assert(cur[cur.len() - 1] == i as usize);
                }
            }
        }
    }
}

/// `s` without repeats, each element kept where it first occurs.
pub open spec fn dedup<A>(s: Seq<A>) -> Seq<A>
    decreases s.len(),
{
    if s.len() == 0 {
        Seq::empty()
    } else if dedup(s.drop_last()).contains(s.last()) {
        dedup(s.drop_last())
    } else {
        dedup(s.drop_last()).push(s.last())
    }
}

/// Dropping repeats leaves no repeat, and keeps exactly the elements that occur.
pub proof fn lemma_dedup<A>(s: Seq<A>)
    ensures
        dedup(s).no_duplicates(),
        forall|x: A| dedup(s).contains(x) <==> s.contains(x),
        dedup(s).len() <= s.len(),
    decreases s.len(),
{
    if s.len() > 0 {
        let prev = s.drop_last();
        lemma_dedup(prev);
        let d = dedup(prev);
        assert forall|x: A| s.contains(x) <==> (prev.contains(x) || x == s.last()) by {
            if s.contains(x) {
                let i = choose|i: int| 0 <= i < s.len() && s[i] == x;
                if i < s.len() - 1 {
                    assert(prev[i] == x);
                }
            }
            if prev.contains(x) {
                let i = choose|i: int| 0 <= i < prev.len() && prev[i] == x;
                assert(s[i] == x);
            }
            if x == s.last() {
                assert(s[s.len() - 1] == x);
            }
        }
        if !d.contains(s.last()) {
            let e = d.push(s.last());
            assert forall|x: A| e.contains(x) <==> (d.contains(x) || x == s.last()) by {
                if e.contains(x) {
                    let i = choose|i: int| 0 <= i < e.len() && e[i] == x;
                    if i < d.len() {
                        assert(d[i] == x);
                    }
                }
                if d.contains(x) {
                    let i = choose|i: int| 0 <= i < d.len() && d[i] == x;
                    assert(e[i] == x);
                }
                if x == s.last() {
                    assert(e[e.len() - 1] == x);
                }
            }
            assert forall|i: int, j: int| 0 <= i < e.len() && 0 <= j < e.len() && i != j implies e[i]
                != e[j] by {
                if i < d.len() && j < d.len() {
                } else if i < d.len() {
                    assert(d.contains(e[i]));
                } else {
                    assert(d.contains(e[j]));
                }
            }
        }
    }
}

} // verus!
