//! The order of texts by their characters, and stable orderings by it.

use vstd::prelude::*;
use crate::text::{chars_of, string_views};

verus! {

/// The first index at or after `i` where the two texts differ or one of
/// them ends.
pub open spec fn first_diff(a: Seq<char>, b: Seq<char>, i: int) -> int
    decreases a.len() - i,
{
    if 0 <= i < a.len() && i < b.len() && a[i] == b[i] {
        first_diff(a, b, i + 1)
    } else {
        i
    }
}

/// Whether `a` comes before `b` in the order of texts: at the first
/// place where they differ `a` has the lesser character, or `a` ends there
/// and `b` goes on.
pub open spec fn text_lt(a: Seq<char>, b: Seq<char>) -> bool {
    let k = first_diff(a, b, 0);
    k < b.len() && (k >= a.len() || a[k] < b[k])
}

/// What `first_diff` returns: up to there the texts agree, and there they
/// differ or one of them ends.
pub proof fn lemma_first_diff(a: Seq<char>, b: Seq<char>, i: int)
    requires
        0 <= i <= a.len(),
        i <= b.len(),
    ensures
        i <= first_diff(a, b, i) <= a.len(),
        first_diff(a, b, i) <= b.len(),
        forall|j: int| i <= j < first_diff(a, b, i) ==> a[j] == b[j],
        first_diff(a, b, i) < a.len() && first_diff(a, b, i) < b.len() ==> a[first_diff(a, b, i)]
            != b[first_diff(a, b, i)],
    decreases a.len() - i,
{
    if i < a.len() && i < b.len() && a[i] == b[i] {
        lemma_first_diff(a, b, i + 1);
    }
}

/// The place where two texts first differ is the only place up to which
/// they agree and at which they differ or one of them ends.
pub proof fn lemma_first_diff_is(a: Seq<char>, b: Seq<char>, i: int, k: int)
    requires
        0 <= i <= k <= a.len(),
        k <= b.len(),
        forall|j: int| i <= j < k ==> a[j] == b[j],
        k == a.len() || k == b.len() || a[k] != b[k],
    ensures
        first_diff(a, b, i) == k,
    decreases k - i,
{
    if i < k {
        lemma_first_diff_is(a, b, i + 1, k);
    }
}

/// No text comes before itself.
pub proof fn lemma_text_lt_irreflexive(a: Seq<char>)
    ensures
        !text_lt(a, a),
{
    lemma_first_diff_is(a, a, 0, a.len() as int);
}

/// Of two texts one comes before the other, or they are the same text.
pub proof fn lemma_text_lt_total(a: Seq<char>, b: Seq<char>)
    ensures
        text_lt(a, b) || text_lt(b, a) || a == b,
        !(text_lt(a, b) && text_lt(b, a)),
{
    lemma_first_diff(a, b, 0);
    let k = first_diff(a, b, 0);
    assert forall|j: int| 0 <= j < k implies b[j] == a[j] by {}
    lemma_first_diff_is(b, a, 0, k);
    if !text_lt(a, b) && !text_lt(b, a) {
        assert(a =~= b);
    }
}

/// The order of texts is transitive.
pub proof fn lemma_text_lt_transitive(a: Seq<char>, b: Seq<char>, c: Seq<char>)
    requires
        text_lt(a, b),
        text_lt(b, c),
    ensures
        text_lt(a, c),
{
    lemma_first_diff(a, b, 0);
    lemma_first_diff(b, c, 0);
    let k1 = first_diff(a, b, 0);
    let k2 = first_diff(b, c, 0);
    let k = if k1 <= k2 {
        k1
    } else {
        k2
    };
    assert forall|j: int| 0 <= j < k implies a[j] == c[j] by {
        assert(a[j] == b[j]);
        assert(b[j] == c[j]);
    }
    lemma_first_diff_is(a, c, 0, k);
}

/// Whether `a` comes before `b` in the order of texts, which is the order
/// of strings in Rust.
pub fn text_less(a: &Vec<char>, b: &Vec<char>) -> (r: bool)
    ensures
        r == text_lt(a@, b@),
{
    let mut i: usize = 0;
    while i < a.len() && i < b.len() && a[i] == b[i]
        invariant
            i <= a.len(),
            i <= b.len(),
            first_diff(a@, b@, 0) == first_diff(a@, b@, i as int),
        decreases a.len() - i,
    {
        i = i + 1;
    }
    i < b.len() && (i >= a.len() || a[i] < b[i])
}

/// Where the index `x` goes into `order`, searching from `from`: before
/// the first index whose key comes before that of `x`, so behind every
/// index whose key is the same or comes after.
pub open spec fn insert_at(keys: Seq<Seq<char>>, order: Seq<int>, x: int, from: int) -> int
    decreases order.len() - from,
{
    if from < 0 || from >= order.len() {
        order.len() as int
    } else if text_lt(keys[order[from]], keys[x]) {
        from
    } else {
        insert_at(keys, order, x, from + 1)
    }
}

/// The first `n` indices of `keys` in the order of their keys, the
/// greatest key first; indices with the same key stay in their order.
pub open spec fn order_desc(keys: Seq<Seq<char>>, n: int) -> Seq<int>
    decreases n,
{
    if n <= 0 {
        Seq::empty()
    } else {
        let prev = order_desc(keys, n - 1);
        prev.insert(insert_at(keys, prev, n - 1, 0), n - 1)
    }
}

/// Whether `i` stands rightly before `j`: its key comes after that of
/// `j`, or the keys are the same and `i` is the lesser index.
pub open spec fn goes_before(keys: Seq<Seq<char>>, i: int, j: int) -> bool {
    text_lt(keys[j], keys[i]) || (keys[i] == keys[j] && i < j)
}

/// Where an index is put, everything before it has a key that is the
/// same or comes after, and what stands there has a key that comes before.
pub proof fn lemma_insert_at(keys: Seq<Seq<char>>, order: Seq<int>, x: int, from: int)
    requires
        0 <= from <= order.len(),
    ensures
        from <= insert_at(keys, order, x, from) <= order.len(),
        forall|j: int|
            from <= j < insert_at(keys, order, x, from) ==> !text_lt(
                keys[#[trigger] order[j]],
                keys[x],
            ),
        insert_at(keys, order, x, from) < order.len() ==> text_lt(
            keys[order[insert_at(keys, order, x, from)]],
            keys[x],
        ),
    decreases order.len() - from,
{
    if from < order.len() && !text_lt(keys[order[from]], keys[x]) {
        lemma_insert_at(keys, order, x, from + 1);
    }
}

/// The order holds each of the first `n` indices, none of them twice,
/// the greatest key first, and indices with the same key in their own
/// order.
pub proof fn lemma_order_desc(keys: Seq<Seq<char>>, n: int)
    requires
        0 <= n <= keys.len(),
    ensures
        order_desc(keys, n).len() == n,
        forall|i: int| 0 <= i < n ==> 0 <= #[trigger] order_desc(keys, n)[i] < n,
        forall|i: int, j: int|
            0 <= i < j < n ==> goes_before(
                keys,
                #[trigger] order_desc(keys, n)[i],
                #[trigger] order_desc(keys, n)[j],
            ),
        forall|i: int, j: int|
            0 <= i < j < n ==> #[trigger] order_desc(keys, n)[i] != #[trigger] order_desc(
                keys,
                n,
            )[j],
    decreases n,
{
    assert forall|i: int, j: int| 0 <= i < j < n && goes_before(
        keys,
        #[trigger] order_desc(keys, n)[i],
        #[trigger] order_desc(keys, n)[j],
    ) implies order_desc(keys, n)[i] != order_desc(keys, n)[j] by {
        lemma_text_lt_irreflexive(keys[order_desc(keys, n)[i]]);
    }
    if n > 0 {
        lemma_order_desc(keys, n - 1);
        let prev = order_desc(keys, n - 1);
        let x = n - 1;
        let p = insert_at(keys, prev, x, 0);
        lemma_insert_at(keys, prev, x, 0);
        let next = order_desc(keys, n);
        assert(next == prev.insert(p, x));
        assert forall|i: int, j: int| 0 <= i < j < n implies goes_before(
            keys,
            #[trigger] next[i],
            #[trigger] next[j],
        ) by {
            if j == p {
                // next[i] stands before the new index.
                assert(next[i] == prev[i]);
                assert(!text_lt(keys[prev[i]], keys[x]));
                lemma_text_lt_total(keys[prev[i]], keys[x]);
            } else if i == p {
                // The new index stands before next[j], which is prev[j - 1].
                assert(next[j] == prev[j - 1]);
                assert(text_lt(keys[prev[p]], keys[x]));
                if j - 1 > p {
                    assert(goes_before(keys, prev[p], prev[j - 1]));
                    if keys[prev[p]] == keys[prev[j - 1]] {
                    } else {
                        lemma_text_lt_transitive(keys[prev[j - 1]], keys[prev[p]], keys[x]);
                    }
                }
            } else {
                let pi = if i < p {
                    i
                } else {
                    i - 1
                };
                let pj = if j < p {
                    j
                } else {
                    j - 1
                };
                assert(next[i] == prev[pi]);
                assert(next[j] == prev[pj]);
                assert(goes_before(keys, prev[pi], prev[pj]));
            }
        }
        assert forall|i: int| 0 <= i < n implies 0 <= #[trigger] next[i] < n by {
            if i < p {
                assert(next[i] == prev[i]);
            } else if i > p {
                assert(next[i] == prev[i - 1]);
            }
        }
    }
}

/// The indices of `keys` in the order of their keys, the greatest key
/// first; indices with the same key stay in their order.
pub fn stable_order_desc(keys: &Vec<String>) -> (r: Vec<usize>)
    ensures
        r@.map_values(|i: usize| i as int) == order_desc(
            string_views(keys@),
            keys@.len() as int,
        ),
        r@.len() == keys@.len(),
        forall|i: int| 0 <= i < r@.len() ==> #[trigger] r@[i] < keys@.len(),
{
    let ghost views = string_views(keys@);
    let mut texts: Vec<Vec<char>> = Vec::new();
    let mut t: usize = 0;
    while t < keys.len()
        invariant
            t <= keys.len(),
            texts@.len() == t,
            forall|k: int| 0 <= k < t ==> (#[trigger] texts@[k])@ == keys@[k]@,
        decreases keys.len() - t,
    {
        texts.push(chars_of(keys[t].as_str()));
        t = t + 1;
    }
    let mut order: Vec<usize> = Vec::new();
    let mut n: usize = 0;
    assert(order@.map_values(|i: usize| i as int) =~= order_desc(views, 0));
    while n < keys.len()
        invariant
            n <= keys.len(),
            views == string_views(keys@),
            texts@.len() == keys@.len(),
            forall|k: int| 0 <= k < texts@.len() ==> (#[trigger] texts@[k])@ == keys@[k]@,
            order@.len() == n,
            forall|i: int| 0 <= i < n ==> #[trigger] order@[i] < n,
            order@.map_values(|i: usize| i as int) == order_desc(views, n as int),
        decreases keys.len() - n,
    {
        let ghost prev = order@.map_values(|i: usize| i as int);
        let mut p: usize = 0;
        while p < order.len() && !text_less(&texts[order[p]], &texts[n])
            invariant
                p <= order.len(),
                n < keys.len(),
                order@.len() == n,
                views == string_views(keys@),
                texts@.len() == keys@.len(),
                forall|k: int| 0 <= k < texts@.len() ==> (#[trigger] texts@[k])@ == keys@[k]@,
                forall|i: int| 0 <= i < n ==> #[trigger] order@[i] < n,
                prev == order@.map_values(|i: usize| i as int),
                insert_at(views, prev, n as int, 0) == insert_at(views, prev, n as int, p as int),
            decreases order.len() - p,
        {
            assert(prev[p as int] == order@[p as int]);
            assert(views[order@[p as int] as int] == texts@[order@[p as int] as int]@);
            assert(views[n as int] == texts@[n as int]@);
            p = p + 1;
        }
        proof {
            if p < order.len() {
                assert(prev[p as int] == order@[p as int]);
                assert(views[order@[p as int] as int] == texts@[order@[p as int] as int]@);
                assert(views[n as int] == texts@[n as int]@);
            }
            assert(insert_at(views, prev, n as int, 0) == p);
        }
        order.insert(p, n);
        assert(order@.map_values(|i: usize| i as int) =~= prev.insert(p as int, n as int));
        assert forall|i: int| 0 <= i < n + 1 implies #[trigger] order@[i] < n + 1 by {
            if i < p {
                assert(order@[i] as int == prev[i]);
            } else if i > p {
                assert(order@[i] as int == prev[i - 1]);
            }
        }
        n = n + 1;
    }
    order
}

/// The indices below `n` whose class is `c`, in their order.
pub open spec fn class_members(classes: Seq<u8>, c: u8, n: int) -> Seq<int>
    decreases n,
{
    if n <= 0 || n > classes.len() {
        Seq::empty()
    } else if classes[n - 1] == c {
        class_members(classes, c, n - 1).push(n - 1)
    } else {
        class_members(classes, c, n - 1)
    }
}

/// The indices below `n` whose class is `c`.
pub fn members_of(classes: &Vec<u8>, c: u8) -> (r: Vec<usize>)
    ensures
        r@.map_values(|i: usize| i as int) == class_members(classes@, c, classes@.len() as int),
        forall|k: int| 0 <= k < r@.len() ==> #[trigger] r@[k] < classes@.len(),
{
    let mut out: Vec<usize> = Vec::new();
    let mut n: usize = 0;
    assert(out@.map_values(|i: usize| i as int) =~= class_members(classes@, c, 0));
    while n < classes.len()
        invariant
            n <= classes.len(),
            out@.map_values(|i: usize| i as int) == class_members(classes@, c, n as int),
            forall|k: int| 0 <= k < out@.len() ==> #[trigger] out@[k] < n,
        decreases classes.len() - n,
    {
        if classes[n] == c {
            let ghost before = out@.map_values(|i: usize| i as int);
            out.push(n);
            assert(out@.map_values(|i: usize| i as int) =~= before.push(n as int));
        }
        n = n + 1;
    }
    out
}

/// The keys of the indices in `members`.
pub open spec fn keys_of(keys: Seq<Seq<char>>, members: Seq<int>) -> Seq<Seq<char>> {
    members.map_values(|i: int| keys[i])
}

/// The indices in `members` by their keys, the greatest key first, those
/// with the same key in their order.
pub open spec fn members_desc(keys: Seq<Seq<char>>, members: Seq<int>) -> Seq<int> {
    order_desc(keys_of(keys, members), members.len() as int).map_values(|k: int| members[k])
}

/// Puts the indices in `members` in the order of their keys, the greatest
/// key first.
pub(crate) fn order_members_desc(keys: &Vec<String>, members: &Vec<usize>) -> (r: Vec<usize>)
    requires
        forall|k: int| 0 <= k < members@.len() ==> #[trigger] members@[k] < keys@.len(),
    ensures
        r@.map_values(|i: usize| i as int) == members_desc(
            string_views(keys@),
            members@.map_values(|i: usize| i as int),
        ),
        r@.len() == members@.len(),
        forall|k: int| 0 <= k < r@.len() ==> #[trigger] r@[k] < keys@.len(),
{
    let ghost views = string_views(keys@);
    let ghost idx = members@.map_values(|i: usize| i as int);
    let mut own: Vec<String> = Vec::new();
    let mut i: usize = 0;
    while i < members.len()
        invariant
            i <= members.len(),
            own@.len() == i,
            forall|k: int| 0 <= k < members@.len() ==> #[trigger] members@[k] < keys@.len(),
            forall|k: int| 0 <= k < i ==> (#[trigger] own@[k])@ == keys@[members@[k] as int]@,
        decreases members.len() - i,
    {
        own.push(keys[members[i]].clone());
        i = i + 1;
    }
    assert(string_views(own@) =~= keys_of(views, idx));
    let order = stable_order_desc(&own);
    let mut out: Vec<usize> = Vec::new();
    let mut k: usize = 0;
    while k < order.len()
        invariant
            k <= order.len(),
            order@.len() == members@.len(),
            out@.len() == k,
            forall|j: int| 0 <= j < order@.len() ==> #[trigger] order@[j] < members@.len(),
            forall|j: int| 0 <= j < members@.len() ==> #[trigger] members@[j] < keys@.len(),
            forall|j: int| 0 <= j < k ==> #[trigger] out@[j] == members@[order@[j] as int],
        decreases order.len() - k,
    {
        out.push(members[order[k]]);
        k = k + 1;
    }
    assert(out@.map_values(|i: usize| i as int) =~= members_desc(views, idx)) by {
        let o = order_desc(keys_of(views, idx), idx.len() as int);
        assert(o == order@.map_values(|i: usize| i as int));
        assert forall|j: int| 0 <= j < out@.len() implies out@.map_values(|i: usize| i as int)[j]
            == members_desc(views, idx)[j] by {
            assert(o[j] == order@[j] as int);
        }
    }
    out
}

/// Where the index `x` goes into a rising order, searching from `from`:
/// before the first index whose key comes after that of `x`, so behind
/// every index whose key is the same or comes before.
pub open spec fn insert_at_asc(keys: Seq<Seq<char>>, order: Seq<int>, x: int, from: int) -> int
    decreases order.len() - from,
{
    if from < 0 || from >= order.len() {
        order.len() as int
    } else if text_lt(keys[x], keys[order[from]]) {
        from
    } else {
        insert_at_asc(keys, order, x, from + 1)
    }
}

/// The first `n` indices of `keys` in the order of their keys, the least
/// key first; indices with the same key stay in their order.
pub open spec fn order_asc(keys: Seq<Seq<char>>, n: int) -> Seq<int>
    decreases n,
{
    if n <= 0 {
        Seq::empty()
    } else {
        let prev = order_asc(keys, n - 1);
        prev.insert(insert_at_asc(keys, prev, n - 1, 0), n - 1)
    }
}

/// Whether `i` stands rightly before `j` in a rising order: its key comes
/// before that of `j`, or the keys are the same and `i` is the lesser
/// index.
pub open spec fn goes_before_asc(keys: Seq<Seq<char>>, i: int, j: int) -> bool {
    text_lt(keys[i], keys[j]) || (keys[i] == keys[j] && i < j)
}

/// Where an index is put in a rising order, everything before it has a
/// key that is the same or comes before, and what stands there has a key
/// that comes after.
pub proof fn lemma_insert_at_asc(keys: Seq<Seq<char>>, order: Seq<int>, x: int, from: int)
    requires
        0 <= from <= order.len(),
    ensures
        from <= insert_at_asc(keys, order, x, from) <= order.len(),
        forall|j: int|
            from <= j < insert_at_asc(keys, order, x, from) ==> !text_lt(
                keys[x],
                keys[#[trigger] order[j]],
            ),
        insert_at_asc(keys, order, x, from) < order.len() ==> text_lt(
            keys[x],
            keys[order[insert_at_asc(keys, order, x, from)]],
        ),
    decreases order.len() - from,
{
    if from < order.len() && !text_lt(keys[x], keys[order[from]]) {
        lemma_insert_at_asc(keys, order, x, from + 1);
    }
}

/// The rising order holds each of the first `n` indices, none of them
/// twice, the least key first, and indices with the same key in their own
/// order.
pub proof fn lemma_order_asc(keys: Seq<Seq<char>>, n: int)
    requires
        0 <= n <= keys.len(),
    ensures
        order_asc(keys, n).len() == n,
        forall|i: int| 0 <= i < n ==> 0 <= #[trigger] order_asc(keys, n)[i] < n,
        forall|i: int, j: int|
            0 <= i < j < n ==> goes_before_asc(
                keys,
                #[trigger] order_asc(keys, n)[i],
                #[trigger] order_asc(keys, n)[j],
            ),
        forall|i: int, j: int|
            0 <= i < j < n ==> #[trigger] order_asc(keys, n)[i] != #[trigger] order_asc(
                keys,
                n,
            )[j],
    decreases n,
{
    assert forall|i: int, j: int| 0 <= i < j < n && goes_before_asc(
        keys,
        #[trigger] order_asc(keys, n)[i],
        #[trigger] order_asc(keys, n)[j],
    ) implies order_asc(keys, n)[i] != order_asc(keys, n)[j] by {
        lemma_text_lt_irreflexive(keys[order_asc(keys, n)[i]]);
    }
    if n > 0 {
        lemma_order_asc(keys, n - 1);
        let prev = order_asc(keys, n - 1);
        let x = n - 1;
        let p = insert_at_asc(keys, prev, x, 0);
        lemma_insert_at_asc(keys, prev, x, 0);
        let next = order_asc(keys, n);
        assert(next == prev.insert(p, x));
        assert forall|i: int, j: int| 0 <= i < j < n implies goes_before_asc(
            keys,
            #[trigger] next[i],
            #[trigger] next[j],
        ) by {
            if j == p {
                // next[i] stands before the new index.
                assert(next[i] == prev[i]);
                assert(!text_lt(keys[x], keys[prev[i]]));
                lemma_text_lt_total(keys[x], keys[prev[i]]);
            } else if i == p {
                // The new index stands before next[j], which is prev[j - 1].
                assert(next[j] == prev[j - 1]);
                assert(text_lt(keys[x], keys[prev[p]]));
                if j - 1 > p {
                    assert(goes_before_asc(keys, prev[p], prev[j - 1]));
                    if keys[prev[p]] == keys[prev[j - 1]] {
                    } else {
                        lemma_text_lt_transitive(keys[x], keys[prev[p]], keys[prev[j - 1]]);
                    }
                }
            } else {
                let pi = if i < p {
                    i
                } else {
                    i - 1
                };
                let pj = if j < p {
                    j
                } else {
                    j - 1
                };
                assert(next[i] == prev[pi]);
                assert(next[j] == prev[pj]);
                assert(goes_before_asc(keys, prev[pi], prev[pj]));
            }
        }
        assert forall|i: int| 0 <= i < n implies 0 <= #[trigger] next[i] < n by {
            if i < p {
                assert(next[i] == prev[i]);
            } else if i > p {
                assert(next[i] == prev[i - 1]);
            }
        }
    }
}

/// The indices of `keys` in the order of their keys, the least key
/// first; indices with the same key stay in their order.
pub fn stable_order_asc(keys: &Vec<String>) -> (r: Vec<usize>)
    ensures
        r@.map_values(|i: usize| i as int) == order_asc(
            string_views(keys@),
            keys@.len() as int,
        ),
        r@.len() == keys@.len(),
        forall|i: int| 0 <= i < r@.len() ==> #[trigger] r@[i] < keys@.len(),
{
    let ghost views = string_views(keys@);
    let mut texts: Vec<Vec<char>> = Vec::new();
    let mut t: usize = 0;
    while t < keys.len()
        invariant
            t <= keys.len(),
            texts@.len() == t,
            forall|k: int| 0 <= k < t ==> (#[trigger] texts@[k])@ == keys@[k]@,
        decreases keys.len() - t,
    {
        texts.push(chars_of(keys[t].as_str()));
        t = t + 1;
    }
    let mut order: Vec<usize> = Vec::new();
    let mut n: usize = 0;
    assert(order@.map_values(|i: usize| i as int) =~= order_asc(views, 0));
    while n < keys.len()
        invariant
            n <= keys.len(),
            views == string_views(keys@),
            texts@.len() == keys@.len(),
            forall|k: int| 0 <= k < texts@.len() ==> (#[trigger] texts@[k])@ == keys@[k]@,
            order@.len() == n,
            forall|i: int| 0 <= i < n ==> #[trigger] order@[i] < n,
            order@.map_values(|i: usize| i as int) == order_asc(views, n as int),
        decreases keys.len() - n,
    {
        let ghost prev = order@.map_values(|i: usize| i as int);
        let mut p: usize = 0;
        while p < order.len() && !text_less(&texts[n], &texts[order[p]])
            invariant
                p <= order.len(),
                n < keys.len(),
                order@.len() == n,
                views == string_views(keys@),
                texts@.len() == keys@.len(),
                forall|k: int| 0 <= k < texts@.len() ==> (#[trigger] texts@[k])@ == keys@[k]@,
                forall|i: int| 0 <= i < n ==> #[trigger] order@[i] < n,
                prev == order@.map_values(|i: usize| i as int),
                insert_at_asc(views, prev, n as int, 0) == insert_at_asc(views, prev, n as int, p as int),
            decreases order.len() - p,
        {
            assert(prev[p as int] == order@[p as int]);
            assert(views[order@[p as int] as int] == texts@[order@[p as int] as int]@);
            assert(views[n as int] == texts@[n as int]@);
            p = p + 1;
        }
        proof {
            if p < order.len() {
                assert(prev[p as int] == order@[p as int]);
                assert(views[order@[p as int] as int] == texts@[order@[p as int] as int]@);
                assert(views[n as int] == texts@[n as int]@);
            }
            assert(insert_at_asc(views, prev, n as int, 0) == p);
        }
        order.insert(p, n);
        assert(order@.map_values(|i: usize| i as int) =~= prev.insert(p as int, n as int));
        assert forall|i: int| 0 <= i < n + 1 implies #[trigger] order@[i] < n + 1 by {
            if i < p {
                assert(order@[i] as int == prev[i]);
            } else if i > p {
                assert(order@[i] as int == prev[i - 1]);
            }
        }
        n = n + 1;
    }
    order
}

/// The indices in `members` by their keys, the least key first, those
/// with the same key in their order.
pub open spec fn members_asc(keys: Seq<Seq<char>>, members: Seq<int>) -> Seq<int> {
    order_asc(keys_of(keys, members), members.len() as int).map_values(|k: int| members[k])
}

/// Puts the indices in `members` in the order of their keys, the least
/// key first.
pub(crate) fn order_members_asc(keys: &Vec<String>, members: &Vec<usize>) -> (r: Vec<usize>)
    requires
        forall|k: int| 0 <= k < members@.len() ==> #[trigger] members@[k] < keys@.len(),
    ensures
        r@.map_values(|i: usize| i as int) == members_asc(
            string_views(keys@),
            members@.map_values(|i: usize| i as int),
        ),
        r@.len() == members@.len(),
        forall|k: int| 0 <= k < r@.len() ==> #[trigger] r@[k] < keys@.len(),
{
    let ghost views = string_views(keys@);
    let ghost idx = members@.map_values(|i: usize| i as int);
    let mut own: Vec<String> = Vec::new();
    let mut i: usize = 0;
    while i < members.len()
        invariant
            i <= members.len(),
            own@.len() == i,
            forall|k: int| 0 <= k < members@.len() ==> #[trigger] members@[k] < keys@.len(),
            forall|k: int| 0 <= k < i ==> (#[trigger] own@[k])@ == keys@[members@[k] as int]@,
        decreases members.len() - i,
    {
        own.push(keys[members[i]].clone());
        i = i + 1;
    }
    assert(string_views(own@) =~= keys_of(views, idx));
    let order = stable_order_asc(&own);
    let mut out: Vec<usize> = Vec::new();
    let mut k: usize = 0;
    while k < order.len()
        invariant
            k <= order.len(),
            order@.len() == members@.len(),
            out@.len() == k,
            forall|j: int| 0 <= j < order@.len() ==> #[trigger] order@[j] < members@.len(),
            forall|j: int| 0 <= j < members@.len() ==> #[trigger] members@[j] < keys@.len(),
            forall|j: int| 0 <= j < k ==> #[trigger] out@[j] == members@[order@[j] as int],
        decreases order.len() - k,
    {
        out.push(members[order[k]]);
        k = k + 1;
    }
    assert(out@.map_values(|i: usize| i as int) =~= members_asc(views, idx)) by {
        let o = order_asc(keys_of(views, idx), idx.len() as int);
        assert(o == order@.map_values(|i: usize| i as int));
        assert forall|j: int| 0 <= j < out@.len() implies out@.map_values(|i: usize| i as int)[j]
            == members_asc(views, idx)[j] by {
            assert(o[j] == order@[j] as int);
        }
    }
    out
}

/// The indices in `members` whose rank is `rank`, up to member `n`.
pub open spec fn ranked(members: Seq<int>, ranks: Seq<u8>, rank: u8, n: int) -> Seq<int>
    decreases n,
{
    if n <= 0 || n > members.len() {
        Seq::empty()
    } else if ranks[members[n - 1]] == rank {
        ranked(members, ranks, rank, n - 1).push(members[n - 1])
    } else {
        ranked(members, ranks, rank, n - 1)
    }
}

/// The indices in `members` by their ranks up to rank `top`, the least
/// rank first, those of the same rank in their order.
pub open spec fn by_rank(members: Seq<int>, ranks: Seq<u8>, top: int) -> Seq<int>
    decreases top + 1,
{
    if top < 0 || top > 255 {
        Seq::empty()
    } else {
        by_rank(members, ranks, top - 1) + ranked(
            members,
            ranks,
            top as u8,
            members.len() as int,
        )
    }
}

/// Puts the indices in `members` in the order of their ranks, the least
/// rank first. A member whose rank is above `top` is left out.
pub(crate) fn order_by_rank(members: &Vec<usize>, ranks: &Vec<u8>, top: u8) -> (r: Vec<usize>)
    requires
        forall|k: int| 0 <= k < members@.len() ==> #[trigger] members@[k] < ranks@.len(),
    ensures
        r@.map_values(|i: usize| i as int) == by_rank(
            members@.map_values(|i: usize| i as int),
            ranks@,
            top as int,
        ),
        forall|k: int| 0 <= k < r@.len() ==> #[trigger] r@[k] < ranks@.len(),
{
    let ghost idx = members@.map_values(|i: usize| i as int);
    let mut out: Vec<usize> = Vec::new();
    let mut rank: u8 = 0;
    assert(out@.map_values(|i: usize| i as int) =~= by_rank(idx, ranks@, -1));
    loop
        invariant
            rank <= top,
            idx == members@.map_values(|i: usize| i as int),
            forall|k: int| 0 <= k < members@.len() ==> #[trigger] members@[k] < ranks@.len(),
            forall|k: int| 0 <= k < out@.len() ==> #[trigger] out@[k] < ranks@.len(),
            out@.map_values(|i: usize| i as int) == by_rank(idx, ranks@, rank as int - 1),
        decreases top - rank + 1,
    {
        let ghost base = out@.map_values(|i: usize| i as int);
        let mut n: usize = 0;
        assert(base + ranked(idx, ranks@, rank, 0) =~= base);
        while n < members.len()
            invariant
                n <= members.len(),
                idx == members@.map_values(|i: usize| i as int),
                forall|k: int| 0 <= k < members@.len() ==> #[trigger] members@[k] < ranks@.len(),
                forall|k: int| 0 <= k < out@.len() ==> #[trigger] out@[k] < ranks@.len(),
                out@.map_values(|i: usize| i as int) == base + ranked(idx, ranks@, rank, n as int),
            decreases members.len() - n,
        {
            assert(idx[n as int] == members@[n as int]);
            if ranks[members[n]] == rank {
                let ghost before = out@.map_values(|i: usize| i as int);
                out.push(members[n]);
                assert(out@.map_values(|i: usize| i as int) =~= before.push(
                    members@[n as int] as int,
                ));
            }
            n = n + 1;
        }
        if rank == top {
            return out;
        }
        rank = rank + 1;
    }
}

/// A row of a list in sections: a header with its title, or the item
/// with the given index.
pub ghost enum RowRef {
    Header(Seq<char>),
    Item(int),
}

/// The rows of a section: its header and its items, or nothing where it
/// has no items.
pub open spec fn section_plan(title: Seq<char>, items: Seq<int>) -> Seq<RowRef> {
    if items.len() == 0 {
        Seq::empty()
    } else {
        seq![RowRef::Header(title)] + items.map_values(|i: int| RowRef::Item(i))
    }
}

/// Whether the time `a` lies before `b`; no time lies before every time.
pub open spec fn stamp_lt(a: Option<i64>, b: Option<i64>) -> bool {
    match (a, b) {
        (None, Some(_)) => true,
        (Some(x), Some(y)) => x < y,
        _ => false,
    }
}

/// Whether the time `a` lies before `b`.
pub fn stamp_less(a: Option<i64>, b: Option<i64>) -> (r: bool)
    ensures
        r == stamp_lt(a, b),
{
    match (a, b) {
        (None, Some(_)) => true,
        (Some(x), Some(y)) => x < y,
        _ => false,
    }
}

/// Where the index `x` goes into `order`, searching from `from`: before
/// the first index whose time lies before that of `x`, so behind every
/// index whose time is the same or later.
pub open spec fn stamp_insert_at(stamps: Seq<Option<i64>>, order: Seq<int>, x: int, from: int) -> int
    decreases order.len() - from,
{
    if from < 0 || from >= order.len() {
        order.len() as int
    } else if stamp_lt(stamps[order[from]], stamps[x]) {
        from
    } else {
        stamp_insert_at(stamps, order, x, from + 1)
    }
}

/// The first `n` indices of `stamps` with the latest time first; indices
/// with the same time stay in their order.
pub open spec fn latest_order(stamps: Seq<Option<i64>>, n: int) -> Seq<int>
    decreases n,
{
    if n <= 0 {
        Seq::empty()
    } else {
        let prev = latest_order(stamps, n - 1);
        prev.insert(stamp_insert_at(stamps, prev, n - 1, 0), n - 1)
    }
}

/// Whether `i` stands rightly before `j`: its time is later, or the times
/// are the same and `i` is the lesser index.
pub open spec fn later_first(stamps: Seq<Option<i64>>, i: int, j: int) -> bool {
    stamp_lt(stamps[j], stamps[i]) || (stamps[i] == stamps[j] && i < j)
}

/// Where an index is put, everything before it has a time that is the
/// same or later, and what stands there has a time that lies before.
pub proof fn lemma_stamp_insert_at(stamps: Seq<Option<i64>>, order: Seq<int>, x: int, from: int)
    requires
        0 <= from <= order.len(),
    ensures
        from <= stamp_insert_at(stamps, order, x, from) <= order.len(),
        forall|j: int|
            from <= j < stamp_insert_at(stamps, order, x, from) ==> !stamp_lt(
                stamps[#[trigger] order[j]],
                stamps[x],
            ),
        stamp_insert_at(stamps, order, x, from) < order.len() ==> stamp_lt(
            stamps[order[stamp_insert_at(stamps, order, x, from)]],
            stamps[x],
        ),
    decreases order.len() - from,
{
    if from < order.len() && !stamp_lt(stamps[order[from]], stamps[x]) {
        lemma_stamp_insert_at(stamps, order, x, from + 1);
    }
}

/// The order holds each of the first `n` indices, none of them twice, the
/// latest time first, and indices with the same time in their own order.
pub proof fn lemma_latest_order(stamps: Seq<Option<i64>>, n: int)
    requires
        0 <= n <= stamps.len(),
    ensures
        latest_order(stamps, n).len() == n,
        forall|i: int| 0 <= i < n ==> 0 <= #[trigger] latest_order(stamps, n)[i] < n,
        forall|i: int, j: int|
            0 <= i < j < n ==> later_first(
                stamps,
                #[trigger] latest_order(stamps, n)[i],
                #[trigger] latest_order(stamps, n)[j],
            ),
        forall|i: int, j: int|
            0 <= i < j < n ==> #[trigger] latest_order(stamps, n)[i] != #[trigger] latest_order(
                stamps,
                n,
            )[j],
    decreases n,
{
    if n > 0 {
        lemma_latest_order(stamps, n - 1);
        let prev = latest_order(stamps, n - 1);
        let x = n - 1;
        let p = stamp_insert_at(stamps, prev, x, 0);
        lemma_stamp_insert_at(stamps, prev, x, 0);
        let next = latest_order(stamps, n);
        assert(next == prev.insert(p, x));
        assert forall|i: int, j: int| 0 <= i < j < n implies later_first(
            stamps,
            #[trigger] next[i],
            #[trigger] next[j],
        ) by {
            if j == p {
                assert(next[i] == prev[i]);
                assert(!stamp_lt(stamps[prev[i]], stamps[x]));
            } else if i == p {
                assert(next[j] == prev[j - 1]);
                assert(stamp_lt(stamps[prev[p]], stamps[x]));
                if j - 1 > p {
                    assert(later_first(stamps, prev[p], prev[j - 1]));
                }
            } else {
                let pi = if i < p {
                    i
                } else {
                    i - 1
                };
                let pj = if j < p {
                    j
                } else {
                    j - 1
                };
                assert(next[i] == prev[pi]);
                assert(next[j] == prev[pj]);
                assert(later_first(stamps, prev[pi], prev[pj]));
            }
        }
        assert forall|i: int| 0 <= i < n implies 0 <= #[trigger] next[i] < n by {
            if i < p {
                assert(next[i] == prev[i]);
            } else if i > p {
                assert(next[i] == prev[i - 1]);
            }
        }
    }
}

/// The indices of `stamps` with the latest time first; indices with the
/// same time stay in their order, and those without a time come last.
pub fn latest_first(stamps: &Vec<Option<i64>>) -> (r: Vec<usize>)
    ensures
        r@.map_values(|i: usize| i as int) == latest_order(stamps@, stamps@.len() as int),
        r@.len() == stamps@.len(),
        forall|i: int| 0 <= i < r@.len() ==> #[trigger] r@[i] < stamps@.len(),
{
    let mut order: Vec<usize> = Vec::new();
    let mut n: usize = 0;
    assert(order@.map_values(|i: usize| i as int) =~= latest_order(stamps@, 0));
    while n < stamps.len()
        invariant
            n <= stamps.len(),
            order@.len() == n,
            forall|i: int| 0 <= i < n ==> #[trigger] order@[i] < n,
            order@.map_values(|i: usize| i as int) == latest_order(stamps@, n as int),
        decreases stamps.len() - n,
    {
        let ghost prev = order@.map_values(|i: usize| i as int);
        let mut p: usize = 0;
        while p < order.len() && !stamp_less(stamps[order[p]], stamps[n])
            invariant
                p <= order.len(),
                n < stamps.len(),
                order@.len() == n,
                forall|i: int| 0 <= i < n ==> #[trigger] order@[i] < n,
                prev == order@.map_values(|i: usize| i as int),
                stamp_insert_at(stamps@, prev, n as int, 0) == stamp_insert_at(
                    stamps@,
                    prev,
                    n as int,
                    p as int,
                ),
            decreases order.len() - p,
        {
            assert(prev[p as int] == order@[p as int]);
            p = p + 1;
        }
        proof {
            if p < order.len() {
                assert(prev[p as int] == order@[p as int]);
            }
            assert(stamp_insert_at(stamps@, prev, n as int, 0) == p);
        }
        order.insert(p, n);
        assert(order@.map_values(|i: usize| i as int) =~= prev.insert(p as int, n as int));
        assert forall|i: int| 0 <= i < n + 1 implies #[trigger] order@[i] < n + 1 by {
            if i < p {
                assert(order@[i] as int == prev[i]);
            } else if i > p {
                assert(order@[i] as int == prev[i - 1]);
            }
        }
        n = n + 1;
    }
    order
}

} // verus!
