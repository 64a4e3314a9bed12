//! Stable ordering of list entries by a text key, as `sort_by` on
//! lower-cased names does for the userscript and userstyle lists.

use vstd::prelude::*;
use crate::text::views;

verus! {

/// `a` comes strictly before `b` in code-point lexicographic order, the
/// order of `str`'s `Ord` (UTF-8 bytes compare as their code points do).
pub open spec fn seq_lt(a: Seq<char>, b: Seq<char>) -> bool
    decreases a.len(),
{
    if a.len() == 0 {
        b.len() > 0
    } else if b.len() == 0 {
        false
    } else if a[0] != b[0] {
        (a[0] as int) < (b[0] as int)
    } else {
        seq_lt(a.drop_first(), b.drop_first())
    }
}

pub proof fn lemma_lt_irreflexive(a: Seq<char>)
    ensures
        !seq_lt(a, a),
    decreases a.len(),
{
    if a.len() > 0 {
        lemma_lt_irreflexive(a.drop_first());
    }
}

pub proof fn lemma_lt_total(a: Seq<char>, b: Seq<char>)
    ensures
        seq_lt(a, b) || seq_lt(b, a) || a == b,
        !(seq_lt(a, b) && seq_lt(b, a)),
    decreases a.len(),
{
    if a.len() > 0 && b.len() > 0 {
        lemma_lt_total(a.drop_first(), b.drop_first());
        if a[0] != b[0] {
            assert((a[0] as int) != (b[0] as int));
        } else if a.drop_first() == b.drop_first() {
            assert(a =~= seq![a[0]] + a.drop_first());
            assert(b =~= seq![b[0]] + b.drop_first());
        }
    } else if a.len() == 0 && b.len() == 0 {
        assert(a =~= b);
    }
}

pub proof fn lemma_lt_transitive(a: Seq<char>, b: Seq<char>, c: Seq<char>)
    requires
        seq_lt(a, b),
        seq_lt(b, c),
    ensures
        seq_lt(a, c),
    decreases a.len(),
{
    if a.len() > 0 && b.len() > 0 && c.len() > 0 {
        if a[0] == b[0] && b[0] == c[0] {
            lemma_lt_transitive(a.drop_first(), b.drop_first(), c.drop_first());
        }
    }
}

/// Not after: `!(b < a)`.
pub proof fn lemma_le_transitive(a: Seq<char>, b: Seq<char>, c: Seq<char>)
    requires
        !seq_lt(b, a),
        !seq_lt(c, b),
    ensures
        !seq_lt(c, a),
{
    lemma_lt_total(a, b);
    lemma_lt_total(b, c);
    if seq_lt(c, a) {
        if a == b {
        } else {
            lemma_lt_transitive(c, a, b);
        }
    }
}

pub fn chars_lt(a: &[char], b: &[char]) -> (r: bool)
    ensures
        r == seq_lt(a@, b@),
{
    let mut i: usize = 0;
    assert(a@.skip(0) == a@ && b@.skip(0) == b@);
    while i < a.len() && i < b.len() && a[i] == b[i]
        invariant
            i <= a@.len(),
            i <= b@.len(),
            seq_lt(a@, b@) == seq_lt(a@.skip(i as int), b@.skip(i as int)),
        decreases a@.len() - i,
    {
        assert(a@.skip(i as int).drop_first() == a@.skip(i + 1));
        assert(b@.skip(i as int).drop_first() == b@.skip(i + 1));
        i = i + 1;
    }
    if i == a.len() {
        i < b.len()
    } else if i == b.len() {
        false
    } else {
        a[i] < b[i]
    }
}

/// `perm` says where each entry of (`items`, `keys`) came from in
/// (`old_items`, `old_keys`): a rearrangement in which keys never decrease
/// and entries with equal keys keep their earlier order.
pub open spec fn stable_perm<T>(
    perm: Seq<int>,
    items: Seq<T>,
    keys: Seq<Seq<char>>,
    old_items: Seq<T>,
    old_keys: Seq<Seq<char>>,
) -> bool {
    &&& perm.len() == items.len()
    &&& keys.len() == items.len()
    &&& old_items.len() == items.len()
    &&& old_keys.len() == items.len()
    &&& forall|k: int|
        0 <= k < perm.len() ==> 0 <= #[trigger] perm[k] < perm.len() && items[k] == old_items[perm[k]]
            && keys[k] == old_keys[perm[k]]
    &&& forall|k: int, l: int| 0 <= k < l < perm.len() ==> #[trigger] perm[k] != #[trigger] perm[l]
    &&& forall|k: int, l: int|
        0 <= k < l < perm.len() ==> !seq_lt(#[trigger] keys[l], #[trigger] keys[k])
    &&& forall|k: int, l: int|
        0 <= k < l < perm.len() && #[trigger] keys[k] == #[trigger] keys[l] ==> perm[k] < perm[l]
}

/// (`items`, `keys`) is the stable sort of (`old_items`, `old_keys`) by key.
pub open spec fn stably_sorted<T>(
    items: Seq<T>,
    keys: Seq<Seq<char>>,
    old_items: Seq<T>,
    old_keys: Seq<Seq<char>>,
) -> bool {
    exists|perm: Seq<int>| #[trigger] stable_perm(perm, items, keys, old_items, old_keys)
}

/// Putting entry `i` back at `j <= i` keeps the sorted prefix a stable sort.
proof fn lemma_insert_step<T>(
    pp: Seq<int>,
    pi: Seq<T>,
    pk: Seq<Seq<char>>,
    oi: Seq<T>,
    ok: Seq<Seq<char>>,
    i: int,
    j: int,
    x: T,
    kx: Seq<char>,
)
    requires
        0 <= j <= i < oi.len(),
        ok.len() == oi.len(),
        stable_perm(pp, pi, pk, oi.take(i), ok.take(i)),
        oi[i] == x,
        ok[i] == kx,
        forall|m: int| j <= m < i ==> seq_lt(kx, #[trigger] pk[m]),
        j > 0 ==> !seq_lt(kx, pk[j - 1]),
    ensures
        stable_perm(
            pp.insert(j, i),
            pi.insert(j, x),
            pk.insert(j, kx),
            oi.take(i + 1),
            ok.take(i + 1),
        ),
{
    let ni = pi.insert(j, x);
    let nk = pk.insert(j, kx);
    let np = pp.insert(j, i);
    assert(oi.take(i + 1) =~= oi.take(i).push(oi[i]));
    assert(ok.take(i + 1) =~= ok.take(i).push(ok[i]));
    assert forall|k: int| 0 <= k < np.len() implies 0 <= #[trigger] np[k] < np.len() && ni[k]
        == oi.take(i + 1)[np[k]] && nk[k] == ok.take(i + 1)[np[k]] by {
        if k < j {
            assert(np[k] == pp[k]);
        } else if k > j {
            assert(np[k] == pp[k - 1]);
        }
    }
    assert forall|k: int, l: int| 0 <= k < l < np.len() implies #[trigger] np[k]
        != #[trigger] np[l] by {
        if k != j && l != j {
            let k0 = if k < j { k } else { k - 1 };
            let l0 = if l < j { l } else { l - 1 };
            assert(pp[k0] != pp[l0]);
        } else if k == j {
            assert(np[l] == pp[l - 1]);
        } else {
            assert(np[k] == pp[k]);
        }
    }
    assert forall|k: int, l: int| 0 <= k < l < np.len() implies !seq_lt(
        #[trigger] nk[l],
        #[trigger] nk[k],
    ) by {
        if k != j && l != j {
            let k0 = if k < j { k } else { k - 1 };
            let l0 = if l < j { l } else { l - 1 };
            assert(!seq_lt(pk[l0], pk[k0]));
        } else if k == j {
            assert(nk[l] == pk[l - 1]);
            assert(seq_lt(kx, pk[l - 1]));
            lemma_lt_total(kx, pk[l - 1]);
        } else {
            assert(nk[k] == pk[k]);
            if k < j - 1 {
                assert(!seq_lt(pk[j - 1], pk[k]));
                lemma_le_transitive(pk[k], pk[j - 1], kx);
            }
        }
    }
    assert forall|k: int, l: int|
        0 <= k < l < np.len() && #[trigger] nk[k] == #[trigger] nk[l] implies np[k] < np[l] by {
        if k != j && l != j {
            let k0 = if k < j { k } else { k - 1 };
            let l0 = if l < j { l } else { l - 1 };
            assert(pk[k0] == pk[l0]);
        } else if k == j {
            assert(nk[l] == pk[l - 1]);
            assert(seq_lt(kx, pk[l - 1]));
            lemma_lt_irreflexive(kx);
        } else {
            assert(np[k] == pp[k]);
        }
    }
}

/// Taking entry `i` out and putting it back at `j <= i` leaves everything
/// from `i + 1` on in place.
proof fn lemma_reinsert<A>(o: Seq<A>, cur: Seq<A>, i: int, j: int, x: A)
    requires
        0 <= j <= i < cur.len(),
        cur.len() == o.len(),
        cur.skip(i) == o.skip(i),
        cur[i] == x,
    ensures
        cur.remove(i).insert(j, x).skip(i + 1) == o.skip(i + 1),
        cur.remove(i).insert(j, x).take(i + 1) == cur.take(i).insert(j, x),
{
    assert(cur.skip(i + 1) =~= o.skip(i).drop_first());
    assert(o.skip(i + 1) =~= o.skip(i).drop_first());
    assert(cur.remove(i).insert(j, x).skip(i + 1) =~= cur.skip(i + 1));
    assert(cur.remove(i).insert(j, x).take(i + 1) =~= cur.take(i).insert(j, x));
}

/// Sorts `items` stably by `keys` (moved along with them).
pub fn stable_sort_by_keys<T>(items: &mut Vec<T>, keys: &mut Vec<Vec<char>>)
    requires
        old(items)@.len() == old(keys)@.len(),
    ensures
        stably_sorted(final(items)@, views(final(keys)@), old(items)@, views(old(keys)@)),
{
    let ghost oi = items@;
    let ghost ok = views(keys@);
    let ghost mut perm: Seq<int> = Seq::empty();
    let n = items.len();
    let mut i: usize = 0;
    while i < n
        invariant
            n == items@.len(),
            n == keys@.len(),
            oi.len() == n,
            ok.len() == n,
            i <= n,
            stable_perm(
                perm,
                items@.take(i as int),
                views(keys@).take(i as int),
                oi.take(i as int),
                ok.take(i as int),
            ),
            items@.skip(i as int) == oi.skip(i as int),
            views(keys@).skip(i as int) == ok.skip(i as int),
        decreases n - i,
    {
        let ghost pi = items@.take(i as int);
        let ghost pk = views(keys@).take(i as int);
        let ghost pp = perm;
        assert(items@[i as int] == oi[i as int]) by {
            assert(items@.skip(i as int)[0] == oi.skip(i as int)[0]);
        }
        assert(views(keys@)[i as int] == ok[i as int]) by {
            assert(views(keys@).skip(i as int)[0] == ok.skip(i as int)[0]);
        }
        let ghost full_items = items@;
        let ghost full_keys = views(keys@);
        let x = items.remove(i);
        let kx = keys.remove(i);
        assert(items@.take(i as int) == pi);
        assert(views(keys@).take(i as int) == pk);
        let mut j: usize = i;
        while j > 0 && crate::name_sort::chars_lt(kx.as_slice(), keys[j - 1].as_slice())
            invariant
                j <= i,
                i < n,
                items@.len() == n - 1,
                keys@.len() == n - 1,
                views(keys@).take(i as int) == pk,
                forall|m: int| j <= m < i ==> seq_lt(kx@, #[trigger] pk[m]),
            decreases j,
        {
            assert(views(keys@)[j - 1] == pk[j - 1]);
            j = j - 1;
        }
        proof {
            if j > 0 {
                assert(views(keys@)[j - 1] == pk[j - 1]);
            }
        }
        items.insert(j, x);
        keys.insert(j, kx);
        proof {
            assert(views(keys@) =~= full_keys.remove(i as int).insert(j as int, kx@));
            lemma_insert_step(pp, pi, pk, oi, ok, i as int, j as int, x, kx@);
            lemma_reinsert(oi, full_items, i as int, j as int, x);
            lemma_reinsert(ok, full_keys, i as int, j as int, kx@);
            perm = pp.insert(j as int, i as int);
        }
        i = i + 1;
    }
    proof {
        assert(items@.take(n as int) == items@);
        assert(views(keys@).take(n as int) == views(keys@));
        assert(oi.take(n as int) == oi);
        assert(ok.take(n as int) == ok);
        assert(stable_perm(perm, items@, views(keys@), oi, ok));
    }
}

/// Keys computed from the entries by `key` stay computed from them.
pub proof fn lemma_keys_follow<T>(
    items: Seq<T>,
    keys: Seq<Seq<char>>,
    old_items: Seq<T>,
    key: spec_fn(T) -> Seq<char>,
)
    requires
        stably_sorted(items, keys, old_items, old_items.map_values(key)),
    ensures
        keys == items.map_values(key),
        stably_sorted(items, items.map_values(key), old_items, old_items.map_values(key)),
{
    let ok = old_items.map_values(key);
    let perm = choose|perm: Seq<int>| #[trigger] stable_perm(perm, items, keys, old_items, ok);
    assert forall|k: int| 0 <= k < keys.len() implies keys[k] == items.map_values(key)[k] by {
        assert(0 <= perm[k] < perm.len());
    }
    assert(keys =~= items.map_values(key));
    assert(stable_perm(perm, items, items.map_values(key), old_items, ok));
}

/// `perm` says where each entry of (`items`, `keys`) came from: a
/// rearrangement in which the numeric keys never decrease and entries with
/// equal keys keep their earlier order.
pub open spec fn stable_perm_u32<T>(
    perm: Seq<int>,
    items: Seq<T>,
    keys: Seq<u32>,
    old_items: Seq<T>,
    old_keys: Seq<u32>,
) -> bool {
    &&& perm.len() == items.len()
    &&& keys.len() == items.len()
    &&& old_items.len() == items.len()
    &&& old_keys.len() == items.len()
    &&& forall|k: int|
        0 <= k < perm.len() ==> 0 <= #[trigger] perm[k] < perm.len() && items[k] == old_items[perm[k]]
            && keys[k] == old_keys[perm[k]]
    &&& forall|k: int, l: int| 0 <= k < l < perm.len() ==> #[trigger] perm[k] != #[trigger] perm[l]
    &&& forall|k: int, l: int| 0 <= k < l < perm.len() ==> #[trigger] keys[k] <= #[trigger] keys[l]
    &&& forall|k: int, l: int|
        0 <= k < l < perm.len() && #[trigger] keys[k] == #[trigger] keys[l] ==> perm[k] < perm[l]
}

/// (`items`, `keys`) is the stable sort of (`old_items`, `old_keys`) by key.
pub open spec fn stably_sorted_u32<T>(
    items: Seq<T>,
    keys: Seq<u32>,
    old_items: Seq<T>,
    old_keys: Seq<u32>,
) -> bool {
    exists|perm: Seq<int>| #[trigger] stable_perm_u32(perm, items, keys, old_items, old_keys)
}

proof fn lemma_insert_step_u32<T>(
    pp: Seq<int>,
    pi: Seq<T>,
    pk: Seq<u32>,
    oi: Seq<T>,
    ok: Seq<u32>,
    i: int,
    j: int,
    x: T,
    kx: u32,
)
    requires
        0 <= j <= i < oi.len(),
        ok.len() == oi.len(),
        stable_perm_u32(pp, pi, pk, oi.take(i), ok.take(i)),
        oi[i] == x,
        ok[i] == kx,
        forall|m: int| j <= m < i ==> kx < #[trigger] pk[m],
        j > 0 ==> pk[j - 1] <= kx,
    ensures
        stable_perm_u32(
            pp.insert(j, i),
            pi.insert(j, x),
            pk.insert(j, kx),
            oi.take(i + 1),
            ok.take(i + 1),
        ),
{
    let ni = pi.insert(j, x);
    let nk = pk.insert(j, kx);
    let np = pp.insert(j, i);
    assert(oi.take(i + 1) =~= oi.take(i).push(oi[i]));
    assert(ok.take(i + 1) =~= ok.take(i).push(ok[i]));
    assert forall|k: int| 0 <= k < np.len() implies 0 <= #[trigger] np[k] < np.len() && ni[k]
        == oi.take(i + 1)[np[k]] && nk[k] == ok.take(i + 1)[np[k]] by {
        if k < j {
            assert(np[k] == pp[k]);
        } else if k > j {
            assert(np[k] == pp[k - 1]);
        }
    }
    assert forall|k: int, l: int| 0 <= k < l < np.len() implies #[trigger] np[k]
        != #[trigger] np[l] by {
        if k != j && l != j {
            let k0 = if k < j { k } else { k - 1 };
            let l0 = if l < j { l } else { l - 1 };
            assert(pp[k0] != pp[l0]);
        } else if k == j {
            assert(np[l] == pp[l - 1]);
        } else {
            assert(np[k] == pp[k]);
        }
    }
    assert forall|k: int, l: int| 0 <= k < l < np.len() implies #[trigger] nk[k]
        <= #[trigger] nk[l] by {
        if k != j && l != j {
            let k0 = if k < j { k } else { k - 1 };
            let l0 = if l < j { l } else { l - 1 };
            assert(pk[k0] <= pk[l0]);
        } else if k == j {
            assert(nk[l] == pk[l - 1]);
        } else {
            assert(nk[k] == pk[k]);
            if k < j - 1 {
                assert(pk[k] <= pk[j - 1]);
            }
        }
    }
    assert forall|k: int, l: int|
        0 <= k < l < np.len() && #[trigger] nk[k] == #[trigger] nk[l] implies np[k] < np[l] by {
        if k != j && l != j {
            let k0 = if k < j { k } else { k - 1 };
            let l0 = if l < j { l } else { l - 1 };
            assert(pk[k0] == pk[l0]);
        } else if k == j {
            assert(nk[l] == pk[l - 1]);
        } else {
            assert(np[k] == pp[k]);
        }
    }
}

/// Sorts `items` stably by the numbers in `keys` (moved along with them).
pub fn stable_sort_by_u32_keys<T>(items: &mut Vec<T>, keys: &mut Vec<u32>)
    requires
        old(items)@.len() == old(keys)@.len(),
    ensures
        stably_sorted_u32(final(items)@, final(keys)@, old(items)@, old(keys)@),
{
    let ghost oi = items@;
    let ghost ok = keys@;
    let ghost mut perm: Seq<int> = Seq::empty();
    let n = items.len();
    let mut i: usize = 0;
    while i < n
        invariant
            n == items@.len(),
            n == keys@.len(),
            oi.len() == n,
            ok.len() == n,
            i <= n,
            stable_perm_u32(
                perm,
                items@.take(i as int),
                keys@.take(i as int),
                oi.take(i as int),
                ok.take(i as int),
            ),
            items@.skip(i as int) == oi.skip(i as int),
            keys@.skip(i as int) == ok.skip(i as int),
        decreases n - i,
    {
        let ghost pi = items@.take(i as int);
        let ghost pk = keys@.take(i as int);
        let ghost pp = perm;
        assert(items@[i as int] == oi[i as int]) by {
            assert(items@.skip(i as int)[0] == oi.skip(i as int)[0]);
        }
        assert(keys@[i as int] == ok[i as int]) by {
            assert(keys@.skip(i as int)[0] == ok.skip(i as int)[0]);
        }
        let ghost full_items = items@;
        let ghost full_keys = keys@;
        let x = items.remove(i);
        let kx = keys.remove(i);
        assert(items@.take(i as int) == pi);
        assert(keys@.take(i as int) == pk);
        let mut j: usize = i;
        while j > 0 && kx < keys[j - 1]
            invariant
                j <= i,
                i < n,
                items@.len() == n - 1,
                keys@.len() == n - 1,
                keys@.take(i as int) == pk,
                forall|m: int| j <= m < i ==> kx < #[trigger] pk[m],
            decreases j,
        {
            assert(keys@[j - 1] == pk[j - 1]);
            j = j - 1;
        }
        proof {
            if j > 0 {
                assert(keys@[j - 1] == pk[j - 1]);
            }
        }
        items.insert(j, x);
        keys.insert(j, kx);
        proof {
            lemma_insert_step_u32(pp, pi, pk, oi, ok, i as int, j as int, x, kx);
            lemma_reinsert(oi, full_items, i as int, j as int, x);
            lemma_reinsert(ok, full_keys, i as int, j as int, kx);
            perm = pp.insert(j as int, i as int);
        }
        i = i + 1;
    }
    proof {
        assert(items@.take(n as int) == items@);
        assert(keys@.take(n as int) == keys@);
        assert(oi.take(n as int) == oi);
        assert(ok.take(n as int) == ok);
        assert(stable_perm_u32(perm, items@, keys@, oi, ok));
    }
}

/// Order of (size, time) keys: the larger size first and, among equal
/// sizes, the later time first.
pub open spec fn rank_le(a: (u64, u128), b: (u64, u128)) -> bool {
    a.0 > b.0 || (a.0 == b.0 && a.1 >= b.1)
}

/// `a` ranks strictly before `b`.
pub open spec fn rank_lt(a: (u64, u128), b: (u64, u128)) -> bool {
    a.0 > b.0 || (a.0 == b.0 && a.1 > b.1)
}

fn ranks_before(a: (u64, u128), b: (u64, u128)) -> (r: bool)
    ensures
        r == rank_lt(a, b),
{
    a.0 > b.0 || (a.0 == b.0 && a.1 > b.1)
}

/// `perm` says where each entry of (`items`, `keys`) came from: a
/// rearrangement in which the keys never rank lower further on and entries
/// with equal keys keep their earlier order.
pub open spec fn stable_perm_rank<T>(
    perm: Seq<int>,
    items: Seq<T>,
    keys: Seq<(u64, u128)>,
    old_items: Seq<T>,
    old_keys: Seq<(u64, u128)>,
) -> bool {
    &&& perm.len() == items.len()
    &&& keys.len() == items.len()
    &&& old_items.len() == items.len()
    &&& old_keys.len() == items.len()
    &&& forall|k: int|
        0 <= k < perm.len() ==> 0 <= #[trigger] perm[k] < perm.len() && items[k] == old_items[perm[k]]
            && keys[k] == old_keys[perm[k]]
    &&& forall|k: int, l: int| 0 <= k < l < perm.len() ==> #[trigger] perm[k] != #[trigger] perm[l]
    &&& forall|k: int, l: int| 0 <= k < l < perm.len() ==> rank_le(#[trigger] keys[k], #[trigger] keys[l])
    &&& forall|k: int, l: int|
        0 <= k < l < perm.len() && #[trigger] keys[k] == #[trigger] keys[l] ==> perm[k] < perm[l]
}

/// (`items`, `keys`) is the stable sort of (`old_items`, `old_keys`) by
/// rank.
pub open spec fn stably_ranked<T>(
    items: Seq<T>,
    keys: Seq<(u64, u128)>,
    old_items: Seq<T>,
    old_keys: Seq<(u64, u128)>,
) -> bool {
    exists|perm: Seq<int>| #[trigger] stable_perm_rank(perm, items, keys, old_items, old_keys)
}

proof fn lemma_insert_step_rank<T>(
    pp: Seq<int>,
    pi: Seq<T>,
    pk: Seq<(u64, u128)>,
    oi: Seq<T>,
    ok: Seq<(u64, u128)>,
    i: int,
    j: int,
    x: T,
    kx: (u64, u128),
)
    requires
        0 <= j <= i < oi.len(),
        ok.len() == oi.len(),
        stable_perm_rank(pp, pi, pk, oi.take(i), ok.take(i)),
        oi[i] == x,
        ok[i] == kx,
        forall|m: int| j <= m < i ==> rank_lt(kx, #[trigger] pk[m]),
        j > 0 ==> rank_le(pk[j - 1], kx),
    ensures
        stable_perm_rank(
            pp.insert(j, i),
            pi.insert(j, x),
            pk.insert(j, kx),
            oi.take(i + 1),
            ok.take(i + 1),
        ),
{
    let ni = pi.insert(j, x);
    let nk = pk.insert(j, kx);
    let np = pp.insert(j, i);
    assert(oi.take(i + 1) =~= oi.take(i).push(oi[i]));
    assert(ok.take(i + 1) =~= ok.take(i).push(ok[i]));
    assert forall|k: int| 0 <= k < np.len() implies 0 <= #[trigger] np[k] < np.len() && ni[k]
        == oi.take(i + 1)[np[k]] && nk[k] == ok.take(i + 1)[np[k]] by {
        if k < j {
            assert(np[k] == pp[k]);
        } else if k > j {
            assert(np[k] == pp[k - 1]);
        }
    }
    assert forall|k: int, l: int| 0 <= k < l < np.len() implies #[trigger] np[k]
        != #[trigger] np[l] by {
        if k != j && l != j {
            let k0 = if k < j { k } else { k - 1 };
            let l0 = if l < j { l } else { l - 1 };
            assert(pp[k0] != pp[l0]);
        } else if k == j {
            assert(np[l] == pp[l - 1]);
        } else {
            assert(np[k] == pp[k]);
        }
    }
    assert forall|k: int, l: int| 0 <= k < l < np.len() implies rank_le(#[trigger] nk[k], #[trigger] nk[l]) by {
        if k != j && l != j {
            let k0 = if k < j { k } else { k - 1 };
            let l0 = if l < j { l } else { l - 1 };
            assert(rank_le(pk[k0], pk[l0]));
        } else if k == j {
            assert(nk[l] == pk[l - 1]);
        } else {
            assert(nk[k] == pk[k]);
            if k < j - 1 {
                assert(rank_le(pk[k], pk[j - 1]));
            }
        }
    }
    assert forall|k: int, l: int|
        0 <= k < l < np.len() && #[trigger] nk[k] == #[trigger] nk[l] implies np[k] < np[l] by {
        if k != j && l != j {
            let k0 = if k < j { k } else { k - 1 };
            let l0 = if l < j { l } else { l - 1 };
            assert(pk[k0] == pk[l0]);
        } else if k == j {
            assert(nk[l] == pk[l - 1]);
        } else {
            assert(np[k] == pp[k]);
        }
    }
}

/// Sorts `items` stably by rank of the (size, time) pairs in `keys`, the
/// largest first and, among equal sizes, the newest first.
pub fn stable_sort_by_rank<T>(items: &mut Vec<T>, keys: &mut Vec<(u64, u128)>)
    requires
        old(items)@.len() == old(keys)@.len(),
    ensures
        stably_ranked(final(items)@, final(keys)@, old(items)@, old(keys)@),
{
    let ghost oi = items@;
    let ghost ok = keys@;
    let ghost mut perm: Seq<int> = Seq::empty();
    let n = items.len();
    let mut i: usize = 0;
    while i < n
        invariant
            n == items@.len(),
            n == keys@.len(),
            oi.len() == n,
            ok.len() == n,
            i <= n,
            stable_perm_rank(
                perm,
                items@.take(i as int),
                keys@.take(i as int),
                oi.take(i as int),
                ok.take(i as int),
            ),
            items@.skip(i as int) == oi.skip(i as int),
            keys@.skip(i as int) == ok.skip(i as int),
        decreases n - i,
    {
        let ghost pi = items@.take(i as int);
        let ghost pk = keys@.take(i as int);
        let ghost pp = perm;
        assert(items@[i as int] == oi[i as int]) by {
            assert(items@.skip(i as int)[0] == oi.skip(i as int)[0]);
        }
        assert(keys@[i as int] == ok[i as int]) by {
            assert(keys@.skip(i as int)[0] == ok.skip(i as int)[0]);
        }
        let ghost full_items = items@;
        let ghost full_keys = keys@;
        let x = items.remove(i);
        let kx = keys.remove(i);
        assert(items@.take(i as int) == pi);
        assert(keys@.take(i as int) == pk);
        let mut j: usize = i;
        while j > 0 && ranks_before(kx, keys[j - 1])
            invariant
                j <= i,
                i < n,
                items@.len() == n - 1,
                keys@.len() == n - 1,
                keys@.take(i as int) == pk,
                forall|m: int| j <= m < i ==> rank_lt(kx, #[trigger] pk[m]),
            decreases j,
        {
            assert(keys@[j - 1] == pk[j - 1]);
            j = j - 1;
        }
        proof {
            if j > 0 {
                assert(keys@[j - 1] == pk[j - 1]);
            }
        }
        items.insert(j, x);
        keys.insert(j, kx);
        proof {
            lemma_insert_step_rank(pp, pi, pk, oi, ok, i as int, j as int, x, kx);
            lemma_reinsert(oi, full_items, i as int, j as int, x);
            lemma_reinsert(ok, full_keys, i as int, j as int, kx);
            perm = pp.insert(j as int, i as int);
        }
        i = i + 1;
    }
    proof {
        assert(items@.take(n as int) == items@);
        assert(keys@.take(n as int) == keys@);
        assert(oi.take(n as int) == oi);
        assert(ok.take(n as int) == ok);
        assert(stable_perm_rank(perm, items@, keys@, oi, ok));
    }
}

} // verus!
