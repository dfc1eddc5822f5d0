use vstd::prelude::*;

use super::AreaReference;
use crate::card_wrapper::CardWrapper;

verus! {

/// The identities of the cards of a zone, in order.
pub open spec fn ids(zone: Seq<CardWrapper>) -> Seq<u64> {
    zone.map_values(|c: CardWrapper| c.id)
}

/// No identity occurs twice among the zones `zs`, neither within one zone
/// nor across two.
pub open spec fn unique_ids(zs: Seq<Seq<u64>>) -> bool {
    forall|a: int, i: int, b: int, j: int|
        0 <= a < zs.len() && 0 <= b < zs.len() && 0 <= i < zs[a].len() && 0 <= j < zs[b].len()
            && #[trigger] zs[a][i] == #[trigger] zs[b][j] ==> a == b && i == j
}

/// Every identity among the zones `zs` is below `n`.
pub open spec fn ids_below(zs: Seq<Seq<u64>>, n: u64) -> bool {
    forall|a: int, i: int| 0 <= a < zs.len() && 0 <= i < zs[a].len() ==> #[trigger] zs[a][i] < n
}

/// `id` occurs somewhere among the zones `zs`.
pub open spec fn holds_id(zs: Seq<Seq<u64>>, id: u64) -> bool {
    exists|a: int, i: int| 0 <= a < zs.len() && 0 <= i < zs[a].len() && #[trigger] zs[a][i] == id
}

/// Taking an element out of a zone keeps the identities unique, and the
/// element taken no longer occurs.
pub(crate) proof fn lemma_remove_unique(zs: Seq<Seq<u64>>, a: int, i: int)
    requires
        unique_ids(zs),
        0 <= a < zs.len(),
        0 <= i < zs[a].len(),
    ensures
        unique_ids(zs.update(a, zs[a].remove(i))),
        !holds_id(zs.update(a, zs[a].remove(i)), zs[a][i]),
        forall|n: u64| ids_below(zs, n) ==> ids_below(#[trigger] zs.update(a, zs[a].remove(i)), n),
{
    let ns = zs.update(a, zs[a].remove(i));
    // the place that each element of `ns` held in `zs`
    assert forall|b: int, k: int| 0 <= b < ns.len() && 0 <= k < ns[b].len() implies ns[b][k] == zs[b][
        if b == a && k >= i {
            k + 1
        } else {
            k
        }] by {}
    assert forall|b: int, k: int, c: int, l: int|
        0 <= b < ns.len() && 0 <= c < ns.len() && 0 <= k < ns[b].len() && 0 <= l < ns[c].len()
            && #[trigger] ns[b][k] == #[trigger] ns[c][l] implies b == c && k == l by {
        let k0 = if b == a && k >= i {
            k + 1
        } else {
            k
        };
        let l0 = if c == a && l >= i {
            l + 1
        } else {
            l
        };
        assert(zs[b][k0] == zs[c][l0]);
    }
    if holds_id(ns, zs[a][i]) {
        let (b, k) = choose|b: int, k: int|
            0 <= b < ns.len() && 0 <= k < ns[b].len() && #[trigger] ns[b][k] == zs[a][i];
        let k0 = if b == a && k >= i {
            k + 1
        } else {
            k
        };
        assert(zs[b][k0] == zs[a][i]);
    }
    assert forall|n: u64| ids_below(zs, n) implies ids_below(#[trigger] zs.update(a, zs[a].remove(i)), n) by {
        assert forall|b: int, k: int| 0 <= b < ns.len() && 0 <= k < ns[b].len() implies #[trigger] ns[b][k] < n by {
            let k0 = if b == a && k >= i {
                k + 1
            } else {
                k
            };
            assert(zs[b][k0] < n);
        }
    }
}

/// Putting an identity that occurs nowhere into a zone keeps the
/// identities unique.
pub(crate) proof fn lemma_insert_unique(zs: Seq<Seq<u64>>, b: int, j: int, x: u64)
    requires
        unique_ids(zs),
        !holds_id(zs, x),
        0 <= b < zs.len(),
        0 <= j <= zs[b].len(),
    ensures
        unique_ids(zs.update(b, zs[b].insert(j, x))),
        forall|n: u64| ids_below(zs, n) && x < n ==> ids_below(#[trigger] zs.update(b, zs[b].insert(j, x)), n),
{
    let ns = zs.update(b, zs[b].insert(j, x));
    assert forall|c: int, k: int, d: int, l: int|
        0 <= c < ns.len() && 0 <= d < ns.len() && 0 <= k < ns[c].len() && 0 <= l < ns[d].len()
            && #[trigger] ns[c][k] == #[trigger] ns[d][l] implies c == d && k == l by {
        let k_new = c == b && k == j;
        let l_new = d == b && l == j;
        let k0 = if c == b && k > j {
            k - 1
        } else {
            k
        };
        let l0 = if d == b && l > j {
            l - 1
        } else {
            l
        };
        if k_new && !l_new {
            assert(zs[d][l0] == x);
        } else if !k_new && l_new {
            assert(zs[c][k0] == x);
        } else if !k_new && !l_new {
            assert(zs[c][k0] == zs[d][l0]);
        }
    }
    assert forall|n: u64| ids_below(zs, n) && x < n implies ids_below(#[trigger] zs.update(b, zs[b].insert(j, x)), n) by {
        assert forall|c: int, k: int| 0 <= c < ns.len() && 0 <= k < ns[c].len() implies #[trigger] ns[c][k] < n by {
            if !(c == b && k == j) {
                let k0 = if c == b && k > j {
                    k - 1
                } else {
                    k
                };
                assert(zs[c][k0] < n);
            }
        }
    }
}

/// The place of `area` among the zones of `GameState::id_zones`.
pub open spec fn slot_of(area: AreaReference) -> int {
    match area {
        AreaReference::PlayerHand => 0,
        AreaReference::PlayerField => 1,
        AreaReference::OpponentHand => 3,
        AreaReference::OpponentField => 4,
    }
}

pub(crate) proof fn lemma_ids_remove(z: Seq<CardWrapper>, i: int)
    requires
        0 <= i < z.len(),
    ensures
        ids(z.remove(i)) == ids(z).remove(i),
{
    assert(ids(z.remove(i)) =~= ids(z).remove(i));
}

pub(crate) proof fn lemma_ids_insert(z: Seq<CardWrapper>, j: int, c: CardWrapper)
    requires
        0 <= j <= z.len(),
    ensures
        ids(z.insert(j, c)) == ids(z).insert(j, c.id),
{
    assert(ids(z.insert(j, c)) =~= ids(z).insert(j, c.id));
}

pub(crate) proof fn lemma_ids_update(z: Seq<CardWrapper>, i: int, c: CardWrapper)
    requires
        0 <= i < z.len(),
        c.id == z[i].id,
    ensures
        ids(z.update(i, c)) == ids(z),
{
    assert(ids(z.update(i, c)) =~= ids(z));
}

} // verus!
