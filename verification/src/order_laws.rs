//! What holds of every three-bucket order.

use vstd::prelude::*;
use std::sync::Arc;
use crate::hook::{bucket_of, Bucket, HookKind, PluginHookMeta, PluginIdx};
use crate::order::{
    bucket_members, declarations, order_without, three_bucket_order, HookOrderIndicates,
};
use crate::plugin::Pluginable;

verus! {

/// The members of a cohort among the first `upto` plugins are plugins of
/// that cohort among the first `upto`, in strictly rising registration order,
/// and none of them is left out.
pub proof fn lemma_bucket_members(prefs: Seq<Option<PluginHookMeta>>, bucket: Bucket, upto: int)
    requires
        0 <= upto <= prefs.len() <= usize::MAX,
    ensures
        bucket_members(prefs, bucket, upto).len() <= upto,
        forall|k: int|
            0 <= k < bucket_members(prefs, bucket, upto).len() ==> {
                let idx = #[trigger] bucket_members(prefs, bucket, upto)[k];
                idx.0 < upto && bucket_of(prefs[idx.0 as int]) == bucket
            },
        forall|j: int, k: int|
            0 <= j < k < bucket_members(prefs, bucket, upto).len() ==> (#[trigger] bucket_members(
                prefs,
                bucket,
                upto,
            )[j]).0 < (#[trigger] bucket_members(prefs, bucket, upto)[k]).0,
        forall|i: int|
            0 <= i < upto && bucket_of(#[trigger] prefs[i]) == bucket ==> bucket_members(
                prefs,
                bucket,
                upto,
            ).contains(PluginIdx(i as usize)),
    decreases upto,
{
    if upto > 0 {
        lemma_bucket_members(prefs, bucket, upto - 1);
        let earlier = bucket_members(prefs, bucket, upto - 1);
        let members = bucket_members(prefs, bucket, upto);
        let last = PluginIdx((upto - 1) as usize);
        assert forall|i: int| 0 <= i < upto && bucket_of(#[trigger] prefs[i]) == bucket implies members.contains(
            PluginIdx(i as usize),
        ) by {
            if i < upto - 1 {
                assert(earlier.contains(PluginIdx(i as usize)));
                let k = choose|k: int| 0 <= k < earlier.len() && earlier[k] == PluginIdx(i as usize);
                assert(members[k] == PluginIdx(i as usize));
            } else {
                assert(members == earlier.push(last));
                assert(members[earlier.len() as int] == last);
            }
        }
    }
}

/// The members of a cohort among the first `shorter` plugins open the list of
/// its members among the first `longer`.
pub proof fn lemma_bucket_members_grow(
    prefs: Seq<Option<PluginHookMeta>>,
    bucket: Bucket,
    shorter: int,
    longer: int,
)
    requires
        0 <= shorter <= longer,
    ensures
        bucket_members(prefs, bucket, shorter).len() <= bucket_members(prefs, bucket, longer).len(),
        forall|k: int|
            0 <= k < bucket_members(prefs, bucket, shorter).len() ==> bucket_members(
                prefs,
                bucket,
                longer,
            )[k] == #[trigger] bucket_members(prefs, bucket, shorter)[k],
    decreases longer,
{
    if shorter < longer {
        lemma_bucket_members_grow(prefs, bucket, shorter, longer - 1);
    }
}

/// Every one of the first `upto` plugins is a member of exactly one cohort.
pub proof fn lemma_buckets_share_out(prefs: Seq<Option<PluginHookMeta>>, upto: int)
    requires
        0 <= upto,
    ensures
        bucket_members(prefs, Bucket::Eager, upto).len() + bucket_members(
            prefs,
            Bucket::Normal,
            upto,
        ).len() + bucket_members(prefs, Bucket::Deferred, upto).len() == upto,
    decreases upto,
{
    if upto > 0 {
        lemma_buckets_share_out(prefs, upto - 1);
    }
}

/// The cohort of the plugin that stands at position `k` of the order, as a
/// rank: the position falls into the eager run, the normal run or the
/// deferred run.
pub open spec fn run_of(prefs: Seq<Option<PluginHookMeta>>, k: int) -> Bucket {
    let eager = bucket_members(prefs, Bucket::Eager, prefs.len() as int).len();
    let normal = bucket_members(prefs, Bucket::Normal, prefs.len() as int).len();
    if k < eager {
        Bucket::Eager
    } else if k < eager + normal {
        Bucket::Normal
    } else {
        Bucket::Deferred
    }
}

/// The order of a hook is a permutation of the registry: it is as long as
/// the registry, names no plugin twice, names every registered plugin, and
/// names nothing else.
pub proof fn lemma_order_is_permutation(prefs: Seq<Option<PluginHookMeta>>)
    requires
        prefs.len() <= usize::MAX,
    ensures
        three_bucket_order(prefs).len() == prefs.len(),
        three_bucket_order(prefs).no_duplicates(),
        forall|i: int|
            0 <= i < prefs.len() ==> #[trigger] three_bucket_order(prefs).contains(
                PluginIdx(i as usize),
            ),
        forall|k: int|
            0 <= k < three_bucket_order(prefs).len() ==> (#[trigger] three_bucket_order(
                prefs,
            )[k]).0 < prefs.len(),
{
    let n = prefs.len() as int;
    let order = three_bucket_order(prefs);
    lemma_order_is_partitioned(prefs);
    lemma_buckets_share_out(prefs, n);
    assert forall|j: int, k: int| 0 <= j < order.len() && 0 <= k < order.len() && j != k implies order[j]
        != order[k] by {
        if j < k {
            assert(run_of(prefs, j) != run_of(prefs, k) || order[j].0 < order[k].0);
        } else {
            assert(run_of(prefs, k) != run_of(prefs, j) || order[k].0 < order[j].0);
        }
    }
    assert forall|i: int| 0 <= i < prefs.len() implies #[trigger] order.contains(
        PluginIdx(i as usize),
    ) by {
        lemma_position_in_order(prefs, i);
        assert(order[position_in_order(prefs, i)] == PluginIdx(i as usize));
    }
}

/// The order of a hook is made of three runs, the eager plugins, then the
/// normal ones, then the deferred ones, and inside a run the plugins stand in
/// registration order.
pub proof fn lemma_order_is_partitioned(prefs: Seq<Option<PluginHookMeta>>)
    requires
        prefs.len() <= usize::MAX,
    ensures
        forall|k: int|
            0 <= k < three_bucket_order(prefs).len() ==> {
                let idx = #[trigger] three_bucket_order(prefs)[k];
                idx.0 < prefs.len() && bucket_of(prefs[idx.0 as int]) == run_of(prefs, k)
            },
        forall|j: int, k: int|
            0 <= j < k < three_bucket_order(prefs).len() ==> run_of(prefs, j).rank() <= run_of(
                prefs,
                k,
            ).rank() && (run_of(prefs, j) == run_of(prefs, k) ==> (#[trigger] three_bucket_order(
                prefs,
            )[j]).0 < (#[trigger] three_bucket_order(prefs)[k]).0),
{
    let n = prefs.len() as int;
    let eager = bucket_members(prefs, Bucket::Eager, n);
    let normal = bucket_members(prefs, Bucket::Normal, n);
    let deferred = bucket_members(prefs, Bucket::Deferred, n);
    let order = three_bucket_order(prefs);
    lemma_bucket_members(prefs, Bucket::Eager, n);
    lemma_bucket_members(prefs, Bucket::Normal, n);
    lemma_bucket_members(prefs, Bucket::Deferred, n);
    assert(order == eager + normal + deferred);
    assert forall|k: int| 0 <= k < order.len() implies {
        let idx = #[trigger] order[k];
        idx.0 < prefs.len() && bucket_of(prefs[idx.0 as int]) == run_of(prefs, k)
    } by {
        if k < eager.len() {
            assert(order[k] == eager[k]);
        } else if k < eager.len() + normal.len() {
            assert(order[k] == normal[k - eager.len()]);
        } else {
            assert(order[k] == deferred[k - eager.len() - normal.len()]);
        }
    }
    assert forall|j: int, k: int| 0 <= j < k < order.len() implies run_of(prefs, j).rank() <= run_of(
        prefs,
        k,
    ).rank() && (run_of(prefs, j) == run_of(prefs, k) ==> (#[trigger] order[j]).0 < (
    #[trigger] order[k]).0) by {
        if k < eager.len() {
            assert(order[j] == eager[j] && order[k] == eager[k]);
        } else if k < eager.len() + normal.len() {
            if j >= eager.len() {
                assert(order[j] == normal[j - eager.len()]);
                assert(order[k] == normal[k - eager.len()]);
            }
        } else {
            if j >= eager.len() + normal.len() {
                assert(order[j] == deferred[j - eager.len() - normal.len()]);
                assert(order[k] == deferred[k - eager.len() - normal.len()]);
            }
        }
    }
}

/// Where the plugin registered at `i` stands in the order: behind every
/// plugin of an earlier cohort, and behind the plugins of its own cohort that
/// were registered before it.
pub open spec fn position_in_order(prefs: Seq<Option<PluginHookMeta>>, i: int) -> int {
    let n = prefs.len() as int;
    let own = bucket_of(prefs[i]);
    let ahead = match own {
        Bucket::Eager => 0,
        Bucket::Normal => bucket_members(prefs, Bucket::Eager, n).len() as int,
        Bucket::Deferred => (bucket_members(prefs, Bucket::Eager, n).len() + bucket_members(
            prefs,
            Bucket::Normal,
            n,
        ).len()) as int,
    };
    ahead + bucket_members(prefs, own, i).len()
}

/// Every registered plugin stands in the order at the position that its
/// cohort and its registration give it.
pub proof fn lemma_position_in_order(prefs: Seq<Option<PluginHookMeta>>, i: int)
    requires
        0 <= i < prefs.len() <= usize::MAX,
    ensures
        0 <= position_in_order(prefs, i) < three_bucket_order(prefs).len(),
        three_bucket_order(prefs)[position_in_order(prefs, i)] == PluginIdx(i as usize),
{
    let n = prefs.len() as int;
    let own = bucket_of(prefs[i]);
    let eager = bucket_members(prefs, Bucket::Eager, n);
    let normal = bucket_members(prefs, Bucket::Normal, n);
    let deferred = bucket_members(prefs, Bucket::Deferred, n);
    let before = bucket_members(prefs, own, i);
    let through = bucket_members(prefs, own, i + 1);
    assert(through == before.push(PluginIdx(i as usize)));
    assert(through[before.len() as int] == PluginIdx(i as usize));
    lemma_bucket_members_grow(prefs, own, i + 1, n);
    assert(bucket_members(prefs, own, n)[before.len() as int] == PluginIdx(i as usize));
    assert(three_bucket_order(prefs) == eager + normal + deferred);
}

/// A plugin that asks for no place in the order of a hook, because it
/// declares nothing for the hook or declares no order, stands there behind
/// the plugins that are eager for that hook and behind the normal ones
/// registered before it.
pub proof fn lemma_undeclared_plugin_position(prefs: Seq<Option<PluginHookMeta>>, i: int)
    requires
        0 <= i < prefs.len() <= usize::MAX,
        bucket_of(prefs[i]) == Bucket::Normal,
    ensures
        three_bucket_order(prefs)[(bucket_members(prefs, Bucket::Eager, prefs.len() as int).len()
            + bucket_members(prefs, Bucket::Normal, i).len()) as int] == PluginIdx(i as usize),
{
    lemma_position_in_order(prefs, i);
}

/// The order of a hook depends on the declarations only through the cohort
/// that each of them names: two lists of declarations that put every plugin
/// in the same cohort give the same order.
pub proof fn lemma_order_follows_cohorts(
    one: Seq<Option<PluginHookMeta>>,
    other: Seq<Option<PluginHookMeta>>,
)
    requires
        one.len() == other.len(),
        forall|i: int| 0 <= i < one.len() ==> bucket_of(#[trigger] one[i]) == bucket_of(other[i]),
    ensures
        three_bucket_order(one) == three_bucket_order(other),
{
    let n = one.len() as int;
    lemma_members_follow_cohorts(one, other, Bucket::Eager, n);
    lemma_members_follow_cohorts(one, other, Bucket::Normal, n);
    lemma_members_follow_cohorts(one, other, Bucket::Deferred, n);
}

proof fn lemma_members_follow_cohorts(
    one: Seq<Option<PluginHookMeta>>,
    other: Seq<Option<PluginHookMeta>>,
    bucket: Bucket,
    upto: int,
)
    requires
        one.len() == other.len(),
        0 <= upto <= one.len(),
        forall|i: int| 0 <= i < one.len() ==> bucket_of(#[trigger] one[i]) == bucket_of(other[i]),
    ensures
        bucket_members(one, bucket, upto) == bucket_members(other, bucket, upto),
    decreases upto,
{
    if upto > 0 {
        lemma_members_follow_cohorts(one, other, bucket, upto - 1);
        assert(bucket_of(one[upto - 1]) == bucket_of(other[upto - 1]));
    }
}

/// Where no plugin asks to run early or late, the order is the registration
/// order.
pub proof fn lemma_no_preference_keeps_registration_order(prefs: Seq<Option<PluginHookMeta>>)
    requires
        prefs.len() <= usize::MAX,
        forall|i: int| 0 <= i < prefs.len() ==> bucket_of(#[trigger] prefs[i]) == Bucket::Normal,
    ensures
        three_bucket_order(prefs) == Seq::new(prefs.len(), |i: int| PluginIdx(i as usize)),
{
    let n = prefs.len() as int;
    let order = three_bucket_order(prefs);
    lemma_all_normal(prefs, n);
    assert(order =~= bucket_members(prefs, Bucket::Normal, n));
    assert(order =~= Seq::new(prefs.len(), |i: int| PluginIdx(i as usize)));
}

/// In the table of a registry the order of every hook is a permutation of
/// the registry: it is as long as the registry, names each registered plugin
/// once and names nothing else.
pub proof fn lemma_table_orders_are_permutations<P: Pluginable + ?Sized>(
    table: HookOrderIndicates,
    plugins: Seq<Arc<P>>,
    kind: HookKind,
)
    requires
        table.is_table_of(plugins),
        plugins.len() <= usize::MAX,
    ensures
        table.order_of(kind).len() == plugins.len(),
        table.order_of(kind).no_duplicates(),
        forall|i: int|
            0 <= i < plugins.len() ==> #[trigger] table.order_of(kind).contains(
                PluginIdx(i as usize),
            ),
        forall|k: int|
            0 <= k < table.order_of(kind).len() ==> (#[trigger] table.order_of(kind)[k]).0
                < plugins.len(),
{
    assert(table.order_of(kind) == three_bucket_order(declarations(plugins, kind)));
    lemma_order_is_permutation(declarations(plugins, kind));
}

/// In the table of a registry the order of a hook runs the plugins that are
/// eager for that hook first and those that are deferred for it last, and
/// plugins of one cohort in registration order: of two places in the order,
/// the earlier one holds the plugin of the earlier cohort, or, where the
/// cohorts are the same, the plugin registered first.
pub proof fn lemma_table_orders_are_partitioned<P: Pluginable + ?Sized>(
    table: HookOrderIndicates,
    plugins: Seq<Arc<P>>,
    kind: HookKind,
)
    requires
        table.is_table_of(plugins),
        plugins.len() <= usize::MAX,
    ensures
        forall|j: int, k: int|
            0 <= j < k < table.order_of(kind).len() ==> {
                let first = #[trigger] table.order_of(kind)[j];
                let second = #[trigger] table.order_of(kind)[k];
                let first_cohort = bucket_of(plugins[first.0 as int].declared(kind));
                let second_cohort = bucket_of(plugins[second.0 as int].declared(kind));
                &&& first.0 < plugins.len()
                &&& second.0 < plugins.len()
                &&& first_cohort.rank() <= second_cohort.rank()
                &&& first_cohort == second_cohort ==> first.0 < second.0
            },
{
    let prefs = declarations(plugins, kind);
    let order = table.order_of(kind);
    assert(order == three_bucket_order(prefs));
    lemma_order_is_partitioned(prefs);
    assert forall|j: int, k: int| 0 <= j < k < order.len() implies {
        let first = #[trigger] order[j];
        let second = #[trigger] order[k];
        let first_cohort = bucket_of(plugins[first.0 as int].declared(kind));
        let second_cohort = bucket_of(plugins[second.0 as int].declared(kind));
        &&& first.0 < plugins.len()
        &&& second.0 < plugins.len()
        &&& first_cohort.rank() <= second_cohort.rank()
        &&& first_cohort == second_cohort ==> first.0 < second.0
    } by {
        assert(bucket_of(prefs[order[j].0 as int]) == run_of(prefs, j));
        assert(bucket_of(prefs[order[k].0 as int]) == run_of(prefs, k));
    }
}

/// What a plugin declares for one hook has no say in the order of another:
/// two registries of the same size whose plugins, place by place, ask for the
/// same cohort of the hook `kind` have the same order for `kind`, whatever
/// they declare for any other hook.
pub proof fn lemma_tables_agree_on_a_hook<P: Pluginable + ?Sized, Q: Pluginable + ?Sized>(
    one_table: HookOrderIndicates,
    one: Seq<Arc<P>>,
    other_table: HookOrderIndicates,
    other: Seq<Arc<Q>>,
    kind: HookKind,
)
    requires
        one_table.is_table_of(one),
        other_table.is_table_of(other),
        one.len() == other.len(),
        forall|i: int|
            0 <= i < one.len() ==> bucket_of((#[trigger] one[i]).declared(kind)) == bucket_of(
                other[i].declared(kind),
            ),
    ensures
        one_table.order_of(kind) == other_table.order_of(kind),
{
    let one_prefs = declarations(one, kind);
    let other_prefs = declarations(other, kind);
    assert(one_table.order_of(kind) == three_bucket_order(one_prefs));
    assert(other_table.order_of(kind) == three_bucket_order(other_prefs));
    assert forall|i: int| 0 <= i < one_prefs.len() implies bucket_of(#[trigger] one_prefs[i])
        == bucket_of(other_prefs[i]) by {
        assert(one_prefs[i] == one[i].declared(kind));
    }
    lemma_order_follows_cohorts(one_prefs, other_prefs);
}

/// A registry has one table: two tables of the same registry hold the same
/// order for every hook.
pub proof fn lemma_registry_settles_table<P: Pluginable + ?Sized>(
    one: HookOrderIndicates,
    other: HookOrderIndicates,
    plugins: Seq<Arc<P>>,
)
    requires
        one.is_table_of(plugins),
        other.is_table_of(plugins),
    ensures
        forall|kind: HookKind| #[trigger] one.order_of(kind) == other.order_of(kind),
{
    assert forall|kind: HookKind| #[trigger] one.order_of(kind) == other.order_of(kind) by {
        assert(other.order_of(kind) == three_bucket_order(declarations(plugins, kind)));
    }
}

/// Passing over the plugins named in `skipped` leaves exactly the others:
/// what is left names no skipped plugin and nothing that the order did not
/// name, it names every plugin of the order that is not skipped, and it
/// names none twice where the order named none twice.
pub proof fn lemma_order_without(order: Seq<PluginIdx>, skipped: Seq<PluginIdx>, upto: int)
    requires
        0 <= upto <= order.len(),
    ensures
        order_without(order, skipped, upto).len() <= upto,
        forall|k: int|
            0 <= k < order_without(order, skipped, upto).len() ==> {
                let idx = #[trigger] order_without(order, skipped, upto)[k];
                !skipped.contains(idx) && exists|j: int| 0 <= j < upto && order[j] == idx
            },
        forall|j: int|
            0 <= j < upto && !skipped.contains(#[trigger] order[j]) ==> order_without(
                order,
                skipped,
                upto,
            ).contains(order[j]),
        order.no_duplicates() ==> order_without(order, skipped, upto).no_duplicates(),
    decreases upto,
{
    if upto > 0 {
        lemma_order_without(order, skipped, upto - 1);
        let earlier = order_without(order, skipped, upto - 1);
        let left = order_without(order, skipped, upto);
        let last = order[upto - 1];
        assert forall|k: int| 0 <= k < left.len() implies {
            let idx = #[trigger] left[k];
            !skipped.contains(idx) && exists|j: int| 0 <= j < upto && order[j] == idx
        } by {
            if k < earlier.len() {
                let idx = earlier[k];
                let j = choose|j: int| 0 <= j < upto - 1 && order[j] == idx;
                assert(0 <= j < upto && order[j] == left[k]);
            } else {
                assert(left[k] == last);
                assert(order[upto - 1] == left[k]);
            }
        }
        assert forall|j: int| 0 <= j < upto && !skipped.contains(#[trigger] order[j]) implies left.contains(
            order[j],
        ) by {
            if j < upto - 1 {
                assert(earlier.contains(order[j]));
                let k = choose|k: int| 0 <= k < earlier.len() && earlier[k] == order[j];
                assert(left[k] == order[j]);
            } else {
                assert(left == earlier.push(last));
                assert(left[earlier.len() as int] == order[j]);
            }
        }
        if order.no_duplicates() {
            assert forall|a: int, b: int| 0 <= a < left.len() && 0 <= b < left.len() && a != b implies left[a]
                != left[b] by {
                if a < earlier.len() && b < earlier.len() {
                    assert(earlier[a] != earlier[b]);
                } else if a < earlier.len() {
                    let idx = earlier[a];
                    let j = choose|j: int| 0 <= j < upto - 1 && order[j] == idx;
                    assert(order[j] != order[upto - 1]);
                } else if b < earlier.len() {
                    let idx = earlier[b];
                    let j = choose|j: int| 0 <= j < upto - 1 && order[j] == idx;
                    assert(order[j] != order[upto - 1]);
                }
            }
        }
    }
}

proof fn lemma_all_normal(prefs: Seq<Option<PluginHookMeta>>, upto: int)
    requires
        0 <= upto <= prefs.len(),
        forall|i: int| 0 <= i < prefs.len() ==> bucket_of(#[trigger] prefs[i]) == Bucket::Normal,
    ensures
        bucket_members(prefs, Bucket::Eager, upto).len() == 0,
        bucket_members(prefs, Bucket::Deferred, upto).len() == 0,
        bucket_members(prefs, Bucket::Normal, upto).len() == upto,
        forall|k: int|
            0 <= k < upto ==> #[trigger] bucket_members(prefs, Bucket::Normal, upto)[k] == PluginIdx(
                k as usize,
            ),
    decreases upto,
{
    if upto > 0 {
        lemma_all_normal(prefs, upto - 1);
    }
}

} // verus!
