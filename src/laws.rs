//! Laws of pruning and scoping, stated over the spec functions that the
//! evaluator's and renderer's contracts use.

use crate::endpoint_rules::{EndpointRuleCondition, EndpointRuleItem, EndpointRuleSet};
use crate::eval::{condition_spec, scan_conditions};
use crate::filter::EndpointRulesFilter;
use crate::render::{dump_str, item_str, items_str};
use crate::value::Val;
use vstd::prelude::*;

verus! {

/// Rendering is a function of the rule set and of the environment's
/// meaning: two environments that bind the same names to the same values,
/// with the same ARN assumption, render a rule set identically, however
/// their bindings were built. In particular rendering the same pair twice
/// gives the same text.
pub proof fn lemma_render_deterministic(
    rule_set: EndpointRuleSet,
    f1: EndpointRulesFilter,
    f2: EndpointRulesFilter,
)
    requires
        f1.model() == f2.model(),
        f1.no_arn_bucket == f2.no_arn_bucket,
    ensures
        dump_str(rule_set, f1) == dump_str(rule_set, f2),
{
}

/// The text of a list of items is the text of its parts, in order.
pub proof fn lemma_items_str_concat(
    indent: Seq<char>,
    a: Seq<EndpointRuleItem>,
    b: Seq<EndpointRuleItem>,
    env: Map<Seq<char>, Val>,
    no_arn_bucket: bool,
)
    ensures
        items_str(indent, a + b, env, no_arn_bucket) == items_str(indent, a, env, no_arn_bucket)
            + items_str(indent, b, env, no_arn_bucket),
    decreases b.len(),
{
    if b.len() == 0 {
        assert(a + b =~= a);
        assert(items_str(indent, a, env, no_arn_bucket) + items_str(indent, b, env, no_arn_bucket)
            =~= items_str(indent, a, env, no_arn_bucket));
    } else {
        assert((a + b).drop_last() =~= a + b.drop_last());
        assert((a + b).last() == b.last());
        lemma_items_str_concat(indent, a, b.drop_last(), env, no_arn_bucket);
        assert(items_str(indent, a + b, env, no_arn_bucket) =~= items_str(
            indent,
            a,
            env,
            no_arn_bucket,
        ) + items_str(indent, b, env, no_arn_bucket));
    }
}

/// Sibling items are rendered independently, each under the parent's
/// environment: the text of a list is the text of the items before `i`, then
/// that of item `i` under the same `env`, then that of the items after it.
/// Nothing that one item binds reaches its siblings.
pub proof fn lemma_siblings_share_scope(
    indent: Seq<char>,
    items: Seq<EndpointRuleItem>,
    env: Map<Seq<char>, Val>,
    no_arn_bucket: bool,
    i: int,
)
    requires
        0 <= i < items.len(),
    ensures
        items_str(indent, items, env, no_arn_bucket) == items_str(
            indent,
            items.subrange(0, i),
            env,
            no_arn_bucket,
        ) + item_str(indent, items[i], env, no_arn_bucket) + items_str(
            indent,
            items.subrange(i + 1, items.len() as int),
            env,
            no_arn_bucket,
        ),
{
    let pre = items.subrange(0, i);
    let one = items.subrange(i, i + 1);
    let post = items.subrange(i + 1, items.len() as int);
    assert(items =~= pre + (one + post));
    lemma_items_str_concat(indent, pre, one + post, env, no_arn_bucket);
    lemma_items_str_concat(indent, one, post, env, no_arn_bucket);
    assert(one.drop_last() =~= Seq::<EndpointRuleItem>::empty());
    assert(items_str(indent, one.drop_last(), env, no_arn_bucket) == Seq::<char>::empty());
    assert(one.last() == items[i]);
    assert(items_str(indent, one, env, no_arn_bucket) =~= item_str(indent, items[i], env, no_arn_bucket));
    assert(items_str(indent, items, env, no_arn_bucket) =~= items_str(indent, pre, env, no_arn_bucket)
        + item_str(indent, items[i], env, no_arn_bucket) + items_str(indent, post, env, no_arn_bucket));
}

/// Once an item is dead, later conditions change nothing.
pub proof fn lemma_scan_dead_stable(
    env: Map<Seq<char>, Val>,
    no_arn_bucket: bool,
    conds: Seq<EndpointRuleCondition>,
    k: int,
)
    requires
        0 <= k <= conds.len(),
        scan_conditions(env, no_arn_bucket, conds.subrange(0, k)).0,
    ensures
        scan_conditions(env, no_arn_bucket, conds) == scan_conditions(
            env,
            no_arn_bucket,
            conds.subrange(0, k),
        ),
    decreases conds.len(),
{
    if k == conds.len() {
        assert(conds.subrange(0, k) =~= conds);
    } else {
        let d = conds.drop_last();
        assert(d.subrange(0, k) =~= conds.subrange(0, k));
        lemma_scan_dead_stable(env, no_arn_bucket, d, k);
    }
}

/// An item with an unassigned condition that is proven false, in the scope
/// reached at that condition, renders as nothing, with its whole subtree:
/// the list it stands in renders exactly as the list without it.
pub proof fn lemma_dead_item_absent(
    indent: Seq<char>,
    items: Seq<EndpointRuleItem>,
    env: Map<Seq<char>, Val>,
    no_arn_bucket: bool,
    i: int,
    k: int,
)
    requires
        0 <= i < items.len(),
        0 <= k < items[i].conditions@.len(),
        items[i].conditions@[k].assign is None,
        condition_spec(
            scan_conditions(env, no_arn_bucket, items[i].conditions@.subrange(0, k)).2,
            no_arn_bucket,
            items[i].conditions@[k],
        ) == Val::ConstBool(false),
    ensures
        item_str(indent, items[i], env, no_arn_bucket) == Seq::<char>::empty(),
        items_str(indent, items, env, no_arn_bucket) == items_str(
            indent,
            items.remove(i),
            env,
            no_arn_bucket,
        ),
{
    let conds = items[i].conditions@;
    let p = conds.subrange(0, k + 1);
    assert(p.drop_last() =~= conds.subrange(0, k));
    assert(p.last() == conds[k]);
    assert(scan_conditions(env, no_arn_bucket, p).0);
    lemma_scan_dead_stable(env, no_arn_bucket, conds, k + 1);
    lemma_siblings_share_scope(indent, items, env, no_arn_bucket, i);
    let pre = items.subrange(0, i);
    let post = items.subrange(i + 1, items.len() as int);
    assert(items.remove(i) =~= pre + post);
    lemma_items_str_concat(indent, pre, post, env, no_arn_bucket);
    assert(items_str(indent, items, env, no_arn_bucket) =~= items_str(
        indent,
        items.remove(i),
        env,
        no_arn_bucket,
    ));
}

/// Scanning two condition lists that end in the same state, then the same
/// further conditions, ends in the same state.
pub proof fn lemma_scan_same_suffix(
    env: Map<Seq<char>, Val>,
    no_arn_bucket: bool,
    a1: Seq<EndpointRuleCondition>,
    a2: Seq<EndpointRuleCondition>,
    b: Seq<EndpointRuleCondition>,
)
    requires
        scan_conditions(env, no_arn_bucket, a1) == scan_conditions(env, no_arn_bucket, a2),
    ensures
        scan_conditions(env, no_arn_bucket, a1 + b) == scan_conditions(env, no_arn_bucket, a2 + b),
    decreases b.len(),
{
    if b.len() == 0 {
        assert(a1 + b =~= a1);
        assert(a2 + b =~= a2);
    } else {
        assert((a1 + b).drop_last() =~= a1 + b.drop_last());
        assert((a2 + b).drop_last() =~= a2 + b.drop_last());
        assert((a1 + b).last() == b.last());
        assert((a2 + b).last() == b.last());
        lemma_scan_same_suffix(env, no_arn_bucket, a1, a2, b.drop_last());
    }
}

/// An unassigned condition that is proven true, in the scope reached at it,
/// contributes nothing: the item evaluates exactly as if it were absent, so
/// it is never among the conditions rendered for the item.
pub proof fn lemma_true_condition_dropped(
    env: Map<Seq<char>, Val>,
    no_arn_bucket: bool,
    conds: Seq<EndpointRuleCondition>,
    k: int,
)
    requires
        0 <= k < conds.len(),
        conds[k].assign is None,
        condition_spec(scan_conditions(env, no_arn_bucket, conds.subrange(0, k)).2, no_arn_bucket, conds[k])
            == Val::ConstBool(true),
    ensures
        scan_conditions(env, no_arn_bucket, conds) == scan_conditions(env, no_arn_bucket, conds.remove(k)),
{
    let a1 = conds.subrange(0, k + 1);
    let a2 = conds.subrange(0, k);
    let b = conds.subrange(k + 1, conds.len() as int);
    assert(a1.drop_last() =~= a2);
    assert(a1.last() == conds[k]);
    lemma_scan_same_suffix(env, no_arn_bucket, a1, a2, b);
    assert(conds =~= a1 + b);
    assert(conds.remove(k) =~= a2 + b);
}

/// The scope that an item hands to its nested rules differs from its
/// parent's environment only at the names that its conditions assign.
pub proof fn lemma_scope_only_assigned(
    env: Map<Seq<char>, Val>,
    no_arn_bucket: bool,
    conds: Seq<EndpointRuleCondition>,
    name: Seq<char>,
)
    requires
        forall|k: int|
            0 <= k < conds.len() ==> #[trigger] conds[k].assign is None || conds[k].assign->0@ != name,
    ensures
        scan_conditions(env, no_arn_bucket, conds).2.contains_key(name) == env.contains_key(name),
        env.contains_key(name) ==> scan_conditions(env, no_arn_bucket, conds).2[name] == env[name],
    decreases conds.len(),
{
    if conds.len() > 0 {
        let d = conds.drop_last();
        assert forall|k: int| 0 <= k < d.len() implies #[trigger] d[k].assign is None || d[k].assign->0@
            != name by {
            assert(d[k] == conds[k]);
        }
        assert(conds.last() == conds[conds.len() - 1]);
        lemma_scope_only_assigned(env, no_arn_bucket, d, name);
    }
}

/// A name that a condition assigns is visible to the later conditions of the
/// same item, bound to that condition's value, until another condition
/// assigns it again.
pub proof fn lemma_assign_visible_later(
    env: Map<Seq<char>, Val>,
    no_arn_bucket: bool,
    conds: Seq<EndpointRuleCondition>,
    j: int,
    k: int,
)
    requires
        0 <= j < k <= conds.len(),
        conds[j].assign is Some,
        !scan_conditions(env, no_arn_bucket, conds.subrange(0, k)).0,
        forall|m: int|
            j < m < k ==> #[trigger] conds[m].assign is None || conds[m].assign->0@
                != conds[j].assign->0@,
    ensures
        scan_conditions(env, no_arn_bucket, conds.subrange(0, k)).2.contains_key(conds[j].assign->0@),
        scan_conditions(env, no_arn_bucket, conds.subrange(0, k)).2[conds[j].assign->0@]
            == condition_spec(
            scan_conditions(env, no_arn_bucket, conds.subrange(0, j)).2,
            no_arn_bucket,
            conds[j],
        ),
    decreases k,
{
    let p = conds.subrange(0, k);
    assert(p.drop_last() =~= conds.subrange(0, k - 1));
    assert(p.last() == conds[k - 1]);
    if k > j + 1 {
        lemma_assign_visible_later(env, no_arn_bucket, conds, j, k - 1);
    }
}

} // verus!
