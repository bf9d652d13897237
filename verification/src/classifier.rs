//! The data-scan classifier.
//!
//! A depth-first, pre-order, short-circuiting traversal deciding whether a
//! plan reads real data or only catalog metadata. A table scan is a data
//! scan unless the first dot-delimited segment of its table name is exactly
//! the fixed system-schema name `information_schema`.

use vstd::prelude::*;
use std::sync::Arc;

use crate::plan::{ExtensionNode, LogicalPlan};

verus! {

/// Index of the first `'.'` in a name, or the name's length if it has none.
pub open spec fn first_dot(s: Seq<char>) -> int
    decreases s.len(),
{
    if s.len() == 0 {
        0
    } else if s[0] == '.' {
        0
    } else {
        1 + first_dot(s.drop_first())
    }
}

/// The first dot-delimited segment of a name.
pub open spec fn first_segment(s: Seq<char>) -> Seq<char> {
    s.subrange(0, first_dot(s))
}

/// Whether a scan's table name lives under the catalog namespace: its first
/// dot-delimited segment is exactly the system-schema name.
pub open spec fn is_catalog_table_name(s: Seq<char>) -> bool {
    first_segment(s) == "information_schema"@
}

/// Whether a plan holds at least one table scan outside the catalog
/// namespace. A plan with no table scan at all never does.
pub open spec fn plan_has_data_scan(p: LogicalPlan) -> bool
    decreases p,
{
    match p {
        LogicalPlan::Projection { expr: _, input, schema: _ } => plan_has_data_scan(*input),
        LogicalPlan::Filter { predicate: _, input } => plan_has_data_scan(*input),
        LogicalPlan::Aggregate { input, group_expr: _, aggr_expr: _, schema: _ } =>
            plan_has_data_scan(*input),
        LogicalPlan::Sort { expr: _, input } => plan_has_data_scan(*input),
        LogicalPlan::Union { inputs, schema: _, alias: _ } => plans_have_data_scan(inputs@),
        LogicalPlan::Join { left, right, on: _, join_type: _, schema: _ } => plan_has_data_scan(
            *left,
        ) || plan_has_data_scan(*right),
        LogicalPlan::TableScan {
            table_name,
            source: _,
            projection: _,
            projected_schema: _,
            filters: _,
            alias: _,
            limit: _,
        } => !is_catalog_table_name(table_name@),
        LogicalPlan::EmptyRelation { produce_one_row: _, schema: _ } => false,
        LogicalPlan::Limit { n: _, input } => plan_has_data_scan(*input),
        LogicalPlan::Skip { n: _, input } => plan_has_data_scan(*input),
        LogicalPlan::Repartition { input, partitioning_scheme: _ } => plan_has_data_scan(*input),
        LogicalPlan::CreateExternalTable { name: _ } => false,
        LogicalPlan::Explain { verbose: _, plan } => plan_has_data_scan(*plan),
        LogicalPlan::Extension { node } => match node {
            ExtensionNode::ClusterSend(cs) => plan_has_data_scan(*cs.input),
            ExtensionNode::ClusterAggregateTopK(tk) => plan_has_data_scan(*tk.input),
            ExtensionNode::Other(_) => false,
        },
    }
}

/// [`plan_has_data_scan`], lifted over the input lists of a union node.
pub open spec fn plans_have_data_scan(a: Seq<Arc<LogicalPlan>>) -> bool
    decreases a,
{
    exists|i: int| 0 <= i < a.len() && plan_has_data_scan(*(#[trigger] a[i]))
}

/// `first_dot` is in bounds, everything before it is dot-free, and it
/// points at a dot unless the name has none.
proof fn lemma_first_dot(s: Seq<char>)
    ensures
        0 <= first_dot(s) <= s.len(),
        forall|j: int| 0 <= j < first_dot(s) ==> s[j] != '.',
        first_dot(s) < s.len() ==> s[first_dot(s)] == '.',
    decreases s.len(),
{
    if s.len() == 0 {
    } else if s[0] == '.' {
    } else {
        lemma_first_dot(s.drop_first());
        assert forall|j: int| 0 <= j < first_dot(s) implies s[j] != '.' by {
            if j > 0 {
                assert(s.drop_first()[j - 1] != '.');
            }
        }
    }
}

/// Any dot-free prefix ending at a dot (or at the end) is the first
/// segment: `first_dot` is unique.
proof fn lemma_first_dot_unique(s: Seq<char>, k: int)
    requires
        0 <= k <= s.len(),
        forall|j: int| 0 <= j < k ==> s[j] != '.',
        k < s.len() ==> s[k] == '.',
    ensures
        k == first_dot(s),
    decreases s.len(),
{
    if s.len() == 0 {
    } else if s[0] == '.' {
        assert(k == 0);
    } else {
        assert(k != 0);
        lemma_first_dot_unique(s.drop_first(), k - 1);
    }
}

/// Whether the first dot-delimited segment of `name` is the system-schema
/// name.
fn name_is_catalog(name: &String) -> (r: bool)
    ensures
        r == is_catalog_table_name(name@),
{
    proof {
        reveal_strlit("information_schema");
        lemma_first_dot(name@);
    }
    let n = name.as_str();
    let len = n.unicode_len();
    let mut i: usize = 0;
    while i < len && n.get_char(i) != '.'
        invariant
            0 <= i <= len,
            len == n@.len(),
            n@ == name@,
            forall|j: int| 0 <= j < i ==> n@[j] != '.',
        decreases len - i,
    {
        i += 1;
    }
    proof {
        lemma_first_dot_unique(name@, i as int);
    }
    if i != 18 {
        proof {
            assert(first_segment(name@).len() == i);
            assert(("information_schema"@).len() == 18);
        }
        return false;
    }
    let catalog = "information_schema";
    let mut j: usize = 0;
    while j < 18
        invariant
            0 <= j <= 18,
            i == 18 <= name@.len(),
            i as int == first_dot(name@),
            catalog@ == "information_schema"@,
            catalog@.len() == 18,
            forall|t: int| 0 <= t < j ==> name@[t] == catalog@[t],
        decreases 18 - j,
    {
        if name.as_str().get_char(j) != catalog.get_char(j) {
            proof {
                assert(first_segment(name@)[j as int] != catalog@[j as int]);
            }
            return false;
        }
        j += 1;
    }
    proof {
        assert(first_segment(name@) =~= "information_schema"@);
    }
    true
}

/// Pre-order, short-circuiting traversal: true exactly when the plan holds
/// a table scan outside the catalog namespace.
#[verifier::loop_isolation(false)]
pub fn has_data_scan(p: &LogicalPlan) -> (r: bool)
    ensures
        r == plan_has_data_scan(*p),
    decreases *p,
{
    match p {
        LogicalPlan::Projection { expr: _, input, schema: _ } => has_data_scan(&**input),
        LogicalPlan::Filter { predicate: _, input } => has_data_scan(&**input),
        LogicalPlan::Aggregate { input, group_expr: _, aggr_expr: _, schema: _ } => has_data_scan(
            &**input,
        ),
        LogicalPlan::Sort { expr: _, input } => has_data_scan(&**input),
        LogicalPlan::Union { inputs, schema: _, alias: _ } => {
            let mut i: usize = 0;
            while i < inputs.len()
                invariant
                    i <= inputs.len(),
                    forall|j: int| 0 <= j < i ==> !plan_has_data_scan(*(#[trigger] inputs@[j])),
                decreases inputs@.len() - i,
            {
                proof {
                    assert(*inputs == (*p)->Union_inputs);
                    assert(decreases_to!(*p => (*p)->Union_inputs));
                    assert(decreases_to!(*inputs => inputs@));
                    assert(decreases_to!(inputs@ => inputs@[i as int]));
                    assert(decreases_to!(*p => inputs@[i as int]));
                }
                if has_data_scan(&*inputs[i]) {
                    proof {
                        assert(0 <= i < inputs@.len() && plan_has_data_scan(*inputs@[i as int]));
                        assert(plans_have_data_scan(inputs@));
                    }
                    return true;
                }
                i += 1;
            }
            proof {
                assert(!plans_have_data_scan(inputs@));
            }
            false
        },
        LogicalPlan::Join { left, right, on: _, join_type: _, schema: _ } => {
            if has_data_scan(&**left) {
                true
            } else {
                has_data_scan(&**right)
            }
        },
        LogicalPlan::TableScan {
            table_name,
            source: _,
            projection: _,
            projected_schema: _,
            filters: _,
            alias: _,
            limit: _,
        } => !name_is_catalog(table_name),
        LogicalPlan::EmptyRelation { produce_one_row: _, schema: _ } => false,
        LogicalPlan::Limit { n: _, input } => has_data_scan(&**input),
        LogicalPlan::Skip { n: _, input } => has_data_scan(&**input),
        LogicalPlan::Repartition { input, partitioning_scheme: _ } => has_data_scan(&**input),
        LogicalPlan::CreateExternalTable { name: _ } => false,
        LogicalPlan::Explain { verbose: _, plan } => has_data_scan(&**plan),
        LogicalPlan::Extension { node } => match node {
            ExtensionNode::ClusterSend(cs) => has_data_scan(&*cs.input),
            ExtensionNode::ClusterAggregateTopK(tk) => has_data_scan(&*tk.input),
            ExtensionNode::Other(_) => false,
        },
    }
}

} // verus!
