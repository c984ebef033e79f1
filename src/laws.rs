//! Properties of binding that relate several calls or hold of every input.
use crate::bind::{
    binds_entry, bound_upto, node_bound, swapped, tree_bound, AggregationWithAccessor,
    AggregationsWithAccessor,
};
use crate::columnar_api::{first_values, stored_columns};
use crate::resolve::{field_columns, field_kept, field_types, kept_upto, terms_types, SegmentColumns, StoredColumn};
use crate::limits::AggregationLimits;
use crate::request::{AggKind, Aggregation, Aggregations};
use tantivy_columnar::ColumnType;
use vstd::prelude::*;

verus! {

/// On a node with a single column, `swap_accessor` changes nothing.
pub proof fn lemma_swap_single_column_is_noop(
    before: AggregationWithAccessor,
    after: AggregationWithAccessor,
)
    requires
        before.accessor2 is None,
        swapped(after, before),
    ensures
        after == before,
{
}

/// `swap_accessor` applied twice gives back the node it started from.
pub proof fn lemma_swap_twice_restores(
    start: AggregationWithAccessor,
    once: AggregationWithAccessor,
    twice: AggregationWithAccessor,
)
    requires
        swapped(once, start),
        swapped(twice, once),
    ensures
        twice == start,
{
}

/// No type is kept where none of the types is readable.
proof fn lemma_nothing_kept(cols: Seq<StoredColumn>, allowed: Seq<ColumnType>, k: int)
    requires
        0 <= k <= cols.len(),
        forall|i: int| 0 <= i < cols.len() ==> !allowed.contains(#[trigger] cols[i].0),
    ensures
        kept_upto(cols, allowed, k).len() == 0,
    decreases k,
{
    if k > 0 {
        lemma_nothing_kept(cols, allowed, k - 1);
    }
}

/// An aggregation whose field the segment lacks binds, whatever its kind, to
/// a column of the segment's documents that holds no value for any of them,
/// with no second column and no dictionary.
pub proof fn lemma_missing_field_binds_empty(
    n: AggregationWithAccessor,
    a: Aggregation,
    segment: SegmentColumns,
    limits: AggregationLimits,
)
    requires
        node_bound(n, a, segment, limits),
        !stored_columns(segment.columnar).dom().contains(a.agg.field_spec()),
    ensures
        first_values(n.accessor).len() == segment.num_docs,
        forall|d: int| 0 <= d < segment.num_docs ==> #[trigger] first_values(n.accessor)[d] is None,
        n.field_type == ColumnType::U64,
        n.accessor2 is None,
        n.str_dict_column is None,
{
    let types = field_types(segment, a.agg.field_spec());
    assert(field_columns(segment, a.agg.field_spec()).len() == 0);
    assert(types.len() == 0);
    assert(!types.contains(ColumnType::Str));
}

/// A terms aggregation whose field the segment holds only in types it cannot
/// read binds as if the field were missing.
pub proof fn lemma_unsupported_types_bind_as_missing(
    n: AggregationWithAccessor,
    a: Aggregation,
    segment: SegmentColumns,
    limits: AggregationLimits,
)
    requires
        node_bound(n, a, segment, limits),
        a.agg.kind_spec() == AggKind::Terms,
        forall|i: int|
            0 <= i < field_types(segment, a.agg.field_spec()).len() ==> !terms_types().contains(
                #[trigger] field_types(segment, a.agg.field_spec())[i],
            ),
    ensures
        first_values(n.accessor).len() == segment.num_docs,
        forall|d: int| 0 <= d < segment.num_docs ==> #[trigger] first_values(n.accessor)[d] is None,
        n.field_type == ColumnType::U64,
        n.accessor2 is None,
        n.str_dict_column is None,
{
    let types = field_types(segment, a.agg.field_spec());
    let cols = field_columns(segment, a.agg.field_spec());
    assert forall|i: int| 0 <= i < cols.len() implies !terms_types().contains(#[trigger] cols[i].0) by {
        assert(types[i] == cols[i].0);
    }
    lemma_nothing_kept(cols, terms_types(), cols.len() as int);
    assert(terms_types()[3] == ColumnType::Str);
    if types.contains(ColumnType::Str) {
        let i = choose|i: int| 0 <= i < types.len() && types[i] == ColumnType::Str;
        assert(!terms_types().contains(types[i]));
    }
}

/// A terms aggregation over a field with a single kept column has no second
/// column, and `swap_accessor` leaves it unchanged.
pub proof fn lemma_single_column_terms_swap_is_noop(
    n: AggregationWithAccessor,
    a: Aggregation,
    segment: SegmentColumns,
    limits: AggregationLimits,
    after: AggregationWithAccessor,
)
    requires
        node_bound(n, a, segment, limits),
        a.agg.kind_spec() == AggKind::Terms,
        field_kept(segment, a.agg.field_spec(), terms_types()).len() == 1,
        swapped(after, n),
    ensures
        (n.field_type, first_values(n.accessor)) == field_kept(segment, a.agg.field_spec(), terms_types())[0],
        n.accessor2 is None,
        after == n,
{
}

/// A terms aggregation over a field with two kept columns holds both, the
/// first as primary; one `swap_accessor` exchanges them and a second gives
/// back the node as bound.
pub proof fn lemma_two_column_terms_swap_twice_restores(
    n: AggregationWithAccessor,
    a: Aggregation,
    segment: SegmentColumns,
    limits: AggregationLimits,
    once: AggregationWithAccessor,
    twice: AggregationWithAccessor,
)
    requires
        node_bound(n, a, segment, limits),
        a.agg.kind_spec() == AggKind::Terms,
        field_kept(segment, a.agg.field_spec(), terms_types()).len() == 2,
        swapped(once, n),
        swapped(twice, once),
    ensures
        (n.field_type, first_values(n.accessor)) == field_kept(segment, a.agg.field_spec(), terms_types())[0],
        n.accessor2 is Some,
        (n.accessor2->Some_0.1, first_values(n.accessor2->Some_0.0)) == field_kept(segment, a.agg.field_spec(), terms_types())[1],
        (once.field_type, first_values(once.accessor)) == field_kept(segment, a.agg.field_spec(), terms_types())[1],
        (once.accessor2->Some_0.1, first_values(once.accessor2->Some_0.0)) == field_kept(segment, a.agg.field_spec(), terms_types())[0],
        twice == n,
{
}

proof fn lemma_bound_entry(
    t: AggregationsWithAccessor,
    r: Aggregations,
    segment: SegmentColumns,
    limits: AggregationLimits,
    j: int,
    k: int,
)
    requires
        0 <= j < k <= r.entries.len(),
        k <= t.aggs.len(),
        bound_upto(t, r, segment, limits, k),
    ensures
        binds_entry(t.aggs@, r, segment, limits, j),
    decreases k,
{
    if j < k - 1 {
        lemma_bound_entry(t, r, segment, limits, j, k - 1);
    }
}

/// Binding one request tree against two segments gives each top-level node of
/// either tree its own guard, fresh from the limits: nothing is accounted to
/// it yet, whatever the other tree's guards later account.
pub proof fn lemma_bindings_start_with_fresh_guards(
    t1: AggregationsWithAccessor,
    t2: AggregationsWithAccessor,
    r: Aggregations,
    segment1: SegmentColumns,
    segment2: SegmentColumns,
    limits: AggregationLimits,
    j: int,
)
    requires
        tree_bound(t1, r, segment1, limits),
        tree_bound(t2, r, segment2, limits),
        0 <= j < r.entries.len(),
    ensures
        t1.aggs@[j].1.limits == limits.fresh_guard(),
        t2.aggs@[j].1.limits == limits.fresh_guard(),
        t1.aggs@[j].1.limits.allocated == 0,
        t2.aggs@[j].1.limits.allocated == 0,
{
    lemma_bound_entry(t1, r, segment1, limits, j, r.entries.len() as int);
    lemma_bound_entry(t2, r, segment2, limits, j, r.entries.len() as int);
}

/// How deep the requests nest: 0 for an empty collection, one more than the
/// deepest nested collection otherwise.
pub open spec fn request_depth(r: Aggregations) -> nat
    decreases r, 1nat,
{
    request_depth_upto(r, r.entries.len() as int)
}

/// The depth of the first `k` requests of `r`.
pub open spec fn request_depth_upto(r: Aggregations, k: int) -> nat
    decreases r, 0nat, k,
{
    if 0 < k && k <= r.entries.len() {
        let rest = request_depth_upto(r, k - 1);
        let here = 1 + request_depth(r.entries@[k - 1].1.sub_aggregation);
        if rest >= here {
            rest
        } else {
            here
        }
    } else {
        0
    }
}

/// How deep the bound nodes nest, counted as `request_depth` counts requests.
pub open spec fn bound_depth(t: AggregationsWithAccessor) -> nat
    decreases t, 1nat,
{
    bound_depth_upto(t, t.aggs.len() as int)
}

/// The depth of the first `k` nodes of `t`.
pub open spec fn bound_depth_upto(t: AggregationsWithAccessor, k: int) -> nat
    decreases t, 0nat, k,
{
    if 0 < k && k <= t.aggs.len() {
        let rest = bound_depth_upto(t, k - 1);
        let here = 1 + bound_depth(t.aggs@[k - 1].1.sub_aggregation);
        if rest >= here {
            rest
        } else {
            here
        }
    } else {
        0
    }
}

/// A bound tree nests exactly as deep as the requests it binds.
pub proof fn lemma_bound_tree_keeps_depth(
    t: AggregationsWithAccessor,
    r: Aggregations,
    segment: SegmentColumns,
    limits: AggregationLimits,
)
    requires
        tree_bound(t, r, segment, limits),
    ensures
        bound_depth(t) == request_depth(r),
    decreases r, 1nat,
{
    lemma_bound_prefix_keeps_depth(t, r, segment, limits, r.entries.len() as int);
}

proof fn lemma_bound_prefix_keeps_depth(
    t: AggregationsWithAccessor,
    r: Aggregations,
    segment: SegmentColumns,
    limits: AggregationLimits,
    k: int,
)
    requires
        0 <= k <= r.entries.len(),
        t.aggs.len() == r.entries.len(),
        bound_upto(t, r, segment, limits, k),
    ensures
        bound_depth_upto(t, k) == request_depth_upto(r, k),
    decreases r, 0nat, k,
{
    if k > 0 {
        lemma_bound_prefix_keeps_depth(t, r, segment, limits, k - 1);
        assert(binds_entry(t.aggs@, r, segment, limits, k - 1));
        assert(node_bound(t.aggs@[k - 1].1, r.entries@[k - 1].1, segment, limits));
        lemma_bound_tree_keeps_depth(
            t.aggs@[k - 1].1.sub_aggregation,
            r.entries@[k - 1].1.sub_aggregation,
            segment,
            limits,
        );
    }
}

} // verus!
