//! Binds a request tree to one segment's columns: the bound tree that the
//! execution of the aggregations walks.
use crate::columnar_api::{cached_values, first_values, new_block_accessor, store_intact};
use crate::limits::{AggregationLimits, ResourceLimitGuard};
use crate::request::{same_aggregation, AggKind, Aggregation, Aggregations};
use crate::resolve::{
    field_columns, field_kept, field_types, first_two_or_empty, holds_dictionary, get_all_ff_reader_or_empty, views_of, get_ff_reader, get_numeric_or_date_column_types,
    get_str_column, get_terms_column_types, is_empty_column, numeric_or_date_types, terms_types,
    BindError, SegmentColumns,
};
use tantivy_columnar::{Column, ColumnBlockAccessor, ColumnType, StrColumn};
use vstd::prelude::*;

verus! {

/// The bound nodes of one level, by name, in request order.
pub struct AggregationsWithAccessor {
    pub aggs: Vec<(String, AggregationWithAccessor)>,
}

/// One aggregation bound to the columns of a segment.
pub struct AggregationWithAccessor {
    /// The column the aggregation reads; an empty one where the field has none.
    pub accessor: Column<u64>,
    /// The string dictionary of the field, for a terms aggregation.
    pub str_dict_column: Option<StrColumn>,
    /// The physical type of `accessor`.
    pub field_type: ColumnType,
    /// A second column of the field, of another type; terms aggregations only.
    pub accessor2: Option<(Column<u64>, ColumnType)>,
    pub sub_aggregation: AggregationsWithAccessor,
    pub limits: ResourceLimitGuard,
    pub column_block_accessor: ColumnBlockAccessor<u64>,
    /// A copy of the request.
    pub agg: Aggregation,
}

impl AggregationsWithAccessor {
    fn from_data(aggs: Vec<(String, AggregationWithAccessor)>) -> (r: Self)
        ensures
            r.aggs == aggs,
    {
        AggregationsWithAccessor { aggs }
    }

    /// Whether this level holds no node.
    pub fn is_empty(&self) -> (r: bool)
        ensures
            r == (self.aggs.len() == 0),
    {
        self.aggs.len() == 0
    }

    /// The number of nodes of this level.
    pub fn len(&self) -> (r: usize)
        ensures
            r == self.aggs.len(),
    {
        self.aggs.len()
    }
}

/// The column types an aggregation of kind `k` reads.
pub open spec fn allowed_types(k: AggKind) -> Seq<ColumnType> {
    if k == AggKind::Terms {
        terms_types()
    } else {
        numeric_or_date_types()
    }
}

/// `n` is a binding of request `a` to `segment`, with fresh guards made from
/// `limits`: it holds the kept columns of the field as the store reads them
/// (type and values), the first as primary and, for terms, the second as
/// secondary, and no other; an
/// empty `u64` column over the segment's documents where none is kept; a
/// dictionary for terms exactly when the field has a string column; and its
/// nested nodes bind the nested requests in the same way.
pub open spec fn node_bound(
    n: AggregationWithAccessor,
    a: Aggregation,
    segment: SegmentColumns,
    limits: AggregationLimits,
) -> bool
    decreases a, 0nat,
{
    let kind = a.agg.kind_spec();
    let kept = field_kept(segment, a.agg.field_spec(), allowed_types(kind));
    &&& same_aggregation(n.agg, a)
    &&& n.limits == limits.fresh_guard()
    &&& cached_values(n.column_block_accessor).len() == 0
    &&& (kept.len() > 0 ==> (n.field_type, first_values(n.accessor)) == kept[0])
    &&& (kept.len() == 0 ==> n.field_type == ColumnType::U64 && is_empty_column(
        n.accessor,
        segment.num_docs,
    ))
    &&& (kind != AggKind::Terms ==> n.accessor2 is None && n.str_dict_column is None)
    &&& (kind == AggKind::Terms ==> ((n.accessor2 is Some) <==> kept.len() >= 2))
    &&& (n.accessor2 matches Some(second) ==> (second.1, first_values(second.0)) == kept[1])
    &&& (n.str_dict_column matches Some(d) ==> holds_dictionary(
        field_columns(segment, a.agg.field_spec()),
        d,
    ))
    &&& (kind == AggKind::Terms ==> ((n.str_dict_column is Some) <==> field_types(
        segment,
        a.agg.field_spec(),
    ).contains(ColumnType::Str)))
    &&& tree_bound(n.sub_aggregation, a.sub_aggregation, segment, limits)
}

/// `t` binds every request of `r`, under the same names and in the same order.
pub open spec fn tree_bound(
    t: AggregationsWithAccessor,
    r: Aggregations,
    segment: SegmentColumns,
    limits: AggregationLimits,
) -> bool
    decreases r, 2nat,
{
    &&& t.aggs.len() == r.entries.len()
    &&& bound_upto(t, r, segment, limits, r.entries.len() as int)
}

/// The first `k` nodes of `t` bind the first `k` requests of `r`.
pub open spec fn bound_upto(
    t: AggregationsWithAccessor,
    r: Aggregations,
    segment: SegmentColumns,
    limits: AggregationLimits,
    k: int,
) -> bool
    decreases r, 1nat, k,
{
    if 0 < k && k <= r.entries.len() && k <= t.aggs.len() {
        &&& bound_upto(t, r, segment, limits, k - 1)
        &&& binds_entry(t.aggs@, r, segment, limits, k - 1)
    } else {
        true
    }
}

/// Node `j` of `nodes` binds request `j` of `r` under its name.
pub open spec fn binds_entry(
    nodes: Seq<(String, AggregationWithAccessor)>,
    r: Aggregations,
    segment: SegmentColumns,
    limits: AggregationLimits,
    j: int,
) -> bool
    decreases r, 0nat,
{
    &&& 0 <= j < r.entries.len()
    &&& nodes[j].0@ == r.entries@[j].0@
    &&& node_bound(nodes[j].1, r.entries@[j].1, segment, limits)
}

proof fn lemma_bound_from_each(
    t: AggregationsWithAccessor,
    r: Aggregations,
    segment: SegmentColumns,
    limits: AggregationLimits,
    k: int,
)
    requires
        0 <= k <= r.entries.len(),
        k <= t.aggs.len(),
        forall|j: int| 0 <= j < k ==> #[trigger] binds_entry(t.aggs@, r, segment, limits, j),
    ensures
        bound_upto(t, r, segment, limits, k),
    decreases k,
{
    if k > 0 {
        lemma_bound_from_each(t, r, segment, limits, k - 1);
        assert(binds_entry(t.aggs@, r, segment, limits, k - 1));
    }
}

impl AggregationWithAccessor {
    fn try_from_agg(
        agg: &Aggregation,
        sub_aggregation: &Aggregations,
        segment: &SegmentColumns,
        limits: AggregationLimits,
    ) -> (r: Result<AggregationWithAccessor, BindError>)
        requires
            *sub_aggregation == agg.sub_aggregation,
            store_intact(segment.columnar),
        ensures
            r is Ok ==> node_bound(r->Ok_0, *agg, *segment, limits),
        decreases agg,
    {
        let field_name = agg.agg.field_name();
        let (found, str_dict_column) = match agg.agg.kind() {
            AggKind::Terms => {
                let str_dict_column = get_str_column(segment, field_name)?;
                let allowed = get_terms_column_types();
                let found = get_all_ff_reader_or_empty(segment, field_name, &allowed)?;
                (found, str_dict_column)
            },
            AggKind::Range
            | AggKind::Histogram
            | AggKind::DateHistogram
            | AggKind::Average
            | AggKind::Count
            | AggKind::Max
            | AggKind::Min
            | AggKind::Stats
            | AggKind::Sum
            | AggKind::Percentiles => {
                let allowed = get_numeric_or_date_column_types();
                let column = get_ff_reader(segment, field_name, &allowed)?;
                let mut found: Vec<(Column<u64>, ColumnType)> = Vec::new();
                found.push(column);
                (found, None)
            },
        };
        let sub_aggregation = get_aggs_with_segment_accessor_and_validate(
            sub_aggregation,
            segment,
            &limits,
        )?;
        let node = Self::from_columns(
            agg,
            found,
            str_dict_column,
            sub_aggregation,
            &limits,
            segment.num_docs,
        );
        Ok(node)
    }

    /// The node for `agg`, from the columns found for its field in a segment of
    /// `num_docs` documents, the field's string dictionary and the nodes bound
    /// for the nested requests. The first found column is the primary one, an
    /// empty `u64` column where none was found; a terms aggregation keeps the
    /// second found column and the dictionary too. Further columns are not used.
    pub fn from_columns(
        agg: &Aggregation,
        found: Vec<(Column<u64>, ColumnType)>,
        str_dict_column: Option<StrColumn>,
        sub_aggregation: AggregationsWithAccessor,
        limits: &AggregationLimits,
        num_docs: u32,
    ) -> (r: AggregationWithAccessor)
        ensures
            assembled(r, *agg, found@, str_dict_column, sub_aggregation, *limits, num_docs),
    {
        let is_terms = matches!(agg.agg.kind(), AggKind::Terms);
        let (first, second) = first_two_or_empty(found, num_docs);
        let (accessor, field_type) = first;
        AggregationWithAccessor {
            accessor,
            accessor2: if is_terms {
                second
            } else {
                None
            },
            field_type,
            sub_aggregation,
            agg: agg.duplicate(),
            str_dict_column: if is_terms {
                str_dict_column
            } else {
                None
            },
            limits: limits.new_guard(),
            column_block_accessor: new_block_accessor(),
        }
    }

    /// Exchanges the column and type with the second column and type, where
    /// there is a second one, so that both readings of a field pass through
    /// the same collection code.
    pub fn swap_accessor(&mut self)
        ensures
            swapped(*final(self), *old(self)),
    {
        if let Some(second) = self.accessor2.as_mut() {
            std::mem::swap(&mut second.0, &mut self.accessor);
            std::mem::swap(&mut second.1, &mut self.field_type);
        }
    }
}

/// `n` is the node that `from_columns` makes of these arguments.
pub open spec fn assembled(
    n: AggregationWithAccessor,
    agg: Aggregation,
    found: Seq<(Column<u64>, ColumnType)>,
    str_dict_column: Option<StrColumn>,
    sub_aggregation: AggregationsWithAccessor,
    limits: AggregationLimits,
    num_docs: u32,
) -> bool {
    let is_terms = agg.agg.kind_spec() == AggKind::Terms;
    &&& same_aggregation(n.agg, agg)
    &&& n.limits == limits.fresh_guard()
    &&& cached_values(n.column_block_accessor).len() == 0
    &&& n.sub_aggregation == sub_aggregation
    &&& found.len() > 0 ==> (n.accessor, n.field_type) == found[0]
    &&& found.len() == 0 ==> n.field_type == ColumnType::U64 && is_empty_column(n.accessor, num_docs)
    &&& n.accessor2 == (if is_terms && found.len() >= 2 {
        Some(found[1])
    } else {
        None::<(Column<u64>, ColumnType)>
    })
    &&& n.str_dict_column == (if is_terms {
        str_dict_column
    } else {
        None::<StrColumn>
    })
}

/// `after` is `before` with its two columns exchanged, or `before` itself where
/// it has a single column; nothing else differs.
pub open spec fn swapped(after: AggregationWithAccessor, before: AggregationWithAccessor) -> bool {
    &&& after.str_dict_column == before.str_dict_column
    &&& after.sub_aggregation == before.sub_aggregation
    &&& after.limits == before.limits
    &&& after.column_block_accessor == before.column_block_accessor
    &&& after.agg == before.agg
    &&& match before.accessor2 {
        None => {
            &&& after.accessor2 is None
            &&& after.accessor == before.accessor
            &&& after.field_type == before.field_type
        },
        Some(second) => {
            &&& after.accessor2 == Some((before.accessor, before.field_type))
            &&& after.accessor == second.0
            &&& after.field_type == second.1
        },
    }
}

/// Binds every request of `aggs`, in order, to the columns of `segment`, with
/// a fresh guard from `limits` for each node. Fails, with no tree, on the
/// first storage error; a field the segment lacks is no error.
pub fn get_aggs_with_segment_accessor_and_validate(
    aggs: &Aggregations,
    segment: &SegmentColumns,
    limits: &AggregationLimits,
) -> (r: Result<AggregationsWithAccessor, BindError>)
    requires
        store_intact(segment.columnar),
    ensures
        r is Ok ==> tree_bound(r->Ok_0, *aggs, *segment, *limits),
        aggs.entries.len() == 0 ==> r is Ok && r->Ok_0.aggs.len() == 0,
    decreases aggs,
{
    let mut nodes: Vec<(String, AggregationWithAccessor)> = Vec::new();
    let mut i: usize = 0;
    while i < aggs.entries.len()
        invariant
            0 <= i <= aggs.entries.len(),
            nodes.len() == i,
            store_intact(segment.columnar),
            forall|j: int|
                0 <= j < i ==> #[trigger] binds_entry(nodes@, *aggs, *segment, *limits, j),
        decreases aggs.entries.len() - i,
    {
        let entry = &aggs.entries[i];
        let node = AggregationWithAccessor::try_from_agg(
            &entry.1,
            entry.1.sub_aggregation(),
            segment,
            *limits,
        )?;
        let ghost prev = nodes@;
        nodes.push((entry.0.clone(), node));
        assert forall|j: int| 0 <= j < i + 1 implies #[trigger] binds_entry(
            nodes@,
            *aggs,
            *segment,
            *limits,
            j,
        ) by {
            if j < i {
                assert(binds_entry(prev, *aggs, *segment, *limits, j));
                assert(nodes@[j] == prev[j]);
            }
        }
        i = i + 1;
    }
    let r = AggregationsWithAccessor::from_data(nodes);
    proof {
        lemma_bound_from_each(r, *aggs, *segment, *limits, aggs.entries.len() as int);
    }
    Ok(r)
}

} // verus!
