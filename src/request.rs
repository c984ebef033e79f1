//! The logical aggregation request tree: a named, ordered collection of
//! aggregations, each naming one field and owning its nested sub-requests.
use vstd::prelude::*;

verus! {

/// The kind of an aggregation, without its field.
#[derive(PartialEq, Eq, Structural, Clone, Copy, Debug)]
pub enum AggKind {
    Range,
    Histogram,
    DateHistogram,
    Terms,
    Average,
    Count,
    Max,
    Min,
    Stats,
    Sum,
    Percentiles,
}

/// One aggregation of the closed set of kinds, with the field it reads.
#[derive(Debug)]
pub enum AggregationVariants {
    Range { field: String },
    Histogram { field: String },
    DateHistogram { field: String },
    Terms { field: String },
    Average { field: String },
    Count { field: String },
    Max { field: String },
    Min { field: String },
    Stats { field: String },
    Sum { field: String },
    Percentiles { field: String },
}

impl AggregationVariants {
    pub open spec fn kind_spec(&self) -> AggKind {
        match self {
            AggregationVariants::Range { .. } => AggKind::Range,
            AggregationVariants::Histogram { .. } => AggKind::Histogram,
            AggregationVariants::DateHistogram { .. } => AggKind::DateHistogram,
            AggregationVariants::Terms { .. } => AggKind::Terms,
            AggregationVariants::Average { .. } => AggKind::Average,
            AggregationVariants::Count { .. } => AggKind::Count,
            AggregationVariants::Max { .. } => AggKind::Max,
            AggregationVariants::Min { .. } => AggKind::Min,
            AggregationVariants::Stats { .. } => AggKind::Stats,
            AggregationVariants::Sum { .. } => AggKind::Sum,
            AggregationVariants::Percentiles { .. } => AggKind::Percentiles,
        }
    }

    pub open spec fn field_spec(&self) -> Seq<char> {
        match self {
            AggregationVariants::Range { field } => field@,
            AggregationVariants::Histogram { field } => field@,
            AggregationVariants::DateHistogram { field } => field@,
            AggregationVariants::Terms { field } => field@,
            AggregationVariants::Average { field } => field@,
            AggregationVariants::Count { field } => field@,
            AggregationVariants::Max { field } => field@,
            AggregationVariants::Min { field } => field@,
            AggregationVariants::Stats { field } => field@,
            AggregationVariants::Sum { field } => field@,
            AggregationVariants::Percentiles { field } => field@,
        }
    }

    /// The field this aggregation reads.
    pub fn field_name(&self) -> (r: &str)
        ensures
            r@ == self.field_spec(),
    {
        match self {
            AggregationVariants::Range { field } => field.as_str(),
            AggregationVariants::Histogram { field } => field.as_str(),
            AggregationVariants::DateHistogram { field } => field.as_str(),
            AggregationVariants::Terms { field } => field.as_str(),
            AggregationVariants::Average { field } => field.as_str(),
            AggregationVariants::Count { field } => field.as_str(),
            AggregationVariants::Max { field } => field.as_str(),
            AggregationVariants::Min { field } => field.as_str(),
            AggregationVariants::Stats { field } => field.as_str(),
            AggregationVariants::Sum { field } => field.as_str(),
            AggregationVariants::Percentiles { field } => field.as_str(),
        }
    }

    /// The kind of this aggregation.
    pub fn kind(&self) -> (r: AggKind)
        ensures
            r == self.kind_spec(),
    {
        match self {
            AggregationVariants::Range { .. } => AggKind::Range,
            AggregationVariants::Histogram { .. } => AggKind::Histogram,
            AggregationVariants::DateHistogram { .. } => AggKind::DateHistogram,
            AggregationVariants::Terms { .. } => AggKind::Terms,
            AggregationVariants::Average { .. } => AggKind::Average,
            AggregationVariants::Count { .. } => AggKind::Count,
            AggregationVariants::Max { .. } => AggKind::Max,
            AggregationVariants::Min { .. } => AggKind::Min,
            AggregationVariants::Stats { .. } => AggKind::Stats,
            AggregationVariants::Sum { .. } => AggKind::Sum,
            AggregationVariants::Percentiles { .. } => AggKind::Percentiles,
        }
    }
}

/// One aggregation request together with the requests nested under it.
#[derive(Debug)]
pub struct Aggregation {
    pub agg: AggregationVariants,
    pub sub_aggregation: Aggregations,
}

/// An ordered collection of named aggregation requests.
#[derive(Debug)]
pub struct Aggregations {
    pub entries: Vec<(String, Aggregation)>,
}

} // verus!

verus! {

/// `x` and `y` are the same aggregation: same kind, same field, and the same
/// nested requests.
pub open spec fn same_aggregation(x: Aggregation, y: Aggregation) -> bool
    decreases y, 0nat,
{
    &&& x.agg.kind_spec() == y.agg.kind_spec()
    &&& x.agg.field_spec() == y.agg.field_spec()
    &&& same_aggregations(x.sub_aggregation, y.sub_aggregation)
}

/// `x` and `y` hold the same names, in the same order, with the same requests.
pub open spec fn same_aggregations(x: Aggregations, y: Aggregations) -> bool
    decreases y, 2nat,
{
    &&& x.entries.len() == y.entries.len()
    &&& same_entries_upto(x, y, y.entries.len() as int)
}

/// The first `k` entries of `x` and `y` agree.
pub open spec fn same_entries_upto(x: Aggregations, y: Aggregations, k: int) -> bool
    decreases y, 1nat, k,
{
    if 0 < k && k <= y.entries.len() && k <= x.entries.len() {
        &&& same_entries_upto(x, y, k - 1)
        &&& x.entries@[k - 1].0@ == y.entries@[k - 1].0@
        &&& same_aggregation(x.entries@[k - 1].1, y.entries@[k - 1].1)
    } else {
        true
    }
}

} // verus!

verus! {

/// Entry `j` of `x` and of `y` has the same name and the same request.
pub open spec fn entry_agrees(x: Seq<(String, Aggregation)>, y: Seq<(String, Aggregation)>, j: int) -> bool {
    &&& x[j].0@ == y[j].0@
    &&& same_aggregation(x[j].1, y[j].1)
}

proof fn lemma_same_entries_from_each(x: Aggregations, y: Aggregations, k: int)
    requires
        0 <= k <= x.entries.len(),
        k <= y.entries.len(),
        forall|j: int| 0 <= j < k ==> #[trigger] entry_agrees(x.entries@, y.entries@, j),
    ensures
        same_entries_upto(x, y, k),
    decreases k,
{
    if k > 0 {
        lemma_same_entries_from_each(x, y, k - 1);
        assert(entry_agrees(x.entries@, y.entries@, k - 1));
    }
}

impl AggregationVariants {
    /// A copy of this aggregation.
    pub fn duplicate(&self) -> (r: AggregationVariants)
        ensures
            r.kind_spec() == self.kind_spec(),
            r.field_spec() == self.field_spec(),
    {
        match self {
            AggregationVariants::Range { field } => AggregationVariants::Range { field: field.clone() },
            AggregationVariants::Histogram { field } => AggregationVariants::Histogram { field: field.clone() },
            AggregationVariants::DateHistogram { field } => AggregationVariants::DateHistogram { field: field.clone() },
            AggregationVariants::Terms { field } => AggregationVariants::Terms { field: field.clone() },
            AggregationVariants::Average { field } => AggregationVariants::Average { field: field.clone() },
            AggregationVariants::Count { field } => AggregationVariants::Count { field: field.clone() },
            AggregationVariants::Max { field } => AggregationVariants::Max { field: field.clone() },
            AggregationVariants::Min { field } => AggregationVariants::Min { field: field.clone() },
            AggregationVariants::Stats { field } => AggregationVariants::Stats { field: field.clone() },
            AggregationVariants::Sum { field } => AggregationVariants::Sum { field: field.clone() },
            AggregationVariants::Percentiles { field } => AggregationVariants::Percentiles { field: field.clone() },
        }
    }
}

impl Aggregation {
    /// A deep copy of this request and of everything nested under it.
    pub fn duplicate(&self) -> (r: Aggregation)
        ensures
            same_aggregation(r, *self),
        decreases self,
    {
        let agg = self.agg.duplicate();
        let sub_aggregation = self.sub_aggregation.duplicate();
        Aggregation { agg, sub_aggregation }
    }

    /// The requests nested under this one.
    pub fn sub_aggregation(&self) -> (r: &Aggregations)
        ensures
            *r == self.sub_aggregation,
    {
        &self.sub_aggregation
    }
}

impl Aggregations {
    /// A collection with no request.
    pub fn new() -> (r: Aggregations)
        ensures
            r.entries.len() == 0,
    {
        Aggregations { entries: Vec::new() }
    }

    /// Appends `agg` under `name` after the requests already held.
    pub fn push(&mut self, name: String, agg: Aggregation)
        ensures
            final(self).entries@ == old(self).entries@.push((name, agg)),
    {
        self.entries.push((name, agg));
    }

    /// A deep copy of every request, in the same order.
    pub fn duplicate(&self) -> (r: Aggregations)
        ensures
            same_aggregations(r, *self),
        decreases self,
    {
        let mut entries: Vec<(String, Aggregation)> = Vec::new();
        let mut i: usize = 0;
        while i < self.entries.len()
            invariant
                0 <= i <= self.entries.len(),
                entries.len() == i,
                forall|j: int|
                    0 <= j < i ==> #[trigger] entry_agrees(entries@, self.entries@, j),
            decreases self.entries.len() - i,
        {
            let name = self.entries[i].0.clone();
            let agg = self.entries[i].1.duplicate();
            let ghost prev = entries@;
            entries.push((name, agg));
            assert forall|j: int| 0 <= j < i + 1 implies #[trigger] entry_agrees(
                entries@,
                self.entries@,
                j,
            ) by {
                if j < i {
                    assert(entry_agrees(prev, self.entries@, j));
                    assert(entries@[j] == prev[j]);
                }
            }
            i = i + 1;
        }
        let r = Aggregations { entries };
        proof {
            lemma_same_entries_from_each(r, *self, self.entries.len() as int);
        }
        r
    }
}

} // verus!
