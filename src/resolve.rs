//! Picks the physical columns of a segment that serve one logical field.
use crate::columnar_api::{
    build_empty_column, dynamic_type, first_values, handle_column_type, handle_intact, handle_type,
    into_str_column, open_dynamic, open_u64_lenient, read_columns, store_intact, columns_under, handle_values, dict_ordinals,
};
use tantivy_columnar::{Column, ColumnType, ColumnarReader, StrColumn};
use vstd::prelude::*;
use vstd::std_specs::iter::IteratorSpec;

verus! {

/// One segment's column store, with the segment's document count.
pub struct SegmentColumns {
    pub columnar: ColumnarReader,
    pub num_docs: u32,
}

/// Why binding failed: the column store could not be read.
#[derive(Debug)]
pub enum BindError {
    Storage(std::io::Error),
}

/// A distinct number for each physical column type.
pub open spec fn type_code(t: ColumnType) -> nat {
    match t {
        ColumnType::I64 => 0,
        ColumnType::U64 => 1,
        ColumnType::F64 => 2,
        ColumnType::Bytes => 3,
        ColumnType::Str => 4,
        ColumnType::Bool => 5,
        ColumnType::IpAddr => 6,
        ColumnType::DateTime => 7,
    }
}

proof fn lemma_type_code_injective(a: ColumnType, b: ColumnType)
    ensures
        type_code(a) == type_code(b) <==> a == b,
{
}

fn column_type_code(t: ColumnType) -> (r: u8)
    ensures
        r == type_code(t),
{
    match t {
        ColumnType::I64 => 0,
        ColumnType::U64 => 1,
        ColumnType::F64 => 2,
        ColumnType::Bytes => 3,
        ColumnType::Str => 4,
        ColumnType::Bool => 5,
        ColumnType::IpAddr => 6,
        ColumnType::DateTime => 7,
    }
}

/// Whether `t` is one of `allowed`.
pub fn is_allowed_type(allowed: &Vec<ColumnType>, t: ColumnType) -> (r: bool)
    ensures
        r == allowed@.contains(t),
{
    let code = column_type_code(t);
    let mut i: usize = 0;
    while i < allowed.len()
        invariant
            0 <= i <= allowed.len(),
            code == type_code(t),
            forall|j: int| 0 <= j < i ==> allowed@[j] != t,
        decreases allowed.len() - i,
    {
        let c = column_type_code(allowed[i]);
        proof {
            lemma_type_code_injective(allowed@[i as int], t);
        }
        if c == code {
            assert(allowed@[i as int] == t);
            return true;
        }
        i = i + 1;
    }
    false
}

/// The types a numeric or date aggregation reads.
pub open spec fn numeric_or_date_types() -> Seq<ColumnType> {
    seq![ColumnType::F64, ColumnType::U64, ColumnType::I64, ColumnType::DateTime]
}

/// The types a terms aggregation reads.
pub open spec fn terms_types() -> Seq<ColumnType> {
    seq![ColumnType::I64, ColumnType::U64, ColumnType::F64, ColumnType::Str]
}

pub fn get_numeric_or_date_column_types() -> (r: Vec<ColumnType>)
    ensures
        r@ == numeric_or_date_types(),
{
    let r = vec![ColumnType::F64, ColumnType::U64, ColumnType::I64, ColumnType::DateTime];
    assert(r@ =~= numeric_or_date_types());
    r
}

pub fn get_terms_column_types() -> (r: Vec<ColumnType>)
    ensures
        r@ == terms_types(),
{
    let r = vec![ColumnType::I64, ColumnType::U64, ColumnType::F64, ColumnType::Str];
    assert(r@ =~= terms_types());
    r
}

/// A column that holds no value for any of `num_docs` documents.
pub open spec fn is_empty_column(c: Column<u64>, num_docs: u32) -> bool {
    &&& first_values(c).len() == num_docs
    &&& forall|d: int| 0 <= d < num_docs ==> #[trigger] first_values(c)[d] is None
}

/// A column of type `t` is kept for a request that reads `allowed`: its type
/// is allowed and the store has a `u64` reading for it.
pub open spec fn readable(t: ColumnType, allowed: Seq<ColumnType>) -> bool {
    allowed.contains(t) && t != ColumnType::IpAddr
}

/// A stored column: its type and the first value of each document.
pub type StoredColumn = (ColumnType, Seq<Option<u64>>);

/// The kept columns among the first `k` of `cols`, in order.
pub open spec fn kept_upto(cols: Seq<StoredColumn>, allowed: Seq<ColumnType>, k: int) -> Seq<
    StoredColumn,
>
    decreases k,
{
    if k <= 0 || k > cols.len() {
        Seq::empty()
    } else {
        let rest = kept_upto(cols, allowed, k - 1);
        if readable(cols[k - 1].0, allowed) {
            rest.push(cols[k - 1])
        } else {
            rest
        }
    }
}

/// The kept columns among `cols`, in order.
pub open spec fn kept_columns(cols: Seq<StoredColumn>, allowed: Seq<ColumnType>) -> Seq<StoredColumn> {
    kept_upto(cols, allowed, cols.len() as int)
}

/// The columns a field has in `segment`: those stored under its name, and
/// none for a name holding NUL, which no stored column can carry.
pub open spec fn field_columns(segment: SegmentColumns, field: Seq<char>) -> Seq<StoredColumn> {
    if field.contains('\0') {
        Seq::empty()
    } else {
        columns_under(segment.columnar, field)
    }
}

/// `d` is the dictionary of a string column among `cols`.
pub open spec fn holds_dictionary(cols: Seq<StoredColumn>, d: StrColumn) -> bool {
    exists|i: int|
        0 <= i < cols.len() && #[trigger] cols[i].0 == ColumnType::Str && dict_ordinals(d)
            == cols[i].1
}

/// The types of the columns a field has in `segment`.
pub open spec fn field_types(segment: SegmentColumns, field: Seq<char>) -> Seq<ColumnType> {
    field_columns(segment, field).map_values(|c: StoredColumn| c.0)
}

/// The kept columns a field has in `segment`.
pub open spec fn field_kept(
    segment: SegmentColumns,
    field: Seq<char>,
    allowed: Seq<ColumnType>,
) -> Seq<StoredColumn> {
    kept_columns(field_columns(segment, field), allowed)
}

/// The first element of `s`, if any.
pub open spec fn first_of(s: Seq<StoredColumn>) -> Seq<StoredColumn> {
    if s.len() == 0 {
        Seq::empty()
    } else {
        seq![s[0]]
    }
}

/// What found columns hold: each one's type and first values, in order.
pub open spec fn views_of(found: Seq<(Column<u64>, ColumnType)>) -> Seq<StoredColumn> {
    found.map_values(|p: (Column<u64>, ColumnType)| (p.1, first_values(p.0)))
}

proof fn lemma_kept_first_stays(cols: Seq<StoredColumn>, allowed: Seq<ColumnType>, i: int, m: int)
    requires
        0 <= i <= m <= cols.len(),
        kept_upto(cols, allowed, i).len() > 0,
    ensures
        kept_upto(cols, allowed, m).len() > 0,
        kept_upto(cols, allowed, m)[0] == kept_upto(cols, allowed, i)[0],
    decreases m,
{
    if m > i {
        lemma_kept_first_stays(cols, allowed, i, m - 1);
    }
}

/// The `u64` readings of the columns the field has whose type is kept for
/// `allowed`, in the store's order; with `first_only`, only the first of them,
/// and no column after it is opened. A column whose type is not allowed is
/// never opened.
pub fn get_matching_columns(
    segment: &SegmentColumns,
    field_name: &str,
    allowed: &Vec<ColumnType>,
    first_only: bool,
) -> (r: Result<Vec<(Column<u64>, ColumnType)>, BindError>)
    requires
        store_intact(segment.columnar),
    ensures
        r is Ok && !first_only ==> views_of(r->Ok_0@) == field_kept(
            *segment,
            field_name@,
            allowed@,
        ),
        r is Ok && first_only ==> views_of(r->Ok_0@) == first_of(
            field_kept(*segment, field_name@, allowed@),
        ),
{
    let mut found: Vec<(Column<u64>, ColumnType)> = Vec::new();
    if has_nul(field_name) {
        assert(views_of(found@) =~= Seq::<StoredColumn>::empty());
        return Ok(found);
    }
    let ghost cols = columns_under(segment.columnar, field_name@);
    let handles = match read_columns(&segment.columnar, field_name) {
        Ok(handles) => handles,
        Err(e) => return Err(BindError::Storage(e)),
    };
    let mut i: usize = 0;
    while i < handles.len()
        invariant
            0 <= i <= handles.len(),
            handles.len() == cols.len(),
            cols == field_columns(*segment, field_name@),
            store_intact(segment.columnar),
            forall|j: int|
                0 <= j < handles.len() ==> handle_type(#[trigger] handles@[j]) == cols[j].0
                    && handle_values(handles@[j]) == cols[j].1,
            forall|j: int|
                0 <= j < handles.len() ==> (store_intact(segment.columnar) ==> handle_intact(
                    #[trigger] handles@[j],
                )),
            !first_only ==> views_of(found@) == kept_upto(cols, allowed@, i as int),
            first_only ==> views_of(found@) == first_of(kept_upto(cols, allowed@, i as int)),
        ensures
            !first_only ==> i == handles.len(),
            !first_only ==> views_of(found@) == kept_upto(cols, allowed@, i as int),
            first_only ==> views_of(found@) == first_of(
                kept_upto(cols, allowed@, cols.len() as int),
            ),
        decreases handles.len() - i,
    {
        if first_only && found.len() > 0 {
            proof {
                assert(views_of(found@).len() > 0);
                lemma_kept_first_stays(cols, allowed@, i as int, cols.len() as int);
                assert(first_of(kept_upto(cols, allowed@, cols.len() as int)) =~= views_of(
                    found@,
                ));
            }
            break;
        }
        let column_type = handle_column_type(&handles[i]);
        let ghost prev = found@;
        assert(handle_intact(handles@[i as int]));
        if is_allowed_type(allowed, column_type) {
            match open_u64_lenient(&handles[i]) {
                Ok(Some(column)) => {
                    found.push((column, column_type));
                },
                Ok(None) => {},
                Err(e) => return Err(BindError::Storage(e)),
            }
        }
        assert(views_of(found@) =~= if readable(cols[i as int].0, allowed@) {
            views_of(prev).push(cols[i as int])
        } else {
            views_of(prev)
        });
        proof {
            if first_only && prev.len() == 0 && readable(cols[i as int].0, allowed@) {
                assert(kept_upto(cols, allowed@, i as int).len() == 0);
            }
        }
        i = i + 1;
    }
    Ok(found)
}

/// The first found column, or an empty `u64` column over `num_docs` documents
/// where none was found.
pub fn first_or_empty(found: Vec<(Column<u64>, ColumnType)>, num_docs: u32) -> (r: (
    Column<u64>,
    ColumnType,
))
    ensures
        found.len() > 0 ==> r == found@[0],
        found.len() == 0 ==> r.1 == ColumnType::U64 && is_empty_column(r.0, num_docs),
{
    let mut found = found;
    if found.len() > 0 {
        found.remove(0)
    } else {
        (build_empty_column(num_docs), ColumnType::U64)
    }
}

/// The first two found columns as primary and secondary; further ones are not
/// used. Where none was found, the primary is an empty `u64` column over
/// `num_docs` documents.
pub fn first_two_or_empty(found: Vec<(Column<u64>, ColumnType)>, num_docs: u32) -> (r: (
    (Column<u64>, ColumnType),
    Option<(Column<u64>, ColumnType)>,
))
    ensures
        found.len() > 0 ==> r.0 == found@[0],
        found.len() == 0 ==> r.0.1 == ColumnType::U64 && is_empty_column(r.0.0, num_docs),
        found.len() <= 1 ==> r.1 is None,
        found.len() >= 2 ==> r.1 == Some(found@[1]),
{
    let mut found = found;
    if found.len() == 0 {
        return ((build_empty_column(num_docs), ColumnType::U64), None);
    }
    let first = found.remove(0);
    if found.len() == 0 {
        (first, None)
    } else {
        let second = found.remove(0);
        (first, Some(second))
    }
}

/// The first kept column for `field_name`, as the store reads it, or an empty
/// `u64` column over the segment's documents where the field has none.
pub fn get_ff_reader(
    segment: &SegmentColumns,
    field_name: &str,
    allowed: &Vec<ColumnType>,
) -> (r: Result<(Column<u64>, ColumnType), BindError>)
    requires
        store_intact(segment.columnar),
    ensures
        r is Ok && field_kept(*segment, field_name@, allowed@).len() > 0 ==> (r->Ok_0.1, first_values(
            r->Ok_0.0,
        )) == field_kept(*segment, field_name@, allowed@)[0],
        r is Ok && field_kept(*segment, field_name@, allowed@).len() == 0 ==> r->Ok_0.1
            == ColumnType::U64 && is_empty_column(r->Ok_0.0, segment.num_docs),
{
    let found = get_matching_columns(segment, field_name, allowed, true)?;
    assert(views_of(found@).len() == found@.len());
    if found.len() > 0 {
        assert(views_of(found@)[0] == (found@[0].1, first_values(found@[0].0)));
    }
    Ok(first_or_empty(found, segment.num_docs))
}

/// Every kept column for `field_name`, as the store reads them, in the store's
/// order; never empty, as an empty `u64` column over the segment's documents
/// stands in where the field has none.
pub fn get_all_ff_reader_or_empty(
    segment: &SegmentColumns,
    field_name: &str,
    allowed: &Vec<ColumnType>,
) -> (r: Result<Vec<(Column<u64>, ColumnType)>, BindError>)
    requires
        store_intact(segment.columnar),
    ensures
        r is Ok && field_kept(*segment, field_name@, allowed@).len() > 0 ==> views_of(r->Ok_0@)
            == field_kept(*segment, field_name@, allowed@),
        r is Ok && field_kept(*segment, field_name@, allowed@).len() == 0 ==> r->Ok_0.len() == 1
            && r->Ok_0@[0].1 == ColumnType::U64 && is_empty_column(
            r->Ok_0@[0].0,
            segment.num_docs,
        ),
{
    let mut found = get_matching_columns(segment, field_name, allowed, false)?;
    assert(views_of(found@).len() == found@.len());
    if found.len() == 0 {
        found.push((build_empty_column(segment.num_docs), ColumnType::U64));
    }
    Ok(found)
}

/// The string dictionary of `field_name`: present exactly when the field has
/// a string column, and then the one the store holds for it.
pub fn get_str_column(segment: &SegmentColumns, field_name: &str) -> (r: Result<
    Option<StrColumn>,
    BindError,
>)
    requires
        store_intact(segment.columnar),
    ensures
        r is Ok ==> ((r->Ok_0 is Some) <==> field_types(*segment, field_name@).contains(
            ColumnType::Str,
        )),
        r is Ok && r->Ok_0 is Some ==> holds_dictionary(
            field_columns(*segment, field_name@),
            r->Ok_0->Some_0,
        ),
{
    if has_nul(field_name) {
        assert(field_types(*segment, field_name@) =~= Seq::<ColumnType>::empty());
        return Ok(None);
    }
    let ghost types = field_types(*segment, field_name@);
    let handles = match read_columns(&segment.columnar, field_name) {
        Ok(handles) => handles,
        Err(e) => return Err(BindError::Storage(e)),
    };
    let mut i: usize = 0;
    while i < handles.len()
        invariant
            0 <= i <= handles.len(),
            handles.len() == types.len(),
            types == field_types(*segment, field_name@),
            !field_name@.contains('\0'),
            store_intact(segment.columnar),
            forall|j: int|
                0 <= j < handles.len() ==> handle_type(#[trigger] handles@[j]) == types[j]
                    && handle_values(handles@[j]) == field_columns(*segment, field_name@)[j].1,
            forall|j: int|
                0 <= j < handles.len() ==> (store_intact(segment.columnar) ==> handle_intact(
                    #[trigger] handles@[j],
                )),
            forall|j: int| 0 <= j < i ==> types[j] != ColumnType::Str,
        decreases handles.len() - i,
    {
        let column_type = handle_column_type(&handles[i]);
        if matches!(column_type, ColumnType::Str) {
            assert(handle_intact(handles@[i as int]));
            assert(types.contains(types[i as int]));
            let column = match open_dynamic(&handles[i]) {
                Ok(column) => column,
                Err(e) => return Err(BindError::Storage(e)),
            };
            let dict = into_str_column(column);
            assert(field_columns(*segment, field_name@)[i as int].0 == ColumnType::Str);
            return Ok(dict);
        }
        i = i + 1;
    }
    Ok(None)
}

} // verus!

verus! {

/// Whether `name` holds a NUL character.
pub fn has_nul(name: &str) -> (r: bool)
    ensures
        r == name@.contains('\0'),
{
    broadcast use vstd::string::axiom_spec_iter, vstd::string::next_postcondition;

    let mut chars = name.chars();
    let ghost mut seen: int = 0;
    loop
        invariant
            0 <= seen <= name@.len(),
            chars.obeys_prophetic_iter_laws(),
            chars.remaining() == name@.skip(seen),
            forall|j: int| 0 <= j < seen ==> name@[j] != '\0',
        decreases name@.len() - seen,
    {
        let c = chars.next();
        match c {
            None => {
                assert(name@.skip(seen).len() == 0);
                return false;
            },
            Some(c) => {
                assert(name@[seen] == c);
                if c == '\0' {
                    return true;
                }
                proof {
                    seen = seen + 1;
                }
                assert(chars.remaining() =~= name@.skip(seen));
            },
        }
    }
}

} // verus!
