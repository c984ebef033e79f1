//! Declarations of the column-store types this library hands around, and the
//! few calls into the column store that binding makes.
use tantivy_columnar::{
    Column, ColumnBlockAccessor, ColumnType, ColumnarReader, DynamicColumn, DynamicColumnHandle,
    StrColumn,
};
use vstd::prelude::*;

verus! {

#[verifier::external_type_specification]
pub struct ExColumnType(ColumnType);

#[verifier::external_type_specification]
#[verifier::external_body]
#[verifier::reject_recursive_types(T)]
pub struct ExColumn<T>(Column<T>);

#[verifier::external_type_specification]
#[verifier::external_body]
pub struct ExStrColumn(StrColumn);

#[verifier::external_type_specification]
#[verifier::external_body]
#[verifier::reject_recursive_types(T)]
pub struct ExColumnBlockAccessor<T>(ColumnBlockAccessor<T>);

#[verifier::external_type_specification]
#[verifier::external_body]
pub struct ExColumnarReader(ColumnarReader);

#[verifier::external_type_specification]
#[verifier::external_body]
pub struct ExDynamicColumnHandle(DynamicColumnHandle);

#[verifier::external_type_specification]
#[verifier::external_body]
pub struct ExDynamicColumn(DynamicColumn);

#[verifier::external_type_specification]
#[verifier::external_body]
pub struct ExIoError(std::io::Error);

/// The first value stored for each document of a column, indexed by document id;
/// its length is the column's document count.
pub uninterp spec fn first_values(c: Column<u64>) -> Seq<Option<u64>>;

/// Relies on `Column::build_empty_column`: a column over `num_docs` documents
/// that holds no value for any of them.
#[verifier::external_body]
pub(crate) fn build_empty_column(num_docs: u32) -> (r: Column<u64>)
    ensures
        first_values(r).len() == num_docs,
        forall|d: int| 0 <= d < num_docs ==> #[trigger] first_values(r)[d] is None,
{
    Column::build_empty_column(num_docs)
}

/// The values a decoding buffer holds from its last decoded block.
pub uninterp spec fn cached_values(b: ColumnBlockAccessor<u64>) -> Seq<u64>;

/// Relies on `ColumnBlockAccessor::default`: a buffer that holds nothing yet.
#[verifier::external_body]
pub(crate) fn new_block_accessor() -> (r: ColumnBlockAccessor<u64>)
    ensures
        cached_values(r).len() == 0,
{
    ColumnBlockAccessor::default()
}

} // verus!

verus! {

/// The columns a column store holds under each column name, in the store's
/// order (the order of the type codes): each column's type, and the first
/// value of its `u64` reading for each document.
pub uninterp spec fn stored_columns(r: ColumnarReader) -> Map<
    Seq<char>,
    Seq<(ColumnType, Seq<Option<u64>>)>,
>;

/// The columns stored under `name`; none where the name is absent.
pub open spec fn columns_under(r: ColumnarReader, name: Seq<char>) -> Seq<
    (ColumnType, Seq<Option<u64>>),
> {
    if stored_columns(r).dom().contains(name) {
        stored_columns(r)[name]
    } else {
        Seq::empty()
    }
}

/// The column store is well formed: every byte range its dictionary and its
/// columns record lies within its data.
pub uninterp spec fn store_intact(r: ColumnarReader) -> bool;

/// The bytes a column handle refers to decode without running past their end.
pub uninterp spec fn handle_intact(h: DynamicColumnHandle) -> bool;

/// The physical type that a column handle records.
pub uninterp spec fn handle_type(h: DynamicColumnHandle) -> ColumnType;

/// The first value, for each document, of the `u64` reading of the column a
/// handle refers to.
pub uninterp spec fn handle_values(h: DynamicColumnHandle) -> Seq<Option<u64>>;

/// The physical type of a decoded column.
pub uninterp spec fn dynamic_type(c: DynamicColumn) -> ColumnType;

/// The first value, for each document, of the `u64` reading of a decoded
/// column (for a string column: its term ordinals).
pub uninterp spec fn dynamic_values(c: DynamicColumn) -> Seq<Option<u64>>;

/// The first term ordinal of each document in a string column.
pub uninterp spec fn dict_ordinals(d: StrColumn) -> Seq<Option<u64>>;

/// Relies on `ColumnarReader::read_columns`: on success, one handle for each
/// column stored under `name`, in the store's order. The crate looks up the
/// keys that start with `name` and a NUL byte, so a name holding NUL is left
/// out; so is a malformed store, on which the crate panics.
#[verifier::external_body]
pub(crate) fn read_columns(reader: &ColumnarReader, name: &str) -> (r: Result<
    Vec<DynamicColumnHandle>,
    std::io::Error,
>)
    requires
        store_intact(*reader),
        !name@.contains('\0'),
    ensures
        r is Ok && !stored_columns(*reader).dom().contains(name@) ==> r->Ok_0@.len() == 0,
        r is Ok ==> r->Ok_0@.len() == columns_under(*reader, name@).len(),
        r is Ok ==> forall|i: int|
            0 <= i < r->Ok_0@.len() ==> handle_type(#[trigger] r->Ok_0@[i]) == columns_under(
                *reader,
                name@,
            )[i].0 && handle_values(r->Ok_0@[i]) == columns_under(*reader, name@)[i].1,
        r is Ok ==> forall|i: int|
            0 <= i < r->Ok_0@.len() ==> (store_intact(*reader) ==> handle_intact(
                #[trigger] r->Ok_0@[i],
            )),
{
    reader.read_columns(name)
}

/// Relies on `DynamicColumnHandle::column_type`: the type the handle records.
#[verifier::external_body]
pub(crate) fn handle_column_type(handle: &DynamicColumnHandle) -> (r: ColumnType)
    ensures
        r == handle_type(*handle),
{
    handle.column_type()
}

/// Relies on `DynamicColumnHandle::open_u64_lenient`: on success, a `u64`
/// reading of the column for every type but `IpAddr`, and none for `IpAddr`.
#[verifier::external_body]
pub(crate) fn open_u64_lenient(handle: &DynamicColumnHandle) -> (r: Result<
    Option<Column<u64>>,
    std::io::Error,
>)
    requires
        handle_intact(*handle),
    ensures
        r is Ok ==> ((r->Ok_0 is Some) <==> handle_type(*handle) != ColumnType::IpAddr),
        r is Ok && r->Ok_0 is Some ==> first_values(r->Ok_0->Some_0) == handle_values(*handle),
{
    handle.open_u64_lenient()
}

/// Relies on `DynamicColumnHandle::open`: on success, the column decoded by
/// the type the handle records.
#[verifier::external_body]
pub(crate) fn open_dynamic(handle: &DynamicColumnHandle) -> (r: Result<DynamicColumn, std::io::Error>)
    requires
        handle_intact(*handle),
    ensures
        r is Ok ==> dynamic_type(r->Ok_0) == handle_type(*handle),
        r is Ok ==> dynamic_values(r->Ok_0) == handle_values(*handle),
{
    handle.open()
}

/// Relies on the crate's conversion of a dynamic column into a string column:
/// a string column exactly when the column holds strings.
#[verifier::external_body]
pub(crate) fn into_str_column(column: DynamicColumn) -> (r: Option<StrColumn>)
    ensures
        (r is Some) <==> dynamic_type(column) == ColumnType::Str,
        r is Some ==> dict_ordinals(r->Some_0) == dynamic_values(column),
{
    column.into()
}

} // verus!
