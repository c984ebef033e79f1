use agg_bind::bind::{
    get_aggs_with_segment_accessor_and_validate, AggregationWithAccessor, AggregationsWithAccessor,
};
use agg_bind::limits::{AggregationLimits, MemoryLimitExceeded, DEFAULT_BUCKET_LIMIT, DEFAULT_MEMORY_LIMIT};
use agg_bind::request::{AggKind, Aggregation, AggregationVariants, Aggregations};
use agg_bind::resolve::{
    get_all_ff_reader_or_empty, get_ff_reader, get_numeric_or_date_column_types,
    get_matching_columns, get_str_column, get_terms_column_types, is_allowed_type, SegmentColumns,
};
use tantivy_columnar::{ColumnType, ColumnarReader, ColumnarWriter, MonotonicallyMappableToU64};

fn segment(num_docs: u32, fill: impl FnOnce(&mut ColumnarWriter)) -> SegmentColumns {
    let mut writer = ColumnarWriter::default();
    fill(&mut writer);
    let mut buffer: Vec<u8> = Vec::new();
    writer.serialize(num_docs, None, &mut buffer).unwrap();
    SegmentColumns { columnar: ColumnarReader::open(buffer).unwrap(), num_docs }
}

fn leaf(agg: AggregationVariants) -> Aggregation {
    Aggregation { agg, sub_aggregation: Aggregations::new() }
}

fn single(name: &str, agg: Aggregation) -> Aggregations {
    let mut aggs = Aggregations::new();
    aggs.push(name.to_string(), agg);
    aggs
}

fn bind(aggs: &Aggregations, seg: &SegmentColumns) -> AggregationsWithAccessor {
    get_aggs_with_segment_accessor_and_validate(aggs, seg, &AggregationLimits::new(None, None))
        .unwrap()
}

fn color_segment() -> SegmentColumns {
    segment(4, |w| {
        w.record_str(0, "color", "red");
        w.record_str(1, "color", "blue");
        w.record_numerical(2, "color", 7u64);
        w.record_numerical(3, "color", 9u64);
    })
}

#[test]
fn average_on_missing_field_gives_empty_accessor() {
    let seg = segment(10, |w| w.record_numerical(0, "other", 1u64));
    let req = single("avg_price", leaf(AggregationVariants::Average { field: "price".to_string() }));
    let bound = bind(&req, &seg);
    assert_eq!(bound.aggs.len(), 1);
    assert_eq!(bound.aggs[0].0, "avg_price");
    let node = &bound.aggs[0].1;
    assert_eq!(node.accessor.num_docs(), 10);
    for doc in 0..10u32 {
        assert_eq!(node.accessor.first(doc), None);
    }
    assert_eq!(node.field_type, ColumnType::U64);
    assert!(node.accessor2.is_none());
    assert!(node.str_dict_column.is_none());
}

#[test]
fn every_kind_tolerates_a_missing_field() {
    let seg = segment(3, |_| {});
    let kinds = vec![
        AggregationVariants::Range { field: "f".to_string() },
        AggregationVariants::Histogram { field: "f".to_string() },
        AggregationVariants::DateHistogram { field: "f".to_string() },
        AggregationVariants::Terms { field: "f".to_string() },
        AggregationVariants::Count { field: "f".to_string() },
        AggregationVariants::Max { field: "f".to_string() },
        AggregationVariants::Min { field: "f".to_string() },
        AggregationVariants::Stats { field: "f".to_string() },
        AggregationVariants::Sum { field: "f".to_string() },
        AggregationVariants::Percentiles { field: "f".to_string() },
    ];
    for kind in kinds {
        let bound = bind(&single("a", leaf(kind)), &seg);
        let node = &bound.aggs[0].1;
        assert_eq!(node.accessor.num_docs(), 3);
        assert_eq!(node.accessor.first(2), None);
        assert_eq!(node.field_type, ColumnType::U64);
        assert!(node.accessor2.is_none());
    }
}

#[test]
fn terms_on_two_typed_field_binds_both_columns() {
    let seg = color_segment();
    let req = single("by_color", leaf(AggregationVariants::Terms { field: "color".to_string() }));
    let bound = bind(&req, &seg);
    let node = &bound.aggs[0].1;
    assert!(node.str_dict_column.is_some());
    let second = node.accessor2.as_ref().expect("second column");
    assert_eq!(node.field_type, ColumnType::I64);
    assert_eq!(second.1, ColumnType::Str);
    assert_eq!(node.accessor.first(2), Some(7i64.to_u64()));
    assert_eq!(node.accessor.first(0), None);
    assert!(second.0.first(0).is_some());
}

#[test]
fn swap_twice_restores_two_typed_node() {
    let seg = color_segment();
    let req = single("by_color", leaf(AggregationVariants::Terms { field: "color".to_string() }));
    let mut bound = bind(&req, &seg);
    let node = &mut bound.aggs[0].1;
    node.swap_accessor();
    assert_eq!(node.field_type, ColumnType::Str);
    assert_eq!(node.accessor2.as_ref().unwrap().1, ColumnType::I64);
    assert_eq!(node.accessor.first(2), None);
    node.swap_accessor();
    assert_eq!(node.field_type, ColumnType::I64);
    assert_eq!(node.accessor2.as_ref().unwrap().1, ColumnType::Str);
    assert_eq!(node.accessor.first(2), Some(7i64.to_u64()));
    assert_eq!(node.accessor.first(3), Some(9i64.to_u64()));
}

#[test]
fn terms_on_single_column_has_no_second_and_swap_is_noop() {
    let seg = segment(3, |w| {
        w.record_numerical(0, "size", 5i64);
        w.record_numerical(2, "size", -1i64);
    });
    let req = single("by_size", leaf(AggregationVariants::Terms { field: "size".to_string() }));
    let mut bound = bind(&req, &seg);
    let node = &mut bound.aggs[0].1;
    assert!(node.accessor2.is_none());
    assert!(node.str_dict_column.is_none());
    assert_eq!(node.field_type, ColumnType::I64);
    let before = node.accessor.first(0);
    node.swap_accessor();
    assert!(node.accessor2.is_none());
    assert_eq!(node.field_type, ColumnType::I64);
    assert_eq!(node.accessor.first(0), before);
    assert!(before.is_some());
}

#[test]
fn terms_on_unsupported_types_behaves_as_missing() {
    let seg = segment(5, |w| {
        w.record_bool(0, "flag", true);
        w.record_bytes(1, "flag", b"raw");
    });
    let req = single("by_flag", leaf(AggregationVariants::Terms { field: "flag".to_string() }));
    let bound = bind(&req, &seg);
    let node = &bound.aggs[0].1;
    assert_eq!(node.accessor.num_docs(), 5);
    for doc in 0..5u32 {
        assert_eq!(node.accessor.first(doc), None);
    }
    assert_eq!(node.field_type, ColumnType::U64);
    assert!(node.accessor2.is_none());
}

#[test]
fn numeric_aggregation_reads_the_numeric_column() {
    let seg = segment(3, |w| {
        w.record_numerical(0, "price", 2.5f64);
        w.record_numerical(1, "price", 4.0f64);
    });
    let req = single("max_price", leaf(AggregationVariants::Max { field: "price".to_string() }));
    let bound = bind(&req, &seg);
    let node = &bound.aggs[0].1;
    assert_eq!(node.field_type, ColumnType::F64);
    assert!(node.accessor.first(0).is_some());
    assert_eq!(node.accessor.first(2), None);
}

#[test]
fn numeric_aggregation_ignores_a_string_column() {
    let seg = segment(2, |w| w.record_str(0, "name", "x"));
    let req = single("r", leaf(AggregationVariants::Range { field: "name".to_string() }));
    let bound = bind(&req, &seg);
    let node = &bound.aggs[0].1;
    assert_eq!(node.field_type, ColumnType::U64);
    assert_eq!(node.accessor.num_docs(), 2);
    assert_eq!(node.accessor.first(0), None);
}

#[test]
fn nested_requests_keep_names_order_and_depth() {
    let seg = color_segment();
    let mut inner = Aggregations::new();
    inner.push("avg".to_string(), leaf(AggregationVariants::Average { field: "color".to_string() }));
    let mut middle = Aggregations::new();
    middle.push(
        "by_color".to_string(),
        Aggregation { agg: AggregationVariants::Terms { field: "color".to_string() }, sub_aggregation: inner },
    );
    middle.push("count".to_string(), leaf(AggregationVariants::Count { field: "color".to_string() }));
    let mut top = Aggregations::new();
    top.push("zeta".to_string(), leaf(AggregationVariants::Sum { field: "x".to_string() }));
    top.push(
        "alpha".to_string(),
        Aggregation { agg: AggregationVariants::Histogram { field: "x".to_string() }, sub_aggregation: middle },
    );
    let bound = bind(&top, &seg);
    let names: Vec<&str> = bound.aggs.iter().map(|(n, _)| n.as_str()).collect();
    assert_eq!(names, vec!["zeta", "alpha"]);
    assert!(bound.aggs[0].1.sub_aggregation.is_empty());
    let level2 = &bound.aggs[1].1.sub_aggregation;
    let names2: Vec<&str> = level2.aggs.iter().map(|(n, _)| n.as_str()).collect();
    assert_eq!(names2, vec!["by_color", "count"]);
    let level3 = &level2.aggs[0].1.sub_aggregation;
    assert_eq!(level3.len(), 1);
    assert_eq!(level3.aggs[0].0, "avg");
    assert!(level3.aggs[0].1.sub_aggregation.is_empty());
    assert_eq!(level3.aggs[0].1.agg.agg.kind(), AggKind::Average);
    assert_eq!(level2.aggs[0].1.agg.sub_aggregation.entries.len(), 1);
}

#[test]
fn guards_of_two_segments_are_independent() {
    let req = single("avg_price", leaf(AggregationVariants::Average { field: "price".to_string() }));
    let limits = AggregationLimits::new(Some(100), None);
    let mut first = get_aggs_with_segment_accessor_and_validate(&req, &color_segment(), &limits).unwrap();
    let second = get_aggs_with_segment_accessor_and_validate(&req, &segment(1, |_| {}), &limits).unwrap();
    assert_eq!(first.aggs[0].1.limits.allocated, 0);
    first.aggs[0].1.limits.add_memory_consumed(40).unwrap();
    assert_eq!(first.aggs[0].1.limits.allocated, 40);
    assert_eq!(second.aggs[0].1.limits.allocated, 0);
    assert_eq!(second.aggs[0].1.limits.memory_limit, 100);
}

#[test]
fn guard_refuses_past_its_ceiling() {
    let mut guard = AggregationLimits::new(Some(10), Some(3)).new_guard();
    assert_eq!(guard.add_memory_consumed(6), Ok(()));
    assert_eq!(guard.add_memory_consumed(5), Err(MemoryLimitExceeded { limit: 10, requested: 5 }));
    assert_eq!(guard.allocated, 6);
    assert_eq!(guard.add_memory_consumed(4), Ok(()));
    assert_eq!(guard.allocated, 10);
}

#[test]
fn limits_default_ceilings() {
    let limits = AggregationLimits::new(None, None);
    assert_eq!(limits.memory_limit, DEFAULT_MEMORY_LIMIT);
    assert_eq!(limits.bucket_limit, DEFAULT_BUCKET_LIMIT);
    assert_eq!(DEFAULT_MEMORY_LIMIT, 500_000_000);
    let given = AggregationLimits::new(Some(7), Some(2));
    assert_eq!((given.memory_limit, given.bucket_limit), (7, 2));
}

#[test]
fn empty_request_binds_to_empty_tree() {
    let bound = bind(&Aggregations::new(), &color_segment());
    assert!(bound.is_empty());
    assert_eq!(bound.len(), 0);
}

#[test]
fn allowed_type_sets() {
    assert_eq!(
        get_numeric_or_date_column_types(),
        vec![ColumnType::F64, ColumnType::U64, ColumnType::I64, ColumnType::DateTime]
    );
    let terms = get_terms_column_types();
    assert_eq!(terms, vec![ColumnType::I64, ColumnType::U64, ColumnType::F64, ColumnType::Str]);
    assert!(is_allowed_type(&terms, ColumnType::Str));
    assert!(!is_allowed_type(&terms, ColumnType::Bool));
    assert!(!is_allowed_type(&terms, ColumnType::DateTime));
}

#[test]
fn resolvers_on_two_typed_field() {
    let seg = color_segment();
    let all = get_all_ff_reader_or_empty(&seg, "color", &get_terms_column_types()).unwrap();
    let types: Vec<ColumnType> = all.iter().map(|(_, t)| *t).collect();
    assert_eq!(types, vec![ColumnType::I64, ColumnType::Str]);
    let (_, one) = get_ff_reader(&seg, "color", &get_terms_column_types()).unwrap();
    assert_eq!(one, ColumnType::I64);
    let missing = get_all_ff_reader_or_empty(&seg, "shape", &get_terms_column_types()).unwrap();
    assert_eq!(missing.len(), 1);
    assert_eq!(missing[0].1, ColumnType::U64);
    assert_eq!(missing[0].0.num_docs(), 4);
}

#[test]
fn duplicate_keeps_request() {
    let req = single("t", leaf(AggregationVariants::Terms { field: "color".to_string() }));
    let copy = req.duplicate();
    assert_eq!(copy.entries[0].0, "t");
    assert_eq!(copy.entries[0].1.agg.field_name(), "color");
    assert_eq!(copy.entries[0].1.agg.kind(), AggKind::Terms);
}

#[test]
fn from_columns_keeps_only_first_two_for_terms() {
    let seg = color_segment();
    let mut found = get_all_ff_reader_or_empty(&seg, "color", &get_terms_column_types()).unwrap();
    found.push((tantivy_columnar::Column::build_empty_column(4), ColumnType::F64));
    assert_eq!(found.len(), 3);
    let agg = leaf(AggregationVariants::Terms { field: "color".to_string() });
    let limits = AggregationLimits::new(Some(9), None);
    let node = AggregationWithAccessor::from_columns(&agg, found, None, bind(&Aggregations::new(), &seg), &limits, 4);
    assert_eq!(node.field_type, ColumnType::I64);
    assert_eq!(node.accessor2.as_ref().unwrap().1, ColumnType::Str);
    assert_eq!(node.limits.memory_limit, 9);
    assert_eq!(node.limits.allocated, 0);
}

#[test]
fn from_columns_drops_second_column_for_metrics() {
    let seg = color_segment();
    let found = get_all_ff_reader_or_empty(&seg, "color", &get_terms_column_types()).unwrap();
    let agg = leaf(AggregationVariants::Stats { field: "color".to_string() });
    let limits = AggregationLimits::new(None, None);
    let node = AggregationWithAccessor::from_columns(&agg, found, None, bind(&Aggregations::new(), &seg), &limits, 4);
    assert_eq!(node.field_type, ColumnType::I64);
    assert!(node.accessor2.is_none());
    assert_eq!(node.agg.agg.kind(), AggKind::Stats);
}

#[test]
fn from_columns_with_nothing_found_is_empty() {
    let seg = color_segment();
    let agg = leaf(AggregationVariants::Terms { field: "shape".to_string() });
    let limits = AggregationLimits::new(None, None);
    let node = AggregationWithAccessor::from_columns(&agg, Vec::new(), None, bind(&Aggregations::new(), &seg), &limits, 6);
    assert_eq!(node.accessor.num_docs(), 6);
    assert_eq!(node.accessor.first(5), None);
    assert_eq!(node.field_type, ColumnType::U64);
    assert!(node.accessor2.is_none());
}

#[test]
fn string_dictionary_present_exactly_with_a_string_column() {
    let seg = color_segment();
    assert!(get_str_column(&seg, "color").unwrap().is_some());
    let numeric = segment(2, |w| w.record_numerical(0, "size", 3i64));
    assert!(get_str_column(&numeric, "size").unwrap().is_none());
    assert!(get_str_column(&numeric, "absent").unwrap().is_none());
}

#[test]
fn matching_columns_first_only_keeps_the_first() {
    let seg = color_segment();
    let all = get_matching_columns(&seg, "color", &get_terms_column_types(), false).unwrap();
    assert_eq!(all.iter().map(|(_, t)| *t).collect::<Vec<_>>(), vec![ColumnType::I64, ColumnType::Str]);
    let first = get_matching_columns(&seg, "color", &get_terms_column_types(), true).unwrap();
    assert_eq!(first.len(), 1);
    assert_eq!(first[0].1, ColumnType::I64);
    let none = get_matching_columns(&seg, "color", &vec![ColumnType::Bool], false).unwrap();
    assert!(none.is_empty());
}

#[test]
fn field_name_with_nul_binds_as_missing() {
    let seg = segment(3, |w| {
        w.record_numerical(0, "a", 5i64);
        w.record_str(1, "a", "x");
    });
    let req = single("t", leaf(AggregationVariants::Terms { field: "a\0".to_string() }));
    let bound = bind(&req, &seg);
    let node = &bound.aggs[0].1;
    assert_eq!(node.field_type, ColumnType::U64);
    assert_eq!(node.accessor.num_docs(), 3);
    assert_eq!(node.accessor.first(0), None);
    assert!(node.accessor2.is_none());
    assert!(node.str_dict_column.is_none());
    assert!(get_matching_columns(&seg, "a\0", &get_terms_column_types(), false).unwrap().is_empty());
}
