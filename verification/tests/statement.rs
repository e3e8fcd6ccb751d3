use stq_core::statement::{
    Arg, ComparisonMode, FilteredOperation, FilteredOperationBuilder, InsertBuilder, Range,
    RangeLimit, SelectOperation, UpdateBuilder,
};

#[test]
fn test_select_builder() {
    let expectation = (
        "SELECT count(*) FROM my_table WHERE filter_column1 = $1 AND filter_column2 > $2 AND filter_column2 <= $3 LIMIT 5;",
        vec![Arg::Int(3), Arg::Int(25), Arg::Int(125)],
    );

    let res = FilteredOperationBuilder::new("my_table")
        .with_filter("filter_column1", Range::Exact(3i64))
        .with_filter(
            "filter_column2",
            Range::Between((
                RangeLimit {
                    value: 25i64,
                    inclusive: false,
                },
                RangeLimit {
                    value: 125i64,
                    inclusive: true,
                },
            )),
        )
        .build(FilteredOperation::Select {
            op: Some(SelectOperation::Count),
            limit: Some(5),
        });

    assert_eq!(res.0, expectation.0);
    assert_eq!(res.1, expectation.1);
}

#[test]
fn test_update_builder() {
    let res = UpdateBuilder::from(
        FilteredOperationBuilder::new("my_table")
            .with_filter("filter_column1", Range::Exact(3i64))
            .with_filter(
                "filter_column2",
                Range::Between((
                    RangeLimit {
                        value: 25i64,
                        inclusive: false,
                    },
                    RangeLimit {
                        value: 125i64,
                        inclusive: true,
                    },
                )),
            ),
    )
    .with_value("value_column1", 1i64)
    .with_value("value_column2", 2i64)
    .build();

    let expectation = (
        "UPDATE my_table SET value_column1 = $1, value_column2 = $2 WHERE filter_column1 = $3 AND filter_column2 > $4 AND filter_column2 <= $5 RETURNING *;",
        vec![
            Arg::Int(1),
            Arg::Int(2),
            Arg::Int(3),
            Arg::Int(25),
            Arg::Int(125),
        ],
    );

    assert_eq!(res.0, expectation.0);
    assert_eq!(res.1, expectation.1);
}

#[test]
fn plain_select_without_filters() {
    let res = FilteredOperationBuilder::new("t").build(FilteredOperation::Select {
        op: None,
        limit: None,
    });
    assert_eq!(res.0, "SELECT * FROM t;");
    assert!(res.1.is_empty());
}

#[test]
fn delete_always_returns_rows() {
    let res = FilteredOperationBuilder::new("t")
        .with_filter("id", Range::Exact(7i64))
        .build(FilteredOperation::Delete);
    assert_eq!(res.0, "DELETE FROM t WHERE id = $1 RETURNING *;");
    assert_eq!(res.1, vec![Arg::Int(7)]);
}

#[test]
fn filters_are_sorted_by_column_name() {
    let res = FilteredOperationBuilder::new("t")
        .with_filter("b", Range::Exact(2i64))
        .with_filter("a", Range::Exact(1i64))
        .build(FilteredOperation::Select {
            op: None,
            limit: None,
        });
    assert_eq!(res.0, "SELECT * FROM t WHERE a = $1 AND b = $2;");
    assert_eq!(res.1, vec![Arg::Int(1), Arg::Int(2)]);
}

#[test]
fn later_filter_replaces_earlier_for_same_column() {
    let res = FilteredOperationBuilder::new("t")
        .with_filter("a", Range::Exact(1i64))
        .with_filter("a", Range::Exact(9i64))
        .build(FilteredOperation::Select {
            op: None,
            limit: None,
        });
    assert_eq!(res.0, "SELECT * FROM t WHERE a = $1;");
    assert_eq!(res.1, vec![Arg::Int(9)]);
}

#[test]
fn in_filter_binds_one_array_argument() {
    let res = FilteredOperationBuilder::new("t")
        .with_filter("a", Range::In(vec![1i64, 2, 3]))
        .build(FilteredOperation::Select {
            op: None,
            limit: None,
        });
    assert_eq!(res.0, "SELECT * FROM t WHERE a = any($1);");
    assert_eq!(res.1, vec![Arg::IntList(vec![1, 2, 3])]);
}

#[test]
fn extra_is_rendered_before_the_semicolon() {
    let res = FilteredOperationBuilder::new("t")
        .with_extra("ORDER BY id")
        .build(FilteredOperation::Select {
            op: None,
            limit: None,
        });
    assert_eq!(res.0, "SELECT * FROM t ORDER BY id;");
}

#[test]
fn insert_builder_sorts_and_numbers_columns() {
    let res = InsertBuilder::new("t")
        .with_arg("b", 2i64)
        .with_arg("a", 1i64)
        .build();
    assert_eq!(res.0, "INSERT INTO t (a, b) VALUES ($1, $2) RETURNING *;");
    assert_eq!(res.1, vec![Arg::Int(1), Arg::Int(2)]);
}

#[test]
fn insert_builder_replaces_same_column() {
    let res = InsertBuilder::new("t")
        .with_arg("a", 1i64)
        .with_arg("a", 5i64)
        .build();
    assert_eq!(res.0, "INSERT INTO t (a) VALUES ($1) RETURNING *;");
    assert_eq!(res.1, vec![Arg::Int(5)]);
}

#[test]
fn update_without_values_degrades_to_select() {
    let res = UpdateBuilder::from(
        FilteredOperationBuilder::new("t").with_filter("a", Range::Exact(1i64)),
    )
    .build();
    assert_eq!(res.0, "SELECT * FROM t WHERE a = $1;");
    assert_eq!(res.1, vec![Arg::Int(1)]);
}

#[test]
fn text_and_flag_arguments_bind() {
    let res = FilteredOperationBuilder::new("t")
        .with_filter("name", Range::Exact(String::from("x")))
        .with_filter("on", Range::Exact(true))
        .build(FilteredOperation::Select {
            op: None,
            limit: None,
        });
    assert_eq!(res.0, "SELECT * FROM t WHERE name = $1 AND on = $2;");
    assert_eq!(
        res.1,
        vec![Arg::Text(String::from("x")), Arg::Flag(true)]
    );
}

#[test]
fn comparison_mode_renders_placeholders() {
    assert_eq!(ComparisonMode::LTE.arg(2), "<= $2");
    assert_eq!(ComparisonMode::IN.arg(4), "= any($4)");
    assert_eq!(ComparisonMode::GT.arg(11), "> $11");
}

#[test]
fn range_limits_convert() {
    let l: RangeLimit<i32> = RangeLimit {
        value: 25,
        inclusive: false,
    };
    let l64: RangeLimit<i64> = l.convert();
    assert_eq!(l64, RangeLimit {
        value: 25i64,
        inclusive: false,
    });
    let r: Range<i32> = Range::In(vec![1, 2]);
    let r64: Range<i64> = r.convert();
    assert_eq!(r64, Range::In(vec![1i64, 2i64]));
}
