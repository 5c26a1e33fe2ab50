use bedrock_orm::database_providers::sqlite::{
    missing_feature, plain_values, row_from, StoredValue,
};
use bedrock_orm::database_providers::SqliteRow;
use bedrock_orm::domain::{DataType, F64Bits, ValueUnion};
use bedrock_orm::query_execution::{QueryResult, QueryResultType, TakeFeatures};
use bedrock_orm::Error;

fn names(columns: &[&str]) -> Vec<String> {
    columns.iter().map(|column| (*column).to_owned()).collect()
}

fn row_of(columns: Vec<String>, values: Vec<StoredValue>) -> SqliteRow {
    SqliteRow::new(columns, values).expect("one value for each column")
}

fn missing(name: &str) -> Error {
    Error::SqliteError {
        code: None,
        message: Some(format!("the index is out of range ({name})")),
    }
}

#[test]
fn row_gives_up_the_value_under_a_name() {
    let row = row_of(
        names(&["name", "age", "photo", "score", "nickname"]),
        vec![
            StoredValue::Text("Alice".to_owned()),
            StoredValue::Integer(42),
            StoredValue::Binary(vec![1, 2]),
            StoredValue::Float(0.5f64.to_bits()),
            StoredValue::Null,
        ],
    );
    let alice = "Alice".to_owned();
    assert_eq!(
        row.feature(&"name".to_owned()),
        Ok(Some(ValueUnion::String(&alice)))
    );
    assert_eq!(row.feature(&"age".to_owned()), Ok(Some(ValueUnion::I64(42))));
    assert_eq!(
        row.feature(&"photo".to_owned()),
        Ok(Some(ValueUnion::Bytestring(&[1, 2])))
    );
    assert_eq!(
        row.feature(&"score".to_owned()),
        Ok(Some(ValueUnion::F64(F64Bits(0.5f64.to_bits()))))
    );
    assert_eq!(row.feature(&"nickname".to_owned()), Ok(None));
    assert_eq!(row.width(), 5);
}

#[test]
fn row_knows_which_names_it_answers_for() {
    let row = row_of(names(&["a", "b"]), vec![StoredValue::Integer(1), StoredValue::Null]);
    assert!(row.has_feature(&"a".to_owned()));
    assert!(row.has_feature(&"b".to_owned()));
    assert!(!row.has_feature(&"c".to_owned()));
    assert!(!row.has_feature(&"A".to_owned()));
    assert!(!row.has_feature(&"".to_owned()));
    let empty = row_of(vec![], vec![]);
    assert!(!empty.has_feature(&"a".to_owned()));
}

#[test]
fn later_column_of_a_name_answers_for_it() {
    let row = row_of(
        names(&["x", "y", "x"]),
        vec![
            StoredValue::Integer(1),
            StoredValue::Integer(2),
            StoredValue::Integer(3),
        ],
    );
    assert_eq!(row.feature(&"x".to_owned()), Ok(Some(ValueUnion::I64(3))));
    assert_eq!(row.feature(&"y".to_owned()), Ok(Some(ValueUnion::I64(2))));
}

#[test]
fn row_has_one_value_for_each_column() {
    assert!(SqliteRow::new(names(&["x", "y"]), vec![StoredValue::Integer(1)]).is_none());
    assert!(SqliteRow::new(names(&["x"]), vec![StoredValue::Null, StoredValue::Null]).is_none());
    assert!(SqliteRow::new(vec![], vec![StoredValue::Null]).is_none());
    assert!(SqliteRow::new(names(&["x"]), vec![]).is_none());
    assert!(SqliteRow::new(vec![], vec![]).is_some());
    let twice = SqliteRow::new(names(&["x", "x"]), vec![StoredValue::Null, StoredValue::Null]);
    assert!(twice.is_some());
}

#[test]
fn name_that_no_column_carries_is_a_failure() {
    let row = row_of(names(&["a", "b"]), vec![StoredValue::Integer(1), StoredValue::Null]);
    assert_eq!(row.feature(&"c".to_owned()), Err(missing("c")));
    assert_eq!(row.feature(&"A".to_owned()), Err(missing("A")));
    assert_eq!(row.feature(&"".to_owned()), Err(missing("")));
    assert_eq!(row.feature(&"b".to_owned()), Ok(None));
    assert_eq!(missing_feature("c"), missing("c"));
    assert_eq!(missing_feature(""), missing(""));
    let read: bedrock_orm::Result<SqliteRow> = Ok(row);
    assert_eq!(read.take_feature(&"c".to_owned()), Err(missing("c")));
    assert_eq!(read.take_feature(&"_".to_owned()), Err(missing("_")));
    assert_eq!(read.take_feature(&"b".to_owned()), Ok(None));
    assert_eq!(
        read.take_feature(&"not a name".to_owned()),
        Err(Error::InvalidFeatureName {
            feature_name: "not a name".to_owned()
        })
    );
}

#[test]
fn read_row_takes_features_by_name() {
    let row: bedrock_orm::Result<SqliteRow> = Ok(row_of(
        names(&["count"]),
        vec![StoredValue::Integer(0)],
    ));
    assert_eq!(
        row.take_feature(&"count".to_owned()),
        Ok(Some(ValueUnion::I64(0)))
    );
    assert_eq!(
        row.take_feature(&"1count".to_owned()),
        Err(Error::InvalidFeatureName {
            feature_name: "1count".to_owned()
        })
    );
    assert_eq!(
        row.take_feature(&"no column of this name".to_owned()),
        Err(Error::InvalidFeatureName {
            feature_name: "no column of this name".to_owned()
        })
    );
}

#[test]
fn read_row_knows_which_names_it_answers_for() {
    let row: bedrock_orm::Result<SqliteRow> = Ok(row_of(
        names(&["count"]),
        vec![StoredValue::Null],
    ));
    assert!(TakeFeatures::has_feature(&row, &"count".to_owned()));
    assert!(!TakeFeatures::has_feature(&row, &"other".to_owned()));
    let failed: bedrock_orm::Result<SqliteRow> = Err(Error::SqliteError {
        code: Some(1),
        message: None,
    });
    assert!(TakeFeatures::has_feature(&failed, &"count".to_owned()));
    assert!(TakeFeatures::has_feature(&failed, &"other".to_owned()));
}

#[test]
fn failed_row_answers_with_its_failure() {
    let failure = Error::SqliteError {
        code: Some(19),
        message: Some("UNIQUE constraint failed: once.id".to_owned()),
    };
    let row: bedrock_orm::Result<SqliteRow> = Err(failure.duplicate());
    assert_eq!(row.take_feature(&"count".to_owned()), Err(failure.duplicate()));
    assert_eq!(row.take_feature(&"other".to_owned()), Err(failure));
    assert_eq!(
        row.take_feature(&"a-b".to_owned()),
        Err(Error::InvalidFeatureName {
            feature_name: "a-b".to_owned()
        })
    );
    let bare: bedrock_orm::Result<SqliteRow> = Err(Error::SqliteError {
        code: None,
        message: None,
    });
    assert_eq!(
        bare.take_feature(&"count".to_owned()),
        Err(Error::SqliteError {
            code: None,
            message: None
        })
    );
}

#[test]
fn error_is_copied_field_by_field() {
    let errors = [
        Error::ValueCannotBeAccessedAsRequestedType {
            value_type: DataType::I64,
            requested_type: DataType::U32,
        },
        Error::SqliteError {
            code: Some(1),
            message: Some("near \"THIS\": syntax error".to_owned()),
        },
        Error::SqliteError {
            code: Some(5),
            message: None,
        },
        Error::SqliteError {
            code: None,
            message: Some("failed to process a string".to_owned()),
        },
        Error::InvalidFeatureName {
            feature_name: "a-b".to_owned(),
        },
    ];
    for error in errors {
        assert_eq!(error.duplicate(), error);
    }
}

#[test]
fn outcome_reports_its_result_type() {
    let nothing: QueryResult<()> = QueryResult::NoResult;
    let count: QueryResult<()> = QueryResult::ChangeCount { count: 3 };
    let rows: QueryResult<()> = QueryResult::Iterator { row_iterator: () };
    assert_eq!(nothing.result_type(), QueryResultType::NoResult);
    assert_eq!(count.result_type(), QueryResultType::ChangeCount);
    assert_eq!(rows.result_type(), QueryResultType::Iterator);
}

#[test]
fn engine_values_are_moved_into_plain_values_in_order() {
    let plain = plain_values(vec![
        sqlite::Value::Integer(7),
        sqlite::Value::Null,
        sqlite::Value::String("seven".to_owned()),
        sqlite::Value::Binary(vec![7, 0, 7]),
        sqlite::Value::Float(7.5),
        sqlite::Value::Integer(-7),
    ]);
    assert_eq!(
        plain,
        vec![
            StoredValue::Integer(7),
            StoredValue::Null,
            StoredValue::Text("seven".to_owned()),
            StoredValue::Binary(vec![7, 0, 7]),
            StoredValue::Float(7.5f64.to_bits()),
            StoredValue::Integer(-7),
        ]
    );
    assert!(plain_values(vec![]).is_empty());
}

#[test]
fn cursor_answer_becomes_a_row_a_failure_or_the_end() {
    let columns = std::rc::Rc::new(names(&["a", "b"]));
    let row = row_from(
        columns.clone(),
        Some(Ok(vec![
            sqlite::Value::Integer(1),
            sqlite::Value::String("two".to_owned()),
        ])),
    )
    .expect("a row")
    .expect("read");
    assert_eq!(row.feature(&"a".to_owned()), Ok(Some(ValueUnion::I64(1))));
    assert_eq!(
        row.feature(&"b".to_owned()),
        Ok(Some(ValueUnion::String(&"two".to_owned())))
    );
    let failure = Error::SqliteError {
        code: Some(1),
        message: Some("integer overflow".to_owned()),
    };
    match row_from(columns.clone(), Some(Err(failure.duplicate()))) {
        Some(Err(error)) => assert_eq!(error, failure),
        _ => panic!("the failure was not handed on"),
    }
    assert!(row_from(columns, None).is_none());
}
