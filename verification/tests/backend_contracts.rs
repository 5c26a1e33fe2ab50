use std::collections::HashMap;

use bedrock_orm::domain::ValueUnion;
use bedrock_orm::query_builder::{IdentifyQueryParameter, ProvideQueryParameters};
use bedrock_orm::query_execution::{
    is_valid_identifier, ExecuteQuery, GetQueryResultType, IdentifyFeature, InjectFeatures,
    IterateRows, QueryResult, QueryResultType, TakeFeatures,
};
use bedrock_orm::Error;

/// A column of a backend that keeps its rows in memory.
#[derive(Debug, Hash, PartialEq, Eq, Clone, Copy)]
enum Column {
    Name,
    Age,
}

impl IdentifyFeature for Column {}

/// A query of that backend: it records what was injected and how often it
/// ran on each path.
struct Recorded {
    result_type: QueryResultType,
    injected: Vec<(String, i64)>,
    plain_runs: usize,
    counted_runs: usize,
    row_runs: usize,
    fail: bool,
}

impl Recorded {
    fn new(result_type: QueryResultType) -> Self {
        Recorded {
            result_type,
            injected: Vec::new(),
            plain_runs: 0,
            counted_runs: 0,
            row_runs: 0,
            fail: false,
        }
    }
}

impl GetQueryResultType for Recorded {
    fn query_result_type(&self) -> QueryResultType {
        self.result_type
    }
}

impl InjectFeatures for Recorded {
    type Identifier = String;

    fn can_inject(&self, value: &ValueUnion) -> bool {
        matches!(value, ValueUnion::I64(_))
    }

    fn inject_feature(&mut self, identifier: &String, value: &ValueUnion) -> Result<(), Error> {
        if !is_valid_identifier(identifier) {
            return Err(Error::InvalidFeatureName {
                feature_name: identifier.clone(),
            });
        }
        match value {
            ValueUnion::I64(number) => {
                self.injected.push((identifier.clone(), *number));
                Ok(())
            }
            _ => panic!("the value is not accepted"),
        }
    }

    fn try_inject_feature(
        &mut self,
        identifier: &String,
        value: &ValueUnion,
    ) -> Option<Result<(), Error>> {
        if !is_valid_identifier(identifier) || self.can_inject(value) {
            Some(self.inject_feature(identifier, value))
        } else {
            None
        }
    }
}

/// A row of that backend.
struct Person {
    name: String,
    age: i64,
}

impl TakeFeatures for Person {
    type Identifier = Column;

    fn has_feature(&self, _: &Column) -> bool {
        true
    }

    fn take_feature(&self, identifier: &Column) -> Result<Option<ValueUnion<'_>>, Error> {
        Ok(Some(match identifier {
            Column::Name => ValueUnion::String(&self.name),
            Column::Age => ValueUnion::I64(self.age),
        }))
    }
}

struct People<'query> {
    left: std::slice::Iter<'query, (&'static str, i64)>,
}

impl<'query> IterateRows for People<'query> {
    type Row = Person;

    fn next_row(&mut self) -> Option<Person> {
        self.left.next().map(|(name, age)| Person {
            name: (*name).to_owned(),
            age: *age,
        })
    }
}

struct Memory {
    people: Vec<(&'static str, i64)>,
}

fn failure() -> Error {
    Error::SqliteError {
        code: Some(5),
        message: Some("database is locked".to_owned()),
    }
}

impl<'query> ExecuteQuery<'query> for Memory {
    type Query = Recorded;
    type Row = Person;
    type RowIterator = People<'query>;

    fn execute_without_results(&self, query: &mut Recorded) -> Result<(), Error> {
        query.plain_runs += 1;
        if query.fail {
            Err(failure())
        } else {
            Ok(())
        }
    }

    fn execute_with_change_count(&self, query: &mut Recorded) -> Result<usize, Error> {
        query.counted_runs += 1;
        if query.fail {
            Err(failure())
        } else {
            Ok(self.people.len())
        }
    }

    fn execute_with_iterator(&self, query: &'query mut Recorded) -> Result<People<'query>, Error> {
        query.row_runs += 1;
        if query.fail {
            Err(failure())
        } else {
            Ok(People {
                left: [("Alice", 42i64), ("Bob", 69)].iter(),
            })
        }
    }
}

fn memory() -> Memory {
    Memory {
        people: vec![("Alice", 42), ("Bob", 69)],
    }
}

#[test]
fn query_without_results_takes_the_plain_path_once() {
    let backend = memory();
    let mut query = Recorded::new(QueryResultType::NoResult);
    assert!(matches!(backend.execute(&mut query), Ok(QueryResult::NoResult)));
    assert_eq!((query.plain_runs, query.counted_runs, query.row_runs), (1, 0, 0));
    assert!(matches!(backend.execute(&mut query), Ok(QueryResult::NoResult)));
    assert_eq!((query.plain_runs, query.counted_runs, query.row_runs), (2, 0, 0));
}

#[test]
fn query_with_change_count_takes_the_counting_path_once() {
    let backend = memory();
    let mut query = Recorded::new(QueryResultType::ChangeCount);
    match backend.execute(&mut query) {
        Ok(QueryResult::ChangeCount { count }) => assert_eq!(count, 2),
        _ => panic!("query result is not a change count"),
    }
    assert_eq!((query.plain_runs, query.counted_runs, query.row_runs), (0, 1, 0));
}

#[test]
fn query_with_iterator_takes_the_row_path_once() {
    let backend = memory();
    let mut query = Recorded::new(QueryResultType::Iterator);
    match backend.execute(&mut query) {
        Ok(QueryResult::Iterator { mut row_iterator }) => {
            let first = row_iterator.next_row().expect("first row");
            assert_eq!(
                first.take_feature(&Column::Name),
                Ok(Some(ValueUnion::String(&"Alice".to_owned())))
            );
            assert_eq!(first.take_feature(&Column::Age), Ok(Some(ValueUnion::I64(42))));
            let second = row_iterator.next_row().expect("second row");
            assert_eq!(second.take_feature(&Column::Age), Ok(Some(ValueUnion::I64(69))));
            assert!(row_iterator.next_row().is_none());
        }
        _ => panic!("query result is not an iterator"),
    }
    assert_eq!((query.plain_runs, query.counted_runs, query.row_runs), (0, 0, 1));
}

#[test]
fn failure_of_a_path_is_handed_on_as_it_is() {
    let backend = memory();
    for result_type in [
        QueryResultType::NoResult,
        QueryResultType::ChangeCount,
        QueryResultType::Iterator,
    ] {
        let mut query = Recorded::new(result_type);
        query.fail = true;
        match backend.execute(&mut query) {
            Err(error) => assert_eq!(error, failure()),
            Ok(_) => panic!("the query ran"),
        }
        assert_eq!(query.plain_runs + query.counted_runs + query.row_runs, 1);
    }
}

#[test]
fn backend_of_the_caller_takes_injections() {
    let mut query = Recorded::new(QueryResultType::NoResult);
    let age = "age".to_owned();
    assert_eq!(query.inject_feature(&age, &ValueUnion::I64(42)), Ok(()));
    assert_eq!(query.try_inject_feature(&age, &ValueUnion::Bool(true)), None);
    assert_eq!(
        query.try_inject_feature(&"a-b".to_owned(), &ValueUnion::Bool(true)),
        Some(Err(Error::InvalidFeatureName {
            feature_name: "a-b".to_owned()
        }))
    );
    assert_eq!(query.injected, vec![("age".to_owned(), 42)]);
}

/// Parameters kept by position.
struct Positional {
    values: HashMap<usize, i64>,
}

fn position_of(identifier: &impl IdentifyQueryParameter) -> usize {
    format!("{identifier:?}").parse().expect("a position")
}

impl ProvideQueryParameters for Positional {
    fn contains_key(&self, identifier: &impl IdentifyQueryParameter) -> bool {
        self.values.contains_key(&position_of(identifier))
    }

    fn get<ParameterValue>(
        &self,
        _identifier: &impl IdentifyQueryParameter,
    ) -> Option<&ParameterValue> {
        None
    }

    fn get_mut<ParameterValue>(
        &mut self,
        _identifier: &impl IdentifyQueryParameter,
    ) -> Option<&mut ParameterValue> {
        None
    }
}

#[test]
fn type_of_the_caller_provides_parameters() {
    let mut provider = Positional {
        values: HashMap::from([(1, 10), (2, 20)]),
    };
    assert!(provider.contains_key(&1usize));
    assert!(provider.contains_key(&2usize));
    assert!(!provider.contains_key(&3usize));
    assert!(provider.get::<i64>(&1usize).is_none());
    assert!(provider.get_mut::<i64>(&1usize).is_none());
}
