use neo4j_nif::query::{begin_query, QueryError, QueryRun, QueryStep, RowEvent};
use neo4j_nif::value::ElixirValue;
use neo4j_nif::wire::{WireRow, WireValue};

fn started() -> QueryRun {
    match begin_query(Ok(())) {
        QueryStep::Pull(run) => run,
        _ => panic!("an accepted query does not pull"),
    }
}

fn row_of(n: i64) -> RowEvent {
    RowEvent::Row(WireRow { columns: vec!["n".to_string()], values: vec![WireValue::Integer(n)] })
}

fn after(run: QueryRun, event: RowEvent) -> QueryRun {
    match run.advance(event) {
        QueryStep::Pull(next) => next,
        _ => panic!("the execution does not go on"),
    }
}

#[test]
fn an_accepted_query_starts_pulling() {
    assert!(matches!(begin_query(Ok(())), QueryStep::Pull(_)));
}

#[test]
fn a_refused_query_fails_with_the_clients_message() {
    match begin_query(Err("syntax error".to_string())) {
        QueryStep::Failed(error) => assert_eq!(
            error,
            QueryError { message: "Query execution failed: syntax error".to_string() }
        ),
        _ => panic!("a refused query does not fail"),
    }
}

#[test]
fn a_query_without_rows_gives_the_empty_result() {
    match started().advance(RowEvent::End) {
        QueryStep::Done(records) => assert_eq!(records, Vec::<Vec<(String, ElixirValue)>>::new()),
        _ => panic!("no result"),
    }
}

#[test]
fn every_row_gives_one_record_in_order() {
    let run = after(after(after(started(), row_of(1)), row_of(2)), row_of(3));
    match run.advance(RowEvent::End) {
        QueryStep::Done(records) => assert_eq!(
            records,
            vec![
                vec![("n".to_string(), ElixirValue::Integer(1))],
                vec![("n".to_string(), ElixirValue::Integer(2))],
                vec![("n".to_string(), ElixirValue::Integer(3))],
            ]
        ),
        _ => panic!("no result"),
    }
}

#[test]
fn a_failed_pull_gives_an_error_and_no_record() {
    let run = after(after(started(), row_of(1)), row_of(2));
    match run.advance(RowEvent::Failed("connection reset".to_string())) {
        QueryStep::Failed(error) => assert_eq!(
            error,
            QueryError { message: "Row fetch failed: connection reset".to_string() }
        ),
        _ => panic!("a failed pull does not fail the query"),
    }
}

#[test]
fn a_failed_first_pull_gives_an_error() {
    match started().advance(RowEvent::Failed(String::new())) {
        QueryStep::Failed(error) => assert_eq!(error.message, "Row fetch failed: "),
        _ => panic!("a failed pull does not fail the query"),
    }
}

#[test]
fn a_row_that_cannot_be_converted_fails_the_query() {
    let run = after(started(), row_of(1));
    let broken = RowEvent::Row(WireRow { columns: vec!["n".to_string()], values: vec![] });
    match run.advance(broken) {
        QueryStep::Failed(error) => assert_eq!(
            error.message,
            "Row decode failed: the numbers of columns and of values differ"
        ),
        _ => panic!("a broken row does not fail the query"),
    }
}

#[test]
fn a_second_execution_does_not_see_the_first() {
    let first = after(started(), row_of(1));
    assert!(matches!(first.advance(RowEvent::Failed("lost".to_string())), QueryStep::Failed(_)));
    match after(started(), row_of(7)).advance(RowEvent::End) {
        QueryStep::Done(records) => {
            assert_eq!(records, vec![vec![("n".to_string(), ElixirValue::Integer(7))]])
        }
        _ => panic!("no result"),
    }
}
