use neo4j_nif::connection::{runtime_created, ConnectError, GraphResource};
use std::sync::Arc;

fn offline_graph(runtime: &tokio::runtime::Runtime) -> neo4rs::Graph {
    runtime.block_on(neo4rs::Graph::new("127.0.0.1:7687", "user", "secret")).unwrap()
}

#[test]
fn a_runtime_that_was_created_is_handed_on() {
    let runtime = tokio::runtime::Runtime::new().unwrap();
    assert!(runtime_created(Ok(runtime)).is_ok());
}

#[test]
fn a_runtime_that_could_not_be_created_ends_the_attempt() {
    match runtime_created(Err("too many threads".to_string())) {
        Err(error) => {
            assert_eq!(
                error,
                ConnectError::RuntimeInitError(
                    "Failed to create runtime: too many threads".to_string()
                )
            );
            assert_eq!(error.message(), "Failed to create runtime: too many threads");
        }
        Ok(_) => panic!("a runtime out of nothing"),
    }
}

#[test]
fn a_failed_connection_gives_an_error_and_no_handle() {
    let runtime = tokio::runtime::Runtime::new().unwrap();
    match GraphResource::connected(runtime, Err("connection refused".to_string())) {
        Err(error) => {
            assert_eq!(
                error,
                ConnectError::ConnectError("Connection failed: connection refused".to_string())
            );
            assert_eq!(error.message(), "Connection failed: connection refused");
        }
        Ok(_) => panic!("a handle for a failed connection"),
    }
}

#[test]
fn a_connection_that_was_made_gives_a_shared_handle() {
    let runtime = tokio::runtime::Runtime::new().unwrap();
    let graph = offline_graph(&runtime);
    match GraphResource::connected(runtime, Ok(graph)) {
        Ok(resource) => {
            let second = Arc::clone(&resource.graph);
            assert_eq!(Arc::strong_count(&resource.graph), 2);
            assert_eq!(Arc::strong_count(&resource.runtime), 1);
            drop(second);
            assert_eq!(Arc::strong_count(&resource.graph), 1);
            assert_eq!(resource.runtime.block_on(async { 1 + 1 }), 2);
        }
        Err(error) => panic!("no handle: {:?}", error),
    }
}
