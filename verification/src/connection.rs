//! The connection resource and the decisions of connecting.
//!
//! Connecting takes two steps that only the caller can perform: it creates a
//! task runtime, and on that runtime it connects to the database. After each
//! step it reports the outcome here. A [`GraphResource`] comes out of the
//! second decision alone, and only for a connection that was made: no handle
//! exists for a failed attempt.

use std::sync::Arc;
use vstd::prelude::*;
use vstd::string::StringExecFns;

verus! {

/// `neo4rs::Graph`, the live connection, carried as an opaque value.
#[verifier::external_type_specification]
#[verifier::external_body]
pub struct ExGraph(neo4rs::Graph);

/// `tokio::runtime::Runtime`, the task runtime, carried as an opaque value.
#[verifier::external_type_specification]
#[verifier::external_body]
pub struct ExRuntime(tokio::runtime::Runtime);

/// A live connection together with the runtime that drives it. Both are
/// shared and read-only; they are released when the last holder lets go.
pub struct GraphResource {
    pub graph: Arc<neo4rs::Graph>,
    pub runtime: Arc<tokio::runtime::Runtime>,
}

/// Why connecting failed; each variant holds the message for the host.
#[derive(Debug, Clone, PartialEq, Eq)]
pub enum ConnectError {
    /// The task runtime could not be created.
    RuntimeInitError(String),
    /// The runtime started, but the database refused the connection or could
    /// not be reached.
    ConnectError(String),
}

/// The message of an attempt whose runtime could not be created.
pub open spec fn runtime_failure_text(detail: Seq<char>) -> Seq<char> {
    "Failed to create runtime: "@ + detail
}

/// The message of an attempt whose connection could not be made.
pub open spec fn connect_failure_text(detail: Seq<char>) -> Seq<char> {
    "Connection failed: "@ + detail
}

impl ConnectError {
    /// The message that the error holds.
    pub open spec fn text(&self) -> Seq<char> {
        match self {
            ConnectError::RuntimeInitError(message) => message@,
            ConnectError::ConnectError(message) => message@,
        }
    }

    /// The message for the host.
    pub fn message(&self) -> (message: &String)
        ensures
            message@ == self.text(),
    {
        match self {
            ConnectError::RuntimeInitError(message) => message,
            ConnectError::ConnectError(message) => message,
        }
    }
}

/// Decides on the outcome of creating the runtime: `Err` holds the message of
/// the failure. A runtime that was created is handed on for the connection
/// attempt; a failure ends the attempt.
pub fn runtime_created(created: Result<tokio::runtime::Runtime, String>) -> (result: Result<
    tokio::runtime::Runtime,
    ConnectError,
>)
    ensures
        result is Ok <==> created is Ok,
        created matches Ok(runtime) ==> result == Ok::<tokio::runtime::Runtime, ConnectError>(
            runtime,
        ),
        created matches Err(detail) ==> result matches Err(ConnectError::RuntimeInitError(message))
            && message@ == runtime_failure_text(detail@),
{
    match created {
        Ok(runtime) => Ok(runtime),
        Err(detail) => Err(
            ConnectError::RuntimeInitError(
                "Failed to create runtime: ".to_string().concat(detail.as_str()),
            ),
        ),
    }
}

impl GraphResource {
    /// Decides on the outcome of connecting on `runtime`: `Err` holds the
    /// client's message. A connection that was made is bundled with its
    /// runtime into a handle; a failure gives an error and no handle.
    pub fn connected(
        runtime: tokio::runtime::Runtime,
        connected: Result<neo4rs::Graph, String>,
    ) -> (result: Result<GraphResource, ConnectError>)
        ensures
            result is Ok <==> connected is Ok,
            connected matches Ok(graph) ==> result matches Ok(resource) && *resource.graph == graph
                && *resource.runtime == runtime,
            connected matches Err(detail) ==> result matches Err(
                ConnectError::ConnectError(message),
            ) && message@ == connect_failure_text(detail@),
    {
        match connected {
            Ok(graph) => Ok(GraphResource { graph: Arc::new(graph), runtime: Arc::new(runtime) }),
            Err(detail) => Err(
                ConnectError::ConnectError(
                    "Connection failed: ".to_string().concat(detail.as_str()),
                ),
            ),
        }
    }
}

} // verus!
