//! A bridge from a graph database to a host that knows only generic values.
//!
//! [`conversions`] turns every wire value into a generic value, [`query`]
//! decides how a query execution goes on after each pull, and [`connection`]
//! decides what comes of a connection attempt. The caller performs the
//! network and runtime work and reports what happened.

pub mod connection;
pub mod conversion_laws;
pub mod conversions;
pub mod debug_text;
pub mod query;
pub mod value;
pub mod wire;

pub use connection::GraphResource;
pub use conversions::convert_row_to_elixir;
pub use value::ElixirValue;
