//! Recipe catalogue: the vocabulary of a recipe, the rows of its relational
//! store, and the plan that loads a batch of records into that store.
//!
//! - [`model`] and [`values`]: recipes and what they are made of.
//! - [`duration`]: signed durations and their ISO-8601 text.
//! - [`schema`], [`table`] and [`store`]: the rows, the keyed tables and the
//!   store held in memory, with the constraints of the schema.
//! - [`ingest`] and [`pipeline`]: from import records to rows, in batches,
//!   and the import run stage by stage.
//! - [`query`]: lists, single records and saving a recipe.
//! - [`proxy`]: what the server answers itself and what it hands on.
//! - [`fuzzy`] and [`editor`]: search and the decisions of the recipe editor.

pub mod duration;
pub mod editor;
pub mod fuzzy;
pub mod ingest;
pub mod model;
pub mod pipeline;
pub mod proxy;
pub mod query;
pub mod schema;
pub mod store;
pub mod table;
pub mod values;
