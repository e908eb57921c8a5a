//! A toolbox registry: describes callable functions as JSON-schema style
//! descriptor documents and dispatches call-by-name requests with JSON
//! arguments to the matching function, encoding the outcome as a JSON value.

pub mod chest;
pub mod descriptor;
pub mod docs;
pub mod json;
pub mod params;
pub mod registry;
pub mod schema;
pub mod text;
