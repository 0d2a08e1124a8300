pub mod cursor;
pub mod error;
pub mod event;
pub mod laws;
pub mod model;
pub mod range;
pub mod schema;
pub mod store;
