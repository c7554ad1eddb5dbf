//! Query builders for repositories, and the names their generated code uses.
pub mod prelude;
pub mod select_update_builder;
