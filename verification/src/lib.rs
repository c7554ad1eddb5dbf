//! Query building, session decoding and insert-statement generation for
//! Postgres-backed repositories served over HTTP.
pub mod text;
pub mod repo;
pub mod session;
pub mod repo_macro;
pub mod test_domain;
