//! The verified core of an autograder web service: its records, the rules
//! that decide who may do what, the sign-in flow and the sequence of
//! database work behind every request.

pub mod models;
pub mod text;
pub mod store;
pub mod store_laws;
pub mod routes;
pub mod signin;
pub mod laws;
