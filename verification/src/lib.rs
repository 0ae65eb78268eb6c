//! Decisions of a horse-race betting service: what each request is answered
//! with, given what the database returned, and which writes a bet or a new run
//! makes. The server itself lives outside this library and performs the queries.
#![allow(non_snake_case)]
#![allow(non_camel_case_types)]

pub mod Errors;
pub mod ORM;
pub mod Protocol;
pub mod handlers;
pub mod password;
pub mod pool;
pub mod reply;

pub use pool::PoolError;
