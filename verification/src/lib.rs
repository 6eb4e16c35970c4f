//! Authentication and session core of a web backend: secret-keyed password
//! hashing, the lifecycle of session records kept in a persistent store, and
//! the permission checks that stand in front of protected endpoints.
//!
//! The library never reaches the persistent store itself. Every operation that
//! needs the store is split into a request, which the caller carries out, and
//! a function that decides what follows from the store's reply. What depends
//! on the clock or on random numbers is also offered as a function that takes
//! the reading or the random bytes as arguments.

pub mod auth;
pub mod http;
pub mod model;
pub mod session;
pub mod store;
mod text;
pub mod time;
