//! Singly-linked lists under four ownership disciplines: an owned stack,
//! two first-in, first-out queues with constant-time append, and a persistent
//! list whose handles share their tails.
mod arena;
pub mod fifth;
pub mod fifth_unsafe;
pub mod first;
pub mod model;
pub mod second;
pub mod third;
