//! Verified building blocks of a set of concurrency and I/O practice programs:
//! left-right slots, a swap cell, a slot map, a LIFO stack, benchmark statistics,
//! websocket decision logic and line-reading control.

pub mod addable;
pub mod bench;
pub mod events;
pub mod json;
pub mod left_right;
pub mod lines;
pub mod shared;
pub mod simple_left_right;
pub mod slot_map;
pub mod stack;
pub mod swap;
pub mod text;
pub mod vector_basic;
pub mod ws;
