//! A last-in-first-out stack built on a singly linked chain of owned nodes.

pub mod laws;
pub mod stack;

pub use stack::Stack;
