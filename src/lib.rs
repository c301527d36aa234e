//! A console tour of Rust's language features: a menu of topics, the
//! decisions of the menu loop, and the small helpers the tour shows off.

pub mod error_handling;
pub mod iterators_closures;
pub mod lifetimes;
pub mod menu;
pub mod ownership;
pub mod pattern_matching;
pub mod session;
pub mod structs_enums;
pub mod traits_generics;
