//! Small worked examples of the language's features: conversions between
//! types, functions and closures, custom types, and a singly linked list,
//! each stated with its contract and proved.
pub mod conversion;
pub mod func;
pub mod list;
pub mod use_type;
