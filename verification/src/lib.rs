//! Turns the structural metadata of a relational database (tables, columns,
//! foreign keys) into the text of a class diagram.

pub mod catalog;
pub mod error;
pub mod model;
pub mod pipeline;
pub mod render;
