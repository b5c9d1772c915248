//! Expands abbreviated district names in one column of a table into full
//! administrative names, and appends the matching administrative code.

pub mod cell;
pub mod laws;
pub mod process;
pub mod region;
pub mod table;
pub mod text;
