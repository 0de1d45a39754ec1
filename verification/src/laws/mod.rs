//! What the operations are for, stated over all inputs and proved: relations
//! between what goes in and what comes out, in the words of the values
//! themselves.

pub mod backends;
pub mod calls;
pub mod commands;
pub mod daemon;
pub mod files;
pub mod limits;
pub mod reports;
pub mod serving;
pub mod text;
pub mod values;
