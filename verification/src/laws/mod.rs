//! What the library is for, said in plain terms: fields, bits and numbers.

pub mod admission;
pub mod deeds;
pub mod filter;
pub mod finding;
pub mod hooks;
pub mod panel;
pub mod pictures;
pub mod potions;
pub mod reading;
pub mod results;
pub mod rounds;
pub mod texts;
pub mod ticks;
pub mod values;
pub mod visits;
pub mod words;
