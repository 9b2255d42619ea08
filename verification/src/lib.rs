//! A verified model of a small interactive console tour of primitive values:
//! a menu dispatcher, decimal parsing of input lines, seven demonstration
//! routines rendered as lines of text, and an array-indexing sub-loop.

pub mod arrays;
pub mod demos;
pub mod menu;
pub mod parse;
pub mod session;
pub mod text;
