//! Decoding of character references (`&...;` escapes) for a markup tokenizer.
//!
//! `numeric` models and decodes `&#...;` references, `named` holds the table of
//! named references, `tokenizer` ties both together behind a cursor over the
//! input text, and `laws` states what holds of every decode.
pub mod numeric;
pub mod named;
pub mod tokenizer;
pub mod laws;
