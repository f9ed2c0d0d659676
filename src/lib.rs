//! Vocabulary types for language processing: a two-valued `Case` tag and a
//! `Stopwords` list, with the parsing, rendering and comparison rules that a
//! host runtime exposes to its users.

pub mod binding;
pub mod lang_elements;
