//! Unicode-aware normalization of person and entity names and postal
//! addresses into canonical forms for fuzzy matching and deduplication.
//!
//! The engine classifies every code point by its Unicode general category,
//! tokenizes text with one mode-parameterized state machine, case-folds or
//! lowercases as the mode demands, and can latinize tokens to plain ASCII.

pub mod addresses;
pub mod ascii;
pub mod classify;
pub mod names;
pub mod text;
pub mod tokenize;
pub mod translit;
pub mod unicode;

pub use addresses::{address_tokens, finish_address, normalize_address};
pub use classify::{Category, Mode, char_category, classify};
pub use names::{normalize_name, prenormalize_name, tokenize_name};
pub use translit::ascii_text;
pub use unicode::{CategoryAction, get_category, get_category_action, is_address_allowed_char};
