//! Spelling words with chemical-element symbols.
//!
//! A word is split into consecutive one- and two-letter element symbols,
//! choosing a split with as few elements as possible.
mod compound;
mod segment;
mod table;

pub use compound::{
    ascii_lower, bracketed, lemma_case_insensitive, lowercase_chars, miss_message, Compound,
};
pub use segment::{
    appended_vec, best_seg, is_reversed, is_segmentation, lemma_minimal, lemma_round_trip,
    lemma_single_letters_solve, names_of, segmentable, starts_symbol, symbols_fit,
};
pub use table::{pair_code, periodic_codes, single_code, symbol_code, PeriodicWords};
