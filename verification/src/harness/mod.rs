//! Support for generating filesystem test harnesses: collision-free names, decimal
//! rendering, and the schema of harness trees.
pub mod generator;
pub mod entry_names;
pub mod names;
pub mod registry;
pub mod schema;
pub mod tree_format;
pub mod tree_generator;

pub use names::{
    append_decimal, decimal, digit_char, find_last_record, lemma_usages_after_update, lemma_usages_of_absent, lemma_usages_of_last,
    usages, NameUsage,
};
