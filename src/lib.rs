//! Normalised submission records from the pages of online judges.
//!
//! A url picks a site extractor from the registry (`factory`); the extractor finds each field of
//! the record in the page's markup through a chain of fallbacks (`extractors`), reads free text
//! into times, amounts of memory, languages and verdicts (`utils`, `models`), and checks the
//! required fields (`error`). `laws` states what holds of the whole.

pub mod cookie;
pub mod error;
pub mod extractors;
pub mod factory;
pub(crate) mod fields;
pub mod laws;
pub(crate) mod markup;
pub mod models;
pub mod text;
pub mod traits;
pub mod utils;

pub use factory::{create_extractor, extract};
pub use traits::Extractor;
