//! The site extractors.

pub mod luogu;
pub mod vjudge;
pub mod xyd;
