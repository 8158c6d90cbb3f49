//! Reconciles manga metadata from AniList with a Komga library.
//!
//! The modules hold the resolution and field-mapping rules: which title
//! variant is kept, how staff credits become book credits, how publication
//! status moves between the two vocabularies, and how descriptions lose their
//! markup tags. Network transport, configuration storage and terminal prompts
//! live with the caller, which hands the operator's choices back as values.

pub mod status;
pub mod error;
pub mod title;
pub mod staff;
pub mod markup;
pub mod metadata;
pub mod komga;
