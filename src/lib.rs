//! Search a music-metadata catalog and enrich each result with cover art.
//!
//! The library holds the logic of a search session: the kind of entity that
//! is searched for, the catalog's search parameter, the result set with its
//! identity-keyed merge, the decision of what to do with each cover-art
//! answer, and the state machine that reconciles asynchronous completions
//! with the current search. The network calls themselves are made by the
//! caller, which hands their outcomes back as messages.

pub mod catalog;
pub mod keyed;
pub mod model;
pub mod result_set;
pub mod search;
pub mod session;

pub use catalog::catalog_query;
pub use model::{Artist, CoverartOutcome, Identified, Release, ReleaseGroup};
pub use result_set::{EnrichedEntity, ResultSet, SearchResultState};
pub use search::SearchSelection;
pub use session::{App, AppView, Command, Message, State};
