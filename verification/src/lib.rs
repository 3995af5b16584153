//! A record store for evidence-based voting: voter records and vote records,
//! each collection keyed by identifiers of its own, with insert, lookup,
//! update, delete, full listing, and a listing of the votes about one
//! evidence.
//!
//! [`Vote`] is the store and [`StoreState`] is what it holds, as two maps.
//! Every operation states its result and its effect over [`StoreState`]; the
//! module [`laws`] states what follows for sequences of operations.

pub mod laws;
pub mod listing;
pub mod record;
pub mod store;
pub mod walk;

pub use record::{
    Balance, Error, Id, Voter, VoterOutput, VoterOutputView, VoterView, Votes, VotesOutput,
    VotesOutputView, VotesView,
};
pub use store::{checked_next_id, StoreState, Vote};
