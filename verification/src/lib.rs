//! Instances of a federated blogging network and the reshares of its posts, with contracts.
//!
//! [`instance`] and [`reshare`] hold the models; [`task`] holds the work that alternates with the
//! database and the network, and [`flow`] runs it on tables in memory. What holds over several
//! calls is stated in [`instance_laws`] and [`reshare_laws`]. What each call does to the rows, field
//! by field, is stated in [`lookup_laws`], [`listing_laws`], [`change_laws`] and [`sharing_laws`].
pub mod activity;
pub mod change_laws;
pub mod connection;
pub mod error;
pub mod flow;
pub mod instance;
pub mod instance_laws;
pub mod iri;
pub mod json;
pub mod listing_laws;
pub mod lookup_laws;
pub mod notifications;
pub mod posts;
pub mod query;
pub mod reshare;
pub mod reshare_laws;
pub mod safe_string;
pub mod sharing_laws;
pub mod task;
pub mod text;
pub mod themes;
pub mod timestamp;
pub mod users;
