//! Given a Pokémon's name, answer with its Shakespearean description.
//!
//! The library holds the decisions of the service: how a Pokédex reply
//! becomes a Pokémon, how a translation reply becomes a translation, and the
//! request flow that consults storage, the two outside services and storage
//! again before it answers.

pub mod external_api;
pub mod routes;
pub mod storage;
