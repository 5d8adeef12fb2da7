pub mod pokemon_description;

pub use pokemon_description::{ExternalAPI, ResponseError};
