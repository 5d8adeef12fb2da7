use vstd::prelude::*;

verus! {

/// A row of the `pokemon` table: a Pokémon with the descriptions kept for it.
#[derive(Debug, PartialEq, Eq)]
pub struct Pokemon {
    pub id: i32,
    pub name: String,
    pub description: Option<String>,
    pub shakespeare_description: Option<String>,
}

/// The row that storing a Pokémon with its two descriptions writes.
pub open spec fn stored_row(
    id: i32,
    name: String,
    description: String,
    shakespeare_description: String,
) -> Pokemon {
    Pokemon {
        id,
        name,
        description: Some(description),
        shakespeare_description: Some(shakespeare_description),
    }
}

} // verus!
