pub mod pokemon;
pub mod shakespeare;
