//! Venue adapters: the interface through which a venue acknowledges an order
//! and hands over evidence, and a synthetic venue that simulates both.

pub mod base;
pub mod synthetic;

pub use base::VenueAdapter;
pub use synthetic::SyntheticVenueAdapter;
