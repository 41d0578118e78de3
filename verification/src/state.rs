pub mod listing;
pub mod marketplace;

pub use listing::Listing;
pub use marketplace::{Marketplace, MarketplaceError};
