pub mod authority;
pub mod calls;
pub mod contexts;
pub mod identity;
pub mod laws;
pub mod ledger;
pub mod lifecycle;
pub mod market;
pub mod state;
pub mod table;

pub use contexts::{Delist, Initialize, List, ListBumps, Purchase};
pub use identity::Identity;
pub use ledger::{Collection, Custody, Ledger, LedgerError, Warrant};
pub use lifecycle::{delist, initialize, list, purchase};
pub use market::{Failure, Market};
pub use state::{Listing, Marketplace, MarketplaceError};
