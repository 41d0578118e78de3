pub mod delist;
pub mod initialize;
pub mod list;
pub mod purchase;

pub use delist::Delist;
pub use initialize::Initialize;
pub use list::{collection_gate, List, ListBumps};
pub use purchase::{settlement, Payments, Purchase, REWARD_DECIMALS, REWARD_UNITS};
