use vstd::prelude::*;
use crate::identity::Identity;

verus! {

/// The record of one asset in escrow: who listed it, which asset it is, the
/// price asked, and the bump seed that re-derives the record's own authority
/// over its vault.
#[derive(Clone, Copy, Debug, PartialEq, Eq)]
pub struct Listing {
    pub maker: Identity,
    pub mint: Identity,
    pub price: u64,
    pub bump: u8,
}

impl Listing {
    /// The bytes that a stored listing takes: a tag of 8, two identities, the
    /// price and the bump seed.
    pub const INIT_SPACE: usize = 8 + 32 + 32 + 8 + 1;
}

} // verus!
