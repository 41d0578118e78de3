use vstd::prelude::*;
use crate::identity::Identity;

verus! {

/// The most bytes a marketplace's name may have.
pub const MAX_NAME_LEN: usize = 32;

/// The configuration of one marketplace: who created it, the fee it keeps of
/// every sale, its name, and the bump seeds that re-derive its own identity,
/// its treasury and its reward issuer.
#[derive(Debug, PartialEq, Eq)]
pub struct Marketplace {
    pub admin: Identity,
    pub fee: u16,
    pub bump: u8,
    pub treasury_bump: u8,
    pub rewards_mint_bump: u8,
    pub name: String,
}

impl Marketplace {
    /// The bytes that a stored marketplace takes: a tag of 8, the admin, the
    /// fee, three bump seeds, and the name behind its length.
    pub const INIT_SPACE: usize = 8 + 32 + 2 + 1 + 1 + 1 + (4 + 32);

    /// The bytes of the marketplace's name.
    pub open spec fn name_bytes(self) -> Seq<u8> {
        vstd::utf8::encode_utf8(self.name@)
    }
}

/// Why the marketplace refused a request on its own rules.
#[derive(Clone, Copy, Debug, PartialEq, Eq)]
pub enum MarketplaceError {
    NameTooLong,
    InvalidCollection,
    UnverifedCollection,
}

impl MarketplaceError {
    /// The message that goes with the error.
    pub fn message(&self) -> (text: &'static str)
        ensures
            text@ == match *self {
                MarketplaceError::NameTooLong => "Given name is too long"@,
                MarketplaceError::InvalidCollection => "Collection is not Valid"@,
                MarketplaceError::UnverifedCollection => "Collection is not Verified"@,
            },
    {
        match self {
            MarketplaceError::NameTooLong => "Given name is too long",
            MarketplaceError::InvalidCollection => "Collection is not Valid",
            MarketplaceError::UnverifedCollection => "Collection is not Verified",
        }
    }
}

/// Whether a name may be given to a marketplace: it has at most 32 bytes.
pub open spec fn name_fits(name: Seq<char>) -> bool {
    vstd::utf8::encode_utf8(name).len() <= MAX_NAME_LEN
}

/// Accepts a name of at most 32 bytes.
pub fn check_name(name: &str) -> (r: Result<(), MarketplaceError>)
    ensures
        r == if name_fits(name@) {
            Ok::<(), MarketplaceError>(())
        } else {
            Err::<(), MarketplaceError>(MarketplaceError::NameTooLong)
        },
{
    if name.as_bytes().len() <= MAX_NAME_LEN {
        Ok(())
    } else {
        Err(MarketplaceError::NameTooLong)
    }
}

} // verus!
