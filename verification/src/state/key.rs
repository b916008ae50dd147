//! The key of the earlier rule set.

use vstd::prelude::*;
use crate::accounts::Address;

verus! {

/// One minted key.
#[derive(Clone, Copy, Debug, PartialEq, Eq)]
pub struct NftKey {
    /// The asset that stands for the key.
    pub nft_mint: Address,
    /// The key's place in the mint sequence, starting at 1.
    pub key_index: u64,
    /// 0 while the key is held, 1 once it was burned.
    pub exited: u8,
    /// The bump of the key's derived address.
    pub bump: u8,
}

/// What a new key is made from.
#[derive(Clone, Copy, Debug, PartialEq, Eq)]
pub struct CreateKeyArgs {
    pub nft_mint: Address,
    pub key_index: u64,
    pub bump: u8,
}

impl NftKey {
    /// Fills in a new key, which starts out held.
    pub fn create(&mut self, args: CreateKeyArgs)
        ensures
            *final(self) == (NftKey {
                nft_mint: args.nft_mint,
                key_index: args.key_index,
                exited: 0,
                bump: args.bump,
            }),
    {
        self.nft_mint = args.nft_mint;
        self.bump = args.bump;
        self.key_index = args.key_index;
        self.exited = 0;
    }
}

} // verus!
