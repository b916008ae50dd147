//! The operations of the game, one file each.

pub mod burn_key;
pub mod create_key;
pub mod create_reserves;
pub mod create_round;
pub mod create_vaults;
pub mod fee_claim;
pub mod round_claim;
pub mod start_round;
pub mod update_round;
pub mod winner_claim;
