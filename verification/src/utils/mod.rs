pub mod payout;
pub mod pubkey;
pub mod vrf;

pub use payout::{
    apply_house_edge, calculate_roulette_payout, calculate_slots_payout, validate_bet_amount,
    validate_roulette_numbers,
};
