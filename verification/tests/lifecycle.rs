use anchor_lang::prelude::Pubkey;
use casino_nchurch::errors::CasinoError;
use casino_nchurch::instructions::casino_vrf::{
    decode_roulette_bet, encode_roulette_bet, fresh_commit_slot, reveal_randomness,
    InitializeCasino, InitializeCasinoBumps, RandomnessAccount, RequestRouletteGame,
    RequestRouletteGameBumps, RequestSlotsGame, RequestSlotsGameBumps, SettleRouletteGame,
    SettleSlotsGame,
};
use casino_nchurch::instructions::model::MAX_PAYOUT;
use casino_nchurch::state::casino::{
    CasinoState, GameType, HouseEdgeConfig, RouletteBetType, UserStats,
};
use casino_nchurch::utils::vrf::{GamePhase, VrfGameState};

fn key(byte: u8) -> Pubkey {
    Pubkey::new_from_array([byte; 32])
}

fn account_bytes(seed_slot: u64, reveal_slot: u64, value: [u8; 32]) -> Vec<u8> {
    let mut data = vec![0u8; 408];
    data[..8].copy_from_slice(&[10, 66, 229, 135, 220, 239, 217, 114]);
    data[104..112].copy_from_slice(&seed_slot.to_le_bytes());
    data[144..152].copy_from_slice(&reveal_slot.to_le_bytes());
    data[152..184].copy_from_slice(&value);
    data
}

fn value_starting_with(first: [u8; 3]) -> [u8; 32] {
    let mut value = [0u8; 32];
    value[..3].copy_from_slice(&first);
    value
}

fn new_casino() -> CasinoState {
    let mut setup = InitializeCasino {
        casino_state: CasinoState {
            authority: key(0),
            vault: key(0),
            total_games_played: 99,
            total_volume: 99,
            total_payouts: 99,
            house_edge_config: HouseEdgeConfig {
                slots_rtp_bps: 1,
                roulette_rtp_bps: 2,
                aviator_rtp_bps: 3,
                blackjack_rtp_bps: 4,
                platform_fee_bps: 5,
            },
            is_active: false,
            casino_state_bump: 0,
        },
        casino_vault: key(2),
        authority: key(1),
    };
    assert_eq!(setup.initialize_casino(&InitializeCasinoBumps { casino_state: 254 }), Ok(()));
    setup.casino_state
}

fn blank_round() -> VrfGameState {
    VrfGameState {
        user: key(0),
        game_type: GameType::Slots,
        bet_amount: 0,
        randomness_account: key(0),
        commit_slot: 0,
        game_phase: GamePhase::Settled,
        game_data: Vec::new(),
        payout: 0,
        is_complete: false,
        bump: 0,
    }
}

fn blank_stats() -> UserStats {
    UserStats {
        user: key(0),
        total_bets: 0,
        total_wins: 0,
        total_losses: 0,
        loyalty_points: 0,
        games_played: 0,
        bump: 0,
    }
}

fn slots_request(casino: CasinoState, seed_slot: u64) -> RequestSlotsGame {
    RequestSlotsGame {
        casino_state: casino,
        vrf_game_state: blank_round(),
        user_stats: blank_stats(),
        user: key(7),
        randomness_account_data: RandomnessAccount {
            key: key(9),
            data: account_bytes(seed_slot, 0, [0u8; 32]),
        },
    }
}

fn roulette_request(casino: CasinoState, seed_slot: u64) -> RequestRouletteGame {
    RequestRouletteGame {
        casino_state: casino,
        vrf_game_state: blank_round(),
        user_stats: blank_stats(),
        user: key(7),
        randomness_account_data: RandomnessAccount {
            key: key(9),
            data: account_bytes(seed_slot, 0, [0u8; 32]),
        },
    }
}

const SLOTS_BUMPS: RequestSlotsGameBumps = RequestSlotsGameBumps { vrf_game_state: 250, user_stats: 251 };

const ROULETTE_BUMPS: RequestRouletteGameBumps =
    RequestRouletteGameBumps { vrf_game_state: 240, user_stats: 241 };

fn taken_slots_bet(bet_amount: u64) -> RequestSlotsGame {
    let mut request = slots_request(new_casino(), 100);
    assert!(request.has_room(bet_amount));
    assert_eq!(request.request_slots_game(bet_amount, key(9), &SLOTS_BUMPS, 101), Ok(()));
    request
}

fn taken_roulette_bet(
    bet_amount: u64,
    bet_type: RouletteBetType,
    numbers: Vec<u8>,
) -> RequestRouletteGame {
    let mut request = roulette_request(new_casino(), 100);
    assert!(request.has_room(bet_amount));
    assert_eq!(
        request.request_roulette_game(bet_amount, bet_type, numbers, key(9), &ROULETTE_BUMPS, 101),
        Ok(())
    );
    request
}

fn slots_settle(request: RequestSlotsGame, value: [u8; 32], reveal_slot: u64) -> SettleSlotsGame {
    SettleSlotsGame {
        casino_state: request.casino_state,
        vrf_game_state: request.vrf_game_state,
        user_stats: request.user_stats,
        randomness_account_data: RandomnessAccount {
            key: key(9),
            data: account_bytes(100, reveal_slot, value),
        },
    }
}

fn roulette_settle(
    request: RequestRouletteGame,
    value: [u8; 32],
    reveal_slot: u64,
) -> SettleRouletteGame {
    SettleRouletteGame {
        casino_state: request.casino_state,
        vrf_game_state: request.vrf_game_state,
        user_stats: request.user_stats,
        randomness_account_data: RandomnessAccount {
            key: key(9),
            data: account_bytes(100, reveal_slot, value),
        },
    }
}

fn assert_same_round(left: &VrfGameState, right: &VrfGameState) {
    assert_eq!(left.user, right.user);
    assert_eq!(left.game_type, right.game_type);
    assert_eq!(left.bet_amount, right.bet_amount);
    assert_eq!(left.randomness_account, right.randomness_account);
    assert_eq!(left.commit_slot, right.commit_slot);
    assert_eq!(left.game_phase, right.game_phase);
    assert_eq!(left.game_data, right.game_data);
    assert_eq!(left.payout, right.payout);
    assert_eq!(left.is_complete, right.is_complete);
    assert_eq!(left.bump, right.bump);
}

fn assert_same_stats(left: &UserStats, right: &UserStats) {
    assert_eq!(left.user, right.user);
    assert_eq!(left.total_bets, right.total_bets);
    assert_eq!(left.total_wins, right.total_wins);
    assert_eq!(left.total_losses, right.total_losses);
    assert_eq!(left.loyalty_points, right.loyalty_points);
    assert_eq!(left.games_played, right.games_played);
    assert_eq!(left.bump, right.bump);
}

fn assert_same_casino(left: &CasinoState, right: &CasinoState) {
    assert_eq!(left.authority, right.authority);
    assert_eq!(left.vault, right.vault);
    assert_eq!(left.total_games_played, right.total_games_played);
    assert_eq!(left.total_volume, right.total_volume);
    assert_eq!(left.total_payouts, right.total_payouts);
    assert_eq!(left.house_edge_config, right.house_edge_config);
    assert_eq!(left.is_active, right.is_active);
    assert_eq!(left.casino_state_bump, right.casino_state_bump);
}

#[test]
fn initialize_sets_up_an_active_house() {
    let casino = new_casino();
    assert_eq!(casino.authority, key(1));
    assert_eq!(casino.vault, key(2));
    assert_eq!(casino.total_games_played, 0);
    assert_eq!(casino.total_volume, 0);
    assert_eq!(casino.total_payouts, 0);
    assert_eq!(casino.house_edge_config, HouseEdgeConfig::standard());
    assert!(casino.is_active);
    assert_eq!(casino.casino_state_bump, 254);
}

#[test]
fn slots_request_opens_a_waiting_round() {
    let request = taken_slots_bet(10_000);
    let round = &request.vrf_game_state;
    assert_eq!(round.user, key(7));
    assert_eq!(round.game_type, GameType::Slots);
    assert_eq!(round.bet_amount, 10_000);
    assert_eq!(round.randomness_account, key(9));
    assert_eq!(round.commit_slot, 100);
    assert_eq!(round.game_phase, GamePhase::Requested);
    assert!(round.game_data.is_empty());
    assert_eq!(round.payout, 0);
    assert!(!round.is_complete);
    assert_eq!(round.bump, 250);
    assert_eq!(request.user_stats.user, key(7));
    assert_eq!(request.user_stats.total_bets, 10_000);
    assert_eq!(request.user_stats.games_played, 1);
    assert_eq!(request.user_stats.total_wins, 0);
    assert_eq!(request.user_stats.total_losses, 0);
    assert_eq!(request.user_stats.bump, 251);
    assert_eq!(request.casino_state.total_games_played, 1);
    assert_eq!(request.casino_state.total_volume, 10_000);
    assert_eq!(request.casino_state.total_payouts, 0);
}

#[test]
fn roulette_request_stores_the_bet() {
    let request = taken_roulette_bet(5_000, RouletteBetType::Split, vec![4, 5]);
    let round = &request.vrf_game_state;
    assert_eq!(round.game_type, GameType::Roulette);
    assert_eq!(round.bet_amount, 5_000);
    assert_eq!(round.commit_slot, 100);
    assert_eq!(round.game_phase, GamePhase::Requested);
    assert_eq!(round.game_data, vec![1, 4, 5]);
    assert_eq!(round.bump, 240);
    assert_eq!(request.user_stats.bump, 241);
    assert_eq!(request.user_stats.total_bets, 5_000);
    assert_eq!(request.casino_state.total_volume, 5_000);
}

#[test]
fn request_is_refused_while_the_house_is_inactive() {
    let mut casino = new_casino();
    casino.is_active = false;
    let mut request = slots_request(casino, 100);
    let before = request.clone();
    assert_eq!(
        request.request_slots_game(10_000, key(9), &SLOTS_BUMPS, 101),
        Err(CasinoError::HouseInactive)
    );
    assert_same_round(&request.vrf_game_state, &before.vrf_game_state);
    assert_same_stats(&request.user_stats, &before.user_stats);
    assert_same_casino(&request.casino_state, &before.casino_state);
    let mut roulette = roulette_request(casino, 100);
    assert_eq!(
        roulette.request_roulette_game(0, RouletteBetType::Red, vec![1], key(9), &ROULETTE_BUMPS, 5),
        Err(CasinoError::HouseInactive)
    );
}

#[test]
fn request_accepts_the_stake_bounds_and_refuses_their_neighbours() {
    for (bet_amount, expected) in [
        (1_000u64, Ok(())),
        (1_000_000, Ok(())),
        (999, Err(CasinoError::InvalidBetAmount)),
        (1_000_001, Err(CasinoError::InvalidBetAmount)),
        (0, Err(CasinoError::InvalidBetAmount)),
    ] {
        let mut slots = slots_request(new_casino(), 100);
        assert_eq!(slots.request_slots_game(bet_amount, key(9), &SLOTS_BUMPS, 101), expected);
        let mut roulette = roulette_request(new_casino(), 100);
        assert_eq!(
            roulette.request_roulette_game(
                bet_amount,
                RouletteBetType::Red,
                Vec::new(),
                key(9),
                &ROULETTE_BUMPS,
                101
            ),
            expected
        );
        if expected.is_err() {
            assert_eq!(slots.casino_state.total_games_played, 0);
            assert_eq!(slots.user_stats.total_bets, 0);
            assert_eq!(roulette.casino_state.total_volume, 0);
            assert_eq!(roulette.vrf_game_state.game_phase, GamePhase::Settled);
        }
    }
}

#[test]
fn roulette_request_checks_the_shape_of_the_numbers() {
    let shapes = [
        (RouletteBetType::Straight, 1usize),
        (RouletteBetType::Split, 2),
        (RouletteBetType::Street, 3),
        (RouletteBetType::Corner, 4),
        (RouletteBetType::Line, 6),
        (RouletteBetType::Column, 12),
        (RouletteBetType::Dozen, 12),
        (RouletteBetType::Red, 0),
        (RouletteBetType::Black, 0),
        (RouletteBetType::Even, 0),
        (RouletteBetType::Odd, 0),
        (RouletteBetType::Low, 0),
        (RouletteBetType::High, 0),
    ];
    for (bet_type, required) in shapes {
        for len in 0usize..=13 {
            let numbers: Vec<u8> = (1..=len as u8).collect();
            let mut request = roulette_request(new_casino(), 100);
            let taken = request.request_roulette_game(
                5_000,
                bet_type,
                numbers,
                key(9),
                &ROULETTE_BUMPS,
                101,
            );
            if len == required {
                assert_eq!(taken, Ok(()));
                assert_eq!(request.vrf_game_state.game_data.len(), len + 1);
                assert_eq!(request.vrf_game_state.game_data[0], bet_type.tag());
            } else {
                assert_eq!(taken, Err(CasinoError::InvalidBetShape));
                assert_eq!(request.casino_state.total_games_played, 0);
            }
        }
    }
}

#[test]
fn request_needs_a_commitment_from_the_slot_before() {
    for (seed_slot, current_slot, fresh) in [
        (100u64, 101u64, true),
        (100, 100, false),
        (100, 102, false),
        (100, 99, false),
        (0, 1, true),
        (0, 0, false),
        (u64::MAX, 0, false),
        (u64::MAX - 1, u64::MAX, true),
    ] {
        let mut request = slots_request(new_casino(), seed_slot);
        let taken = request.request_slots_game(10_000, key(9), &SLOTS_BUMPS, current_slot);
        if fresh {
            assert_eq!(taken, Ok(()));
            assert_eq!(request.vrf_game_state.commit_slot, seed_slot);
        } else {
            assert_eq!(taken, Err(CasinoError::CommitmentInvalid));
            assert_eq!(request.casino_state.total_games_played, 0);
        }
    }
}

#[test]
fn request_refuses_data_that_is_no_randomness_account() {
    let mut request = slots_request(new_casino(), 100);
    request.randomness_account_data.data = vec![0u8; 408];
    assert_eq!(
        request.request_slots_game(10_000, key(9), &SLOTS_BUMPS, 101),
        Err(CasinoError::CommitmentInvalid)
    );
    let mut roulette = roulette_request(new_casino(), 100);
    roulette.randomness_account_data.data.truncate(407);
    assert_eq!(
        roulette.request_roulette_game(
            10_000,
            RouletteBetType::Red,
            Vec::new(),
            key(9),
            &ROULETTE_BUMPS,
            101
        ),
        Err(CasinoError::CommitmentInvalid)
    );
    assert_eq!(
        fresh_commit_slot(&RandomnessAccount { key: key(9), data: Vec::new() }, 1),
        Err(CasinoError::CommitmentInvalid)
    );
    assert_eq!(
        fresh_commit_slot(
            &RandomnessAccount { key: key(9), data: account_bytes(41, 0, [0u8; 32]) },
            42
        ),
        Ok(41)
    );
}

#[test]
fn request_checks_come_in_order() {
    let mut casino = new_casino();
    casino.is_active = false;
    let mut request = roulette_request(casino, 5);
    assert_eq!(
        request.request_roulette_game(
            1,
            RouletteBetType::Straight,
            Vec::new(),
            key(9),
            &ROULETTE_BUMPS,
            101
        ),
        Err(CasinoError::HouseInactive)
    );
    request.casino_state.is_active = true;
    assert_eq!(
        request.request_roulette_game(
            1,
            RouletteBetType::Straight,
            Vec::new(),
            key(9),
            &ROULETTE_BUMPS,
            101
        ),
        Err(CasinoError::InvalidBetAmount)
    );
    assert_eq!(
        request.request_roulette_game(
            1_000,
            RouletteBetType::Straight,
            Vec::new(),
            key(9),
            &ROULETTE_BUMPS,
            101
        ),
        Err(CasinoError::InvalidBetShape)
    );
    assert_eq!(
        request.request_roulette_game(
            1_000,
            RouletteBetType::Straight,
            vec![3],
            key(9),
            &ROULETTE_BUMPS,
            101
        ),
        Err(CasinoError::CommitmentInvalid)
    );
    assert_eq!(
        request.request_roulette_game(
            1_000,
            RouletteBetType::Straight,
            vec![3],
            key(9),
            &ROULETTE_BUMPS,
            6
        ),
        Ok(())
    );
}

#[test]
fn request_has_room_until_a_total_would_overflow() {
    let mut request = slots_request(new_casino(), 100);
    assert!(request.has_room(1_000_000));
    request.casino_state.total_volume = u64::MAX - 1_000;
    assert!(request.has_room(1_000));
    assert!(!request.has_room(1_001));
    request.casino_state.total_volume = 0;
    request.user_stats.games_played = u64::MAX;
    assert!(!request.has_room(1_000));
    let mut roulette = roulette_request(new_casino(), 100);
    roulette.user_stats.total_bets = u64::MAX;
    assert!(!roulette.has_room(1_000));
    roulette.user_stats.total_bets = u64::MAX - 1_000;
    assert!(roulette.has_room(1_000));
    roulette.casino_state.total_games_played = u64::MAX;
    assert!(!roulette.has_room(1_000));
}

#[test]
fn end_to_end_slots_three_sevens() {
    let request = taken_slots_bet(10_000);
    let mut settle = slots_settle(request, value_starting_with([7, 17, 27]), 102);
    assert!(settle.has_room());
    let settled = settle.settle_slots_game(102).unwrap();
    assert_eq!(settled.outcome, vec![7, 7, 7]);
    assert_eq!(settled.final_payout, 1_900_000);
    let round = &settle.vrf_game_state;
    assert_eq!(round.game_phase, GamePhase::Settled);
    assert!(round.is_complete);
    assert_eq!(round.payout, 1_900_000);
    assert_eq!(round.game_data, vec![7, 7, 7]);
    assert_eq!(round.bet_amount, 10_000);
    assert_eq!(round.commit_slot, 100);
    assert_eq!(settle.user_stats.total_wins, 1_900_000);
    assert_eq!(settle.user_stats.total_losses, 0);
    assert_eq!(settle.user_stats.loyalty_points, 100);
    assert_eq!(settle.user_stats.total_bets, 10_000);
    assert_eq!(settle.user_stats.games_played, 1);
    assert_eq!(settle.casino_state.total_payouts, 1_900_000);
    assert_eq!(settle.casino_state.total_volume, 10_000);
    assert_eq!(settle.casino_state.total_games_played, 1);
}

#[test]
fn end_to_end_roulette_straight_on_seventeen() {
    let request = taken_roulette_bet(5_000, RouletteBetType::Straight, vec![17]);
    let mut settle = roulette_settle(request, value_starting_with([17, 0, 0]), 102);
    assert!(settle.has_room());
    let settled = settle.settle_roulette_game(102).unwrap();
    assert_eq!(settled.outcome, vec![17]);
    assert_eq!(settled.final_payout, 170_275);
    let round = &settle.vrf_game_state;
    assert_eq!(round.game_phase, GamePhase::Settled);
    assert!(round.is_complete);
    assert_eq!(round.payout, 170_275);
    assert_eq!(round.game_data, vec![17]);
    assert_eq!(settle.user_stats.total_wins, 170_275);
    assert_eq!(settle.user_stats.loyalty_points, 50);
    assert_eq!(settle.user_stats.total_losses, 0);
    assert_eq!(settle.casino_state.total_payouts, 170_275);
}

#[test]
fn slots_loss_adds_the_stake_to_the_losses() {
    let request = taken_slots_bet(25_000);
    let mut settle = slots_settle(request, value_starting_with([1, 2, 3]), 105);
    let settled = settle.settle_slots_game(105).unwrap();
    assert_eq!(settled.outcome, vec![1, 2, 3]);
    assert_eq!(settled.final_payout, 0);
    assert_eq!(settle.vrf_game_state.game_phase, GamePhase::Settled);
    assert!(settle.vrf_game_state.is_complete);
    assert_eq!(settle.vrf_game_state.payout, 0);
    assert_eq!(settle.user_stats.total_losses, 25_000);
    assert_eq!(settle.user_stats.total_wins, 0);
    assert_eq!(settle.user_stats.loyalty_points, 0);
    assert_eq!(settle.casino_state.total_payouts, 0);
}

#[test]
fn slots_pair_pays_the_second_column_after_the_house_edge() {
    let request = taken_slots_bet(1_000);
    let mut settle = slots_settle(request, value_starting_with([9, 4, 19]), 102);
    let settled = settle.settle_slots_game(102).unwrap();
    assert_eq!(settled.outcome, vec![9, 4, 9]);
    assert_eq!(settled.final_payout, 237_500);
    assert_eq!(settle.user_stats.loyalty_points, 10);
}

#[test]
fn roulette_loss_pays_nothing() {
    let request = taken_roulette_bet(5_000, RouletteBetType::Straight, vec![17]);
    let mut settle = roulette_settle(request, value_starting_with([18, 17, 17]), 102);
    let settled = settle.settle_roulette_game(102).unwrap();
    assert_eq!(settled.outcome, vec![18]);
    assert_eq!(settled.final_payout, 0);
    assert_eq!(settle.user_stats.total_losses, 5_000);
    assert_eq!(settle.user_stats.total_wins, 0);
    assert_eq!(settle.casino_state.total_payouts, 0);
}

#[test]
fn roulette_pays_exactly_when_the_bet_covers_the_winning_number() {
    let red: [u8; 18] = [1, 3, 5, 7, 9, 12, 14, 16, 18, 19, 21, 23, 25, 27, 30, 32, 34, 36];
    for byte in 0u8..=255 {
        let winning = byte % 37;
        let request = taken_roulette_bet(1_000, RouletteBetType::Red, Vec::new());
        let mut settle = roulette_settle(request, value_starting_with([byte, 0, 0]), 102);
        let settled = settle.settle_roulette_game(102).unwrap();
        assert_eq!(settled.outcome, vec![winning]);
        assert_eq!(settled.final_payout > 0, red.contains(&winning));
        assert_eq!(settled.final_payout, if red.contains(&winning) { 973 } else { 0 });
        let request = taken_roulette_bet(1_000, RouletteBetType::Corner, vec![0, 1, 2, 3]);
        let mut settle = roulette_settle(request, value_starting_with([byte, 0, 0]), 102);
        let settled = settle.settle_roulette_game(102).unwrap();
        assert_eq!(settled.final_payout > 0, winning <= 3);
        assert_eq!(settled.final_payout, if winning <= 3 { 7_784 } else { 0 });
    }
}

#[test]
fn second_slots_settlement_is_refused_and_changes_nothing() {
    let request = taken_slots_bet(10_000);
    let mut settle = slots_settle(request, value_starting_with([7, 17, 27]), 102);
    assert_eq!(settle.settle_slots_game(102).unwrap().final_payout, 1_900_000);
    let after_first = settle.clone();
    assert_eq!(settle.settle_slots_game(102).err(), Some(CasinoError::InvalidRoundState));
    assert_same_round(&settle.vrf_game_state, &after_first.vrf_game_state);
    assert_same_stats(&settle.user_stats, &after_first.user_stats);
    assert_same_casino(&settle.casino_state, &after_first.casino_state);
    assert_eq!(settle.settle_slots_game(500).err(), Some(CasinoError::InvalidRoundState));
    assert_eq!(settle.casino_state.total_payouts, 1_900_000);
    assert_eq!(settle.user_stats.total_wins, 1_900_000);
}

#[test]
fn second_roulette_settlement_is_refused_and_changes_nothing() {
    let request = taken_roulette_bet(5_000, RouletteBetType::Straight, vec![17]);
    let mut settle = roulette_settle(request, value_starting_with([17, 0, 0]), 102);
    assert_eq!(settle.settle_roulette_game(102).unwrap().final_payout, 170_275);
    let after_first = settle.clone();
    assert_eq!(settle.settle_roulette_game(102).err(), Some(CasinoError::InvalidRoundState));
    assert_same_round(&settle.vrf_game_state, &after_first.vrf_game_state);
    assert_same_stats(&settle.user_stats, &after_first.user_stats);
    assert_same_casino(&settle.casino_state, &after_first.casino_state);
}

#[test]
fn a_round_that_was_never_requested_cannot_be_settled() {
    let mut settle = SettleSlotsGame {
        casino_state: new_casino(),
        vrf_game_state: blank_round(),
        user_stats: blank_stats(),
        randomness_account_data: RandomnessAccount {
            key: key(0),
            data: account_bytes(0, 1, [0u8; 32]),
        },
    };
    assert_eq!(settle.settle_slots_game(1).err(), Some(CasinoError::InvalidRoundState));
    assert_eq!(settle.casino_state.total_payouts, 0);
    assert_eq!(settle.user_stats.total_losses, 0);
}

#[test]
fn settlement_needs_the_account_the_round_is_bound_to() {
    let request = taken_slots_bet(10_000);
    let mut settle = slots_settle(request, value_starting_with([7, 17, 27]), 102);
    settle.randomness_account_data.key = key(8);
    let before = settle.clone();
    assert_eq!(settle.settle_slots_game(102).err(), Some(CasinoError::CommitmentInvalid));
    assert_same_round(&settle.vrf_game_state, &before.vrf_game_state);
    assert_same_stats(&settle.user_stats, &before.user_stats);
    assert_same_casino(&settle.casino_state, &before.casino_state);
    assert_eq!(settle.vrf_game_state.game_phase, GamePhase::Requested);
    settle.randomness_account_data.key = key(9);
    assert_eq!(settle.settle_slots_game(102).unwrap().final_payout, 1_900_000);
}

#[test]
fn settlement_needs_the_commitment_of_the_round() {
    let request = taken_slots_bet(10_000);
    let mut settle = slots_settle(request, value_starting_with([7, 17, 27]), 102);
    settle.randomness_account_data.data = account_bytes(99, 102, value_starting_with([7, 7, 7]));
    assert_eq!(settle.settle_slots_game(102).err(), Some(CasinoError::CommitmentInvalid));
    settle.randomness_account_data.data = vec![1u8; 500];
    assert_eq!(settle.settle_slots_game(102).err(), Some(CasinoError::CommitmentInvalid));
    assert_eq!(settle.vrf_game_state.game_phase, GamePhase::Requested);
    assert_eq!(settle.casino_state.total_payouts, 0);
}

#[test]
fn settlement_needs_the_reveal_slot() {
    let request = taken_roulette_bet(5_000, RouletteBetType::Straight, vec![17]);
    let mut settle = roulette_settle(request, value_starting_with([17, 0, 0]), 102);
    assert_eq!(settle.settle_roulette_game(101).err(), Some(CasinoError::CommitmentInvalid));
    assert_eq!(settle.settle_roulette_game(103).err(), Some(CasinoError::CommitmentInvalid));
    assert_eq!(settle.settle_roulette_game(100).err(), Some(CasinoError::CommitmentInvalid));
    assert_eq!(settle.settle_roulette_game(0).err(), Some(CasinoError::CommitmentInvalid));
    assert_eq!(settle.vrf_game_state.game_phase, GamePhase::Requested);
    assert_eq!(settle.settle_roulette_game(102).unwrap().final_payout, 170_275);
}

#[test]
fn settlement_needs_a_reveal_after_the_commit() {
    let request = taken_slots_bet(10_000);
    let mut settle = slots_settle(request, value_starting_with([7, 17, 27]), 100);
    assert_eq!(settle.settle_slots_game(100).err(), Some(CasinoError::CommitmentInvalid));
    assert_eq!(settle.vrf_game_state.game_phase, GamePhase::Requested);
}

#[test]
fn roulette_settlement_refuses_a_corrupt_payload() {
    let request = taken_roulette_bet(5_000, RouletteBetType::Straight, vec![17]);
    let mut settle = roulette_settle(request, value_starting_with([17, 0, 0]), 102);
    settle.vrf_game_state.game_data = vec![13, 17];
    let before = settle.clone();
    assert_eq!(settle.settle_roulette_game(102).err(), Some(CasinoError::CorruptPayload));
    assert_same_round(&settle.vrf_game_state, &before.vrf_game_state);
    assert_same_stats(&settle.user_stats, &before.user_stats);
    assert_same_casino(&settle.casino_state, &before.casino_state);
    settle.vrf_game_state.game_data = Vec::new();
    assert_eq!(settle.settle_roulette_game(102).err(), Some(CasinoError::CorruptPayload));
    settle.vrf_game_state.game_data = vec![255];
    assert_eq!(settle.settle_roulette_game(102).err(), Some(CasinoError::CorruptPayload));
    assert_eq!(settle.settle_roulette_game(101).err(), Some(CasinoError::CommitmentInvalid));
}

#[test]
fn reveal_hands_out_the_value_of_the_account() {
    let request = taken_slots_bet(10_000);
    let mut value = [0u8; 32];
    for (index, byte) in value.iter_mut().enumerate() {
        *byte = 200 + index as u8;
    }
    let account = RandomnessAccount { key: key(9), data: account_bytes(100, 150, value) };
    assert_eq!(reveal_randomness(&request.vrf_game_state, &account, 150), Ok(value.to_vec()));
    assert_eq!(
        reveal_randomness(&request.vrf_game_state, &account, 149),
        Err(CasinoError::CommitmentInvalid)
    );
    let other = RandomnessAccount { key: key(10), data: account_bytes(100, 150, value) };
    assert_eq!(
        reveal_randomness(&request.vrf_game_state, &other, 150),
        Err(CasinoError::CommitmentInvalid)
    );
}

#[test]
fn roulette_bet_is_read_back_as_it_was_written() {
    let payload = encode_roulette_bet(RouletteBetType::Line, &[1, 2, 3, 4, 5, 6]);
    assert_eq!(payload, vec![4, 1, 2, 3, 4, 5, 6]);
    let numbers: [u8; 6] = [1, 2, 3, 4, 5, 6];
    assert_eq!(decode_roulette_bet(&payload), Ok((RouletteBetType::Line, &numbers[..])));
    assert_eq!(encode_roulette_bet(RouletteBetType::High, &[]), vec![12]);
    let none: [u8; 0] = [];
    assert_eq!(decode_roulette_bet(&[12]), Ok((RouletteBetType::High, &none[..])));
    assert_eq!(decode_roulette_bet(&[]), Err(CasinoError::CorruptPayload));
    assert_eq!(decode_roulette_bet(&[13, 1]), Err(CasinoError::CorruptPayload));
}

#[test]
fn totals_grow_over_several_rounds() {
    let mut casino = new_casino();
    let mut stats = blank_stats();
    let spins: [([u8; 3], u64); 3] = [([7, 17, 27], 1_900_000), ([1, 2, 3], 0), ([5, 5, 6], 285_000)];
    let mut won = 0;
    for (round_number, (lanes, expected)) in spins.iter().enumerate() {
        let mut request = slots_request(casino, 100);
        request.user_stats = stats;
        assert_eq!(request.request_slots_game(10_000, key(9), &SLOTS_BUMPS, 101), Ok(()));
        let mut settle = slots_settle(request, value_starting_with(*lanes), 102);
        assert_eq!(settle.settle_slots_game(102).unwrap().final_payout, *expected);
        assert!(settle.casino_state.total_payouts >= casino.total_payouts);
        assert!(settle.casino_state.total_volume > casino.total_volume);
        assert!(settle.user_stats.total_bets > stats.total_bets);
        casino = settle.casino_state;
        stats = settle.user_stats;
        won += expected;
        assert_eq!(casino.total_games_played, round_number as u64 + 1);
        assert_eq!(casino.total_payouts, won);
    }
    assert_eq!(casino.total_volume, 30_000);
    assert_eq!(stats.total_bets, 30_000);
    assert_eq!(stats.games_played, 3);
    assert_eq!(stats.total_wins, 2_185_000);
    assert_eq!(stats.total_losses, 10_000);
    assert_eq!(stats.loyalty_points, 200);
}

#[test]
fn settlement_has_room_for_every_taken_bet() {
    let request = taken_slots_bet(1_000_000);
    let mut settle = slots_settle(request, value_starting_with([9, 9, 9]), 102);
    assert!(settle.has_room());
    settle.casino_state.total_payouts = u64::MAX - MAX_PAYOUT;
    assert!(settle.has_room());
    let settled = settle.settle_slots_game(102).unwrap();
    assert_eq!(settled.final_payout, 950_000_000);
    assert_eq!(settle.casino_state.total_payouts, u64::MAX - 50_000_000);
    assert_eq!(MAX_PAYOUT, 1_000_000_000);
}

#[test]
fn settlement_has_no_room_near_the_end_of_a_total() {
    let request = taken_slots_bet(10_000);
    let mut settle = slots_settle(request, value_starting_with([7, 17, 27]), 102);
    settle.casino_state.total_payouts = u64::MAX - MAX_PAYOUT + 1;
    assert!(!settle.has_room());
    settle.casino_state.total_payouts = 0;
    settle.user_stats.total_wins = u64::MAX;
    assert!(!settle.has_room());
    settle.user_stats.total_wins = 0;
    settle.casino_state.house_edge_config.slots_rtp_bps = 10_001;
    assert!(!settle.has_room());
    settle.casino_state.house_edge_config.slots_rtp_bps = 10_000;
    assert!(settle.has_room());
    settle.vrf_game_state.bet_amount = 1_000_001;
    assert!(!settle.has_room());
    let request = taken_roulette_bet(5_000, RouletteBetType::Red, Vec::new());
    let mut roulette = roulette_settle(request, [0u8; 32], 102);
    assert!(roulette.has_room());
    roulette.user_stats.total_losses = u64::MAX - 4_999;
    assert!(!roulette.has_room());
    roulette.user_stats.total_losses = u64::MAX - 5_000;
    assert!(roulette.has_room());
    roulette.user_stats.loyalty_points = u64::MAX - 49;
    assert!(!roulette.has_room());
}

#[test]
fn round_clone_keeps_every_field() {
    let request = taken_roulette_bet(5_000, RouletteBetType::Split, vec![4, 5]);
    let copy = request.vrf_game_state.clone();
    assert_same_round(&copy, &request.vrf_game_state);
    assert_eq!(copy.user, key(7));
    assert_ne!(copy.user, key(9));
}

#[test]
fn validation_decides_without_changing_anything() {
    let request = slots_request(new_casino(), 100);
    assert_eq!(request.validate(10_000, 101), Ok(100));
    assert_eq!(request.validate(999, 101), Err(CasinoError::InvalidBetAmount));
    assert_eq!(request.validate(10_000, 100), Err(CasinoError::CommitmentInvalid));
    assert_eq!(request.casino_state.total_games_played, 0);
    assert_eq!(request.vrf_game_state.game_phase, GamePhase::Settled);
    let roulette = roulette_request(new_casino(), 41);
    assert_eq!(roulette.validate(5_000, RouletteBetType::Split, &[4, 5], 42), Ok(41));
    assert_eq!(
        roulette.validate(5_000, RouletteBetType::Split, &[4], 42),
        Err(CasinoError::InvalidBetShape)
    );
    assert_eq!(
        roulette.validate(5_000_000, RouletteBetType::Split, &[4], 42),
        Err(CasinoError::InvalidBetAmount)
    );
    assert_eq!(roulette.user_stats.total_bets, 0);
}
