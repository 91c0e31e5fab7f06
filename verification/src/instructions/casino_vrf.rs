use crate::errors::CasinoError;
use crate::instructions::model::{
    casino_after_request, casino_after_settle, commitment_is_fresh, decoded_roulette_bet,
    lemma_roulette_settlement_is_bounded, lemma_slots_settlement_is_bounded, payout_room,
    request_fits, request_step, request_verdict, requested_round, reveal_verdict,
    roulette_payload, roulette_settlement, settle_step, settled_round, settlement_has_room,
    slots_settlement, stats_after_request, stats_after_settle, Ledger, SettlementModel,
    MAX_PAYOUT,
};
use crate::state::casino::{CasinoState, GameType, HouseEdgeConfig, RouletteBetType, UserStats};
use crate::utils::payout::{
    apply_house_edge, calculate_roulette_payout, calculate_slots_payout, roulette_shape_ok,
    validate_bet_amount, validate_roulette_numbers, MAX_BET, MIN_BET,
};
use crate::utils::pubkey::same_key;
use crate::utils::vrf::{
    account_seed_slot, generate_game_randomness, get_revealed_randomness,
    parse_randomness_data, validate_randomness_timing, GamePhase, VrfGameState,
    VrfGameStateView,
};
use anchor_lang::prelude::Pubkey;
use vstd::prelude::*;
use vstd::slice::{slice_subrange, slice_to_vec};

verus! {

/// A randomness account as an instruction is handed it: its address and the
/// bytes it holds.
#[derive(Clone, Debug)]
pub struct RandomnessAccount {
    pub key: Pubkey,
    pub data: Vec<u8>,
}

/// What a settlement hands back: the outcome of the game and what the vault
/// owes the user.
#[derive(Clone, Debug)]
pub struct Settlement {
    pub outcome: Vec<u8>,
    pub final_payout: u64,
}

/// Writes a roulette bet as the bytes a round stores.
pub fn encode_roulette_bet(bet_type: RouletteBetType, numbers: &[u8]) -> (payload: Vec<u8>)
    ensures
        payload@ == roulette_payload(bet_type, numbers@),
{
    let mut payload: Vec<u8> = Vec::new();
    payload.push(bet_type.tag());
    let mut i: usize = 0;
    while i < numbers.len()
        invariant
            i <= numbers.len(),
            payload@ == seq![bet_type.spec_tag()] + numbers@.subrange(0, i as int),
        decreases numbers.len() - i,
    {
        payload.push(numbers[i]);
        assert(numbers@.subrange(0, i as int).push(numbers@[i as int]) == numbers@.subrange(
            0,
            i + 1,
        ));
        i += 1;
    }
    assert(numbers@.subrange(0, numbers@.len() as int) == numbers@);
    payload
}

/// Reads a roulette bet back from the bytes a round stores. Bytes that do not
/// begin with the tag of a bet type are corrupt.
pub fn decode_roulette_bet(payload: &[u8]) -> (decoded: Result<
    (RouletteBetType, &[u8]),
    CasinoError,
>)
    ensures
        match decoded_roulette_bet(payload@) {
            Some((bet_type, numbers)) => decoded matches Ok(bet) && bet.0 == bet_type && bet.1@
                == numbers,
            None => decoded matches Err(error) && error == CasinoError::CorruptPayload,
        },
{
    if payload.len() == 0 {
        return Err(CasinoError::CorruptPayload);
    }
    match RouletteBetType::from_tag(payload[0]) {
        Some(bet_type) => Ok((bet_type, slice_subrange(payload, 1, payload.len()))),
        None => Err(CasinoError::CorruptPayload),
    }
}

/// A stored bet is read back as it was written.
pub proof fn lemma_roulette_payload_round_trip(bet_type: RouletteBetType, numbers: Seq<u8>)
    ensures
        decoded_roulette_bet(roulette_payload(bet_type, numbers)) == Some((bet_type, numbers)),
{
    let payload = roulette_payload(bet_type, numbers);
    assert(payload[0] == bet_type.spec_tag());
    assert(payload.subrange(1, payload.len() as int) =~= numbers);
}

/// Checks a round against the randomness account presented for it and hands
/// out the revealed randomness.
pub fn reveal_randomness(
    round: &VrfGameState,
    randomness_account: &RandomnessAccount,
    current_slot: u64,
) -> (revealed: Result<Vec<u8>, CasinoError>)
    ensures
        match reveal_verdict(
            round@,
            randomness_account.key,
            randomness_account.data@,
            current_slot,
        ) {
            Ok(randomness) => revealed matches Ok(bytes) && bytes@ == randomness,
            Err(error) => revealed matches Err(refusal) && refusal == error,
        },
        revealed matches Ok(bytes) ==> bytes@.len() == 32,
{
    if round.game_phase != GamePhase::Requested {
        return Err(CasinoError::InvalidRoundState);
    }
    if !same_key(&round.randomness_account, &randomness_account.key) {
        return Err(CasinoError::CommitmentInvalid);
    }
    let randomness_data = match parse_randomness_data(randomness_account.data.as_slice()) {
        Ok(data) => data,
        Err(error) => {
            return Err(error);
        },
    };
    match validate_randomness_timing(&randomness_data, round.commit_slot, current_slot) {
        Ok(()) => {},
        Err(error) => {
            return Err(error);
        },
    }
    get_revealed_randomness(&randomness_data, current_slot)
}

/// Checks that the commitment of the account presented is fresh at
/// `current_slot`, and hands out its commit slot.
pub fn fresh_commit_slot(randomness_account: &RandomnessAccount, current_slot: u64) -> (fresh:
    Result<u64, CasinoError>)
    ensures
        fresh is Ok <==> commitment_is_fresh(randomness_account.data@, current_slot),
        fresh matches Ok(commit_slot) ==> commit_slot == account_seed_slot(
            randomness_account.data@,
        ),
        fresh matches Err(error) ==> error == CasinoError::CommitmentInvalid,
{
    let randomness_data = match parse_randomness_data(randomness_account.data.as_slice()) {
        Ok(data) => data,
        Err(error) => {
            return Err(error);
        },
    };
    if current_slot == 0 || randomness_data.seed_slot != current_slot - 1 {
        return Err(CasinoError::CommitmentInvalid);
    }
    Ok(randomness_data.seed_slot)
}

/// Whether the totals of the house and of the user can take one more bet of
/// `bet_amount`.
fn totals_have_room(casino: &CasinoState, stats: &UserStats, bet_amount: u64) -> (room: bool)
    ensures
        room == request_fits(*casino, *stats, bet_amount),
{
    casino.total_games_played < u64::MAX && casino.total_volume <= u64::MAX - bet_amount
        && stats.total_bets <= u64::MAX - bet_amount && stats.games_played < u64::MAX
}

/// Whether the totals can take the largest payout that a stake within the
/// bounds can win under a target return of at most the whole.
fn payouts_have_room(casino: &CasinoState, stats: &UserStats, bet_amount: u64, rtp_bps: u16) -> (room:
    bool)
    ensures
        room == payout_room(*casino, *stats, bet_amount, rtp_bps),
{
    bet_amount <= MAX_BET && rtp_bps <= 10_000 && casino.total_payouts <= u64::MAX - MAX_PAYOUT
        && stats.total_wins <= u64::MAX - MAX_PAYOUT && stats.loyalty_points <= u64::MAX
        - bet_amount / 100 && stats.total_losses <= u64::MAX - bet_amount
}

/// Records a bet that was taken: opens the round and adds the bet to the
/// totals of the user and of the house.
fn record_request(
    casino: &mut CasinoState,
    round: &mut VrfGameState,
    stats: &mut UserStats,
    opened: VrfGameState,
    stats_bump: u8,
)
    requires
        request_fits(*old(casino), *old(stats), opened.bet_amount),
    ensures
        *final(round) == opened,
        *final(stats) == stats_after_request(
            *old(stats),
            opened.user,
            opened.bet_amount,
            stats_bump,
        ),
        *final(casino) == casino_after_request(*old(casino), opened.bet_amount),
{
    stats.user = opened.user;
    stats.total_bets = stats.total_bets + opened.bet_amount;
    stats.games_played = stats.games_played + 1;
    stats.bump = stats_bump;
    casino.total_games_played = casino.total_games_played + 1;
    casino.total_volume = casino.total_volume + opened.bet_amount;
    *round = opened;
}

/// Records the outcome of a round: closes the round and adds the payout to
/// the totals of the user and of the house.
fn record_settlement(
    casino: &mut CasinoState,
    round: &mut VrfGameState,
    stats: &mut UserStats,
    outcome: Vec<u8>,
    final_payout: u64,
)
    requires
        old(casino).total_payouts + final_payout <= u64::MAX,
        final_payout > 0 ==> old(stats).total_wins + final_payout <= u64::MAX,
        final_payout > 0 ==> old(stats).loyalty_points + old(round).bet_amount / 100 <= u64::MAX,
        final_payout == 0 ==> old(stats).total_losses + old(round).bet_amount <= u64::MAX,
    ensures
        final(round)@ == settled_round(old(round)@, outcome@, final_payout),
        *final(stats) == stats_after_settle(*old(stats), old(round).bet_amount, final_payout),
        *final(casino) == casino_after_settle(*old(casino), final_payout),
{
    round.game_data = outcome;
    round.payout = final_payout;
    round.game_phase = GamePhase::Settled;
    round.is_complete = true;
    if final_payout > 0 {
        stats.total_wins = stats.total_wins + final_payout;
        stats.loyalty_points = stats.loyalty_points + round.bet_amount / 100;
    } else {
        stats.total_losses = stats.total_losses + round.bet_amount;
    }
    casino.total_payouts = casino.total_payouts + final_payout;
}

/// What it takes to set up the casino.
#[derive(Clone, Copy, Debug)]
pub struct InitializeCasino {
    pub casino_state: CasinoState,
    /// The account that holds the stakes.
    pub casino_vault: Pubkey,
    /// Who runs the casino.
    pub authority: Pubkey,
}

/// The bump seeds of the accounts that setting up the casino creates.
#[derive(Clone, Copy, Debug)]
pub struct InitializeCasinoBumps {
    pub casino_state: u8,
}

/// The state of a casino that was just set up: active, with nothing played
/// yet and the standard house edge.
pub open spec fn initial_casino(authority: Pubkey, vault: Pubkey, bump: u8) -> CasinoState {
    CasinoState {
        authority,
        vault,
        total_games_played: 0,
        total_volume: 0,
        total_payouts: 0,
        house_edge_config: HouseEdgeConfig::spec_standard(),
        is_active: true,
        casino_state_bump: bump,
    }
}

impl InitializeCasino {
    /// Sets up the casino, whatever its state held before.
    pub fn initialize_casino(&mut self, bumps: &InitializeCasinoBumps) -> (done: Result<
        (),
        CasinoError,
    >)
        ensures
            done is Ok,
            final(self).casino_state == initial_casino(
                old(self).authority,
                old(self).casino_vault,
                bumps.casino_state,
            ),
            final(self).casino_state.house_edge_config.wf(),
            final(self).authority == old(self).authority,
            final(self).casino_vault == old(self).casino_vault,
    {
        self.casino_state = CasinoState {
            authority: self.authority,
            vault: self.casino_vault,
            total_games_played: 0,
            total_volume: 0,
            total_payouts: 0,
            house_edge_config: HouseEdgeConfig::standard(),
            is_active: true,
            casino_state_bump: bumps.casino_state,
        };
        Ok(())
    }
}

/// What a slots bet works on.
#[derive(Clone, Debug)]
pub struct RequestSlotsGame {
    pub casino_state: CasinoState,
    pub vrf_game_state: VrfGameState,
    pub user_stats: UserStats,
    /// Who places the bet.
    pub user: Pubkey,
    /// The account whose commitment the bet is placed on.
    pub randomness_account_data: RandomnessAccount,
}

/// The bump seeds of the accounts that a slots bet creates.
#[derive(Clone, Copy, Debug)]
pub struct RequestSlotsGameBumps {
    pub vrf_game_state: u8,
    pub user_stats: u8,
}

impl RequestSlotsGame {
    /// The house, the round and the user's totals.
    pub open spec fn ledger(self) -> Ledger {
        Ledger {
            casino: self.casino_state,
            round: self.vrf_game_state@,
            stats: self.user_stats,
        }
    }

    /// Whether a bet of `bet_amount` is taken at `current_slot`.
    pub open spec fn verdict(self, bet_amount: u64, current_slot: u64) -> Result<(), CasinoError> {
        request_verdict(
            self.casino_state,
            bet_amount,
            true,
            self.randomness_account_data.data@,
            current_slot,
        )
    }

    /// The round that a bet of `bet_amount` opens.
    pub open spec fn opened_round(
        self,
        bet_amount: u64,
        randomness_account: Pubkey,
        bump: u8,
    ) -> VrfGameStateView {
        requested_round(
            self.user,
            GameType::Slots,
            bet_amount,
            randomness_account,
            account_seed_slot(self.randomness_account_data.data@),
            Seq::empty(),
            bump,
        )
    }

    /// Whether the totals can take one more bet of `bet_amount`.
    pub fn has_room(&self, bet_amount: u64) -> (room: bool)
        ensures
            room == request_fits(self.casino_state, self.user_stats, bet_amount),
    {
        totals_have_room(&self.casino_state, &self.user_stats, bet_amount)
    }

    /// Decides whether a bet of `bet_amount` is taken at `current_slot`, and
    /// hands out the commit slot that its round is bound to. Nothing is
    /// changed.
    pub fn validate(&self, bet_amount: u64, current_slot: u64) -> (verdict: Result<
        u64,
        CasinoError,
    >)
        ensures
            match self.verdict(bet_amount, current_slot) {
                Ok(_) => verdict matches Ok(commit_slot) && commit_slot == account_seed_slot(
                    self.randomness_account_data.data@,
                ),
                Err(error) => verdict matches Err(refusal) && refusal == error,
            },
    {
        if !self.casino_state.is_active {
            return Err(CasinoError::HouseInactive);
        }
        match validate_bet_amount(bet_amount, MIN_BET, MAX_BET) {
            Ok(()) => {},
            Err(error) => {
                return Err(error);
            },
        }
        fresh_commit_slot(&self.randomness_account_data, current_slot)
    }

    /// Places a slots bet of `bet_amount` at `current_slot`. A bet that is
    /// taken opens a round bound to `randomness_account` and to the commit
    /// slot of the account presented, and is added to the totals; the caller
    /// then moves the stake into the vault. A bet that is refused changes
    /// nothing.
    pub fn request_slots_game(
        &mut self,
        bet_amount: u64,
        randomness_account: Pubkey,
        bumps: &RequestSlotsGameBumps,
        current_slot: u64,
    ) -> (taken: Result<(), CasinoError>)
        requires
            old(self).verdict(bet_amount, current_slot) is Ok ==> request_fits(
                old(self).casino_state,
                old(self).user_stats,
                bet_amount,
            ),
        ensures
            taken == old(self).verdict(bet_amount, current_slot),
            final(self).ledger() == request_step(
                old(self).ledger(),
                taken,
                old(self).opened_round(bet_amount, randomness_account, bumps.vrf_game_state),
                bumps.user_stats,
            ),
            final(self).user == old(self).user,
            final(self).randomness_account_data == old(self).randomness_account_data,
            taken is Err ==> *final(self) == *old(self),
    {
        let commit_slot = match self.validate(bet_amount, current_slot) {
            Ok(slot) => slot,
            Err(error) => {
                return Err(error);
            },
        };
        let opened = VrfGameState {
            user: self.user,
            game_type: GameType::Slots,
            bet_amount,
            randomness_account,
            commit_slot,
            game_phase: GamePhase::Requested,
            game_data: Vec::new(),
            payout: 0,
            is_complete: false,
            bump: bumps.vrf_game_state,
        };
        record_request(
            &mut self.casino_state,
            &mut self.vrf_game_state,
            &mut self.user_stats,
            opened,
            bumps.user_stats,
        );
        Ok(())
    }
}

/// What a roulette bet works on.
#[derive(Clone, Debug)]
pub struct RequestRouletteGame {
    pub casino_state: CasinoState,
    pub vrf_game_state: VrfGameState,
    pub user_stats: UserStats,
    /// Who places the bet.
    pub user: Pubkey,
    /// The account whose commitment the bet is placed on.
    pub randomness_account_data: RandomnessAccount,
}

/// The bump seeds of the accounts that a roulette bet creates.
#[derive(Clone, Copy, Debug)]
pub struct RequestRouletteGameBumps {
    pub vrf_game_state: u8,
    pub user_stats: u8,
}

impl RequestRouletteGame {
    /// The house, the round and the user's totals.
    pub open spec fn ledger(self) -> Ledger {
        Ledger {
            casino: self.casino_state,
            round: self.vrf_game_state@,
            stats: self.user_stats,
        }
    }

    /// Whether a bet of `bet_amount` on `numbers` is taken at `current_slot`.
    pub open spec fn verdict(
        self,
        bet_amount: u64,
        bet_type: RouletteBetType,
        numbers: Seq<u8>,
        current_slot: u64,
    ) -> Result<(), CasinoError> {
        request_verdict(
            self.casino_state,
            bet_amount,
            roulette_shape_ok(bet_type, numbers),
            self.randomness_account_data.data@,
            current_slot,
        )
    }

    /// The round that a bet of `bet_amount` on `numbers` opens.
    pub open spec fn opened_round(
        self,
        bet_amount: u64,
        bet_type: RouletteBetType,
        numbers: Seq<u8>,
        randomness_account: Pubkey,
        bump: u8,
    ) -> VrfGameStateView {
        requested_round(
            self.user,
            GameType::Roulette,
            bet_amount,
            randomness_account,
            account_seed_slot(self.randomness_account_data.data@),
            roulette_payload(bet_type, numbers),
            bump,
        )
    }

    /// Whether the totals can take one more bet of `bet_amount`.
    pub fn has_room(&self, bet_amount: u64) -> (room: bool)
        ensures
            room == request_fits(self.casino_state, self.user_stats, bet_amount),
    {
        totals_have_room(&self.casino_state, &self.user_stats, bet_amount)
    }

    /// Decides whether a bet of `bet_amount` on `numbers` is taken at
    /// `current_slot`, and hands out the commit slot that its round is bound
    /// to. Nothing is changed.
    pub fn validate(
        &self,
        bet_amount: u64,
        bet_type: RouletteBetType,
        numbers: &[u8],
        current_slot: u64,
    ) -> (verdict: Result<u64, CasinoError>)
        ensures
            match self.verdict(bet_amount, bet_type, numbers@, current_slot) {
                Ok(_) => verdict matches Ok(commit_slot) && commit_slot == account_seed_slot(
                    self.randomness_account_data.data@,
                ),
                Err(error) => verdict matches Err(refusal) && refusal == error,
            },
    {
        if !self.casino_state.is_active {
            return Err(CasinoError::HouseInactive);
        }
        match validate_bet_amount(bet_amount, MIN_BET, MAX_BET) {
            Ok(()) => {},
            Err(error) => {
                return Err(error);
            },
        }
        match validate_roulette_numbers(bet_type, numbers) {
            Ok(()) => {},
            Err(error) => {
                return Err(error);
            },
        }
        fresh_commit_slot(&self.randomness_account_data, current_slot)
    }

    /// Places a roulette bet of `bet_amount` on `numbers` at `current_slot`.
    /// A bet that is taken opens a round that stores the bet, bound to
    /// `randomness_account` and to the commit slot of the account presented,
    /// and is added to the totals; the caller then moves the stake into the
    /// vault. A bet that is refused changes nothing.
    pub fn request_roulette_game(
        &mut self,
        bet_amount: u64,
        bet_type: RouletteBetType,
        numbers: Vec<u8>,
        randomness_account: Pubkey,
        bumps: &RequestRouletteGameBumps,
        current_slot: u64,
    ) -> (taken: Result<(), CasinoError>)
        requires
            old(self).verdict(bet_amount, bet_type, numbers@, current_slot) is Ok ==> request_fits(
                old(self).casino_state,
                old(self).user_stats,
                bet_amount,
            ),
        ensures
            taken == old(self).verdict(bet_amount, bet_type, numbers@, current_slot),
            final(self).ledger() == request_step(
                old(self).ledger(),
                taken,
                old(self).opened_round(
                    bet_amount,
                    bet_type,
                    numbers@,
                    randomness_account,
                    bumps.vrf_game_state,
                ),
                bumps.user_stats,
            ),
            final(self).user == old(self).user,
            final(self).randomness_account_data == old(self).randomness_account_data,
            taken is Err ==> *final(self) == *old(self),
    {
        let commit_slot = match self.validate(
            bet_amount,
            bet_type,
            numbers.as_slice(),
            current_slot,
        ) {
            Ok(slot) => slot,
            Err(error) => {
                return Err(error);
            },
        };
        let opened = VrfGameState {
            user: self.user,
            game_type: GameType::Roulette,
            bet_amount,
            randomness_account,
            commit_slot,
            game_phase: GamePhase::Requested,
            game_data: encode_roulette_bet(bet_type, numbers.as_slice()),
            payout: 0,
            is_complete: false,
            bump: bumps.vrf_game_state,
        };
        record_request(
            &mut self.casino_state,
            &mut self.vrf_game_state,
            &mut self.user_stats,
            opened,
            bumps.user_stats,
        );
        Ok(())
    }
}

/// What settling a slots round works on.
#[derive(Clone, Debug)]
pub struct SettleSlotsGame {
    pub casino_state: CasinoState,
    pub vrf_game_state: VrfGameState,
    pub user_stats: UserStats,
    /// The account presented as the one the round is bound to.
    pub randomness_account_data: RandomnessAccount,
}

impl SettleSlotsGame {
    /// The house, the round and the user's totals.
    pub open spec fn ledger(self) -> Ledger {
        Ledger {
            casino: self.casino_state,
            round: self.vrf_game_state@,
            stats: self.user_stats,
        }
    }

    /// How the round settles at `current_slot`, if it does.
    pub open spec fn settlement(self, current_slot: u64) -> Result<SettlementModel, CasinoError> {
        slots_settlement(
            self.casino_state,
            self.vrf_game_state@,
            self.randomness_account_data.key,
            self.randomness_account_data.data@,
            current_slot,
        )
    }

    /// Whether the totals can take whatever the round may pay: the stake is
    /// at most the largest, the target return at most the whole, and every
    /// total that a settlement adds to has room for the largest payout or for
    /// the stake. A round with room can be settled at any slot.
    pub fn has_room(&self) -> (room: bool)
        ensures
            room == payout_room(
                self.casino_state,
                self.user_stats,
                self.vrf_game_state.bet_amount,
                self.casino_state.house_edge_config.slots_rtp_bps,
            ),
            room ==> forall|current_slot: u64|
                settlement_has_room(
                    self.casino_state,
                    self.user_stats,
                    self.vrf_game_state.bet_amount,
                    #[trigger] self.settlement(current_slot),
                ),
    {
        let room = payouts_have_room(
            &self.casino_state,
            &self.user_stats,
            self.vrf_game_state.bet_amount,
            self.casino_state.house_edge_config.slots_rtp_bps,
        );
        proof {
            if room {
                assert forall|current_slot: u64|
                    settlement_has_room(
                        self.casino_state,
                        self.user_stats,
                        self.vrf_game_state.bet_amount,
                        #[trigger] self.settlement(current_slot),
                    ) by {
                    lemma_slots_settlement_is_bounded(
                        self.casino_state,
                        self.vrf_game_state@,
                        self.randomness_account_data.key,
                        self.randomness_account_data.data@,
                        current_slot,
                    );
                }
            }
        }
        room
    }

    /// Settles the round as a spin of the slot machine at `current_slot`. A
    /// round that can be settled takes the reels and the payout, is complete,
    /// and the payout is added to the totals; the caller then pays the user
    /// out of the vault where the payout is positive. A round that cannot be
    /// settled is left as it is, and so are the totals. The game type that the
    /// round records is not consulted.
    pub fn settle_slots_game(&mut self, current_slot: u64) -> (settled: Result<
        Settlement,
        CasinoError,
    >)
        requires
            settlement_has_room(
                old(self).casino_state,
                old(self).user_stats,
                old(self).vrf_game_state.bet_amount,
                old(self).settlement(current_slot),
            ),
        ensures
            match old(self).settlement(current_slot) {
                Ok(paid) => {
                    &&& settled matches Ok(settlement)
                    &&& settlement.outcome@ == paid.outcome
                    &&& settlement.final_payout == paid.final_payout
                },
                Err(error) => settled matches Err(refusal) && refusal == error,
            },
            final(self).ledger() == settle_step(
                old(self).ledger(),
                old(self).settlement(current_slot),
            ),
            final(self).randomness_account_data == old(self).randomness_account_data,
            settled is Err ==> *final(self) == *old(self),
    {
        let randomness = match reveal_randomness(
            &self.vrf_game_state,
            &self.randomness_account_data,
            current_slot,
        ) {
            Ok(bytes) => bytes,
            Err(error) => {
                return Err(error);
            },
        };
        let reels_bytes = match generate_game_randomness(GameType::Slots, randomness.as_slice()) {
            Ok(values) => values,
            Err(error) => {
                return Err(error);
            },
        };
        let reels: [u8; 3] = [reels_bytes[0], reels_bytes[1], reels_bytes[2]];
        assert(reels@ =~= reels_bytes@);
        let payout = calculate_slots_payout(reels, self.vrf_game_state.bet_amount);
        let final_payout = apply_house_edge(
            payout,
            self.casino_state.house_edge_config.slots_rtp_bps,
        );
        let outcome = slice_to_vec(reels_bytes.as_slice());
        record_settlement(
            &mut self.casino_state,
            &mut self.vrf_game_state,
            &mut self.user_stats,
            reels_bytes,
            final_payout,
        );
        Ok(Settlement { outcome, final_payout })
    }
}

/// What settling a roulette round works on.
#[derive(Clone, Debug)]
pub struct SettleRouletteGame {
    pub casino_state: CasinoState,
    pub vrf_game_state: VrfGameState,
    pub user_stats: UserStats,
    /// The account presented as the one the round is bound to.
    pub randomness_account_data: RandomnessAccount,
}

impl SettleRouletteGame {
    /// The house, the round and the user's totals.
    pub open spec fn ledger(self) -> Ledger {
        Ledger {
            casino: self.casino_state,
            round: self.vrf_game_state@,
            stats: self.user_stats,
        }
    }

    /// How the round settles at `current_slot`, if it does.
    pub open spec fn settlement(self, current_slot: u64) -> Result<SettlementModel, CasinoError> {
        roulette_settlement(
            self.casino_state,
            self.vrf_game_state@,
            self.randomness_account_data.key,
            self.randomness_account_data.data@,
            current_slot,
        )
    }

    /// Whether the totals can take whatever the round may pay: the stake is
    /// at most the largest, the target return at most the whole, and every
    /// total that a settlement adds to has room for the largest payout or for
    /// the stake. A round with room can be settled at any slot.
    pub fn has_room(&self) -> (room: bool)
        ensures
            room == payout_room(
                self.casino_state,
                self.user_stats,
                self.vrf_game_state.bet_amount,
                self.casino_state.house_edge_config.roulette_rtp_bps,
            ),
            room ==> forall|current_slot: u64|
                settlement_has_room(
                    self.casino_state,
                    self.user_stats,
                    self.vrf_game_state.bet_amount,
                    #[trigger] self.settlement(current_slot),
                ),
    {
        let room = payouts_have_room(
            &self.casino_state,
            &self.user_stats,
            self.vrf_game_state.bet_amount,
            self.casino_state.house_edge_config.roulette_rtp_bps,
        );
        proof {
            if room {
                assert forall|current_slot: u64|
                    settlement_has_room(
                        self.casino_state,
                        self.user_stats,
                        self.vrf_game_state.bet_amount,
                        #[trigger] self.settlement(current_slot),
                    ) by {
                    lemma_roulette_settlement_is_bounded(
                        self.casino_state,
                        self.vrf_game_state@,
                        self.randomness_account_data.key,
                        self.randomness_account_data.data@,
                        current_slot,
                    );
                }
            }
        }
        room
    }

    /// Settles the round as a turn of the roulette wheel at `current_slot`. A
    /// round that can be settled takes the winning number and the payout, is
    /// complete, and the payout is added to the totals; the caller then pays
    /// the user out of the vault where the payout is positive. A round that
    /// cannot be settled is left as it is, and so are the totals. The game
    /// type that the round records is not consulted: a round that stores no
    /// roulette bet is refused as corrupt.
    pub fn settle_roulette_game(&mut self, current_slot: u64) -> (settled: Result<
        Settlement,
        CasinoError,
    >)
        requires
            settlement_has_room(
                old(self).casino_state,
                old(self).user_stats,
                old(self).vrf_game_state.bet_amount,
                old(self).settlement(current_slot),
            ),
        ensures
            match old(self).settlement(current_slot) {
                Ok(paid) => {
                    &&& settled matches Ok(settlement)
                    &&& settlement.outcome@ == paid.outcome
                    &&& settlement.final_payout == paid.final_payout
                },
                Err(error) => settled matches Err(refusal) && refusal == error,
            },
            final(self).ledger() == settle_step(
                old(self).ledger(),
                old(self).settlement(current_slot),
            ),
            final(self).randomness_account_data == old(self).randomness_account_data,
            settled is Err ==> *final(self) == *old(self),
    {
        let randomness = match reveal_randomness(
            &self.vrf_game_state,
            &self.randomness_account_data,
            current_slot,
        ) {
            Ok(bytes) => bytes,
            Err(error) => {
                return Err(error);
            },
        };
        let winning_number_bytes = match generate_game_randomness(
            GameType::Roulette,
            randomness.as_slice(),
        ) {
            Ok(values) => values,
            Err(error) => {
                return Err(error);
            },
        };
        let winning_number = winning_number_bytes[0];
        let payout = match decode_roulette_bet(self.vrf_game_state.game_data.as_slice()) {
            Ok((bet_type, bet_numbers)) => calculate_roulette_payout(
                bet_type,
                bet_numbers,
                self.vrf_game_state.bet_amount,
                winning_number,
            ),
            Err(error) => {
                return Err(error);
            },
        };
        let final_payout = apply_house_edge(
            payout,
            self.casino_state.house_edge_config.roulette_rtp_bps,
        );
        let outcome = slice_to_vec(winning_number_bytes.as_slice());
        record_settlement(
            &mut self.casino_state,
            &mut self.vrf_game_state,
            &mut self.user_stats,
            winning_number_bytes,
            final_payout,
        );
        Ok(Settlement { outcome, final_payout })
    }
}

} // verus!
