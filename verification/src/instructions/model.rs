use crate::errors::CasinoError;
use crate::state::casino::{CasinoState, GameType, RouletteBetType, UserStats};
use crate::utils::payout::{
    lemma_roulette_pays_exactly_when_covered, lemma_scaled_payout_is_a_haircut,
    lemma_slots_multiplier_bound, roulette_covers, roulette_raw_payout, roulette_shape_ok,
    scaled_payout, slots_raw_payout, MAX_BET, MIN_BET,
};
use crate::utils::vrf::{
    account_reveal_slot, account_seed_slot, account_value, is_randomness_account,
    lemma_slots_reels_are_symbols, roulette_winning_number, slots_reels, GamePhase,
    VrfGameStateView,
};
use anchor_lang::prelude::Pubkey;
use vstd::prelude::*;

verus! {

/// A settlement as numbers: the outcome, the payout before the house edge and
/// the payout after it.
pub struct SettlementModel {
    pub outcome: Seq<u8>,
    pub raw_payout: int,
    pub final_payout: int,
}

/// Whether the commitment that `data` holds is fresh at `current_slot`: the
/// data is that of a randomness account, committed at the slot just before.
pub open spec fn commitment_is_fresh(data: Seq<u8>, current_slot: u64) -> bool {
    is_randomness_account(data) && account_seed_slot(data) + 1 == current_slot
}

/// Whether a bet is taken, and why not. The checks come in this order: the
/// house must be active, the stake within bounds, the numbers of the right
/// shape, the commitment fresh.
pub open spec fn request_verdict(
    casino: CasinoState,
    bet_amount: u64,
    shape_ok: bool,
    randomness_data: Seq<u8>,
    current_slot: u64,
) -> Result<(), CasinoError> {
    if !casino.is_active {
        Err(CasinoError::HouseInactive)
    } else if !(MIN_BET <= bet_amount <= MAX_BET) {
        Err(CasinoError::InvalidBetAmount)
    } else if !shape_ok {
        Err(CasinoError::InvalidBetShape)
    } else if !commitment_is_fresh(randomness_data, current_slot) {
        Err(CasinoError::CommitmentInvalid)
    } else {
        Ok(())
    }
}

/// Whether the totals of the house and of the user can take one more bet of
/// `bet_amount` without leaving the range of their type.
pub open spec fn request_fits(casino: CasinoState, stats: UserStats, bet_amount: u64) -> bool {
    &&& casino.total_games_played + 1 <= u64::MAX
    &&& casino.total_volume + bet_amount <= u64::MAX
    &&& stats.total_bets + bet_amount <= u64::MAX
    &&& stats.games_played + 1 <= u64::MAX
}

/// The round that a bet opens: waiting, unpaid, bound to its commitment.
pub open spec fn requested_round(
    user: Pubkey,
    game_type: GameType,
    bet_amount: u64,
    randomness_account: Pubkey,
    commit_slot: u64,
    payload: Seq<u8>,
    bump: u8,
) -> VrfGameStateView {
    VrfGameStateView {
        user,
        game_type,
        bet_amount,
        randomness_account,
        commit_slot,
        game_phase: GamePhase::Requested,
        game_data: payload,
        payout: 0,
        is_complete: false,
        bump,
    }
}

/// The user's totals after a bet of `bet_amount` was taken.
pub open spec fn stats_after_request(
    stats: UserStats,
    user: Pubkey,
    bet_amount: u64,
    bump: u8,
) -> UserStats {
    UserStats {
        user,
        total_bets: (stats.total_bets + bet_amount) as u64,
        games_played: (stats.games_played + 1) as u64,
        bump,
        ..stats
    }
}

/// The house's totals after a bet of `bet_amount` was taken.
pub open spec fn casino_after_request(casino: CasinoState, bet_amount: u64) -> CasinoState {
    CasinoState {
        total_games_played: (casino.total_games_played + 1) as u64,
        total_volume: (casino.total_volume + bet_amount) as u64,
        ..casino
    }
}

/// What a stored roulette bet looks like: the tag of the bet type, then the
/// numbers.
pub open spec fn roulette_payload(bet_type: RouletteBetType, numbers: Seq<u8>) -> Seq<u8> {
    seq![bet_type.spec_tag()] + numbers
}

/// The roulette bet that a payload holds, if it begins with the tag of a bet
/// type.
pub open spec fn decoded_roulette_bet(payload: Seq<u8>) -> Option<(RouletteBetType, Seq<u8>)> {
    if payload.len() == 0 {
        None
    } else {
        match RouletteBetType::spec_from_tag(payload[0]) {
            Some(bet_type) => Some((bet_type, payload.subrange(1, payload.len() as int))),
            None => None,
        }
    }
}

/// Whether a round can be settled with the randomness account presented, and
/// the revealed randomness if it can. The round must be waiting; the account
/// must be the one the round is bound to and hold the form of a randomness
/// account; its commitment must be the round's, with the commit slot passed;
/// and `current_slot` must be its reveal slot.
pub open spec fn reveal_verdict(
    round: VrfGameStateView,
    presented: Pubkey,
    randomness_data: Seq<u8>,
    current_slot: u64,
) -> Result<Seq<u8>, CasinoError> {
    if round.game_phase != GamePhase::Requested {
        Err(CasinoError::InvalidRoundState)
    } else if round.randomness_account != presented {
        Err(CasinoError::CommitmentInvalid)
    } else if !is_randomness_account(randomness_data) {
        Err(CasinoError::CommitmentInvalid)
    } else if account_seed_slot(randomness_data) != round.commit_slot {
        Err(CasinoError::CommitmentInvalid)
    } else if current_slot <= account_seed_slot(randomness_data) {
        Err(CasinoError::CommitmentInvalid)
    } else if current_slot != account_reveal_slot(randomness_data) {
        Err(CasinoError::CommitmentInvalid)
    } else {
        Ok(account_value(randomness_data))
    }
}

/// How a slots round settles: the three reels that the randomness gives, what
/// they pay, and that payout scaled by the target return of slots.
pub open spec fn slots_settlement(
    casino: CasinoState,
    round: VrfGameStateView,
    presented: Pubkey,
    randomness_data: Seq<u8>,
    current_slot: u64,
) -> Result<SettlementModel, CasinoError> {
    match reveal_verdict(round, presented, randomness_data, current_slot) {
        Err(error) => Err(error),
        Ok(randomness) => {
            let reels = slots_reels(randomness);
            let raw_payout = slots_raw_payout(reels, round.bet_amount);
            Ok(
                SettlementModel {
                    outcome: reels,
                    raw_payout,
                    final_payout: scaled_payout(
                        raw_payout,
                        casino.house_edge_config.slots_rtp_bps as int,
                    ),
                },
            )
        },
    }
}

/// How a roulette round settles: the winning number that the randomness
/// gives, what the stored bet pays on it, and that payout scaled by the target
/// return of roulette. A payload that holds no bet is corrupt.
pub open spec fn roulette_settlement(
    casino: CasinoState,
    round: VrfGameStateView,
    presented: Pubkey,
    randomness_data: Seq<u8>,
    current_slot: u64,
) -> Result<SettlementModel, CasinoError> {
    match reveal_verdict(round, presented, randomness_data, current_slot) {
        Err(error) => Err(error),
        Ok(randomness) => match decoded_roulette_bet(round.game_data) {
            None => Err(CasinoError::CorruptPayload),
            Some((bet_type, numbers)) => {
                let winning_number = roulette_winning_number(randomness);
                let raw_payout = roulette_raw_payout(
                    bet_type,
                    numbers,
                    round.bet_amount,
                    winning_number,
                );
                Ok(
                    SettlementModel {
                        outcome: seq![winning_number],
                        raw_payout,
                        final_payout: scaled_payout(
                            raw_payout,
                            casino.house_edge_config.roulette_rtp_bps as int,
                        ),
                    },
                )
            },
        },
    }
}

/// Whether the payouts of a settlement and the totals they are added to stay
/// within the range of their type.
pub open spec fn settlement_fits(
    casino: CasinoState,
    stats: UserStats,
    bet_amount: u64,
    settlement: SettlementModel,
) -> bool {
    &&& settlement.raw_payout <= u64::MAX
    &&& settlement.final_payout <= u64::MAX
    &&& casino.total_payouts + settlement.final_payout <= u64::MAX
    &&& if settlement.final_payout > 0 {
        &&& stats.total_wins + settlement.final_payout <= u64::MAX
        &&& stats.loyalty_points + bet_amount / 100 <= u64::MAX
    } else {
        stats.total_losses + bet_amount <= u64::MAX
    }
}

/// Whether the totals can take a settlement, where the round settles at all.
pub open spec fn settlement_has_room(
    casino: CasinoState,
    stats: UserStats,
    bet_amount: u64,
    settlement: Result<SettlementModel, CasinoError>,
) -> bool {
    settlement matches Ok(paid) ==> settlement_fits(casino, stats, bet_amount, paid)
}

/// The round once it is settled: it holds the outcome and the payout, and is
/// complete.
pub open spec fn settled_round(
    round: VrfGameStateView,
    outcome: Seq<u8>,
    final_payout: u64,
) -> VrfGameStateView {
    VrfGameStateView {
        game_data: outcome,
        payout: final_payout,
        game_phase: GamePhase::Settled,
        is_complete: true,
        ..round
    }
}

/// The user's totals after a round with the stake `bet_amount` paid
/// `final_payout`. A win adds the payout to the wins and one loyalty point
/// per hundred units staked; a loss adds the stake to the losses.
pub open spec fn stats_after_settle(stats: UserStats, bet_amount: u64, final_payout: u64) -> UserStats {
    if final_payout > 0 {
        UserStats {
            total_wins: (stats.total_wins + final_payout) as u64,
            loyalty_points: (stats.loyalty_points + bet_amount / 100) as u64,
            ..stats
        }
    } else {
        UserStats { total_losses: (stats.total_losses + bet_amount) as u64, ..stats }
    }
}

/// The house's totals after a round paid `final_payout`.
pub open spec fn casino_after_settle(casino: CasinoState, final_payout: u64) -> CasinoState {
    CasinoState { total_payouts: (casino.total_payouts + final_payout) as u64, ..casino }
}

/// The largest payout that a bet within the bounds can win: the largest
/// stake at the largest multiplier.
pub const MAX_PAYOUT: u64 = 1_000_000_000;

/// Whether the totals can take whatever a round with the stake `bet_amount`
/// may pay under the target return `rtp_bps`: the stake is at most the
/// largest, the target return at most the whole, and every total that a
/// settlement adds to has room for the largest payout or for the stake.
pub open spec fn payout_room(
    casino: CasinoState,
    stats: UserStats,
    bet_amount: u64,
    rtp_bps: u16,
) -> bool {
    &&& bet_amount <= MAX_BET
    &&& rtp_bps <= 10_000
    &&& casino.total_payouts + MAX_PAYOUT <= u64::MAX
    &&& stats.total_wins + MAX_PAYOUT <= u64::MAX
    &&& stats.loyalty_points + bet_amount / 100 <= u64::MAX
    &&& stats.total_losses + bet_amount <= u64::MAX
}

/// What a bet and its settlement work on: the house, the round and the
/// user's totals.
pub struct Ledger {
    pub casino: CasinoState,
    pub round: VrfGameStateView,
    pub stats: UserStats,
}

/// The ledger after a bet was asked for: with the bet recorded where it is
/// taken, and as it was where it is refused.
pub open spec fn request_step(
    ledger: Ledger,
    verdict: Result<(), CasinoError>,
    opened: VrfGameStateView,
    stats_bump: u8,
) -> Ledger {
    if verdict is Ok {
        Ledger {
            casino: casino_after_request(ledger.casino, opened.bet_amount),
            round: opened,
            stats: stats_after_request(ledger.stats, opened.user, opened.bet_amount, stats_bump),
        }
    } else {
        ledger
    }
}

/// The ledger after a settlement was asked for: with the outcome recorded
/// where the round settles, and as it was where it does not.
pub open spec fn settle_step(ledger: Ledger, settlement: Result<SettlementModel, CasinoError>) -> Ledger {
    match settlement {
        Ok(paid) => Ledger {
            casino: casino_after_settle(ledger.casino, paid.final_payout as u64),
            round: settled_round(ledger.round, paid.outcome, paid.final_payout as u64),
            stats: stats_after_settle(
                ledger.stats,
                ledger.round.bet_amount,
                paid.final_payout as u64,
            ),
        },
        Err(_) => ledger,
    }
}

/// A bet that is taken opens a well-formed round that waits for its
/// randomness.
pub proof fn lemma_taken_bet_opens_waiting_round(
    casino: CasinoState,
    bet_amount: u64,
    shape_ok: bool,
    randomness_data: Seq<u8>,
    current_slot: u64,
    user: Pubkey,
    game_type: GameType,
    randomness_account: Pubkey,
    payload: Seq<u8>,
    bump: u8,
)
    requires
        request_verdict(casino, bet_amount, shape_ok, randomness_data, current_slot) is Ok,
    ensures
        requested_round(
            user,
            game_type,
            bet_amount,
            randomness_account,
            account_seed_slot(randomness_data),
            payload,
            bump,
        ).wf(),
        requested_round(
            user,
            game_type,
            bet_amount,
            randomness_account,
            account_seed_slot(randomness_data),
            payload,
            bump,
        ).game_phase == GamePhase::Requested,
        account_seed_slot(randomness_data) + 1 == current_slot,
{
}

/// The stake bounds as a bet meets them: with the house active, the numbers
/// in shape and the commitment fresh, a stake at either bound is taken, and
/// a stake just outside is refused as an invalid amount.
pub proof fn lemma_request_stake_bounds(
    casino: CasinoState,
    randomness_data: Seq<u8>,
    current_slot: u64,
)
    requires
        casino.is_active,
        commitment_is_fresh(randomness_data, current_slot),
    ensures
        request_verdict(casino, MIN_BET, true, randomness_data, current_slot) is Ok,
        request_verdict(casino, MAX_BET, true, randomness_data, current_slot) is Ok,
        request_verdict(casino, (MIN_BET - 1) as u64, true, randomness_data, current_slot) == Err::<
            (),
            CasinoError,
        >(CasinoError::InvalidBetAmount),
        request_verdict(casino, (MAX_BET + 1) as u64, true, randomness_data, current_slot) == Err::<
            (),
            CasinoError,
        >(CasinoError::InvalidBetAmount),
{
}

/// The shape of a roulette bet as a request meets it: with the house active
/// and the stake within bounds, numbers of any count but the one the bet type
/// asks for are refused as an invalid shape, and numbers of that count are
/// never refused for their shape.
pub proof fn lemma_request_roulette_shape(
    casino: CasinoState,
    bet_amount: u64,
    bet_type: RouletteBetType,
    numbers: Seq<u8>,
    randomness_data: Seq<u8>,
    current_slot: u64,
)
    requires
        casino.is_active,
        MIN_BET <= bet_amount <= MAX_BET,
    ensures
        numbers.len() != bet_type.spec_required_numbers() ==> request_verdict(
            casino,
            bet_amount,
            roulette_shape_ok(bet_type, numbers),
            randomness_data,
            current_slot,
        ) == Err::<(), CasinoError>(CasinoError::InvalidBetShape),
        numbers.len() == bet_type.spec_required_numbers() ==> request_verdict(
            casino,
            bet_amount,
            roulette_shape_ok(bet_type, numbers),
            randomness_data,
            current_slot,
        ) != Err::<(), CasinoError>(CasinoError::InvalidBetShape),
{
}

/// A round settles once. Whatever a settlement is asked with, a round that
/// is settled is refused for its state, and the ledger stays as it is: this
/// holds of every ledger that a settlement left behind.
pub proof fn lemma_settled_round_is_refused(
    ledger: Ledger,
    presented: Pubkey,
    randomness_data: Seq<u8>,
    current_slot: u64,
)
    requires
        ledger.round.game_phase == GamePhase::Settled,
    ensures
        slots_settlement(ledger.casino, ledger.round, presented, randomness_data, current_slot)
            == Err::<SettlementModel, CasinoError>(CasinoError::InvalidRoundState),
        roulette_settlement(
            ledger.casino,
            ledger.round,
            presented,
            randomness_data,
            current_slot,
        ) == Err::<SettlementModel, CasinoError>(CasinoError::InvalidRoundState),
        settle_step(
            ledger,
            slots_settlement(
                ledger.casino,
                ledger.round,
                presented,
                randomness_data,
                current_slot,
            ),
        ) == ledger,
        settle_step(
            ledger,
            roulette_settlement(
                ledger.casino,
                ledger.round,
                presented,
                randomness_data,
                current_slot,
            ),
        ) == ledger,
{
}

/// No round settles twice. After a settlement that went through, every
/// further settlement of the round is refused for the round's state, whatever
/// it is asked with, and leaves the house, the round and the user's totals as
/// the first settlement left them.
pub proof fn lemma_second_settlement_is_refused(
    ledger: Ledger,
    first: Result<SettlementModel, CasinoError>,
    presented: Pubkey,
    randomness_data: Seq<u8>,
    current_slot: u64,
)
    requires
        first is Ok,
    ensures
        ({
            let settled = settle_step(ledger, first);
            let slots_again = slots_settlement(
                settled.casino,
                settled.round,
                presented,
                randomness_data,
                current_slot,
            );
            let roulette_again = roulette_settlement(
                settled.casino,
                settled.round,
                presented,
                randomness_data,
                current_slot,
            );
            &&& slots_again == Err::<SettlementModel, CasinoError>(CasinoError::InvalidRoundState)
            &&& roulette_again == Err::<SettlementModel, CasinoError>(
                CasinoError::InvalidRoundState,
            )
            &&& settle_step(settled, slots_again) == settled
            &&& settle_step(settled, roulette_again) == settled
        }),
{
}

/// A settlement that goes through takes a waiting round to a settled one,
/// keeping it well-formed, and one that is refused leaves the ledger as it
/// is. Together with `lemma_settled_round_is_refused`: a second settlement
/// of the same round is refused and changes nothing.
pub proof fn lemma_settlement_closes_round(
    ledger: Ledger,
    settlement: Result<SettlementModel, CasinoError>,
    presented: Pubkey,
    randomness_data: Seq<u8>,
    current_slot: u64,
)
    requires
        settlement == slots_settlement(
            ledger.casino,
            ledger.round,
            presented,
            randomness_data,
            current_slot,
        ) || settlement == roulette_settlement(
            ledger.casino,
            ledger.round,
            presented,
            randomness_data,
            current_slot,
        ),
    ensures
        settlement is Ok ==> ledger.round.game_phase == GamePhase::Requested,
        settlement is Ok ==> settle_step(ledger, settlement).round.game_phase
            == GamePhase::Settled,
        settlement is Ok && ledger.round.wf() ==> settle_step(ledger, settlement).round.wf(),
        settlement is Err ==> settle_step(ledger, settlement) == ledger,
{
}

/// Whether every total of `after` is at least what it is in `before`.
pub open spec fn totals_not_below(after: Ledger, before: Ledger) -> bool {
    &&& after.casino.total_games_played >= before.casino.total_games_played
    &&& after.casino.total_volume >= before.casino.total_volume
    &&& after.casino.total_payouts >= before.casino.total_payouts
    &&& after.stats.total_bets >= before.stats.total_bets
    &&& after.stats.total_wins >= before.stats.total_wins
    &&& after.stats.total_losses >= before.stats.total_losses
    &&& after.stats.loyalty_points >= before.stats.loyalty_points
    &&& after.stats.games_played >= before.stats.games_played
}

/// The totals of the house and of the user never shrink: not when a bet is
/// asked for, and not when a settlement is.
pub proof fn lemma_totals_never_shrink(
    ledger: Ledger,
    verdict: Result<(), CasinoError>,
    opened: VrfGameStateView,
    stats_bump: u8,
    settlement: Result<SettlementModel, CasinoError>,
)
    requires
        verdict is Ok ==> request_fits(ledger.casino, ledger.stats, opened.bet_amount),
        settlement matches Ok(paid) ==> 0 <= paid.final_payout && settlement_fits(
            ledger.casino,
            ledger.stats,
            ledger.round.bet_amount,
            paid,
        ),
    ensures
        totals_not_below(request_step(ledger, verdict, opened, stats_bump), ledger),
        totals_not_below(settle_step(ledger, settlement), ledger),
{
}

/// Under a target return of at most the whole, a slots round with a stake of
/// at most the largest pays at most the largest payout, before the house edge
/// and after it.
pub proof fn lemma_slots_settlement_is_bounded(
    casino: CasinoState,
    round: VrfGameStateView,
    presented: Pubkey,
    randomness_data: Seq<u8>,
    current_slot: u64,
)
    requires
        round.bet_amount <= MAX_BET,
        casino.house_edge_config.slots_rtp_bps <= 10_000,
    ensures
        slots_settlement(casino, round, presented, randomness_data, current_slot) matches Ok(
            paid,
        ) ==> 0 <= paid.final_payout <= paid.raw_payout <= MAX_PAYOUT,
{
    if let Ok(paid) = slots_settlement(casino, round, presented, randomness_data, current_slot) {
        let randomness = account_value(randomness_data);
        lemma_slots_reels_are_symbols(randomness);
        lemma_slots_multiplier_bound(slots_reels(randomness), round.bet_amount);
        lemma_scaled_payout_is_a_haircut(
            paid.raw_payout,
            casino.house_edge_config.slots_rtp_bps as int,
        );
    }
}

/// Under a target return of at most the whole, a roulette round with a stake
/// of at most the largest pays at most the largest payout, before the house
/// edge and after it.
pub proof fn lemma_roulette_settlement_is_bounded(
    casino: CasinoState,
    round: VrfGameStateView,
    presented: Pubkey,
    randomness_data: Seq<u8>,
    current_slot: u64,
)
    requires
        round.bet_amount <= MAX_BET,
        casino.house_edge_config.roulette_rtp_bps <= 10_000,
    ensures
        roulette_settlement(casino, round, presented, randomness_data, current_slot) matches Ok(
            paid,
        ) ==> 0 <= paid.final_payout <= paid.raw_payout <= MAX_PAYOUT,
{
    if let Ok(paid) = roulette_settlement(casino, round, presented, randomness_data, current_slot) {
        let bet = decoded_roulette_bet(round.game_data)->Some_0;
        let ratio = bet.0.spec_payout_ratio();
        let stake = round.bet_amount;
        assert(0 <= stake * ratio <= MAX_PAYOUT) by (nonlinear_arith)
            requires
                0 <= stake <= 1_000_000,
                0 <= ratio <= 35,
        ;
        lemma_scaled_payout_is_a_haircut(
            paid.raw_payout,
            casino.house_edge_config.roulette_rtp_bps as int,
        );
    }
}

/// A roulette round that settles pays exactly when the bet it stores covers
/// the winning number. This holds wherever a win is worth at least one unit
/// after the house edge, as it is for every stake within the bounds under a
/// target return of at least ten basis points.
pub proof fn lemma_roulette_round_pays_exactly_when_covered(
    casino: CasinoState,
    round: VrfGameStateView,
    presented: Pubkey,
    randomness_data: Seq<u8>,
    current_slot: u64,
)
    requires
        roulette_settlement(casino, round, presented, randomness_data, current_slot) is Ok,
        decoded_roulette_bet(round.game_data) matches Some(bet) && (roulette_covers(
            bet.0,
            bet.1,
            roulette_winning_number(account_value(randomness_data)),
        ) ==> round.bet_amount * bet.0.spec_payout_ratio()
            * casino.house_edge_config.roulette_rtp_bps >= 10_000),
    ensures
        roulette_settlement(casino, round, presented, randomness_data, current_slot) matches Ok(
            paid,
        ) && decoded_roulette_bet(round.game_data) matches Some(bet) && (paid.final_payout > 0
            <==> roulette_covers(bet.0, bet.1, paid.outcome[0])),
{
    let bet = decoded_roulette_bet(round.game_data)->Some_0;
    lemma_roulette_pays_exactly_when_covered(
        bet.0,
        bet.1,
        round.bet_amount,
        roulette_winning_number(account_value(randomness_data)),
        casino.house_edge_config.roulette_rtp_bps,
    );
}

} // verus!
