use crate::errors::CasinoError;
use crate::state::casino::{
    RouletteBetType, ROULETTE_BLACK_NUMBERS, ROULETTE_RED_NUMBERS, SLOTS_PAYOUTS,
};
use vstd::prelude::*;

verus! {

/// The smallest stake a bet may carry.
pub const MIN_BET: u64 = 1_000;

/// The largest stake a bet may carry.
pub const MAX_BET: u64 = 1_000_000;

/// A stake is acceptable when it lies within the bounds, both included.
pub open spec fn bet_in_range(bet_amount: u64, min_bet: u64, max_bet: u64) -> bool {
    min_bet <= bet_amount <= max_bet
}

/// Accepts a stake within `[min_bet, max_bet]` and refuses every other.
pub fn validate_bet_amount(bet_amount: u64, min_bet: u64, max_bet: u64) -> (verdict: Result<
    (),
    CasinoError,
>)
    ensures
        verdict is Ok <==> bet_in_range(bet_amount, min_bet, max_bet),
        verdict is Err ==> verdict == Err::<(), CasinoError>(CasinoError::InvalidBetAmount),
{
    if bet_amount < min_bet || bet_amount > max_bet {
        Err(CasinoError::InvalidBetAmount)
    } else {
        Ok(())
    }
}

/// The bounds themselves are acceptable stakes, and the amounts just outside
/// them are not.
pub proof fn lemma_bet_bounds_are_inclusive(min_bet: u64, max_bet: u64)
    requires
        min_bet <= max_bet,
    ensures
        bet_in_range(min_bet, min_bet, max_bet),
        bet_in_range(max_bet, min_bet, max_bet),
        min_bet > 0 ==> !bet_in_range((min_bet - 1) as u64, min_bet, max_bet),
        max_bet < u64::MAX ==> !bet_in_range((max_bet + 1) as u64, min_bet, max_bet),
{
}

/// The numbers of a roulette bet have the right shape when there are exactly
/// as many as the bet type names.
pub open spec fn roulette_shape_ok(bet_type: RouletteBetType, numbers: Seq<u8>) -> bool {
    numbers.len() == bet_type.spec_required_numbers()
}

/// Accepts the numbers of a roulette bet when their count is the one the bet
/// type asks for, and refuses every other count.
pub fn validate_roulette_numbers(bet_type: RouletteBetType, numbers: &[u8]) -> (verdict: Result<
    (),
    CasinoError,
>)
    ensures
        verdict is Ok <==> roulette_shape_ok(bet_type, numbers@),
        verdict is Err ==> verdict == Err::<(), CasinoError>(CasinoError::InvalidBetShape),
{
    if numbers.len() == bet_type.required_numbers() {
        Ok(())
    } else {
        Err(CasinoError::InvalidBetShape)
    }
}

/// How many of the three lanes show the symbol that occurs most often.
pub open spec fn slots_matching_lanes(reels: Seq<u8>) -> nat
    recommends
        reels.len() == 3,
{
    if reels[0] == reels[1] && reels[1] == reels[2] {
        3
    } else if reels[0] == reels[1] || reels[1] == reels[2] || reels[0] == reels[2] {
        2
    } else {
        1
    }
}

/// The symbol that occurs most often on the three lanes; the first lane's
/// where all three differ.
pub open spec fn slots_matched_symbol(reels: Seq<u8>) -> u8
    recommends
        reels.len() == 3,
{
    if reels[0] == reels[1] || reels[0] == reels[2] {
        reels[0]
    } else if reels[1] == reels[2] {
        reels[1]
    } else {
        reels[0]
    }
}

/// What a spin pays per unit staked. A symbol on two lanes pays the second
/// column of its paytable row, on three lanes the third; fewer than two
/// matching lanes pay nothing.
pub open spec fn slots_multiplier(reels: Seq<u8>) -> nat
    recommends
        reels.len() == 3,
        forall|i: int| 0 <= i < 3 ==> reels[i] < 10,
{
    if slots_matching_lanes(reels) < 2 {
        0
    } else {
        SLOTS_PAYOUTS[slots_matched_symbol(reels) as int][slots_matching_lanes(reels) - 1] as nat
    }
}

/// What a spin pays before the house edge: the stake times the multiplier.
pub open spec fn slots_raw_payout(reels: Seq<u8>, bet_amount: u64) -> int {
    bet_amount * slots_multiplier(reels)
}

/// Computes what a spin of the three reels pays before the house edge.
pub fn calculate_slots_payout(reels: [u8; 3], bet_amount: u64) -> (payout: u64)
    requires
        forall|i: int| 0 <= i < 3 ==> reels[i] < 10,
        slots_raw_payout(reels@, bet_amount) <= u64::MAX,
    ensures
        payout == slots_raw_payout(reels@, bet_amount),
{
    let lanes: usize = if reels[0] == reels[1] && reels[1] == reels[2] {
        3
    } else if reels[0] == reels[1] || reels[1] == reels[2] || reels[0] == reels[2] {
        2
    } else {
        1
    };
    if lanes < 2 {
        return 0;
    }
    let symbol: u8 = if reels[0] == reels[1] || reels[0] == reels[2] {
        reels[0]
    } else {
        reels[1]
    };
    let multiplier: u64 = SLOTS_PAYOUTS[symbol as usize][lanes - 1];
    bet_amount * multiplier
}

/// Three different symbols pay nothing, whatever the stake.
pub proof fn lemma_slots_without_a_pair_pay_nothing(reels: Seq<u8>, bet_amount: u64)
    requires
        reels.len() == 3,
        reels[0] != reels[1],
        reels[1] != reels[2],
        reels[0] != reels[2],
    ensures
        slots_matching_lanes(reels) < 2,
        slots_raw_payout(reels, bet_amount) == 0,
{
    assert(slots_multiplier(reels) == 0);
    assert(bet_amount * 0 == 0);
}

/// Symbol 0 pays nothing on any number of lanes.
pub proof fn lemma_slots_symbol_zero_pays_nothing(reels: Seq<u8>, bet_amount: u64)
    requires
        reels.len() == 3,
        slots_matched_symbol(reels) == 0,
    ensures
        slots_raw_payout(reels, bet_amount) == 0,
{
    assert(slots_multiplier(reels) == 0);
    assert(bet_amount * 0 == 0);
}

/// No spin pays more than a thousand times the stake.
pub proof fn lemma_slots_multiplier_bound(reels: Seq<u8>, bet_amount: u64)
    requires
        reels.len() == 3,
        forall|i: int| 0 <= i < 3 ==> reels[i] < 10,
    ensures
        slots_multiplier(reels) <= 1000,
        slots_raw_payout(reels, bet_amount) <= bet_amount * 1000,
{
    let m = slots_multiplier(reels);
    assert(m <= 1000);
    assert(bet_amount * m <= bet_amount * 1000) by (nonlinear_arith)
        requires
            m <= 1000,
    ;
}

/// Whether `numbers` holds `wanted`.
pub fn contains_number(numbers: &[u8], wanted: u8) -> (found: bool)
    ensures
        found == numbers@.contains(wanted),
{
    let mut i: usize = 0;
    while i < numbers.len()
        invariant
            i <= numbers.len(),
            forall|j: int| 0 <= j < i ==> numbers@[j] != wanted,
        decreases numbers.len() - i,
    {
        if numbers[i] == wanted {
            return true;
        }
        i += 1;
    }
    false
}

/// The red numbers of the wheel.
pub open spec fn is_red(number: u8) -> bool {
    ROULETTE_RED_NUMBERS@.contains(number)
}

/// The black numbers of the wheel.
pub open spec fn is_black(number: u8) -> bool {
    ROULETTE_BLACK_NUMBERS@.contains(number)
}

/// Whether a bet wins on `winning_number`. A bet on explicit numbers covers
/// the numbers it names. Red and black cover their eighteen numbers, even and
/// odd the even and odd numbers from 1 to 36, low 1 to 18 and high 19 to 36:
/// none of these covers 0.
pub open spec fn roulette_covers(
    bet_type: RouletteBetType,
    numbers: Seq<u8>,
    winning_number: u8,
) -> bool {
    match bet_type {
        RouletteBetType::Red => is_red(winning_number),
        RouletteBetType::Black => is_black(winning_number),
        RouletteBetType::Even => 1 <= winning_number <= 36 && winning_number % 2 == 0,
        RouletteBetType::Odd => 1 <= winning_number <= 36 && winning_number % 2 == 1,
        RouletteBetType::Low => 1 <= winning_number <= 18,
        RouletteBetType::High => 19 <= winning_number <= 36,
        _ => numbers.contains(winning_number),
    }
}

/// What a roulette bet pays before the house edge: the stake times the bet
/// type's ratio where the bet covers the winning number, and nothing where it
/// does not.
pub open spec fn roulette_raw_payout(
    bet_type: RouletteBetType,
    numbers: Seq<u8>,
    bet_amount: u64,
    winning_number: u8,
) -> int {
    if roulette_covers(bet_type, numbers, winning_number) {
        bet_amount * bet_type.spec_payout_ratio()
    } else {
        0
    }
}

/// Decides whether a bet wins on `winning_number`.
pub fn bet_covers(bet_type: RouletteBetType, numbers: &[u8], winning_number: u8) -> (covered: bool)
    ensures
        covered == roulette_covers(bet_type, numbers@, winning_number),
{
    match bet_type {
        RouletteBetType::Red => contains_number(ROULETTE_RED_NUMBERS.as_slice(), winning_number),
        RouletteBetType::Black => contains_number(
            ROULETTE_BLACK_NUMBERS.as_slice(),
            winning_number,
        ),
        RouletteBetType::Even => 1 <= winning_number && winning_number <= 36 && winning_number % 2
            == 0,
        RouletteBetType::Odd => 1 <= winning_number && winning_number <= 36 && winning_number % 2
            == 1,
        RouletteBetType::Low => 1 <= winning_number && winning_number <= 18,
        RouletteBetType::High => 19 <= winning_number && winning_number <= 36,
        _ => contains_number(numbers, winning_number),
    }
}

/// Computes what a roulette bet pays before the house edge.
pub fn calculate_roulette_payout(
    bet_type: RouletteBetType,
    bet_numbers: &[u8],
    bet_amount: u64,
    winning_number: u8,
) -> (payout: u64)
    requires
        roulette_raw_payout(bet_type, bet_numbers@, bet_amount, winning_number) <= u64::MAX,
    ensures
        payout == roulette_raw_payout(bet_type, bet_numbers@, bet_amount, winning_number),
{
    if bet_covers(bet_type, bet_numbers, winning_number) {
        bet_amount * bet_type.payout_ratio()
    } else {
        0
    }
}

/// The part of a raw payout that a target return of `rtp_bps` basis points
/// lets through: `raw_payout * rtp_bps / 10000`, rounded down.
pub open spec fn scaled_payout(raw_payout: int, rtp_bps: int) -> int {
    raw_payout * rtp_bps / 10_000
}

/// Scales a raw payout by the target return, rounding down.
pub fn apply_house_edge(raw_payout: u64, rtp_bps: u16) -> (final_payout: u64)
    requires
        scaled_payout(raw_payout as int, rtp_bps as int) <= u64::MAX,
    ensures
        final_payout == scaled_payout(raw_payout as int, rtp_bps as int),
{
    let product: u128 = raw_payout as u128 * rtp_bps as u128;
    (product / 10_000) as u64
}

/// With a target return of at most the whole, the scaled payout is the
/// rounded-down fraction of the raw payout and never more than the raw payout.
pub proof fn lemma_scaled_payout_is_a_haircut(raw_payout: int, rtp_bps: int)
    requires
        0 <= raw_payout,
        0 <= rtp_bps <= 10_000,
    ensures
        scaled_payout(raw_payout, rtp_bps) == raw_payout * rtp_bps / 10_000,
        scaled_payout(raw_payout, rtp_bps) * 10_000 <= raw_payout * rtp_bps,
        raw_payout * rtp_bps < (scaled_payout(raw_payout, rtp_bps) + 1) * 10_000,
        scaled_payout(raw_payout, rtp_bps) <= raw_payout,
{
    let product = raw_payout * rtp_bps;
    assert(product <= raw_payout * 10_000) by (nonlinear_arith)
        requires
            product == raw_payout * rtp_bps,
            0 <= raw_payout,
            0 <= rtp_bps <= 10_000,
    ;
}

/// The scaled payout is positive exactly when the raw payout times the target
/// return reaches one whole unit.
pub proof fn lemma_scaled_payout_positive(raw_payout: int, rtp_bps: int)
    ensures
        scaled_payout(raw_payout, rtp_bps) > 0 <==> raw_payout * rtp_bps >= 10_000,
{
}

/// A roulette bet is paid exactly when it covers the winning number. This
/// holds wherever a win is worth at least one unit after the house edge: a
/// smaller win is rounded down to nothing.
pub proof fn lemma_roulette_pays_exactly_when_covered(
    bet_type: RouletteBetType,
    numbers: Seq<u8>,
    bet_amount: u64,
    winning_number: u8,
    rtp_bps: u16,
)
    requires
        roulette_covers(bet_type, numbers, winning_number) ==> bet_amount
            * bet_type.spec_payout_ratio() * rtp_bps >= 10_000,
    ensures
        scaled_payout(
            roulette_raw_payout(bet_type, numbers, bet_amount, winning_number),
            rtp_bps as int,
        ) > 0 <==> roulette_covers(bet_type, numbers, winning_number),
{
    let raw = roulette_raw_payout(bet_type, numbers, bet_amount, winning_number);
    if !roulette_covers(bet_type, numbers, winning_number) {
        assert(raw * rtp_bps == 0) by (nonlinear_arith)
            requires
                raw == 0,
        ;
    }
}

/// A win under a stake of at least the smallest and a target return of at
/// least ten basis points is worth at least one unit after the house edge.
pub proof fn lemma_accepted_stake_wins_at_least_one_unit(
    bet_type: RouletteBetType,
    bet_amount: u64,
    rtp_bps: u16,
)
    requires
        bet_amount >= MIN_BET,
        rtp_bps >= 10,
    ensures
        bet_amount * bet_type.spec_payout_ratio() * rtp_bps >= 10_000,
{
    let ratio = bet_type.spec_payout_ratio();
    assert(bet_amount * ratio * rtp_bps >= 10_000) by (nonlinear_arith)
        requires
            bet_amount >= 1_000,
            ratio >= 1,
            rtp_bps >= 10,
    ;
}

/// A straight bet covers the one number it names and no other.
pub proof fn lemma_straight_covers_its_number(number: u8, winning_number: u8)
    ensures
        roulette_covers(RouletteBetType::Straight, seq![number], winning_number)
            <==> winning_number == number,
{
    assert(seq![number][0] == number);
}

/// The red numbers are these eighteen.
pub proof fn lemma_red_numbers(number: u8)
    ensures
        is_red(number) <==> (number == 1 || number == 3 || number == 5 || number == 7 || number == 9
            || number == 12 || number == 14 || number == 16 || number == 18 || number == 19
            || number == 21 || number == 23 || number == 25 || number == 27 || number == 30
            || number == 32 || number == 34 || number == 36),
{
    let red = ROULETTE_RED_NUMBERS@;
    assert(red.len() == 18);
    assert(red[0] == 1 && red[1] == 3 && red[2] == 5 && red[3] == 7 && red[4] == 9 && red[5] == 12);
    assert(red[6] == 14 && red[7] == 16 && red[8] == 18 && red[9] == 19 && red[10] == 21 && red[11]
        == 23);
    assert(red[12] == 25 && red[13] == 27 && red[14] == 30 && red[15] == 32 && red[16] == 34
        && red[17] == 36);
}

/// The black numbers are these eighteen.
pub proof fn lemma_black_numbers(number: u8)
    ensures
        is_black(number) <==> (number == 2 || number == 4 || number == 6 || number == 8 || number
            == 10 || number == 11 || number == 13 || number == 15 || number == 17 || number == 20
            || number == 22 || number == 24 || number == 26 || number == 28 || number == 29
            || number == 31 || number == 33 || number == 35),
{
    let black = ROULETTE_BLACK_NUMBERS@;
    assert(black.len() == 18);
    assert(black[0] == 2 && black[1] == 4 && black[2] == 6 && black[3] == 8 && black[4] == 10
        && black[5] == 11);
    assert(black[6] == 13 && black[7] == 15 && black[8] == 17 && black[9] == 20 && black[10] == 22
        && black[11] == 24);
    assert(black[12] == 26 && black[13] == 28 && black[14] == 29 && black[15] == 31 && black[16]
        == 33 && black[17] == 35);
}

/// Every number from 1 to 36 is either red or black, never both, and 0 is
/// neither.
pub proof fn lemma_colours_split_the_wheel(number: u8)
    ensures
        !(is_red(number) && is_black(number)),
        is_red(number) || is_black(number) <==> 1 <= number <= 36,
{
    lemma_red_numbers(number);
    lemma_black_numbers(number);
}

/// How many of the numbers below `upto` a bet covers.
pub open spec fn numbers_covered(bet_type: RouletteBetType, numbers: Seq<u8>, upto: nat) -> nat
    decreases upto,
{
    if upto == 0 {
        0
    } else {
        numbers_covered(bet_type, numbers, (upto - 1) as nat) + if roulette_covers(
            bet_type,
            numbers,
            (upto - 1) as u8,
        ) {
            1nat
        } else {
            0nat
        }
    }
}

/// Whether a bet type is one of the six even-money categories.
pub open spec fn is_even_money(bet_type: RouletteBetType) -> bool {
    bet_type.spec_required_numbers() == 0
}

/// Each even-money category covers eighteen of the thirty-seven numbers of
/// the wheel, never 0 and nothing beyond 36, whatever numbers come with the
/// bet.
pub proof fn lemma_even_money_covers_eighteen(bet_type: RouletteBetType, numbers: Seq<u8>)
    requires
        is_even_money(bet_type),
    ensures
        numbers_covered(bet_type, numbers, 37) == 18,
        !roulette_covers(bet_type, numbers, 0),
        forall|winning_number: u8|
            winning_number > 36 ==> !roulette_covers(bet_type, numbers, winning_number),
{
    assert forall|number: u8|
        roulette_covers(RouletteBetType::Red, numbers, number) == is_red(number)
        && roulette_covers(RouletteBetType::Black, numbers, number) == is_black(number) by {}
    assert forall|number: u8| #![auto]
        (is_red(number) <==> (number == 1 || number == 3 || number == 5 || number == 7 || number
            == 9 || number == 12 || number == 14 || number == 16 || number == 18 || number == 19
            || number == 21 || number == 23 || number == 25 || number == 27 || number == 30
            || number == 32 || number == 34 || number == 36)) && (is_black(number) <==> (number
            == 2 || number == 4 || number == 6 || number == 8 || number == 10 || number == 11
            || number == 13 || number == 15 || number == 17 || number == 20 || number == 22
            || number == 24 || number == 26 || number == 28 || number == 29 || number == 31
            || number == 33 || number == 35)) by {
        lemma_red_numbers(number);
        lemma_black_numbers(number);
    }
    reveal_with_fuel(numbers_covered, 38);
}

} // verus!
