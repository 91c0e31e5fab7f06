use crate::errors::CasinoError;
use crate::state::casino::GameType;
use crate::utils::payout::{MAX_BET, MIN_BET};
use anchor_lang::prelude::Pubkey;
use switchboard_on_demand::accounts::RandomnessAccountData;
use vstd::arithmetic::div_mod::lemma_small_mod;
use vstd::bytes::{
    spec_u32_from_le_bytes, spec_u64_from_le_bytes, spec_u64_to_le_bytes, u32_from_le_bytes,
    u64_to_le_bytes,
};
use vstd::prelude::*;
use vstd::slice::{slice_subrange, slice_to_vec};

verus! {

/// After this many slots without a reveal a request counts as timed out.
pub const VRF_TIMEOUT_SLOTS: u64 = 150;

/// The most requests that may wait for their reveal at one time.
pub const MAX_VRF_REQUESTS: u32 = 1000;

/// The eight bytes with which the data of a randomness account begins.
pub const RANDOMNESS_DISCRIMINATOR: [u8; 8] = [10, 66, 229, 135, 220, 239, 217, 114];

/// The least number of bytes that the data of a randomness account holds.
pub const RANDOMNESS_ACCOUNT_LEN: usize = 408;

/// The two phases of a round.
#[derive(Clone, Copy, Debug, PartialEq, Eq, Structural)]
pub enum GamePhase {
    /// The stake is taken and the round waits for its randomness.
    Requested,
    /// The randomness was revealed and the round is paid out.
    Settled,
}

/// One bet from stake to payout.
#[derive(Clone, Debug)]
pub struct VrfGameState {
    pub user: Pubkey,
    pub game_type: GameType,
    pub bet_amount: u64,
    /// The randomness account that the round is bound to.
    pub randomness_account: Pubkey,
    /// The slot at which that randomness was committed.
    pub commit_slot: u64,
    pub game_phase: GamePhase,
    /// While the round waits: the bet. Once it is settled: the outcome.
    pub game_data: Vec<u8>,
    pub payout: u64,
    pub is_complete: bool,
    pub bump: u8,
}

/// A round with its payload as a sequence of bytes.
pub struct VrfGameStateView {
    pub user: Pubkey,
    pub game_type: GameType,
    pub bet_amount: u64,
    pub randomness_account: Pubkey,
    pub commit_slot: u64,
    pub game_phase: GamePhase,
    pub game_data: Seq<u8>,
    pub payout: u64,
    pub is_complete: bool,
    pub bump: u8,
}

impl View for VrfGameState {
    type V = VrfGameStateView;

    open spec fn view(&self) -> VrfGameStateView {
        VrfGameStateView {
            user: self.user,
            game_type: self.game_type,
            bet_amount: self.bet_amount,
            randomness_account: self.randomness_account,
            commit_slot: self.commit_slot,
            game_phase: self.game_phase,
            game_data: self.game_data@,
            payout: self.payout,
            is_complete: self.is_complete,
            bump: self.bump,
        }
    }
}

impl VrfGameStateView {
    /// What holds of every round that a bet opened and of every round that
    /// was settled since: its stake lies within the bounds, it is complete
    /// exactly when it is settled, and while it waits nothing is paid.
    pub open spec fn wf(self) -> bool {
        &&& MIN_BET <= self.bet_amount <= MAX_BET
        &&& self.is_complete <==> self.game_phase == GamePhase::Settled
        &&& self.game_phase == GamePhase::Requested ==> self.payout == 0
    }
}

/// What the casino reads of a randomness account: the slot at which the
/// randomness was committed, the slot at which it was revealed, and the
/// revealed value.
#[derive(Clone, Copy, Debug)]
pub struct RandomnessData {
    pub seed_slot: u64,
    pub reveal_slot: u64,
    pub value: [u8; 32],
}

/// Whether `data` has the form of a randomness account: long enough, and
/// beginning with the discriminator.
pub open spec fn is_randomness_account(data: Seq<u8>) -> bool {
    data.len() >= RANDOMNESS_ACCOUNT_LEN && data.subrange(0, 8) == RANDOMNESS_DISCRIMINATOR@
}

/// The commit slot that the data of a randomness account holds.
pub open spec fn account_seed_slot(data: Seq<u8>) -> u64 {
    spec_u64_from_le_bytes(data.subrange(104, 112))
}

/// The reveal slot that the data of a randomness account holds.
pub open spec fn account_reveal_slot(data: Seq<u8>) -> u64 {
    spec_u64_from_le_bytes(data.subrange(144, 152))
}

/// The revealed value that the data of a randomness account holds.
pub open spec fn account_value(data: Seq<u8>) -> Seq<u8> {
    data.subrange(152, 184)
}

impl RandomnessData {
    /// Whether this is what the data of a randomness account holds.
    pub open spec fn read_from(self, data: Seq<u8>) -> bool {
        &&& self.seed_slot == account_seed_slot(data)
        &&& self.reveal_slot == account_reveal_slot(data)
        &&& self.value@ == account_value(data)
    }
}

/// The SHA-256 digest of a sequence of bytes.
pub uninterp spec fn sha256(data: Seq<u8>) -> Seq<u8>;

/// `solana_program::hash::hash`, followed by `Hash::to_bytes`: the SHA-256
/// digest of `data`, which depends on nothing but the bytes of `data`.
#[verifier::external_body]
fn sha256_digest(data: &[u8]) -> (digest: [u8; 32])
    ensures
        digest@ == sha256(data@),
{
    anchor_lang::solana_program::hash::hash(data).to_bytes()
}

/// `RandomnessAccountData::parse`, on a copy of `data` that is aligned as
/// the account type asks. It succeeds exactly on data of at least 408 bytes
/// that begins with the discriminator. The account's fields lie at fixed
/// places behind the discriminator, integers in little-endian order as
/// Solana stores them: the commit slot in bytes 104 to 111, the reveal slot
/// in bytes 144 to 151, the value in bytes 152 to 183.
#[verifier::external_body]
fn parse_account(data: &[u8]) -> (parsed: Option<RandomnessData>)
    ensures
        parsed is Some <==> is_randomness_account(data@),
        parsed matches Some(randomness) ==> randomness.read_from(data@),
{
    let mut words: Vec<u64> = bytemuck::allocation::pod_collect_to_vec(data);
    let bytes: &mut [u8] = &mut bytemuck::cast_slice_mut(&mut words)[..data.len()];
    let cell = std::cell::RefCell::new(bytes);
    let parsed = RandomnessAccountData::parse(cell.borrow());
    match parsed {
        Ok(account) => Some(
            RandomnessData {
                seed_slot: account.seed_slot,
                reveal_slot: account.reveal_slot,
                value: account.value,
            },
        ),
        Err(_) => None,
    }
}

/// `RandomnessAccountData::get_value`, on an account that holds the three
/// values of `randomness`: the value where `clock_slot` is the reveal slot,
/// and a refusal at every other slot.
#[verifier::external_body]
fn revealed_value(randomness: &RandomnessData, clock_slot: u64) -> (revealed: Option<[u8; 32]>)
    ensures
        revealed == if clock_slot == randomness.reveal_slot {
            Some(randomness.value)
        } else {
            None
        },
{
    let mut account: RandomnessAccountData = bytemuck::Zeroable::zeroed();
    account.seed_slot = randomness.seed_slot;
    account.reveal_slot = randomness.reveal_slot;
    account.value = randomness.value;
    account.get_value(clock_slot).ok()
}

/// Randomness for trying things out, derived from nothing but the slot: the
/// SHA-256 digest of the slot's eight bytes, lowest byte first.
pub fn generate_mock_randomness(slot: u64) -> (randomness: [u8; 32])
    ensures
        randomness@ == sha256(spec_u64_to_le_bytes(slot)),
{
    let seed_bytes = u64_to_le_bytes(slot);
    sha256_digest(seed_bytes.as_slice())
}

/// Reads the data of a randomness account. Data that does not have the form
/// of one is refused as an invalid commitment.
pub fn parse_randomness_data(randomness_account_data: &[u8]) -> (parsed: Result<
    RandomnessData,
    CasinoError,
>)
    ensures
        parsed is Ok <==> is_randomness_account(randomness_account_data@),
        parsed matches Ok(randomness) ==> randomness.read_from(randomness_account_data@),
        parsed matches Err(error) ==> error == CasinoError::CommitmentInvalid,
{
    match parse_account(randomness_account_data) {
        Some(randomness) => Ok(randomness),
        None => Err(CasinoError::CommitmentInvalid),
    }
}

/// Whether randomness committed at `seed_slot` can settle a round that
/// expects the commit slot `expected_commit_slot`, at slot `current_slot`: it
/// must be the expected commitment, and the commit slot must have passed.
pub open spec fn reveal_is_timely(seed_slot: u64, expected_commit_slot: u64, current_slot: u64) -> bool {
    seed_slot == expected_commit_slot && current_slot > seed_slot
}

/// Checks that the randomness is the one committed for the round and that
/// its commit slot has passed.
pub fn validate_randomness_timing(
    randomness_data: &RandomnessData,
    expected_commit_slot: u64,
    current_slot: u64,
) -> (verdict: Result<(), CasinoError>)
    ensures
        verdict is Ok <==> reveal_is_timely(
            randomness_data.seed_slot,
            expected_commit_slot,
            current_slot,
        ),
        verdict matches Err(error) ==> error == CasinoError::CommitmentInvalid,
{
    if randomness_data.seed_slot != expected_commit_slot {
        return Err(CasinoError::CommitmentInvalid);
    }
    if current_slot <= randomness_data.seed_slot {
        return Err(CasinoError::CommitmentInvalid);
    }
    Ok(())
}

/// Hands out the revealed value. It can be had at the reveal slot only: at
/// every other slot the commitment is refused.
pub fn get_revealed_randomness(randomness_data: &RandomnessData, current_slot: u64) -> (revealed:
    Result<Vec<u8>, CasinoError>)
    ensures
        revealed is Ok <==> current_slot == randomness_data.reveal_slot,
        revealed matches Ok(bytes) ==> bytes@ == randomness_data.value@,
        revealed matches Err(error) ==> error == CasinoError::CommitmentInvalid,
{
    match revealed_value(randomness_data, current_slot) {
        Some(value) => Ok(slice_to_vec(value.as_slice())),
        None => Err(CasinoError::CommitmentInvalid),
    }
}

/// The symbols of the three slot lanes: lane `i` shows byte `i` of the
/// randomness modulo 10. Randomness shorter than three bytes is read round
/// and round.
pub open spec fn slots_reels(randomness: Seq<u8>) -> Seq<u8>
    recommends
        randomness.len() > 0,
{
    Seq::new(3, |i: int| (randomness[i % (randomness.len() as int)] % 10) as u8)
}

/// The winning roulette number: the first byte of the randomness modulo 37.
pub open spec fn roulette_winning_number(randomness: Seq<u8>) -> u8
    recommends
        randomness.len() > 0,
{
    (randomness[0] % 37) as u8
}

/// The crash multiplier of an aviator flight in basis points, from 1.00x to
/// 99.99x in steps of 0.01x: the first four bytes of the randomness, read as
/// a little-endian number, decide the step.
pub open spec fn aviator_crash_multiplier(randomness: Seq<u8>) -> u64
    recommends
        randomness.len() >= 4,
{
    (10_000 + (spec_u32_from_le_bytes(randomness.subrange(0, 4)) % 9900) * 100) as u64
}

/// The four cards that open a blackjack hand: card `i` is byte `i` of the
/// randomness modulo 13, plus 1.
pub open spec fn blackjack_cards(randomness: Seq<u8>) -> Seq<u8>
    recommends
        randomness.len() > 0,
{
    Seq::new(4, |i: int| (randomness[i % (randomness.len() as int)] % 13 + 1) as u8)
}

/// The outcome that the revealed randomness gives a game: three reel
/// symbols, one roulette number, the eight little-endian bytes of a crash
/// multiplier, or four cards.
pub open spec fn game_randomness(game_type: GameType, randomness: Seq<u8>) -> Seq<u8> {
    match game_type {
        GameType::Slots => slots_reels(randomness),
        GameType::Roulette => seq![roulette_winning_number(randomness)],
        GameType::Aviator => spec_u64_to_le_bytes(aviator_crash_multiplier(randomness)),
        GameType::Blackjack => blackjack_cards(randomness),
    }
}

/// Derives the outcome of a game from the revealed randomness. The same
/// randomness always gives the same outcome.
pub fn generate_game_randomness(game_type: GameType, randomness_bytes: &[u8]) -> (outcome: Result<
    Vec<u8>,
    CasinoError,
>)
    requires
        randomness_bytes@.len() > 0,
        game_type == GameType::Aviator ==> randomness_bytes@.len() >= 4,
    ensures
        outcome matches Ok(values) && values@ == game_randomness(game_type, randomness_bytes@),
{
    match game_type {
        GameType::Slots => {
            let mut reels: Vec<u8> = Vec::new();
            let mut i: usize = 0;
            while i < 3
                invariant
                    i <= 3,
                    randomness_bytes@.len() > 0,
                    reels@.len() == i,
                    forall|j: int|
                        0 <= j < i ==> reels@[j] == slots_reels(randomness_bytes@)[j],
                decreases 3 - i,
            {
                let random_byte = randomness_bytes[i % randomness_bytes.len()];
                reels.push(random_byte % 10);
                i += 1;
            }
            assert(reels@ =~= slots_reels(randomness_bytes@));
            Ok(reels)
        },
        GameType::Roulette => {
            let random_byte = randomness_bytes[0];
            let number = random_byte % 37;
            let mut outcome: Vec<u8> = Vec::new();
            outcome.push(number);
            assert(outcome@ =~= seq![roulette_winning_number(randomness_bytes@)]);
            Ok(outcome)
        },
        GameType::Aviator => {
            let random_value = u32_from_le_bytes(slice_subrange(randomness_bytes, 0, 4));
            let multiplier: u64 = 10_000 + (random_value % 9900) as u64 * 100;
            Ok(u64_to_le_bytes(multiplier))
        },
        GameType::Blackjack => {
            let mut cards: Vec<u8> = Vec::new();
            let mut i: usize = 0;
            while i < 4
                invariant
                    i <= 4,
                    randomness_bytes@.len() > 0,
                    cards@.len() == i,
                    forall|j: int|
                        0 <= j < i ==> cards@[j] == blackjack_cards(randomness_bytes@)[j],
                decreases 4 - i,
            {
                let random_byte = randomness_bytes[i % randomness_bytes.len()];
                cards.push(random_byte % 13 + 1);
                i += 1;
            }
            assert(cards@ =~= blackjack_cards(randomness_bytes@));
            Ok(cards)
        },
    }
}

/// Every reel symbol lies in 0 to 9.
pub proof fn lemma_slots_reels_are_symbols(randomness: Seq<u8>)
    requires
        randomness.len() > 0,
    ensures
        slots_reels(randomness).len() == 3,
        forall|i: int| 0 <= i < 3 ==> #[trigger] slots_reels(randomness)[i] < 10,
{
}

/// With at least three bytes of randomness, lane `i` shows byte `i` modulo 10.
pub proof fn lemma_slots_reels_of_long_randomness(randomness: Seq<u8>)
    requires
        randomness.len() >= 3,
    ensures
        slots_reels(randomness) == seq![
            (randomness[0] % 10) as u8,
            (randomness[1] % 10) as u8,
            (randomness[2] % 10) as u8,
        ],
{
    let len = randomness.len();
    lemma_small_mod(0, len);
    lemma_small_mod(1, len);
    lemma_small_mod(2, len);
    assert(slots_reels(randomness) =~= seq![
        (randomness[0] % 10) as u8,
        (randomness[1] % 10) as u8,
        (randomness[2] % 10) as u8,
    ]);
}

/// The winning number lies on the wheel: it is at most 36.
pub proof fn lemma_winning_number_is_on_the_wheel(randomness: Seq<u8>)
    ensures
        roulette_winning_number(randomness) <= 36,
{
}

} // verus!
