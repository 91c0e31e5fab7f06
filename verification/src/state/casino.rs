use anchor_lang::prelude::Pubkey;
use vstd::prelude::*;

verus! {

/// Denominator of every basis-point value: 10,000 bps are the whole.
pub const BPS_DENOMINATOR: u64 = 10_000;

/// The games the casino knows. Only slots and roulette can be played; the
/// other two are declared for later use.
#[derive(Clone, Copy, Debug, PartialEq, Eq, Structural)]
pub enum GameType {
    Slots,
    Roulette,
    Aviator,
    Blackjack,
}

/// What a roulette bet is placed on.
#[derive(Clone, Copy, Debug, PartialEq, Eq, Structural)]
pub enum RouletteBetType {
    /// One number.
    Straight,
    /// Two adjacent numbers.
    Split,
    /// Three numbers in a row.
    Street,
    /// Four numbers forming a square.
    Corner,
    /// Six numbers in two adjacent rows.
    Line,
    /// The twelve numbers of a column.
    Column,
    /// The twelve numbers of a dozen.
    Dozen,
    Red,
    Black,
    Even,
    Odd,
    /// 1 to 18.
    Low,
    /// 19 to 36.
    High,
}

impl RouletteBetType {
    /// The byte that stands for this bet type in a stored round.
    pub open spec fn spec_tag(self) -> u8 {
        match self {
            RouletteBetType::Straight => 0,
            RouletteBetType::Split => 1,
            RouletteBetType::Street => 2,
            RouletteBetType::Corner => 3,
            RouletteBetType::Line => 4,
            RouletteBetType::Column => 5,
            RouletteBetType::Dozen => 6,
            RouletteBetType::Red => 7,
            RouletteBetType::Black => 8,
            RouletteBetType::Even => 9,
            RouletteBetType::Odd => 10,
            RouletteBetType::Low => 11,
            RouletteBetType::High => 12,
        }
    }

    /// The bet type that a tag byte stands for, if it stands for any.
    pub open spec fn spec_from_tag(tag: u8) -> Option<RouletteBetType> {
        match tag {
            0 => Some(RouletteBetType::Straight),
            1 => Some(RouletteBetType::Split),
            2 => Some(RouletteBetType::Street),
            3 => Some(RouletteBetType::Corner),
            4 => Some(RouletteBetType::Line),
            5 => Some(RouletteBetType::Column),
            6 => Some(RouletteBetType::Dozen),
            7 => Some(RouletteBetType::Red),
            8 => Some(RouletteBetType::Black),
            9 => Some(RouletteBetType::Even),
            10 => Some(RouletteBetType::Odd),
            11 => Some(RouletteBetType::Low),
            12 => Some(RouletteBetType::High),
            _ => None,
        }
    }

    /// How many explicit numbers a bet of this type names: the even-money
    /// categories name none.
    pub open spec fn spec_required_numbers(self) -> nat {
        match self {
            RouletteBetType::Straight => 1,
            RouletteBetType::Split => 2,
            RouletteBetType::Street => 3,
            RouletteBetType::Corner => 4,
            RouletteBetType::Line => 6,
            RouletteBetType::Column => 12,
            RouletteBetType::Dozen => 12,
            _ => 0,
        }
    }

    /// What a win pays per unit staked. The payout is the profit alone: the
    /// stake itself is not added back.
    pub open spec fn spec_payout_ratio(self) -> nat {
        match self {
            RouletteBetType::Straight => 35,
            RouletteBetType::Split => 17,
            RouletteBetType::Street => 11,
            RouletteBetType::Corner => 8,
            RouletteBetType::Line => 5,
            RouletteBetType::Column => 2,
            RouletteBetType::Dozen => 2,
            _ => 1,
        }
    }

    pub fn tag(&self) -> (tag: u8)
        ensures
            tag == self.spec_tag(),
    {
        match self {
            RouletteBetType::Straight => 0,
            RouletteBetType::Split => 1,
            RouletteBetType::Street => 2,
            RouletteBetType::Corner => 3,
            RouletteBetType::Line => 4,
            RouletteBetType::Column => 5,
            RouletteBetType::Dozen => 6,
            RouletteBetType::Red => 7,
            RouletteBetType::Black => 8,
            RouletteBetType::Even => 9,
            RouletteBetType::Odd => 10,
            RouletteBetType::Low => 11,
            RouletteBetType::High => 12,
        }
    }

    pub fn from_tag(tag: u8) -> (bet_type: Option<RouletteBetType>)
        ensures
            bet_type == Self::spec_from_tag(tag),
    {
        match tag {
            0 => Some(RouletteBetType::Straight),
            1 => Some(RouletteBetType::Split),
            2 => Some(RouletteBetType::Street),
            3 => Some(RouletteBetType::Corner),
            4 => Some(RouletteBetType::Line),
            5 => Some(RouletteBetType::Column),
            6 => Some(RouletteBetType::Dozen),
            7 => Some(RouletteBetType::Red),
            8 => Some(RouletteBetType::Black),
            9 => Some(RouletteBetType::Even),
            10 => Some(RouletteBetType::Odd),
            11 => Some(RouletteBetType::Low),
            12 => Some(RouletteBetType::High),
            _ => None,
        }
    }

    pub fn required_numbers(&self) -> (count: usize)
        ensures
            count == self.spec_required_numbers(),
    {
        match self {
            RouletteBetType::Straight => 1,
            RouletteBetType::Split => 2,
            RouletteBetType::Street => 3,
            RouletteBetType::Corner => 4,
            RouletteBetType::Line => 6,
            RouletteBetType::Column => 12,
            RouletteBetType::Dozen => 12,
            _ => 0,
        }
    }

    pub fn payout_ratio(&self) -> (ratio: u64)
        ensures
            ratio == self.spec_payout_ratio(),
    {
        match self {
            RouletteBetType::Straight => 35,
            RouletteBetType::Split => 17,
            RouletteBetType::Street => 11,
            RouletteBetType::Corner => 8,
            RouletteBetType::Line => 5,
            RouletteBetType::Column => 2,
            RouletteBetType::Dozen => 2,
            _ => 1,
        }
    }

    /// Every bet type is found again from its tag.
    pub proof fn lemma_tag_round_trip(bet_type: RouletteBetType)
        ensures
            Self::spec_from_tag(bet_type.spec_tag()) == Some(bet_type),
            bet_type.spec_tag() <= 12,
    {
    }

    /// A tag that stands for a bet type is that bet type's tag, and the tags
    /// that stand for one are exactly 0 to 12.
    pub proof fn lemma_known_tags(tag: u8)
        ensures
            Self::spec_from_tag(tag) is Some <==> tag <= 12,
            Self::spec_from_tag(tag) matches Some(bet_type) ==> bet_type.spec_tag() == tag,
    {
    }
}

/// A move in a blackjack hand.
#[derive(Clone, Copy, Debug, PartialEq, Eq, Structural)]
pub enum BlackjackAction {
    Hit,
    Stand,
    DoubleDown,
    Split,
}

/// Where a blackjack hand stands.
#[derive(Clone, Copy, Debug, PartialEq, Eq, Structural)]
pub enum BlackjackHandStatus {
    Playing,
    Busted,
    Blackjack,
    Stand,
}

/// Target return per game and the platform fee, all in basis points.
#[derive(Clone, Copy, Debug, PartialEq, Eq, Structural)]
pub struct HouseEdgeConfig {
    pub slots_rtp_bps: u16,
    pub roulette_rtp_bps: u16,
    pub aviator_rtp_bps: u16,
    pub blackjack_rtp_bps: u16,
    pub platform_fee_bps: u16,
}

impl HouseEdgeConfig {
    /// No value exceeds the whole: each is at most 10,000 bps.
    pub open spec fn wf(self) -> bool {
        &&& self.slots_rtp_bps <= BPS_DENOMINATOR
        &&& self.roulette_rtp_bps <= BPS_DENOMINATOR
        &&& self.aviator_rtp_bps <= BPS_DENOMINATOR
        &&& self.blackjack_rtp_bps <= BPS_DENOMINATOR
        &&& self.platform_fee_bps <= BPS_DENOMINATOR
    }

    /// The target return of one game.
    pub open spec fn spec_rtp_bps(self, game_type: GameType) -> u16 {
        match game_type {
            GameType::Slots => self.slots_rtp_bps,
            GameType::Roulette => self.roulette_rtp_bps,
            GameType::Aviator => self.aviator_rtp_bps,
            GameType::Blackjack => self.blackjack_rtp_bps,
        }
    }

    /// The configuration a new casino starts with: slots return 95%,
    /// roulette 97.3%, aviator 96%, blackjack 99.5%, and the platform keeps
    /// a fee of 2%.
    pub open spec fn spec_standard() -> HouseEdgeConfig {
        HouseEdgeConfig {
            slots_rtp_bps: 9500,
            roulette_rtp_bps: 9730,
            aviator_rtp_bps: 9600,
            blackjack_rtp_bps: 9950,
            platform_fee_bps: 200,
        }
    }

    pub fn standard() -> (config: HouseEdgeConfig)
        ensures
            config == Self::spec_standard(),
            config.wf(),
    {
        HouseEdgeConfig {
            slots_rtp_bps: 9500,
            roulette_rtp_bps: 9730,
            aviator_rtp_bps: 9600,
            blackjack_rtp_bps: 9950,
            platform_fee_bps: 200,
        }
    }

    pub fn rtp_bps(&self, game_type: GameType) -> (bps: u16)
        ensures
            bps == self.spec_rtp_bps(game_type),
    {
        match game_type {
            GameType::Slots => self.slots_rtp_bps,
            GameType::Roulette => self.roulette_rtp_bps,
            GameType::Aviator => self.aviator_rtp_bps,
            GameType::Blackjack => self.blackjack_rtp_bps,
        }
    }

    pub fn is_valid(&self) -> (valid: bool)
        ensures
            valid == self.wf(),
    {
        self.slots_rtp_bps <= 10_000 && self.roulette_rtp_bps <= 10_000
            && self.aviator_rtp_bps <= 10_000 && self.blackjack_rtp_bps <= 10_000
            && self.platform_fee_bps <= 10_000
    }
}

/// The house: who runs it, where the stakes are held, its running totals and
/// its configuration. The totals only ever grow.
#[derive(Clone, Copy, Debug)]
pub struct CasinoState {
    pub authority: Pubkey,
    pub vault: Pubkey,
    pub total_games_played: u64,
    pub total_volume: u64,
    pub total_payouts: u64,
    pub house_edge_config: HouseEdgeConfig,
    pub is_active: bool,
    pub casino_state_bump: u8,
}

/// Running totals and limits of one game.
#[derive(Clone, Copy, Debug)]
pub struct GameState {
    pub game_type: GameType,
    pub total_bets: u64,
    pub total_payouts: u64,
    pub total_games: u64,
    pub rtp_bps: u16,
    pub min_bet: u64,
    pub max_bet: u64,
    pub is_active: bool,
    pub bump: u8,
}

/// What one user has staked, won and lost so far.
#[derive(Clone, Copy, Debug)]
pub struct UserStats {
    pub user: Pubkey,
    pub total_bets: u64,
    pub total_wins: u64,
    pub total_losses: u64,
    pub loyalty_points: u64,
    pub games_played: u64,
    pub bump: u8,
}

/// A finished or running spin of the slot machine.
#[derive(Clone, Copy, Debug)]
pub struct SlotsGame {
    pub user: Pubkey,
    pub bet_amount: u64,
    /// One symbol, 0 to 9, per reel.
    pub reels: [u8; 3],
    /// Which paylines are active.
    pub paylines: [bool; 5],
    pub payout: u64,
    pub is_complete: bool,
    pub bump: u8,
}

/// A finished or running roulette bet.
#[derive(Clone, Debug)]
pub struct RouletteGame {
    pub user: Pubkey,
    pub bet_amount: u64,
    pub bet_type: RouletteBetType,
    pub bet_numbers: Vec<u8>,
    pub winning_number: u8,
    pub payout: u64,
    pub is_complete: bool,
    pub bump: u8,
}

/// A finished or running aviator flight. Multipliers are in basis points:
/// 10,000 stands for 1.00x.
#[derive(Clone, Copy, Debug)]
pub struct AviatorGame {
    pub user: Pubkey,
    pub bet_amount: u64,
    pub cashout_multiplier: u64,
    pub crash_multiplier: u64,
    pub payout: u64,
    pub is_complete: bool,
    pub bump: u8,
}

/// A finished or running blackjack hand. Cards are values from 1 to 13.
#[derive(Clone, Debug)]
pub struct BlackjackGame {
    pub user: Pubkey,
    pub bet_amount: u64,
    pub player_hand: Vec<u8>,
    pub dealer_hand: Vec<u8>,
    pub player_status: BlackjackHandStatus,
    pub dealer_status: BlackjackHandStatus,
    pub payout: u64,
    pub is_complete: bool,
    pub bump: u8,
}

/// The ten slot symbols.
pub const SLOTS_SYMBOLS: [u8; 10] = [0, 1, 2, 3, 4, 5, 6, 7, 8, 9];

/// The slot paytable: one row per symbol, one column per number of matching
/// lanes (one, two, three). Symbol 0 never pays.
pub const SLOTS_PAYOUTS: [[u64; 3]; 10] = [
    [0, 0, 0],
    [2, 5, 10],
    [3, 8, 15],
    [5, 12, 25],
    [8, 20, 50],
    [12, 30, 75],
    [20, 50, 100],
    [30, 75, 200],
    [50, 125, 500],
    [100, 250, 1000],
];

/// The numbers of the wheel in the order in which they stand on it.
pub const ROULETTE_NUMBERS: [u8; 37] = [
    0, 32, 15, 19, 4, 21, 2, 25, 17, 34, 6, 27, 13, 36, 11, 30, 8, 23, 10, 5, 24, 16, 33, 1, 20,
    14, 31, 9, 22, 18, 29, 7, 28, 12, 35, 3, 26,
];

/// The eighteen red numbers.
pub const ROULETTE_RED_NUMBERS: [u8; 18] = [
    1, 3, 5, 7, 9, 12, 14, 16, 18, 19, 21, 23, 25, 27, 30, 32, 34, 36,
];

/// The eighteen black numbers.
pub const ROULETTE_BLACK_NUMBERS: [u8; 18] = [
    2, 4, 6, 8, 10, 11, 13, 15, 17, 20, 22, 24, 26, 28, 29, 31, 33, 35,
];

/// The hand value that blackjack plays for.
pub const BLACKJACK_VALUE: u8 = 21;

/// The hand value from which the dealer stands.
pub const DEALER_STAND_VALUE: u8 = 17;

/// What a blackjack pays, in percent of the stake.
pub const BLACKJACK_PAYOUT: u64 = 150;

} // verus!
