//! Game state for one room: players, puzzle, wheel, turns and the special rounds
//! (toss-up, Final Spin, bonus round, game over).
//!
//! Times are Unix timestamps in milliseconds. Every operation that reads the clock
//! has a companion ending in `_at` that takes the current time as an argument.
use vstd::prelude::*;
use std::collections::VecDeque;
use crate::clock::{now_millis, MAX_TIMESTAMP_MS};
use crate::letters::{LetterSet, SidSet};
use crate::random::{random_choice, random_in_range, random_ratio, shuffle_in_place};
use crate::text::{all_ascii, is_digit, to_ascii_upper, upper, to_uppercase, spec_to_uppercase, str_chars, count_occurrences, count_char, is_alphabetic, spec_is_alphabetic, is_alphanumeric, spec_is_alphanumeric, is_ascii_alpha, is_ascii_letter, str_equal, chars_equal};
use crate::wheel::{shuffled_standard_wheel, is_standard_layout, WedgeValue, create_standard_wheel, shuffle_wheel_with_spacing, count_special, spec_is_special, is_standard_wedge, WHEEL_SIZE};

verus! {

/// Default vowel cost.
pub const DEFAULT_VOWEL_COST: i32 = 250;
/// Default bonus round length in seconds.
pub const DEFAULT_BONUS_SECONDS: i32 = 30;
/// Default bonus round jackpot.
pub const DEFAULT_BONUS_JACKPOT: i32 = 10000;
/// Cash awarded for winning a toss-up.
pub const TOSSUP_AWARD: i32 = 1000;
/// Seconds the game-over screen shows before the game resets.
pub const GAME_OVER_DISPLAY_SECONDS: u64 = 15;
/// Bonus per letter during the Final Spin, added to the spin value.
pub const FINAL_SPIN_LETTER_BONUS: i32 = 1000;

/// The letters revealed at the start of the bonus round.
pub open spec fn bonus_rstlne() -> Seq<char> {
    seq!['R', 'S', 'T', 'L', 'N', 'E']
}

/// The letters revealed at the start of the bonus round, as a set: R, S, T, L,
/// N and E.
pub proof fn lemma_rstlne_set()
    ensures
        bonus_rstlne().to_set() == set!['R', 'S', 'T', 'L', 'N', 'E'],
{
    let s = bonus_rstlne();
    assert forall|x: char| s.contains(x) <==> set!['R', 'S', 'T', 'L', 'N', 'E'].contains(x) by {
        if s.contains(x) {
            let j = choose|j: int| 0 <= j < s.len() && s[j] == x;
            assert(0 <= j < 6);
        }
        if x == 'R' { assert(s[0] == x); }
        if x == 'S' { assert(s[1] == x); }
        if x == 'T' { assert(s[2] == x); }
        if x == 'L' { assert(s[3] == x); }
        if x == 'N' { assert(s[4] == x); }
        if x == 'E' { assert(s[5] == x); }
    }
    assert(s.to_set() =~= set!['R', 'S', 'T', 'L', 'N', 'E']);
}

/// Game phase.
#[derive(Debug, Clone, Copy, PartialEq, Eq, Structural)]
pub enum GamePhase {
    /// Waiting for someone to press "Start Game".
    Pregame,
    Normal,
    Tossup,
    /// Final Spin round: one spin sets the value, players take turns calling letters.
    Final,
    /// Bonus round: RSTLNE revealed, pick 3 consonants and 1 vowel, solve.
    Bonus,
    /// The game has ended: show results and the winner.
    GameOver,
}

/// Bonus round stage.
#[derive(Debug, Clone, Copy, PartialEq, Eq, Structural)]
pub enum BonusStage {
    Off,
    Pick,
    Running,
    Done,
}

/// A prize won by a player.
#[derive(Debug, Clone)]
pub struct Prize {
    pub name: String,
    pub value: i32,
}

impl Prize {
    /// An equal copy of this prize.
    pub fn copy_value(&self) -> (r: Self)
        ensures
            r == *self,
    {
        Prize { name: self.name.clone(), value: self.value }
    }
}

/// Sum of the values of `s`.
pub open spec fn prize_sum(s: Seq<Prize>) -> int
    decreases s.len(),
{
    if s.len() == 0 {
        0
    } else {
        prize_sum(s.drop_last()) + s.last().value
    }
}

/// Every running sum of the values of `s`, from the first prize on, fits in an `i32`.
pub open spec fn prize_sum_fits(s: Seq<Prize>) -> bool {
    forall|k: int| 0 <= k <= s.len() ==> i32::MIN <= #[trigger] prize_sum(s.subrange(0, k)) <= i32::MAX
}

/// Adds up the values of `s`.
pub fn sum_prize_values(s: &Vec<Prize>) -> (r: i32)
    requires
        prize_sum_fits(s@),
    ensures
        r == prize_sum(s@),
{
    let mut total: i32 = 0;
    let mut i: usize = 0;
    while i < s.len()
        invariant
            i <= s@.len(),
            prize_sum_fits(s@),
            total == prize_sum(s@.subrange(0, i as int)),
        decreases s@.len() - i,
    {
        assert(s@.subrange(0, i + 1).drop_last() =~= s@.subrange(0, i as int));
        assert(i32::MIN <= prize_sum(s@.subrange(0, i + 1)) <= i32::MAX);
        total = total + s[i].value;
        i += 1;
    }
    assert(s@.subrange(0, s@.len() as int) =~= s@);
    total
}

/// A player in the game.
#[derive(Debug, Clone)]
pub struct Player {
    pub id: usize,
    pub name: String,
    pub total: i32,
    pub prizes: Vec<Prize>,
    pub round_bank: i32,
    pub round_prizes: Vec<Prize>,
    pub socket_id: Option<String>,
    pub user_id: Option<i64>,
    /// Unix time in seconds when the player disconnected (None while connected).
    pub disconnected_at: Option<i64>,
    /// Avatar id (1-12), default 1.
    pub avatar_id: i64,
}

/// The player is connected through a socket with the characters `sid`.
pub open spec fn has_socket(p: Player, sid: Seq<char>) -> bool {
    p.socket_id matches Some(s) && s@ == sid
}

/// Clamps an avatar id into 1..=12.
pub open spec fn clamp_avatar(a: i64) -> i64 {
    if a < 1 { 1 } else if a > 12 { 12 } else { a }
}

impl Player {
    pub fn new(id: usize, name: String) -> (r: Self)
        ensures
            r.id == id,
            r.name == name,
            r.total == 0,
            r.prizes@.len() == 0,
            r.round_bank == 0,
            r.round_prizes@.len() == 0,
            r.socket_id is None,
            r.user_id is None,
            r.disconnected_at is None,
            r.avatar_id == 1,
    {
        Player {
            id,
            name,
            total: 0,
            prizes: Vec::new(),
            round_bank: 0,
            round_prizes: Vec::new(),
            socket_id: None,
            user_id: None,
            disconnected_at: None,
            avatar_id: 1,
        }
    }

    /// Total value of the prizes won.
    pub fn prize_value_total(&self) -> (r: i32)
        requires
            prize_sum_fits(self.prizes@),
        ensures
            r == prize_sum(self.prizes@),
    {
        sum_prize_values(&self.prizes)
    }

    /// Total value of the prizes won this round.
    pub fn round_prize_value_total(&self) -> (r: i32)
        requires
            prize_sum_fits(self.round_prizes@),
        ensures
            r == prize_sum(self.round_prizes@),
    {
        sum_prize_values(&self.round_prizes)
    }

    /// TV total: cash plus prize value.
    pub fn tv_total(&self) -> (r: i32)
        requires
            prize_sum_fits(self.prizes@),
            i32::MIN <= self.total + prize_sum(self.prizes@) <= i32::MAX,
        ensures
            r == self.total + prize_sum(self.prizes@),
    {
        self.total + self.prize_value_total()
    }
}

/// The current puzzle.
#[derive(Debug, Clone)]
pub struct Puzzle {
    pub id: i64,
    pub category: String,
    pub answer: String,
}

impl Puzzle {
    /// An equal copy of this puzzle.
    pub fn copy_value(&self) -> (r: Self)
        ensures
            r == *self,
    {
        Puzzle { id: self.id, category: self.category.clone(), answer: self.answer.clone() }
    }
}

impl Default for Puzzle {
    fn default() -> (r: Self)
        ensures
            r.id == 0,
            r.category@ == "Phrase"@,
            r.answer@ == "JINGLE ALL THE WAY"@,
    {
        Puzzle { id: 0, category: "Phrase".to_owned(), answer: "JINGLE ALL THE WAY".to_owned() }
    }
}

/// Room configuration.
#[derive(Debug, Clone)]
pub struct RoomConfig {
    pub vowel_cost: i32,
    pub bonus_seconds: i32,
    pub bonus_jackpot: i32,
    pub prize_replace_cash_values: Vec<i32>,
    pub puzzle_display_seconds: i32,
    pub prize_wedge_names: Vec<String>,
    /// None or 0 means all packs.
    pub pack_id: Option<i64>,
    /// Seconds before disconnected players are removed (0 = never).
    pub disconnect_timeout_secs: i64,
    /// Seconds for the turn timer after a spin (0 = disabled).
    pub turn_timer_seconds: i32,
    /// Seconds for the toss-up buzz timer after buzzing in (0 = disabled).
    pub buzz_timer_seconds: i32,
}

/// Default seconds before a disconnected player is removed.
pub fn default_disconnect_timeout() -> (r: i64)
    ensures
        r == 300,
{
    300
}

/// Default turn timer in seconds.
pub fn default_turn_timer() -> (r: i32)
    ensures
        r == 10,
{
    10
}

/// Default toss-up buzz timer in seconds.
pub fn default_buzz_timer() -> (r: i32)
    ensures
        r == 5,
{
    5
}

/// The default cash values that replace a won prize wedge.
pub open spec fn default_prize_replacements() -> Seq<i32> {
    seq![500i32, 1000, 1500, 2000, 2500, 3000, 3500]
}

impl RoomConfig {
    /// An equal copy of this configuration.
    pub fn copy_value(&self) -> (r: Self)
        ensures
            r.vowel_cost == self.vowel_cost,
            r.bonus_seconds == self.bonus_seconds,
            r.bonus_jackpot == self.bonus_jackpot,
            r.prize_replace_cash_values@ == self.prize_replace_cash_values@,
            r.puzzle_display_seconds == self.puzzle_display_seconds,
            r.prize_wedge_names@.len() == self.prize_wedge_names@.len(),
            forall|i: int| 0 <= i < r.prize_wedge_names@.len()
                ==> #[trigger] r.prize_wedge_names@[i] == self.prize_wedge_names@[i],
            r.pack_id == self.pack_id,
            r.disconnect_timeout_secs == self.disconnect_timeout_secs,
            r.turn_timer_seconds == self.turn_timer_seconds,
            r.buzz_timer_seconds == self.buzz_timer_seconds,
    {
        let mut names: Vec<String> = Vec::new();
        let mut i: usize = 0;
        while i < self.prize_wedge_names.len()
            invariant
                i <= self.prize_wedge_names@.len(),
                names@.len() == i,
                forall|j: int| 0 <= j < i ==> #[trigger] names@[j] == self.prize_wedge_names@[j],
            decreases self.prize_wedge_names@.len() - i,
        {
            names.push(self.prize_wedge_names[i].clone());
            i += 1;
        }
        let mut values: Vec<i32> = Vec::new();
        let mut k: usize = 0;
        while k < self.prize_replace_cash_values.len()
            invariant
                k <= self.prize_replace_cash_values@.len(),
                values@ == self.prize_replace_cash_values@.subrange(0, k as int),
            decreases self.prize_replace_cash_values@.len() - k,
        {
            values.push(self.prize_replace_cash_values[k]);
            k += 1;
            assert(values@ =~= self.prize_replace_cash_values@.subrange(0, k as int));
        }
        assert(values@ =~= self.prize_replace_cash_values@);
        RoomConfig {
            vowel_cost: self.vowel_cost,
            bonus_seconds: self.bonus_seconds,
            bonus_jackpot: self.bonus_jackpot,
            prize_replace_cash_values: values,
            puzzle_display_seconds: self.puzzle_display_seconds,
            prize_wedge_names: names,
            pack_id: self.pack_id,
            disconnect_timeout_secs: self.disconnect_timeout_secs,
            turn_timer_seconds: self.turn_timer_seconds,
            buzz_timer_seconds: self.buzz_timer_seconds,
        }
    }
}

impl RoomConfig {
    /// The configuration of a room that has none of its own.
    pub open spec fn is_default(self) -> bool {
        &&& self.vowel_cost == DEFAULT_VOWEL_COST
        &&& self.bonus_seconds == DEFAULT_BONUS_SECONDS
        &&& self.bonus_jackpot == DEFAULT_BONUS_JACKPOT
        &&& self.prize_replace_cash_values@ == default_prize_replacements()
        &&& self.puzzle_display_seconds == 30
        &&& self.prize_wedge_names@.len() == 1
        &&& self.prize_wedge_names@[0]@ == "GIFT CARD"@
        &&& self.pack_id is None
        &&& self.disconnect_timeout_secs == 300
        &&& self.turn_timer_seconds == 10
        &&& self.buzz_timer_seconds == 5
    }
}

impl Default for RoomConfig {
    fn default() -> (r: Self)
        ensures
            r.is_default(),
            r.vowel_cost == DEFAULT_VOWEL_COST,
            r.bonus_seconds == DEFAULT_BONUS_SECONDS,
            r.bonus_jackpot == DEFAULT_BONUS_JACKPOT,
            r.prize_replace_cash_values@ == default_prize_replacements(),
            r.puzzle_display_seconds == 30,
            r.prize_wedge_names@.len() == 1,
            r.prize_wedge_names@[0]@ == "GIFT CARD"@,
            r.pack_id is None,
            r.disconnect_timeout_secs == 300,
            r.turn_timer_seconds == 10,
            r.buzz_timer_seconds == 5,
    {
        let mut names: Vec<String> = Vec::new();
        names.push("GIFT CARD".to_owned());
        let values: Vec<i32> = vec![500, 1000, 1500, 2000, 2500, 3000, 3500];
        assert(values@ =~= default_prize_replacements());
        RoomConfig {
            vowel_cost: DEFAULT_VOWEL_COST,
            bonus_seconds: DEFAULT_BONUS_SECONDS,
            bonus_jackpot: DEFAULT_BONUS_JACKPOT,
            prize_replace_cash_values: values,
            puzzle_display_seconds: 30,
            prize_wedge_names: names,
            pack_id: None,
            disconnect_timeout_secs: 300,
            turn_timer_seconds: 10,
            buzz_timer_seconds: 5,
        }
    }
}

/// Toss-up state.
#[derive(Debug)]
pub struct TossupState {
    pub controller_sid: Option<String>,
    pub locked_sids: SidSet,
    pub reveal_order: Vec<char>,
    pub allowed_player_idxs: Vec<usize>,
    pub is_tiebreaker: bool,
    /// When the buzz timer expires, in milliseconds (None = no timer).
    pub buzz_timer_end_ms: Option<i64>,
}

impl TossupState {
    /// The state at the start of a toss-up: nobody in control, nobody locked out.
    pub open spec fn is_fresh(self) -> bool {
        &&& self.controller_sid is None
        &&& self.locked_sids@ == Set::<Seq<char>>::empty()
        &&& self.reveal_order@.len() == 0
        &&& self.allowed_player_idxs@.len() == 0
        &&& !self.is_tiebreaker
        &&& self.buzz_timer_end_ms is None
    }
}

impl Default for TossupState {
    fn default() -> (r: Self)
        ensures
            r.is_fresh(),
    {
        TossupState {
            controller_sid: None,
            locked_sids: SidSet::new(),
            reveal_order: Vec::new(),
            allowed_player_idxs: Vec::new(),
            is_tiebreaker: false,
            buzz_timer_end_ms: None,
        }
    }
}

/// Bonus round state.
#[derive(Debug, Clone)]
pub struct BonusState {
    pub stage: BonusStage,
    pub picks_consonants: Vec<char>,
    pub pick_vowel: Option<char>,
    /// When the solve timer ends, in milliseconds.
    pub end_ms: Option<i64>,
}

impl Default for BonusState {
    fn default() -> (r: Self)
        ensures
            r.stage == BonusStage::Off,
            r.picks_consonants@.len() == 0,
            r.pick_vowel is None,
            r.end_ms is None,
    {
        BonusState { stage: BonusStage::Off, picks_consonants: Vec::new(), pick_vowel: None, end_ms: None }
    }
}

/// Game over state.
#[derive(Debug, Clone)]
pub struct GameOverState {
    /// Index of the winning player (highest total).
    pub winner_idx: Option<usize>,
    pub winner_name: Option<String>,
    pub winner_score: i32,
    /// Whether the bonus round was won.
    pub bonus_won: bool,
    /// When the game resets to pregame, in milliseconds.
    pub reset_at_ms: Option<i64>,
}

impl Default for GameOverState {
    fn default() -> (r: Self)
        ensures
            r.winner_idx is None,
            r.winner_name is None,
            r.winner_score == 0,
            !r.bonus_won,
            r.reset_at_ms is None,
    {
        GameOverState { winner_idx: None, winner_name: None, winner_score: 0, bonus_won: false, reset_at_ms: None }
    }
}

/// Final Spin round state.
#[derive(Debug, Clone)]
pub struct FinalSpinState {
    /// The fixed spin value for all consonants in this round.
    pub spin_value: i32,
    /// Whether the initial spin has been done.
    pub spin_done: bool,
    /// Start the Final Spin after this many consonants are guessed in round 4.
    pub trigger_after_consonants: u8,
    /// Consonants guessed in the current round.
    pub consonants_guessed: u8,
}

/// A fresh random threshold for triggering the Final Spin, between 5 and 10.
pub fn random_final_spin_threshold() -> (r: u8)
    ensures
        5 <= r <= 10,
{
    random_in_range(5, 11) as u8
}

impl Default for FinalSpinState {
    fn default() -> (r: Self)
        ensures
            r.spin_value == 0,
            !r.spin_done,
            5 <= r.trigger_after_consonants <= 10,
            r.consonants_guessed == 0,
    {
        FinalSpinState {
            spin_value: 0,
            spin_done: false,
            trigger_after_consonants: random_final_spin_threshold(),
            consonants_guessed: 0,
        }
    }
}

/// Result of a guess attempt.
#[derive(Debug, Clone, Copy, PartialEq, Eq, Structural)]
pub enum GuessResult {
    Correct(usize),
    Incorrect,
    AlreadyUsed,
    InvalidLetter,
    NotEnoughMoney,
    NeedToSpin,
}

/// Player state for clients.
#[derive(Debug, Clone)]
pub struct PlayerState {
    pub id: usize,
    pub name: String,
    pub total: i32,
    pub prizes: Vec<Prize>,
    pub prize_value_total: i32,
    pub round_bank: i32,
    pub round_prizes: Vec<Prize>,
    pub round_prize_value_total: i32,
    pub claimed: bool,
    pub avatar_id: i64,
}

/// Puzzle state for clients.
#[derive(Debug, Clone)]
pub struct PuzzleState {
    pub id: i64,
    pub category: String,
    pub answer: String,
}

/// Host state for clients.
#[derive(Debug, Clone)]
pub struct HostState {
    pub claimed: bool,
}

/// Toss-up state for clients.
#[derive(Debug, Clone)]
pub struct TossupStateClient {
    pub controller_player_idx: Option<usize>,
    pub locked_player_idxs: Vec<usize>,
    pub allowed_player_idxs: Vec<usize>,
    pub is_tiebreaker: bool,
    pub remaining_seconds: Option<i32>,
}

/// Bonus picks for clients.
#[derive(Debug, Clone)]
pub struct BonusPicks {
    pub consonants: Vec<char>,
    pub vowel: Option<char>,
}

/// Bonus state for clients.
#[derive(Debug, Clone)]
pub struct BonusStateClient {
    pub stage: BonusStage,
    pub picks: BonusPicks,
    pub remaining_seconds: Option<i32>,
    pub jackpot: i32,
}

/// Final Spin state for clients.
#[derive(Debug, Clone)]
pub struct FinalSpinStateClient {
    pub spin_value: i32,
    pub spin_done: bool,
    /// Consonants guessed so far in round 4.
    pub consonants_guessed: u8,
    /// How many consonants start the Final Spin.
    pub trigger_after_consonants: u8,
}

/// Game over state for clients.
#[derive(Debug, Clone)]
pub struct GameOverStateClient {
    pub winner_idx: Option<usize>,
    pub winner_name: Option<String>,
    pub winner_score: i32,
    pub bonus_won: bool,
    /// Seconds until the game resets.
    pub remaining_seconds: Option<i32>,
}

/// Game state sent to clients.
#[derive(Debug, Clone)]
pub struct GameState {
    pub room: String,
    pub phase: GamePhase,
    pub round: u8,
    pub players: Vec<PlayerState>,
    pub active_idx: usize,
    pub puzzle: PuzzleState,
    pub revealed: Vec<char>,
    pub used: Vec<char>,
    pub current_wedge: Option<WedgeValue>,
    pub wheel_index: Option<usize>,
    pub wheel_slots: Vec<WedgeValue>,
    pub last_spin_index: Option<usize>,
    pub puzzle_solved_by: Option<String>,
    pub host: HostState,
    pub config: RoomConfig,
    pub active_pack_id: Option<i64>,
    pub active_pack_name: Option<String>,
    pub tossup: TossupStateClient,
    pub bonus_round: BonusStateClient,
    pub final_spin: FinalSpinStateClient,
    pub game_over: GameOverStateClient,
    /// Seconds left on the turn timer.
    pub turn_timer_remaining: Option<i32>,
}

/// Copies a list of prizes.
pub fn copy_prizes(v: &Vec<Prize>) -> (r: Vec<Prize>)
    ensures
        r@ == v@,
{
    let mut out: Vec<Prize> = Vec::new();
    let mut i: usize = 0;
    while i < v.len()
        invariant
            i <= v@.len(),
            out@ == v@.subrange(0, i as int),
        decreases v@.len() - i,
    {
        out.push(v[i].copy_value());
        i += 1;
        assert(out@ =~= v@.subrange(0, i as int));
    }
    assert(out@ =~= v@);
    out
}

/// Copies a list of wedges.
pub fn copy_wedges(v: &Vec<WedgeValue>) -> (r: Vec<WedgeValue>)
    ensures
        r@ == v@,
{
    let mut out: Vec<WedgeValue> = Vec::new();
    let mut i: usize = 0;
    while i < v.len()
        invariant
            i <= v@.len(),
            out@ == v@.subrange(0, i as int),
        decreases v@.len() - i,
    {
        out.push(v[i].copy_value());
        i += 1;
        assert(out@ =~= v@.subrange(0, i as int));
    }
    assert(out@ =~= v@);
    out
}

/// Copies a list of indices.
pub fn copy_indices(v: &Vec<usize>) -> (r: Vec<usize>)
    ensures
        r@ == v@,
{
    let mut out: Vec<usize> = Vec::new();
    let mut i: usize = 0;
    while i < v.len()
        invariant
            i <= v@.len(),
            out@ == v@.subrange(0, i as int),
        decreases v@.len() - i,
    {
        out.push(v[i]);
        i += 1;
        assert(out@ =~= v@.subrange(0, i as int));
    }
    assert(out@ =~= v@);
    out
}

/// Copies a list of characters.
pub fn copy_chars(v: &Vec<char>) -> (r: Vec<char>)
    ensures
        r@ == v@,
{
    let mut out: Vec<char> = Vec::new();
    let mut i: usize = 0;
    while i < v.len()
        invariant
            i <= v@.len(),
            out@ == v@.subrange(0, i as int),
        decreases v@.len() - i,
    {
        out.push(v[i]);
        i += 1;
        assert(out@ =~= v@.subrange(0, i as int));
    }
    assert(out@ =~= v@);
    out
}

/// Copies an optional string.
pub fn copy_opt_string(v: &Option<String>) -> (r: Option<String>)
    ensures
        r == *v,
{
    match v {
        Some(x) => Some(x.clone()),
        None => None,
    }
}

/// `st` shows player `p` to clients.
pub open spec fn shows_player(st: PlayerState, p: Player) -> bool {
    &&& st.id == p.id
    &&& st.name == p.name
    &&& st.total == p.total
    &&& st.prizes@ == p.prizes@
    &&& st.prize_value_total == prize_sum(p.prizes@)
    &&& st.round_bank == p.round_bank
    &&& st.round_prizes@ == p.round_prizes@
    &&& st.round_prize_value_total == prize_sum(p.round_prizes@)
    &&& st.claimed == (p.socket_id is Some)
    &&& st.avatar_id == p.avatar_id
}

/// Whether `c` is a vowel, ignoring ASCII case.
pub open spec fn spec_is_vowel(c: char) -> bool {
    let u = upper(c);
    u == 'A' || u == 'E' || u == 'I' || u == 'O' || u == 'U'
}


/// Game state for a room.
#[derive(Debug)]
pub struct Game {
    pub room_name: String,
    pub phase: GamePhase,
    /// Current round number (1-4, where 4 is typically the Final Spin round).
    pub round: u8,
    pub players: Vec<Player>,
    pub active_idx: usize,
    pub puzzle: Puzzle,
    pub revealed: LetterSet,
    pub used_letters: LetterSet,
    pub wheel_slots: Vec<WedgeValue>,
    pub wheel_index: Option<usize>,
    pub last_spin_index: Option<usize>,
    pub current_wedge: Option<WedgeValue>,
    pub puzzle_solved_by: Option<String>,
    pub host_sid: Option<String>,
    pub config: RoomConfig,
    pub active_pack_id: Option<i64>,
    pub active_pack_name: Option<String>,
    pub tossup: TossupState,
    pub bonus_state: BonusState,
    pub final_spin: FinalSpinState,
    pub game_over_state: GameOverState,
    /// When the current turn expires, in milliseconds.
    pub turn_timer_end_ms: Option<i64>,
    /// The most recent landing positions, oldest first (at most six).
    pub spin_history: VecDeque<usize>,
}

/// A cash award of `amount` per letter for `n` letters fits on top of `bank`.
pub open spec fn award_fits(bank: i32, amount: int, n: nat) -> bool {
    &&& n <= i32::MAX
    &&& i32::MIN <= amount * n <= i32::MAX
    &&& i32::MIN <= bank + amount * n <= i32::MAX
}

/// Some prize of `ps` has the name `name`.
pub open spec fn has_prize_named(ps: Seq<Prize>, name: Seq<char>) -> bool {
    exists|i: int| 0 <= i < ps.len() && #[trigger] ps[i].name@ == name
}

/// The value a won prize gets: one of the configured cash values, or `fallback`
/// when none is configured.
pub open spec fn drawn_from(v: i32, choices: Seq<i32>, fallback: i32) -> bool {
    if choices.len() == 0 {
        v == fallback
    } else {
        choices.contains(v)
    }
}

/// The characters of `s` that are alphanumeric, in order.
pub open spec fn keep_alphanumeric(s: Seq<char>) -> Seq<char>
    decreases s.len(),
{
    if s.len() == 0 {
        Seq::empty()
    } else {
        let rest = keep_alphanumeric(s.drop_last());
        if spec_is_alphanumeric(s.last()) {
            rest.push(s.last())
        } else {
            rest
        }
    }
}

/// The ASCII letters and digits of `s`, in order, letters upper-cased: what an
/// ASCII answer or attempt is compared by.
pub open spec fn ascii_key(s: Seq<char>) -> Seq<char>
    decreases s.len(),
{
    if s.len() == 0 {
        Seq::empty()
    } else {
        let c = s.last();
        if is_ascii_letter(c) || is_digit(c) {
            ascii_key(s.drop_last()).push(upper(c))
        } else {
            ascii_key(s.drop_last())
        }
    }
}

/// The text an answer or an attempt is compared by: upper-cased, with everything
/// that is not alphanumeric (spaces, punctuation) removed.
pub open spec fn normalized(s: Seq<char>) -> Seq<char> {
    keep_alphanumeric(spec_to_uppercase(s))
}

/// The letters revealed by showing the whole answer `s`: each alphabetic character,
/// ASCII upper-cased.
pub open spec fn answer_letters(s: Seq<char>) -> Set<char> {
    Set::new(|x: char| exists|i: int| 0 <= i < s.len() && spec_is_alphabetic(s[i]) && #[trigger] upper(s[i]) == x)
}

/// For an ASCII answer: the upper-cased ASCII letters of `s`.
pub open spec fn ascii_answer_letters(s: Seq<char>) -> Set<char> {
    Set::new(|x: char| exists|i: int| 0 <= i < s.len() && is_ascii_letter(s[i]) && #[trigger] upper(s[i]) == x)
}

/// The characters of `s` that are alphabetic, in order.
pub open spec fn keep_alphabetic(s: Seq<char>) -> Seq<char>
    decreases s.len(),
{
    if s.len() == 0 {
        Seq::empty()
    } else {
        let rest = keep_alphabetic(s.drop_last());
        if spec_is_alphabetic(s.last()) {
            rest.push(s.last())
        } else {
            rest
        }
    }
}

/// `x` clamped into the `i32` range.
pub open spec fn clamp_i32(x: int) -> i32 {
    if x > i32::MAX { i32::MAX } else if x < i32::MIN { i32::MIN } else { x as i32 }
}

/// Whole seconds left until `end` at `now_ms`, rounded down, never negative.
pub fn floor_seconds_left(end: i64, now_ms: i64) -> (r: i32)
    requires
        0 <= now_ms <= MAX_TIMESTAMP_MS,
    ensures
        r == clamp_i32(Game::seconds_left_floor(end, now_ms)),
{
    if end > now_ms {
        let d: i128 = (end as i128 - now_ms as i128) / 1000;
        if d > i32::MAX as i128 { i32::MAX } else { d as i32 }
    } else {
        0
    }
}

/// Whole seconds left until `end` at `now_ms`, rounded up, never negative.
pub fn ceil_seconds_left(end: i64, now_ms: i64) -> (r: i32)
    requires
        0 <= now_ms <= MAX_TIMESTAMP_MS,
    ensures
        r == clamp_i32(Game::seconds_left_ceil(end, now_ms)),
{
    if end > now_ms {
        let d: i128 = (end as i128 - now_ms as i128 + 999) / 1000;
        if d > i32::MAX as i128 { i32::MAX } else { d as i32 }
    } else {
        0
    }
}

/// Whether `v` holds `x`.
pub fn contains_index(v: &Vec<usize>, x: usize) -> (r: bool)
    ensures
        r == v@.contains(x),
{
    let mut i: usize = 0;
    while i < v.len()
        invariant
            i <= v@.len(),
            forall|j: int| 0 <= j < i ==> v@[j] != x,
        decreases v@.len() - i,
    {
        if v[i] == x {
            assert(v@[i as int] == x);
            return true;
        }
        i += 1;
    }
    false
}

/// The normalized text of `s`: upper-cased, alphanumeric characters only. For
/// an ASCII text these are its letters, upper-cased, and its digits.
pub fn normalize_text(s: &str) -> (r: Vec<char>)
    ensures
        r@ == normalized(s@),
        all_ascii(s@) ==> r@ == ascii_key(s@),
{
    let upper_s = to_uppercase(s);
    let chars = str_chars(upper_s.as_str());
    let mut out: Vec<char> = Vec::new();
    let mut i: usize = 0;
    while i < chars.len()
        invariant
            i <= chars@.len(),
            chars@ == spec_to_uppercase(s@),
            all_ascii(s@) ==> chars@ == Seq::new(s@.len(), |k: int| upper(s@[k])),
            out@ == keep_alphanumeric(chars@.subrange(0, i as int)),
            all_ascii(s@) ==> out@ == ascii_key(s@.subrange(0, i as int)),
        decreases chars@.len() - i,
    {
        assert(chars@.subrange(0, i + 1).drop_last() =~= chars@.subrange(0, i as int));
        let c = chars[i];
        if is_alphanumeric(c) {
            out.push(c);
        }
        proof {
            if all_ascii(s@) {
                assert(s@.subrange(0, i + 1).drop_last() =~= s@.subrange(0, i as int));
                let x = s@[i as int];
                assert((x as u32) < 128);
                assert(c == upper(x));
                assert((c as u32) < 128);
                assert(is_ascii_letter(c) || is_digit(c) <==> is_ascii_letter(x) || is_digit(x));
            }
        }
        i += 1;
    }
    assert(chars@.subrange(0, chars@.len() as int) =~= chars@);
    assert(s@.subrange(0, s@.len() as int) =~= s@);
    out
}

/// The outcome of a buzz by the socket `sid` at `now_ms`, from state `o` to state
/// `f` with result `r`.
pub open spec fn buzz_outcome(o: Game, f: Game, sid: Seq<char>, r: Result<usize, &'static str>, now_ms: i64) -> bool {
    let socket_id = sid;
    if o.phase != GamePhase::Tossup {
        (r matches Err(e) && e@ == "Not in toss-up mode"@) && f == o
    } else if o.tossup.locked_sids@.contains(socket_id) {
        (r matches Err(e) && e@ == "You are locked out for this toss-up"@) && f == o
    } else if o.tossup.controller_sid is Some {
        (r matches Err(e) && e@ == "Someone else already buzzed in"@) && f == o
    } else if forall|j: int| 0 <= j < o.players@.len() ==> !has_socket(#[trigger] o.players@[j], socket_id) {
        (r matches Err(e) && e@ == "You must claim a player slot first"@) && f == o
    } else {
        exists|i: usize| {
            &&& i < o.players@.len()
            &&& has_socket(#[trigger] o.players@[i as int], socket_id)
            &&& forall|j: int| 0 <= j < i ==> !has_socket(#[trigger] o.players@[j], socket_id)
            &&& if o.tossup.allowed_player_idxs@.len() > 0 && !o.tossup.allowed_player_idxs@.contains(i) {
                (r matches Err(e) && e@ == "You are not allowed to buzz in this round"@) && f == o
            } else {
                &&& r == Ok::<usize, &'static str>(i)
                &&& (f.tossup.controller_sid matches Some(c) && c@ == socket_id)
                &&& f.tossup.buzz_timer_end_ms == match o.buzz_deadline(now_ms) {
                    Some(t) => Some(t),
                    None => o.tossup.buzz_timer_end_ms,
                }
                &&& f.tossup.locked_sids == o.tossup.locked_sids
                &&& f.tossup.reveal_order == o.tossup.reveal_order
                &&& f.tossup.allowed_player_idxs == o.tossup.allowed_player_idxs
                &&& f.tossup.is_tiebreaker == o.tossup.is_tiebreaker
                &&& f == (Game { tossup: f.tossup, active_idx: i, ..o })
            }
        }
    }
}

/// `ps` with every player's id set to its index.
pub open spec fn renumbered(ps: Seq<Player>) -> Seq<Player> {
    Seq::new(ps.len(), |j: int| Player { id: j as usize, ..ps[j] })
}

/// The active index after removing a player from a list that then has `new_len`
/// players: the first player when it ran past the end, otherwise unchanged.
pub open spec fn active_after_removal_by_socket(active: usize, new_len: nat) -> usize {
    if active >= new_len && new_len > 0 { 0 } else { active }
}

/// The active index after removing the player at `idx` from a list that then
/// has `new_len` players: the first player when it ran past the end, one less
/// when a player before it left, otherwise unchanged.
pub open spec fn active_after_removal(active: usize, idx: usize, new_len: nat) -> usize {
    if active >= new_len && new_len > 0 {
        0
    } else if idx < active {
        (active - 1) as usize
    } else {
        active
    }
}

/// Indices below `i` of the players timed out at `now_secs`, ascending.
pub open spec fn timed_out_prefix(g: Game, now_secs: i64, i: int) -> Seq<usize>
    decreases i,
{
    if i <= 0 {
        Seq::empty()
    } else {
        let rest = timed_out_prefix(g, now_secs, i - 1);
        if g.timed_out(i - 1, now_secs) {
            rest.push((i - 1) as usize)
        } else {
            rest
        }
    }
}

/// Indices of the players timed out at `now_secs`, ascending.
pub open spec fn timed_out_indices(g: Game, now_secs: i64) -> Seq<usize> {
    timed_out_prefix(g, now_secs, g.players@.len() as int)
}

/// The players that stay after the timed-out ones at `now_secs` are removed.
pub open spec fn kept_players(g: Game, now_secs: i64) -> Seq<Player> {
    g.players@.filter(stays(g, now_secs))
}

/// The players left once the timed-out players at positions `idxs[k..]` have
/// been removed, last first.
pub open spec fn kept_upto(g: Game, now_secs: i64, k: int) -> Seq<Player>
    decreases timed_out_indices(g, now_secs).len() - k,
{
    let idxs = timed_out_indices(g, now_secs);
    if k >= idxs.len() || k < 0 {
        g.players@
    } else {
        kept_upto(g, now_secs, k + 1).remove(idxs[k] as int)
    }
}

/// Whether a player is kept at `now_secs` (not timed out).
pub open spec fn stays(g: Game, now_secs: i64) -> spec_fn(Player) -> bool {
    |p: Player| !(p.disconnected_at matches Some(d) && now_secs - d >= g.config.disconnect_timeout_secs)
}

proof fn lemma_timed_out_prefix(g: Game, now_secs: i64, i: int)
    requires
        g.players@.len() <= usize::MAX,
        0 <= i <= g.players@.len(),
    ensures
        ({
            let t = timed_out_prefix(g, now_secs, i);
            &&& t.len() <= i
            &&& forall|m: int| 0 <= m < t.len() ==> #[trigger] t[m] < i && g.timed_out(t[m] as int, now_secs)
            &&& forall|a: int, b: int| 0 <= a < b < t.len() ==> #[trigger] t[a] < #[trigger] t[b]
            &&& forall|j: int| 0 <= j < i && g.timed_out(j, now_secs) ==> #[trigger] t.contains(j as usize)
        }),
    decreases i,
{
    if i > 0 {
        lemma_timed_out_prefix(g, now_secs, i - 1);
        let t0 = timed_out_prefix(g, now_secs, i - 1);
        let t = timed_out_prefix(g, now_secs, i);
        if g.timed_out(i - 1, now_secs) {
            assert(t == t0.push((i - 1) as usize));
            assert forall|m: int| 0 <= m < t.len() implies #[trigger] t[m] < i && g.timed_out(t[m] as int, now_secs) by {
                if m < t0.len() {
                    assert(t[m] == t0[m]);
                }
            }
            assert forall|a: int, b: int| 0 <= a < b < t.len() implies #[trigger] t[a] < #[trigger] t[b] by {
                if b < t0.len() {
                    assert(t[a] == t0[a] && t[b] == t0[b]);
                } else {
                    assert(t[a] == t0[a]);
                }
            }
        } else {
            assert(t == t0);
        }
        assert forall|j: int| 0 <= j < i && g.timed_out(j, now_secs) implies #[trigger] t.contains(j as usize) by {
            if j < i - 1 {
                assert(t0.contains(j as usize));
                let m = choose|m: int| 0 <= m < t0.len() && t0[m] == j as usize;
                assert(t[m] == j as usize);
            } else {
                assert(t[t.len() - 1] == j as usize);
            }
        }
    }
}

/// The players of `s` with the timed-out ones removed.
pub open spec fn keep_stayers(g: Game, now_secs: i64, s: Seq<Player>) -> Seq<Player> {
    s.filter(stays(g, now_secs))
}

proof fn lemma_filter_all_kept(s: Seq<Player>, f: spec_fn(Player) -> bool)
    requires
        forall|j: int| 0 <= j < s.len() ==> f(#[trigger] s[j]),
    ensures
        s.filter(f) == s,
    decreases s.len(),
{
    reveal_with_fuel(Seq::<_>::filter, 1);
    if s.len() > 0 {
        lemma_filter_all_kept(s.drop_last(), f);
        assert(f(s[s.len() - 1]));
        assert(s.drop_last().push(s.last()) =~= s);
    } else {
        assert(s.filter(f) =~= s);
    }
}

proof fn lemma_gap_stays(g: Game, now_secs: i64, lo: int, hi: int)
    requires
        g.players@.len() <= usize::MAX,
        0 <= lo <= hi <= g.players@.len(),
        forall|m: int| 0 <= m < timed_out_indices(g, now_secs).len()
            ==> !(lo <= #[trigger] timed_out_indices(g, now_secs)[m] < hi),
    ensures
        forall|j: int| 0 <= j < hi - lo ==> stays(g, now_secs)(#[trigger] g.players@.subrange(lo, hi)[j]),
{
    lemma_timed_out_prefix(g, now_secs, g.players@.len() as int);
    let idxs = timed_out_indices(g, now_secs);
    assert forall|j: int| 0 <= j < hi - lo implies stays(g, now_secs)(#[trigger] g.players@.subrange(lo, hi)[j]) by {
        let pos = lo + j;
        assert(g.players@.subrange(lo, hi)[j] == g.players@[pos]);
        if g.timed_out(pos, now_secs) {
            assert(idxs.contains(pos as usize));
            let m = choose|m: int| 0 <= m < idxs.len() && idxs[m] == pos as usize;
            assert(lo <= idxs[m] < hi);
        }
    }
}

#[verifier::spinoff_prover]
proof fn lemma_kept_upto_shape(g: Game, now_secs: i64, k: int)
    requires
        g.players@.len() <= usize::MAX,
        0 <= k <= timed_out_indices(g, now_secs).len(),
    ensures
        ({
            let idxs = timed_out_indices(g, now_secs);
            let n = g.players@.len() as int;
            let b = if k < idxs.len() { idxs[k] as int } else { n };
            &&& 0 <= b <= n
            &&& kept_upto(g, now_secs, k) == g.players@.subrange(0, b) + keep_stayers(g, now_secs, g.players@.subrange(b, n))
        }),
    decreases timed_out_indices(g, now_secs).len() - k,
{
    let idxs = timed_out_indices(g, now_secs);
    let n = g.players@.len() as int;
    let f = stays(g, now_secs);
    lemma_timed_out_prefix(g, now_secs, n);
    if k == idxs.len() {
        assert(g.players@.subrange(n, n) =~= Seq::<Player>::empty());
        reveal_with_fuel(Seq::<_>::filter, 1);
        assert(keep_stayers(g, now_secs, g.players@.subrange(n, n)) =~= Seq::<Player>::empty());
        assert(g.players@.subrange(0, n) =~= g.players@);
        assert(kept_upto(g, now_secs, k) =~= g.players@.subrange(0, n) + Seq::<Player>::empty());
    } else {
        lemma_kept_upto_shape(g, now_secs, k + 1);
        let b0 = idxs[k] as int;
        let b1 = if k + 1 < idxs.len() { idxs[k + 1] as int } else { n };
        assert(b0 < b1) by {
            if k + 1 < idxs.len() {
                assert(idxs[k] < idxs[k + 1]);
            }
        }
        let rest = keep_stayers(g, now_secs, g.players@.subrange(b1, n));
        let prev = g.players@.subrange(0, b1) + rest;
        assert(kept_upto(g, now_secs, k) == prev.remove(b0));
        let mid = g.players@.subrange(b0 + 1, b1);
        assert(prev.remove(b0) =~= g.players@.subrange(0, b0) + (mid + rest));
        assert forall|m: int| 0 <= m < idxs.len() implies !(b0 + 1 <= #[trigger] idxs[m] < b1) by {
            if m < k {
                assert(idxs[m] < idxs[k]);
            } else if m > k + 1 {
                assert(idxs[k + 1] < idxs[m]);
            }
        }
        lemma_gap_stays(g, now_secs, b0 + 1, b1);
        lemma_filter_all_kept(mid, f);
        let tail = g.players@.subrange(b0, n);
        assert(tail =~= seq![g.players@[b0]] + (mid + g.players@.subrange(b1, n)));
        assert(g.timed_out(b0, now_secs));
        Seq::filter_distributes_over_add(seq![g.players@[b0]], mid + g.players@.subrange(b1, n), f);
        Seq::filter_distributes_over_add(mid, g.players@.subrange(b1, n), f);
        reveal_with_fuel(Seq::<_>::filter, 2);
        assert(seq![g.players@[b0]].filter(f) =~= Seq::<Player>::empty());
        assert(keep_stayers(g, now_secs, tail) =~= mid + rest);
    }
}

proof fn lemma_kept_upto_zero(g: Game, now_secs: i64)
    requires
        g.players@.len() <= usize::MAX,
    ensures
        kept_upto(g, now_secs, 0) == kept_players(g, now_secs),
{
    let idxs = timed_out_indices(g, now_secs);
    let n = g.players@.len() as int;
    let f = stays(g, now_secs);
    lemma_kept_upto_shape(g, now_secs, 0);
    lemma_timed_out_prefix(g, now_secs, n);
    let b = if 0 < idxs.len() { idxs[0] as int } else { n };
    let head = g.players@.subrange(0, b);
    assert forall|m: int| 0 <= m < idxs.len() implies !(0 <= #[trigger] idxs[m] < b) by {
        if m > 0 {
            assert(idxs[0] < idxs[m]);
        }
    }
    lemma_gap_stays(g, now_secs, 0, b);
    lemma_filter_all_kept(head, f);
    Seq::filter_distributes_over_add(head, g.players@.subrange(b, n), f);
    assert(head + g.players@.subrange(b, n) =~= g.players@);
    assert(kept_players(g, now_secs) =~= g.players@.filter(f));
}

proof fn lemma_renumbered_remove(s: Seq<Player>, i: int)
    requires
        0 <= i < s.len(),
    ensures
        renumbered(renumbered(s).remove(i)) == renumbered(s.remove(i)),
{
    assert(renumbered(renumbered(s).remove(i)) =~= renumbered(s.remove(i)));
}

/// The outcome of removing, at `now_secs`, the players of `o` that timed out:
/// state `f`, removed names `r`.
pub open spec fn cleanup_outcome(o: Game, f: Game, r: Seq<String>, now_secs: i64) -> bool {
    if o.config.disconnect_timeout_secs <= 0 {
        r.len() == 0 && f == o
    } else {
        let idxs = timed_out_indices(o, now_secs);
        &&& r.len() == idxs.len()
        &&& forall|k: int| 0 <= k < r.len() ==> #[trigger] r[k] == o.players@[idxs[idxs.len() - 1 - k] as int].name
        &&& f.players@ == if idxs.len() == 0 { o.players@ } else { renumbered(kept_players(o, now_secs)) }
        &&& f == (Game { players: f.players, active_idx: f.active_idx, ..o })
    }
}

/// `f` is `o` after the wheel landed at `idx`.
pub open spec fn final_landed(o: Game, f: Game, idx: usize) -> bool {
    f.landed_at(o, idx)
}

/// Indices below `i` of players whose socket is locked out of the toss-up.
pub open spec fn locked_prefix(g: Game, i: int) -> Seq<usize>
    decreases i,
{
    if i <= 0 {
        Seq::empty()
    } else {
        let rest = locked_prefix(g, i - 1);
        let p = g.players@[i - 1];
        if p.socket_id matches Some(s) && g.tossup.locked_sids@.contains(s@) {
            rest.push((i - 1) as usize)
        } else {
            rest
        }
    }
}

/// Index of the first player connected through `sid`.
pub open spec fn first_with_socket(ps: Seq<Player>, sid: Seq<char>) -> Option<usize> {
    if exists|i: int| 0 <= i < ps.len() && has_socket(#[trigger] ps[i], sid) {
        let i = choose|i: int| 0 <= i < ps.len() && has_socket(#[trigger] ps[i], sid)
            && forall|j: int| 0 <= j < i ==> !has_socket(#[trigger] ps[j], sid);
        Some(i as usize)
    } else {
        None
    }
}

proof fn lemma_first_with_socket(ps: Seq<Player>, sid: Seq<char>, r: Option<usize>)
    requires
        r matches Some(i) ==> i < ps.len() && has_socket(ps[i as int], sid)
            && forall|j: int| 0 <= j < i ==> !has_socket(#[trigger] ps[j], sid),
        r is None ==> forall|j: int| 0 <= j < ps.len() ==> !has_socket(#[trigger] ps[j], sid),
        ps.len() <= usize::MAX,
    ensures
        r == first_with_socket(ps, sid),
{
    match r {
        Some(i) => {
            assert(has_socket(ps[i as int], sid));
            let k = choose|k: int| 0 <= k < ps.len() && has_socket(#[trigger] ps[k], sid)
                && forall|j: int| 0 <= j < k ==> !has_socket(#[trigger] ps[j], sid);
            if k < i {
                assert(!has_socket(ps[k], sid));
            }
            if k > i {
                assert(!has_socket(ps[i as int], sid));
            }
        },
        None => {},
    }
}

/// How often the landing position `raw` appears in the spin history `h`.
pub open spec fn exact_hits(h: Seq<usize>, raw: usize) -> nat
    decreases h.len(),
{
    if h.len() == 0 {
        0
    } else {
        exact_hits(h.drop_last(), raw) + if h.last() == raw { 1nat } else { 0nat }
    }
}

/// Positions `a` and `b` of an `n`-wedge wheel are the same or next to each other
/// (the wheel wraps around).
pub open spec fn adjacent(a: usize, b: usize, n: nat) -> bool {
    let diff = if a >= b { a - b } else { b - a };
    diff <= 1 || diff >= n - 1
}

/// How many of the last (up to three) spins landed on or next to `raw`.
pub open spec fn adjacent_hits(h: Seq<usize>, raw: usize, n: nat) -> nat {
    let start = if h.len() >= 3 { h.len() - 3 } else { 0 };
    recent_adjacent(h.subrange(start, h.len() as int), raw, n)
}

/// How many entries of `h` are on or next to `raw`.
pub open spec fn recent_adjacent(h: Seq<usize>, raw: usize, n: nat) -> nat
    decreases h.len(),
{
    if h.len() == 0 {
        0
    } else {
        recent_adjacent(h.drop_last(), raw, n) + if adjacent(raw, h.last(), n) { 1nat } else { 0nat }
    }
}

/// Chance, in tenths, that a landing at `raw` is nudged elsewhere: 7 when it was hit
/// twice in the history, 4 when the last spins cluster around it, 0 otherwise.
pub open spec fn nudge_tenths(h: Seq<usize>, raw: usize, n: nat) -> u32 {
    if exact_hits(h, raw) >= 2 {
        7
    } else if adjacent_hits(h, raw, n) >= 2 {
        4
    } else {
        0
    }
}

/// Moving `offset` (at least three, and two short of a full turn) places on from
/// `raw` round an `n`-wedge wheel reaches `idx`.
pub open spec fn nudge_by(raw: usize, n: nat, offset: int, idx: usize) -> bool {
    3 <= offset < n - 2 && idx == (raw + offset) % (n as int)
}

/// `idx` is where a spin that landed at `raw` ends up: `raw` itself, or, when a
/// nudge is possible, at least three positions further round the wheel.
pub open spec fn nudged_to(h: Seq<usize>, raw: usize, n: nat, idx: usize) -> bool {
    ||| idx == raw
    ||| (nudge_tenths(h, raw, n) > 0 && exists|offset: int| #[trigger] nudge_by(raw, n, offset, idx))
}

impl Game {
    /// The puzzle answer, upper-cased.
    pub open spec fn answer_upper(self) -> Seq<char> {
        spec_to_uppercase(self.puzzle.answer@)
    }

    /// The active player index names a player.
    pub open spec fn has_active(self) -> bool {
        self.active_idx < self.players@.len()
    }

    /// This state with the spin result and turn timer cleared.
    pub open spec fn turn_cleared(self) -> Self {
        Game { current_wedge: None, wheel_index: None, turn_timer_end_ms: None, ..self }
    }

    /// The next player's index (unchanged when there are no players).
    pub open spec fn next_active(self) -> usize {
        if self.players@.len() > 0 {
            ((self.active_idx + 1) % (self.players@.len() as int)) as usize
        } else {
            self.active_idx
        }
    }

    /// This state with the turn passed to the next player.
    pub open spec fn turn_advanced(self) -> Self {
        Game { active_idx: self.next_active(), ..self.turn_cleared() }
    }

    /// Check if the socket is the host.
    pub fn is_host(&self, socket_id: &str) -> (r: bool)
        ensures
            r == (self.host_sid matches Some(h) && h@ == socket_id@),
    {
        match &self.host_sid {
            Some(h) => str_equal(h.as_str(), socket_id),
            None => false,
        }
    }

    /// Check if the socket is the active player (or the host acting for them).
    pub fn is_active_player(&self, socket_id: &str, allow_host: bool) -> (r: bool)
        ensures
            r == ((allow_host && (self.host_sid matches Some(h) && h@ == socket_id@))
                || (self.has_active() && has_socket(self.players@[self.active_idx as int], socket_id@))),
    {
        if allow_host && self.is_host(socket_id) {
            return true;
        }
        if self.active_idx < self.players.len() {
            match &self.players[self.active_idx].socket_id {
                Some(s) => str_equal(s.as_str(), socket_id),
                None => false,
            }
        } else {
            false
        }
    }

    /// Index of the first player connected through `socket_id`.
    pub fn player_idx_by_socket(&self, socket_id: &str) -> (r: Option<usize>)
        ensures
            r matches Some(i) ==> i < self.players@.len() && has_socket(self.players@[i as int], socket_id@)
                && forall|j: int| 0 <= j < i ==> !has_socket(#[trigger] self.players@[j], socket_id@),
            r is None ==> forall|j: int| 0 <= j < self.players@.len()
                ==> !has_socket(#[trigger] self.players@[j], socket_id@),
    {
        let mut i: usize = 0;
        while i < self.players.len()
            invariant
                i <= self.players@.len(),
                forall|j: int| 0 <= j < i ==> !has_socket(#[trigger] self.players@[j], socket_id@),
            decreases self.players@.len() - i,
        {
            let hit = match &self.players[i].socket_id {
                Some(s) => str_equal(s.as_str(), socket_id),
                None => false,
            };
            if hit {
                return Some(i);
            }
            i += 1;
        }
        None
    }

    /// Add a player; returns the new player's index.
    pub fn add_player(
        &mut self,
        name: String,
        socket_id: Option<String>,
        user_id: Option<i64>,
        avatar_id: Option<i64>,
    ) -> (r: usize)
        ensures
            r == old(self).players@.len(),
            final(self).players@.len() == old(self).players@.len() + 1,
            forall|j: int| 0 <= j < r ==> #[trigger] final(self).players@[j] == old(self).players@[j],
            ({
                let p = final(self).players@[r as int];
                &&& p.id == r
                &&& p.name == name
                &&& p.total == 0
                &&& p.prizes@.len() == 0
                &&& p.round_bank == 0
                &&& p.round_prizes@.len() == 0
                &&& p.socket_id == socket_id
                &&& p.user_id == user_id
                &&& p.disconnected_at is None
                &&& p.avatar_id == clamp_avatar(match avatar_id { Some(a) => a, None => 1 })
            }),
            *final(self) == (Game { players: final(self).players, ..*old(self) }),
    {
        let id = self.players.len();
        let mut player = Player::new(id, name);
        player.socket_id = socket_id;
        player.user_id = user_id;
        let a = match avatar_id {
            Some(a) => a,
            None => 1,
        };
        player.avatar_id = if a < 1 { 1 } else if a > 12 { 12 } else { a };
        self.players.push(player);
        id
    }

    /// Clear the spin result and the turn timer. The last landing position is kept:
    /// a won prize wedge is replaced there.
    pub fn clear_turn_state(&mut self)
        ensures
            *final(self) == old(self).turn_cleared(),
    {
        self.current_wedge = None;
        self.wheel_index = None;
        self.turn_timer_end_ms = None;
    }

    /// Pass the turn to the next player.
    pub fn advance_turn(&mut self)
        ensures
            *final(self) == old(self).turn_advanced(),
    {
        self.clear_turn_state();
        let n = self.players.len();
        if n > 0 {
            let next = (self.active_idx % n + 1) % n;
            proof {
                let a = self.active_idx as int;
                let m = n as int;
                vstd::arithmetic::div_mod::lemma_add_mod_noop(a, 1, m);
                if m > 1 {
                    vstd::arithmetic::div_mod::lemma_small_mod(1, m as nat);
                } else {
                    vstd::arithmetic::div_mod::lemma_mod_self_0(m);
                    assert((a % m + 1) % m == 0);
                    assert((a + 1) % m == 0);
                }
            }
            self.active_idx = next;
        }
    }

    /// Current round number (1-4).
    pub fn current_round(&self) -> (r: u8)
        ensures
            r == self.round,
    {
        self.round
    }

    /// Advance to the next round; round 4 is the last.
    pub fn advance_round(&mut self)
        ensures
            *final(self) == (Game { round: if old(self).round < 4 { (old(self).round + 1) as u8 } else { old(self).round }, ..*old(self) }),
    {
        if self.round < 4 {
            self.round += 1;
        }
    }

    /// Set the round number, clamped into 1..=4.
    pub fn set_round(&mut self, round: u8)
        ensures
            *final(self) == (Game { round: if round < 1 { 1 } else if round > 4 { 4 } else { round }, ..*old(self) }),
    {
        self.round = if round < 1 { 1 } else if round > 4 { 4 } else { round };
    }

    /// Reset the round to 1.
    pub fn reset_round(&mut self)
        ensures
            *final(self) == (Game { round: 1, ..*old(self) }),
    {
        self.round = 1;
    }

    /// Whether this is the Final Spin round (round 4).
    pub fn is_final_spin_round(&self) -> (r: bool)
        ensures
            r == (self.round == 4),
    {
        self.round == 4
    }

    /// Whether `letter` is a vowel, ignoring ASCII case.
    pub fn is_vowel(letter: char) -> (r: bool)
        ensures
            r == spec_is_vowel(letter),
    {
        let u = to_ascii_upper(letter);
        u == 'A' || u == 'E' || u == 'I' || u == 'O' || u == 'U'
    }

    /// Award the round bank and round prizes to the active player.
    pub fn award_round_to_active(&mut self)
        requires
            old(self).has_active() ==> i32::MIN <= old(self).players@[old(self).active_idx as int].total
                + old(self).players@[old(self).active_idx as int].round_bank <= i32::MAX,
        ensures
            old(self).has_active() ==> {
                let a = old(self).active_idx as int;
                let p = old(self).players@[a];
                let q = final(self).players@[a];
                &&& final(self).players@ == old(self).players@.update(a, Player {
                    total: (p.total + p.round_bank) as i32,
                    round_bank: 0,
                    prizes: q.prizes,
                    round_prizes: q.round_prizes,
                    ..p
                })
                &&& q.prizes@ == p.prizes@ + p.round_prizes@
                &&& q.round_prizes@.len() == 0
            },
            !old(self).has_active() ==> final(self).players == old(self).players,
            *final(self) == (Game { players: final(self).players, ..*old(self) }),
    {
        if self.active_idx < self.players.len() {
            let a = self.active_idx;
            let bank = self.players[a].round_bank;
            self.players[a].total = self.players[a].total + bank;
            self.players[a].round_bank = 0;
            let mut moved: Vec<Prize> = Vec::new();
            std::mem::swap(&mut moved, &mut self.players[a].round_prizes);
            self.players[a].prizes.append(&mut moved);
        }
    }

    /// A correct consonant at a cash wedge would not overflow the active
    /// player's round bank.
    pub open spec fn consonant_award_fits(self, letter: char) -> bool {
        let l = upper(letter);
        let n = count_char(self.answer_upper(), l);
        match self.current_wedge {
            Some(WedgeValue::Cash(amount)) => (!spec_is_vowel(l) && !self.used_letters@.contains(l) && n > 0
                && self.has_active()) ==> award_fits(
                self.players@[self.active_idx as int].round_bank,
                amount as int,
                n,
            ),
            _ => true,
        }
    }

    /// `f` is `o` after guessing the consonant `letter` with result `r`.
    pub open spec fn consonant_guessed(o: Game, f: Game, letter: char, r: GuessResult) -> bool {
        &&& ({
            let l = upper(letter);
            let n = count_char(o.answer_upper(), l);
            if spec_is_vowel(l) {
                r == GuessResult::InvalidLetter && f == o
            } else if o.used_letters@.contains(l) {
                r == GuessResult::AlreadyUsed && f == o
            } else if o.current_wedge is None {
                r == GuessResult::NeedToSpin && f == o
            } else if n == 0 {
                &&& r == GuessResult::Incorrect
                &&& f.used_letters@ =~= o.used_letters@.insert(l)
                &&& f == (Game { used_letters: f.used_letters, ..if o.current_wedge == Some(WedgeValue::FreePlay) {
                    o.turn_cleared()
                } else {
                    o.turn_advanced()
                } })
            } else {
                &&& r == GuessResult::Correct(n as usize)
                &&& f.used_letters@ =~= o.used_letters@.insert(l)
                &&& f.revealed@ =~= o.revealed@.insert(l)
                &&& f.final_spin == (if o.round == 4 && o.phase == GamePhase::Normal {
                    FinalSpinState {
                        consonants_guessed: if o.final_spin.consonants_guessed < 255 {
                            (o.final_spin.consonants_guessed + 1) as u8
                        } else {
                            255u8
                        },
                        ..o.final_spin
                    }
                } else {
                    o.final_spin
                })
                &&& f == (Game {
                    used_letters: f.used_letters,
                    revealed: f.revealed,
                    final_spin: f.final_spin,
                    players: f.players,
                    wheel_slots: f.wheel_slots,
                    ..o.turn_cleared()
                })
                &&& match o.current_wedge {
                    Some(WedgeValue::Cash(amount)) => {
                        &&& f.wheel_slots == o.wheel_slots
                        &&& if o.has_active() {
                            let p = o.players@[o.active_idx as int];
                            f.players@ =~= o.players@.update(o.active_idx as int, Player {
                                round_bank: (p.round_bank + amount * n) as i32,
                                ..p
                            })
                        } else {
                            f.players == o.players
                        }
                    },
                    Some(WedgeValue::Prize { wedge_type, name }) => {
                        &&& if o.has_active() && !has_prize_named(
                            o.players@[o.active_idx as int].round_prizes@,
                            name@,
                        ) {
                            let p = o.players@[o.active_idx as int];
                            let q = f.players@[o.active_idx as int];
                            &&& f.players@ =~= o.players@.update(o.active_idx as int, Player {
                                round_prizes: q.round_prizes,
                                ..p
                            })
                            &&& q.round_prizes@.len() == p.round_prizes@.len() + 1
                            &&& q.round_prizes@.drop_last() =~= p.round_prizes@
                            &&& q.round_prizes@.last().name == name
                            &&& drawn_from(
                                q.round_prizes@.last().value,
                                o.config.prize_replace_cash_values@,
                                1000,
                            )
                        } else {
                            f.players == o.players
                        }
                        &&& match o.last_spin_index {
                            Some(idx) => if idx < o.wheel_slots@.len() {
                                &&& f.wheel_slots@.len() == o.wheel_slots@.len()
                                &&& forall|j: int| 0 <= j < o.wheel_slots@.len() && j != idx
                                    ==> #[trigger] f.wheel_slots@[j] == o.wheel_slots@[j]
                                &&& f.wheel_slots@[idx as int] matches WedgeValue::Cash(v)
                                    && drawn_from(v, o.config.prize_replace_cash_values@, 500)
                            } else {
                                f.wheel_slots == o.wheel_slots
                            },
                            None => f.wheel_slots == o.wheel_slots,
                        }
                    },
                    _ => f.players == o.players && f.wheel_slots == o.wheel_slots,
                }
            }
        })
    }

    /// Guess a consonant after a spin.
    ///
    /// A vowel is refused, as is a letter already used or a guess before any spin.
    /// Otherwise the letter becomes used; if the answer holds it, it is revealed,
    /// the active player earns the wedge (cash per letter, or the prize, which is
    /// then replaced on the wheel by cash), and the turn continues. A miss passes
    /// the turn unless the wedge was FREE PLAY.
    #[verifier::rlimit(40)]
    pub fn guess_consonant(&mut self, letter: char) -> (r: GuessResult)
        requires
            old(self).consonant_award_fits(letter),
        ensures
            Self::consonant_guessed(*old(self), *final(self), letter, r),
    {
        let letter = to_ascii_upper(letter);
        if Self::is_vowel(letter) {
            return GuessResult::InvalidLetter;
        }
        if self.used_letters.contains(&letter) {
            return GuessResult::AlreadyUsed;
        }
        if self.current_wedge.is_none() {
            return GuessResult::NeedToSpin;
        }
        self.used_letters.insert(letter);
        let count = self.count_in_answer(letter);
        if count > 0 {
            self.revealed.insert(letter);
            if self.round == 4 && self.phase == GamePhase::Normal {
                self.final_spin.consonants_guessed = if self.final_spin.consonants_guessed < 255 {
                    self.final_spin.consonants_guessed + 1
                } else {
                    255
                };
            }
            let wedge = match &self.current_wedge {
                Some(w) => w.copy_value(),
                None => WedgeValue::FreePlay,
            };
            match wedge {
                WedgeValue::Cash(amount) => {
                    if self.active_idx < self.players.len() {
                        let a = self.active_idx;
                        let bank = self.players[a].round_bank;
                        self.players[a].round_bank = bank + amount * (count as i32);
                    }
                },
                WedgeValue::Prize { wedge_type, name } => {
                    let prize_value = match random_choice(&self.config.prize_replace_cash_values) {
                        Some(v) => v,
                        None => 1000,
                    };
                    if self.active_idx < self.players.len() {
                        let a = self.active_idx;
                        if !self.player_has_round_prize(a, &name) {
                            self.players[a].round_prizes.push(Prize { name: name.clone(), value: prize_value });
                        }
                    }
                    match self.last_spin_index {
                        Some(idx) => {
                            if idx < self.wheel_slots.len() {
                                let replacement = match random_choice(&self.config.prize_replace_cash_values) {
                                    Some(v) => v,
                                    None => 500,
                                };
                                self.wheel_slots.set(idx, WedgeValue::Cash(replacement));
                            }
                        },
                        None => {},
                    }
                },
                _ => {},
            }
            self.clear_turn_state();
            GuessResult::Correct(count)
        } else {
            let free_play = match &self.current_wedge {
                Some(WedgeValue::FreePlay) => true,
                _ => false,
            };
            if !free_play {
                self.advance_turn();
            }
            self.clear_turn_state();
            GuessResult::Incorrect
        }
    }

    /// Whether the player at `idx` already holds a round prize called `name`.
    fn player_has_round_prize(&self, idx: usize, name: &String) -> (r: bool)
        requires
            idx < self.players@.len(),
        ensures
            r == has_prize_named(self.players@[idx as int].round_prizes@, name@),
    {
        let prizes = &self.players[idx].round_prizes;
        let mut i: usize = 0;
        while i < prizes.len()
            invariant
                idx < self.players@.len(),
                *prizes == self.players@[idx as int].round_prizes,
                i <= prizes@.len(),
                forall|j: int| 0 <= j < i ==> #[trigger] prizes@[j].name@ != name@,
            decreases prizes@.len() - i,
        {
            if prizes[i].name == *name {
                assert(prizes@[i as int].name@ == name@);
                return true;
            }
            i += 1;
        }
        false
    }

    /// Buying this vowel would not overflow the active player's round bank.
    pub open spec fn vowel_cost_fits(self) -> bool {
        self.has_active() ==> i32::MIN <= self.players@[self.active_idx as int].round_bank
            - self.config.vowel_cost <= i32::MAX
    }

    /// `f` is `o` after buying the vowel `letter` with result `r`.
    pub open spec fn vowel_bought(o: Game, f: Game, letter: char, r: GuessResult) -> bool {
        &&& ({
            let l = upper(letter);
            let n = count_char(o.answer_upper(), l);
            let a = o.active_idx as int;
            if !spec_is_vowel(l) {
                r == GuessResult::InvalidLetter && f == o
            } else if o.used_letters@.contains(l) {
                r == GuessResult::AlreadyUsed && f == o
            } else if !o.has_active() {
                r == GuessResult::InvalidLetter && f == o
            } else if o.players@[a].round_bank < o.config.vowel_cost {
                r == GuessResult::NotEnoughMoney && f == o
            } else {
                let paid = o.players@.update(a, Player {
                    round_bank: (o.players@[a].round_bank - o.config.vowel_cost) as i32,
                    ..o.players@[a]
                });
                &&& f.players@ =~= paid
                &&& f.used_letters@ =~= o.used_letters@.insert(l)
                &&& if n > 0 {
                    &&& r == GuessResult::Correct(n as usize)
                    &&& f.revealed@ =~= o.revealed@.insert(l)
                    &&& f == (Game { players: f.players, used_letters: f.used_letters, revealed: f.revealed, ..o })
                } else {
                    &&& r == GuessResult::Incorrect
                    &&& f == (Game { players: f.players, used_letters: f.used_letters, ..o.turn_advanced() })
                }
            }
        })
    }

    /// Buy a vowel.
    ///
    /// A consonant is refused, as is a letter already used, a missing active
    /// player, or a round bank below the vowel cost. Otherwise the cost is paid,
    /// the letter becomes used, and it is revealed if the answer holds it; a miss
    /// passes the turn.
    pub fn buy_vowel(&mut self, letter: char) -> (r: GuessResult)
        requires
            old(self).vowel_cost_fits(),
        ensures
            Self::vowel_bought(*old(self), *final(self), letter, r),
    {
        let letter = to_ascii_upper(letter);
        if !Self::is_vowel(letter) {
            return GuessResult::InvalidLetter;
        }
        if self.used_letters.contains(&letter) {
            return GuessResult::AlreadyUsed;
        }
        if self.active_idx < self.players.len() {
            if self.players[self.active_idx].round_bank < self.config.vowel_cost {
                return GuessResult::NotEnoughMoney;
            }
        } else {
            return GuessResult::InvalidLetter;
        }
        let a = self.active_idx;
        let bank = self.players[a].round_bank;
        self.players[a].round_bank = bank - self.config.vowel_cost;
        self.used_letters.insert(letter);
        let count = self.count_in_answer(letter);
        if count > 0 {
            self.revealed.insert(letter);
            GuessResult::Correct(count)
        } else {
            self.advance_turn();
            GuessResult::Incorrect
        }
    }

    /// The attempt matches the answer once both are normalized.
    pub open spec fn solves(self, attempt: Seq<char>) -> bool {
        normalized(self.puzzle.answer@) == normalized(attempt)
    }

    /// Whether the puzzle is solved: every alphabetic character of the upper-cased
    /// answer is revealed.
    pub open spec fn spec_is_solved(self) -> bool {
        forall|i: int| 0 <= i < self.answer_upper().len() && spec_is_alphabetic(self.answer_upper()[i])
            ==> self.revealed@.contains(#[trigger] self.answer_upper()[i])
    }

    /// For an ASCII answer: every ASCII letter of the answer is revealed, upper-cased.
    pub open spec fn ascii_solved(self) -> bool {
        forall|i: int| 0 <= i < self.puzzle.answer@.len() && is_ascii_letter(self.puzzle.answer@[i])
            ==> self.revealed@.contains(#[trigger] upper(self.puzzle.answer@[i]))
    }

    /// Solving this puzzle now would not overflow the active player's total.
    pub open spec fn solve_award_fits(self, attempt: Seq<char>) -> bool {
        (self.solves(attempt) && self.has_active()) ==> i32::MIN <= self.players@[self.active_idx as int].total
            + self.players@[self.active_idx as int].round_bank <= i32::MAX
    }

    /// `f` is `o` after the solve attempt `attempt`, with result `r`.
    pub open spec fn attempt_solved(o: Game, f: Game, attempt: Seq<char>, r: bool) -> bool {
        &&& r == o.solves(attempt)
        &&& r ==> {
            let a = o.active_idx as int;
            &&& f.revealed@ =~= o.revealed@.union(answer_letters(o.puzzle.answer@))
            &&& all_ascii(o.puzzle.answer@) ==> answer_letters(o.puzzle.answer@)
                == ascii_answer_letters(o.puzzle.answer@)
            &&& if o.has_active() {
                let p = o.players@[a];
                let q = f.players@[a];
                &&& f.puzzle_solved_by == Some(p.name)
                &&& f.players@ =~= o.players@.update(a, Player {
                    total: (p.total + p.round_bank) as i32,
                    round_bank: 0,
                    prizes: q.prizes,
                    round_prizes: q.round_prizes,
                    ..p
                })
                &&& q.prizes@ =~= p.prizes@ + p.round_prizes@
                &&& q.round_prizes@.len() == 0
            } else {
                f.puzzle_solved_by == o.puzzle_solved_by && f.players == o.players
            }
            &&& f == (Game {
                revealed: f.revealed,
                puzzle_solved_by: f.puzzle_solved_by,
                players: f.players,
                ..o
            })
        }
        &&& !r ==> f == o.turn_advanced()
    }

    /// Attempt to solve the puzzle.
    ///
    /// A correct attempt (same letters and digits as the answer, ignoring case,
    /// spaces and punctuation) reveals every letter, records the active player as
    /// the solver and awards them the round; a wrong attempt passes the turn.
    pub fn solve(&mut self, attempt: &str) -> (r: bool)
        requires
            old(self).solve_award_fits(attempt@),
        ensures
            Self::attempt_solved(*old(self), *final(self), attempt@, r),
            all_ascii(old(self).puzzle.answer@) && all_ascii(attempt@)
                ==> (r <==> ascii_key(old(self).puzzle.answer@) == ascii_key(attempt@)),
    {
        let answer_norm = normalize_text(self.puzzle.answer.as_str());
        let attempt_norm = normalize_text(attempt);
        if chars_equal(&answer_norm, &attempt_norm) {
            self.reveal_all();
            if self.active_idx < self.players.len() {
                self.puzzle_solved_by = Some(self.players[self.active_idx].name.clone());
            }
            self.award_round_to_active();
            true
        } else {
            self.advance_turn();
            false
        }
    }

    /// `f` is `o` with every letter of the answer revealed.
    pub open spec fn all_revealed(o: Game, f: Game) -> bool {
        &&& f.revealed@ =~= o.revealed@.union(answer_letters(o.puzzle.answer@))
        &&& all_ascii(o.puzzle.answer@) ==> answer_letters(o.puzzle.answer@)
            == ascii_answer_letters(o.puzzle.answer@)
        &&& f == (Game { revealed: f.revealed, ..o })
    }

    /// Reveal every letter of the puzzle.
    pub fn reveal_all(&mut self)
        ensures
            Self::all_revealed(*old(self), *final(self)),
    {
        let chars = str_chars(self.puzzle.answer.as_str());
        let ghost s = chars@;
        let mut i: usize = 0;
        while i < chars.len()
            invariant
                s == chars@,
                s == old(self).puzzle.answer@,
                i <= s.len(),
                self.revealed@ == old(self).revealed@.union(answer_letters(s.subrange(0, i as int))),
                all_ascii(s) ==> answer_letters(s.subrange(0, i as int)) == ascii_answer_letters(s.subrange(0, i as int)),
                *self == (Game { revealed: self.revealed, ..*old(self) }),
            decreases s.len() - i,
        {
            let c = chars[i];
            let alpha = is_alphabetic(c);
            let ghost prev = s.subrange(0, i as int);
            let ghost next = s.subrange(0, i + 1);
            if alpha {
                self.revealed.insert(to_ascii_upper(c));
            }
            proof {
                assert(next =~= prev.push(c));
                assert forall|x: char| answer_letters(next).contains(x)
                    <==> answer_letters(prev).contains(x) || (alpha && x == upper(c)) by {
                    if answer_letters(next).contains(x) {
                        let k = choose|k: int| 0 <= k < next.len() && spec_is_alphabetic(next[k]) && #[trigger] upper(next[k]) == x;
                        if k < prev.len() {
                            assert(prev[k] == next[k]);
                        }
                    }
                    if answer_letters(prev).contains(x) {
                        let k = choose|k: int| 0 <= k < prev.len() && spec_is_alphabetic(prev[k]) && #[trigger] upper(prev[k]) == x;
                        assert(next[k] == prev[k]);
                    }
                    if alpha && x == upper(c) {
                        assert(next[i as int] == c);
                    }
                }
                assert(answer_letters(next) =~= answer_letters(prev).union(if alpha { set![upper(c)] } else { Set::empty() }));
                if all_ascii(s) {
                    assert((s[i as int] as u32) < 128);
                    assert forall|x: char| ascii_answer_letters(next).contains(x)
                        <==> ascii_answer_letters(prev).contains(x) || (is_ascii_letter(c) && x == upper(c)) by {
                        if ascii_answer_letters(next).contains(x) {
                            let k = choose|k: int| 0 <= k < next.len() && is_ascii_letter(next[k]) && #[trigger] upper(next[k]) == x;
                            if k < prev.len() {
                                assert(prev[k] == next[k]);
                            }
                        }
                        if ascii_answer_letters(prev).contains(x) {
                            let k = choose|k: int| 0 <= k < prev.len() && is_ascii_letter(prev[k]) && #[trigger] upper(prev[k]) == x;
                            assert(next[k] == prev[k]);
                        }
                        if is_ascii_letter(c) && x == upper(c) {
                            assert(next[i as int] == c);
                        }
                    }
                    assert(ascii_answer_letters(next) =~= answer_letters(next));
                }
                assert(self.revealed@ =~= old(self).revealed@.union(answer_letters(next)));
            }
            i += 1;
        }
        assert(s.subrange(0, s.len() as int) =~= s);
    }

    /// Whether the puzzle is solved: every alphabetic character of the upper-cased
    /// answer has been revealed.
    pub fn is_solved(&self) -> (r: bool)
        ensures
            r == self.spec_is_solved(),
            all_ascii(self.puzzle.answer@) ==> (r == self.ascii_solved()),
    {
        let upper_answer = to_uppercase(self.puzzle.answer.as_str());
        let chars = str_chars(upper_answer.as_str());
        let ghost u = chars@;
        let mut i: usize = 0;
        let mut all = true;
        while i < chars.len()
            invariant
                u == chars@,
                u == self.answer_upper(),
                i <= u.len(),
                all_ascii(self.puzzle.answer@) ==> u == Seq::new(self.puzzle.answer@.len(), |k: int| upper(self.puzzle.answer@[k])),
                all_ascii(self.puzzle.answer@) ==> forall|k: int| 0 <= k < i ==>
                    (spec_is_alphabetic(#[trigger] u[k]) <==> is_ascii_letter(u[k])),
                all == forall|k: int| 0 <= k < i && spec_is_alphabetic(u[k]) ==> self.revealed@.contains(#[trigger] u[k]),
            decreases u.len() - i,
        {
            let c = chars[i];
            proof {
                if all_ascii(self.puzzle.answer@) {
                    let a = self.puzzle.answer@[i as int];
                    assert((a as u32) < 128);
                    assert(u[i as int] == upper(a));
                }
            }
            let alpha = is_alphabetic(c);
            if alpha && !self.revealed.contains(&c) {
                all = false;
            }
            i += 1;
        }
        proof {
            if all_ascii(self.puzzle.answer@) {
                let s = self.puzzle.answer@;
                assert forall|k: int| 0 <= k < s.len() implies (is_ascii_letter(s[k]) <==> is_ascii_letter(#[trigger] upper(s[k]))) by {
                }
                if all {
                    assert forall|k: int| 0 <= k < s.len() && is_ascii_letter(s[k]) implies self.revealed@.contains(#[trigger] upper(s[k])) by {
                        assert(u[k] == upper(s[k]));
                    }
                }
                if !all {
                    let k = choose|k: int| 0 <= k < u.len() && spec_is_alphabetic(u[k]) && !self.revealed@.contains(#[trigger] u[k]);
                    assert(u[k] == upper(s[k]));
                    assert(is_ascii_letter(s[k]));
                }
            }
        }
        all
    }

    /// `self` is the game of a room named `room_name` as it is created: in a
    /// normal round (pregame is where a reset game waits for its start), with no
    /// players, the default puzzle and settings, and a freshly shuffled wheel.
    pub open spec fn is_new_game(self, room_name: Seq<char>) -> bool {
        &&& self.room_name@ == room_name
        &&& self.phase == GamePhase::Normal
        &&& self.round == 1
        &&& self.players@.len() == 0
        &&& self.active_idx == 0
        &&& self.puzzle.id == 0
        &&& self.puzzle.category@ == "Phrase"@
        &&& self.puzzle.answer@ == "JINGLE ALL THE WAY"@
        &&& self.revealed@ == Set::<char>::empty()
        &&& self.used_letters@ == Set::<char>::empty()
        &&& self.wheel_slots@.len() == WHEEL_SIZE
        &&& is_standard_layout(self.wheel_slots@)
        &&& self.wheel_index is None
        &&& self.last_spin_index is None
        &&& self.current_wedge is None
        &&& self.puzzle_solved_by is None
        &&& self.host_sid is None
        &&& self.config.vowel_cost == DEFAULT_VOWEL_COST
        &&& self.config.bonus_jackpot == DEFAULT_BONUS_JACKPOT
        &&& self.config.turn_timer_seconds == 10
        &&& self.config.buzz_timer_seconds == 5
        &&& self.active_pack_id is None
        &&& self.active_pack_name is None
        &&& self.tossup.is_fresh()
        &&& self.bonus_state.stage == BonusStage::Off
        &&& self.bonus_state.picks_consonants@.len() == 0
        &&& self.bonus_state.pick_vowel is None
        &&& self.final_spin.spin_value == 0
        &&& !self.final_spin.spin_done
        &&& 5 <= self.final_spin.trigger_after_consonants <= 10
        &&& self.final_spin.consonants_guessed == 0
        &&& self.game_over_state.winner_idx is None
        &&& self.game_over_state.reset_at_ms is None
        &&& self.turn_timer_end_ms is None
        &&& self.spin_history@.len() == 0
    }

    /// Create a room's game, ready for a normal round, with a freshly shuffled
    /// wheel.
    pub fn new(room_name: &str) -> (r: Self)
        ensures
            r.is_new_game(room_name@),
    {
        let wheel_slots = shuffled_standard_wheel();
        Game {
            room_name: room_name.to_owned(),
            phase: GamePhase::Normal,
            round: 1,
            players: Vec::new(),
            active_idx: 0,
            puzzle: Puzzle::default(),
            revealed: LetterSet::new(),
            used_letters: LetterSet::new(),
            wheel_slots,
            wheel_index: None,
            last_spin_index: None,
            current_wedge: None,
            puzzle_solved_by: None,
            host_sid: None,
            config: RoomConfig::default(),
            active_pack_id: None,
            active_pack_name: None,
            tossup: TossupState::default(),
            bonus_state: BonusState::default(),
            final_spin: FinalSpinState::default(),
            game_over_state: GameOverState::default(),
            turn_timer_end_ms: None,
            spin_history: VecDeque::with_capacity(8),
        }
    }

    /// `f` is `o` with `puzzle` started: letters, turn, solver, spin history,
    /// bonus consonant count and round banks cleared, and a reshuffled standard
    /// wheel.
    pub open spec fn puzzle_started(o: Game, f: Game, puzzle: Puzzle) -> bool {
        &&& f.puzzle == puzzle
        &&& f.revealed@ == Set::<char>::empty()
        &&& f.used_letters@ == Set::<char>::empty()
        &&& f.spin_history@.len() == 0
        &&& f.final_spin == (FinalSpinState { consonants_guessed: 0, ..o.final_spin })
        &&& f.wheel_slots@.len() == WHEEL_SIZE
        &&& is_standard_layout(f.wheel_slots@)
        &&& f.players@.len() == o.players@.len()
        &&& forall|j: int| 0 <= j < f.players@.len() ==> {
            let p = o.players@[j];
            let q = #[trigger] f.players@[j];
            &&& q == (Player { round_bank: 0, round_prizes: q.round_prizes, ..p })
            &&& q.round_prizes@.len() == 0
        }
        &&& f == (Game {
            puzzle: f.puzzle,
            revealed: f.revealed,
            used_letters: f.used_letters,
            last_spin_index: None,
            puzzle_solved_by: None,
            spin_history: f.spin_history,
            final_spin: f.final_spin,
            players: f.players,
            wheel_slots: f.wheel_slots,
            ..o.turn_cleared()
        })
    }

    /// Start a new puzzle: letters, turn, solver, spin history and round banks are
    /// reset, and the wheel is reshuffled.
    pub fn new_puzzle(&mut self, puzzle: Puzzle)
        ensures
            Game::puzzle_started(*old(self), *final(self), puzzle),
            final(self).puzzle == puzzle,
            final(self).revealed@ == Set::<char>::empty(),
            final(self).used_letters@ == Set::<char>::empty(),
            final(self).last_spin_index is None,
            final(self).puzzle_solved_by is None,
            final(self).spin_history@.len() == 0,
            final(self).final_spin == (FinalSpinState { consonants_guessed: 0, ..old(self).final_spin }),
            final(self).wheel_slots@.len() == WHEEL_SIZE,
            is_standard_layout(final(self).wheel_slots@),
            final(self).players@.len() == old(self).players@.len(),
            forall|j: int| 0 <= j < final(self).players@.len() ==> {
                let p = old(self).players@[j];
                let q = #[trigger] final(self).players@[j];
                &&& q == (Player { round_bank: 0, round_prizes: q.round_prizes, ..p })
                &&& q.round_prizes@.len() == 0
            },
            *final(self) == (Game {
                puzzle: final(self).puzzle,
                revealed: final(self).revealed,
                used_letters: final(self).used_letters,
                last_spin_index: None,
                puzzle_solved_by: None,
                spin_history: final(self).spin_history,
                final_spin: final(self).final_spin,
                players: final(self).players,
                wheel_slots: final(self).wheel_slots,
                ..old(self).turn_cleared()
            }),
    {
        self.puzzle = puzzle;
        self.revealed.clear();
        self.used_letters.clear();
        self.clear_turn_state();
        self.last_spin_index = None;
        self.puzzle_solved_by = None;
        self.spin_history.clear();
        self.final_spin.consonants_guessed = 0;
        let ghost pre = *self;
        let mut i: usize = 0;
        while i < self.players.len()
            invariant
                *self == (Game { players: self.players, ..pre }),
                pre.players == old(self).players,
                i <= self.players@.len(),
                self.players@.len() == old(self).players@.len(),
                forall|j: int| 0 <= j < i ==> {
                    let p = old(self).players@[j];
                    let q = #[trigger] self.players@[j];
                    &&& q == (Player { round_bank: 0, round_prizes: q.round_prizes, ..p })
                    &&& q.round_prizes@.len() == 0
                },
                forall|j: int| i <= j < self.players@.len() ==> #[trigger] self.players@[j] == old(self).players@[j],
            decreases self.players@.len() - i,
        {
            self.players[i].round_bank = 0;
            self.players[i].round_prizes.clear();
            i += 1;
        }
        self.wheel_slots = shuffled_standard_wheel();
    }

    /// Starts `puzzle` in a room that still shows the placeholder puzzle (id 0);
    /// a room with a puzzle of its own keeps it.
    pub fn set_initial_puzzle(&mut self, puzzle: Puzzle)
        ensures
            if old(self).puzzle.id == 0 {
                Game::puzzle_started(*old(self), *final(self), puzzle)
            } else {
                *final(self) == *old(self)
            },
    {
        if self.puzzle.id == 0 {
            self.new_puzzle(puzzle);
        }
    }

    /// `f` is `o` reset to pregame: scores, prizes, letters, the toss-up, the
    /// bonus round, the final spin and the game-over state cleared, the first
    /// player active, round one, and a reshuffled standard wheel.
    pub open spec fn game_reset(o: Game, f: Game) -> bool {
        &&& f.players@.len() == o.players@.len()
        &&& forall|j: int| 0 <= j < f.players@.len() ==> {
            let p = o.players@[j];
            let q = #[trigger] f.players@[j];
            &&& q == (Player { total: 0, prizes: q.prizes, round_bank: 0, round_prizes: q.round_prizes, ..p })
            &&& q.prizes@.len() == 0
            &&& q.round_prizes@.len() == 0
        }
        &&& f.active_idx == 0
        &&& f.round == 1
        &&& f.wheel_slots@.len() == WHEEL_SIZE
        &&& is_standard_layout(f.wheel_slots@)
        &&& f.revealed@ == Set::<char>::empty()
        &&& f.used_letters@ == Set::<char>::empty()
        &&& f.last_spin_index is None
        &&& f.spin_history@.len() == 0
        &&& f.phase == GamePhase::Pregame
        &&& f.tossup.is_fresh()
        &&& f.bonus_state.stage == BonusStage::Off
        &&& f.bonus_state.picks_consonants@.len() == 0
        &&& f.bonus_state.pick_vowel is None
        &&& f.bonus_state.end_ms is None
        &&& f.final_spin.spin_value == 0
        &&& !f.final_spin.spin_done
        &&& 5 <= f.final_spin.trigger_after_consonants <= 10
        &&& f.final_spin.consonants_guessed == 0
        &&& f.game_over_state.winner_idx is None
        &&& f.game_over_state.winner_name is None
        &&& f.game_over_state.winner_score == 0
        &&& !f.game_over_state.bonus_won
        &&& f.game_over_state.reset_at_ms is None
        &&& f == (Game {
            players: f.players,
            active_idx: 0,
            round: 1,
            wheel_slots: f.wheel_slots,
            revealed: f.revealed,
            used_letters: f.used_letters,
            last_spin_index: None,
            spin_history: f.spin_history,
            phase: GamePhase::Pregame,
            tossup: f.tossup,
            bonus_state: f.bonus_state,
            final_spin: f.final_spin,
            game_over_state: f.game_over_state,
            ..o.turn_cleared()
        })
    }

    /// Reset the game to pregame: scores, prizes, letters and the special rounds
    /// are cleared, the first player becomes active and the wheel is reshuffled.
    pub fn reset_game(&mut self)
        ensures
            Game::game_reset(*old(self), *final(self)),
            final(self).players@.len() == old(self).players@.len(),
            forall|j: int| 0 <= j < final(self).players@.len() ==> {
                let p = old(self).players@[j];
                let q = #[trigger] final(self).players@[j];
                &&& q == (Player { total: 0, prizes: q.prizes, round_bank: 0, round_prizes: q.round_prizes, ..p })
                &&& q.prizes@.len() == 0
                &&& q.round_prizes@.len() == 0
            },
            final(self).active_idx == 0,
            final(self).round == 1,
            final(self).wheel_slots@.len() == WHEEL_SIZE,
            is_standard_layout(final(self).wheel_slots@),
            final(self).revealed@ == Set::<char>::empty(),
            final(self).used_letters@ == Set::<char>::empty(),
            final(self).last_spin_index is None,
            final(self).spin_history@.len() == 0,
            final(self).phase == GamePhase::Pregame,
            final(self).tossup.is_fresh(),
            final(self).bonus_state.stage == BonusStage::Off,
            final(self).bonus_state.picks_consonants@.len() == 0,
            final(self).bonus_state.pick_vowel is None,
            final(self).bonus_state.end_ms is None,
            final(self).final_spin.spin_value == 0,
            !final(self).final_spin.spin_done,
            5 <= final(self).final_spin.trigger_after_consonants <= 10,
            final(self).final_spin.consonants_guessed == 0,
            final(self).game_over_state.winner_idx is None,
            final(self).game_over_state.winner_name is None,
            final(self).game_over_state.winner_score == 0,
            !final(self).game_over_state.bonus_won,
            final(self).game_over_state.reset_at_ms is None,
            *final(self) == (Game {
                players: final(self).players,
                active_idx: 0,
                round: 1,
                wheel_slots: final(self).wheel_slots,
                revealed: final(self).revealed,
                used_letters: final(self).used_letters,
                last_spin_index: None,
                spin_history: final(self).spin_history,
                phase: GamePhase::Pregame,
                tossup: final(self).tossup,
                bonus_state: final(self).bonus_state,
                final_spin: final(self).final_spin,
                game_over_state: final(self).game_over_state,
                ..old(self).turn_cleared()
            }),
    {
        let mut i: usize = 0;
        while i < self.players.len()
            invariant
                i <= self.players@.len(),
                self.players@.len() == old(self).players@.len(),
                forall|j: int| 0 <= j < i ==> {
                    let p = old(self).players@[j];
                    let q = #[trigger] self.players@[j];
                    &&& q == (Player { total: 0, prizes: q.prizes, round_bank: 0, round_prizes: q.round_prizes, ..p })
                    &&& q.prizes@.len() == 0
                    &&& q.round_prizes@.len() == 0
                },
                forall|j: int| i <= j < self.players@.len() ==> #[trigger] self.players@[j] == old(self).players@[j],
                *self == (Game { players: self.players, ..*old(self) }),
            decreases self.players@.len() - i,
        {
            self.players[i].total = 0;
            self.players[i].prizes.clear();
            self.players[i].round_bank = 0;
            self.players[i].round_prizes.clear();
            i += 1;
        }
        self.active_idx = 0;
        self.round = 1;
        self.wheel_slots = shuffled_standard_wheel();
        self.revealed.clear();
        self.used_letters.clear();
        self.clear_turn_state();
        self.last_spin_index = None;
        self.spin_history.clear();
        self.phase = GamePhase::Pregame;
        self.tossup = TossupState::default();
        self.bonus_state = BonusState::default();
        self.final_spin = FinalSpinState::default();
        self.game_over_state = GameOverState::default();
    }

    /// Start the game: from pregame, go to the toss-up. Anyone may call this.
    pub fn start_game(&mut self) -> (r: Result<(), &'static str>)
        ensures
            old(self).phase != GamePhase::Pregame ==> (r matches Err(e) && e@ == "Game is not in pregame phase"@
                && *final(self) == *old(self)),
            old(self).phase == GamePhase::Pregame ==> r is Ok && final(self).is_tossup_start_of(*old(self)),
    {
        if self.phase != GamePhase::Pregame {
            return Err("Game is not in pregame phase");
        }
        self.start_tossup();
        Ok(())
    }

    /// This state is a freshly started toss-up of `o`: letters cleared, turn
    /// cleared, and the reveal order a shuffle of the answer's letters.
    pub open spec fn is_tossup_start_of(self, o: Game) -> bool {
        &&& self.phase == GamePhase::Tossup
        &&& self.revealed@ == Set::<char>::empty()
        &&& self.used_letters@ == Set::<char>::empty()
        &&& self.tossup.controller_sid is None
        &&& self.tossup.locked_sids@ == Set::<Seq<char>>::empty()
        &&& self.tossup.allowed_player_idxs@.len() == 0
        &&& !self.tossup.is_tiebreaker
        &&& self.tossup.buzz_timer_end_ms is None
        &&& self.tossup.reveal_order@.to_multiset() == keep_alphabetic(o.answer_upper()).to_multiset()
        &&& self == (Game {
            phase: GamePhase::Tossup,
            tossup: self.tossup,
            revealed: self.revealed,
            used_letters: self.used_letters,
            ..o.turn_cleared()
        })
    }

    /// Start a toss-up.
    pub fn start_tossup(&mut self)
        ensures
            final(self).is_tossup_start_of(*old(self)),
    {
        self.phase = GamePhase::Tossup;
        self.tossup = TossupState::default();
        self.revealed.clear();
        self.used_letters.clear();
        self.clear_turn_state();
        self.build_tossup_reveal_order();
    }

    /// Build the toss-up reveal order: the answer's letters in random order.
    pub fn build_tossup_reveal_order(&mut self)
        ensures
            final(self).tossup.reveal_order@.to_multiset() == keep_alphabetic(old(self).answer_upper()).to_multiset(),
            final(self).tossup.reveal_order@.len() == keep_alphabetic(old(self).answer_upper()).len(),
            final(self).tossup.controller_sid == old(self).tossup.controller_sid,
            final(self).tossup.locked_sids == old(self).tossup.locked_sids,
            final(self).tossup.allowed_player_idxs == old(self).tossup.allowed_player_idxs,
            final(self).tossup.is_tiebreaker == old(self).tossup.is_tiebreaker,
            final(self).tossup.buzz_timer_end_ms == old(self).tossup.buzz_timer_end_ms,
            *final(self) == (Game { tossup: final(self).tossup, ..*old(self) }),
    {
        let upper_answer = to_uppercase(self.puzzle.answer.as_str());
        let chars = str_chars(upper_answer.as_str());
        let mut letters: Vec<char> = Vec::new();
        let mut i: usize = 0;
        while i < chars.len()
            invariant
                i <= chars@.len(),
                chars@ == old(self).answer_upper(),
                letters@ == keep_alphabetic(chars@.subrange(0, i as int)),
            decreases chars@.len() - i,
        {
            assert(chars@.subrange(0, i + 1).drop_last() =~= chars@.subrange(0, i as int));
            let c = chars[i];
            if is_alphabetic(c) {
                letters.push(c);
            }
            i += 1;
        }
        assert(chars@.subrange(0, chars@.len() as int) =~= chars@);
        shuffle_in_place(&mut letters);
        self.tossup.reveal_order = letters;
    }

    /// Reveal up to `n` more letters of the toss-up, taking them from the end of
    /// the reveal order; returns how many of them were not revealed before.
    pub fn tossup_reveal_step(&mut self, n: usize) -> (r: usize)
        ensures
            ({
                let order = old(self).tossup.reveal_order@;
                let k = if n < order.len() { n as int } else { order.len() as int };
                let taken = order.subrange(order.len() - k, order.len() as int);
                &&& final(self).tossup.reveal_order@ == order.subrange(0, order.len() - k)
                &&& final(self).revealed@ == old(self).revealed@.union(taken.to_set())
                &&& r == final(self).revealed@.len() - old(self).revealed@.len()
                &&& final(self).tossup.controller_sid == old(self).tossup.controller_sid
                &&& final(self).tossup.locked_sids == old(self).tossup.locked_sids
                &&& final(self).tossup.allowed_player_idxs == old(self).tossup.allowed_player_idxs
                &&& final(self).tossup.is_tiebreaker == old(self).tossup.is_tiebreaker
                &&& final(self).tossup.buzz_timer_end_ms == old(self).tossup.buzz_timer_end_ms
                &&& *final(self) == (Game { tossup: final(self).tossup, revealed: final(self).revealed, ..*old(self) })
            }),
    {
        let ghost order = self.tossup.reveal_order@;
        let ghost len = order.len();
        let mut newly_revealed: usize = 0;
        let mut step: usize = 0;
        let _ = self.revealed.len();
        while step < n
            invariant_except_break
                step <= n,
                step <= len,
            invariant
                order == old(self).tossup.reveal_order@,
                len == order.len(),
                self.tossup.reveal_order@.len() + step == len,
                self.tossup.reveal_order@ == order.subrange(0, len - step),
                self.revealed@ == old(self).revealed@.union(order.subrange(len - step, len as int).to_set()),
                self.revealed@.finite(),
                old(self).revealed@.finite(),
                newly_revealed == self.revealed@.len() - old(self).revealed@.len(),
                newly_revealed <= step,
                self.tossup.controller_sid == old(self).tossup.controller_sid,
                self.tossup.locked_sids == old(self).tossup.locked_sids,
                self.tossup.allowed_player_idxs == old(self).tossup.allowed_player_idxs,
                self.tossup.is_tiebreaker == old(self).tossup.is_tiebreaker,
                self.tossup.buzz_timer_end_ms == old(self).tossup.buzz_timer_end_ms,
                *self == (Game { tossup: self.tossup, revealed: self.revealed, ..*old(self) }),
            ensures
                step == (if n < len { n as int } else { len as int }),
            decreases n - step,
        {
            match self.tossup.reveal_order.pop() {
                Some(ch) => {
                    let ghost before = self.revealed@;
                    let fresh = self.revealed.insert(ch);
                    if fresh {
                        newly_revealed += 1;
                    }
                    proof {
                        let taken_before = order.subrange(len - step, len as int);
                        let taken_after = order.subrange(len - step - 1, len as int);
                        assert(ch == order[len - step - 1]);
                        assert(taken_after =~= seq![ch] + taken_before);
                        assert(taken_after.to_set() =~= taken_before.to_set().insert(ch)) by {
                            assert forall|x: char| taken_after.contains(x) <==> taken_before.contains(x) || x == ch by {
                                if taken_after.contains(x) {
                                    let j = choose|j: int| 0 <= j < taken_after.len() && taken_after[j] == x;
                                    if j > 0 {
                                        assert(taken_before[j - 1] == x);
                                    }
                                }
                                if taken_before.contains(x) {
                                    let j = choose|j: int| 0 <= j < taken_before.len() && taken_before[j] == x;
                                    assert(taken_after[j + 1] == x);
                                }
                                if x == ch {
                                    assert(taken_after[0] == x);
                                }
                            }
                        }
                        assert(self.revealed@ =~= old(self).revealed@.union(taken_after.to_set()));
                        assert(self.tossup.reveal_order@ =~= order.subrange(0, len - step - 1));
                    }
                },
                None => {
                    break;
                },
            }
            step += 1;
        }
        newly_revealed
    }

    /// The toss-up buzz timer end for a buzz at `now_ms`, when the timer is enabled.
    pub open spec fn buzz_deadline(self, now_ms: i64) -> Option<i64> {
        if self.config.buzz_timer_seconds > 0 {
            Some((now_ms + self.config.buzz_timer_seconds * 1000) as i64)
        } else {
            None
        }
    }

    /// Buzz in during a toss-up at time `now_ms`.
    ///
    /// Refused outside a toss-up, for a locked-out socket, when someone already
    /// holds control, for a socket without a player slot, and for a player not
    /// allowed in this toss-up. Otherwise the socket takes control, its player
    /// becomes active, and the buzz timer starts if one is configured.
    pub fn tossup_buzz_at(&mut self, socket_id: &str, now_ms: i64) -> (r: Result<usize, &'static str>)
        requires
            0 <= now_ms <= MAX_TIMESTAMP_MS,
        ensures
            buzz_outcome(*old(self), *final(self), socket_id@, r, now_ms),
    {
        if self.phase != GamePhase::Tossup {
            return Err("Not in toss-up mode");
        }
        if self.tossup.locked_sids.contains(socket_id) {
            return Err("You are locked out for this toss-up");
        }
        if self.tossup.controller_sid.is_some() {
            return Err("Someone else already buzzed in");
        }
        let player_idx = match self.player_idx_by_socket(socket_id) {
            Some(i) => i,
            None => {
                return Err("You must claim a player slot first");
            },
        };
        if self.tossup.allowed_player_idxs.len() > 0 && !contains_index(&self.tossup.allowed_player_idxs, player_idx) {
            return Err("You are not allowed to buzz in this round");
        }
        self.tossup.controller_sid = Some(socket_id.to_owned());
        self.active_idx = player_idx;
        if self.config.buzz_timer_seconds > 0 {
            self.tossup.buzz_timer_end_ms = Some(now_ms + (self.config.buzz_timer_seconds as i64) * 1000);
        }
        Ok(player_idx)
    }

    /// Buzz in during a toss-up, at the current time.
    pub fn tossup_buzz(&mut self, socket_id: &str) -> (r: Result<usize, &'static str>)
        ensures
            exists|now_ms: i64| 0 <= now_ms <= MAX_TIMESTAMP_MS
                && #[trigger] buzz_outcome(*old(self), *final(self), socket_id@, r, now_ms),
    {
        let now = now_millis();
        self.tossup_buzz_at(socket_id, now)
    }

    /// `f` is `o` after the toss-up controller answered wrongly.
    pub open spec fn tossup_missed(o: Game, f: Game) -> bool {
        &&& f.tossup.controller_sid is None
        &&& f.tossup.locked_sids@ =~= match o.tossup.controller_sid {
            Some(c) => o.tossup.locked_sids@.insert(c@),
            None => o.tossup.locked_sids@,
        }
        &&& f.tossup.buzz_timer_end_ms is None
        &&& f.tossup.reveal_order == o.tossup.reveal_order
        &&& f.tossup.allowed_player_idxs == o.tossup.allowed_player_idxs
        &&& f.tossup.is_tiebreaker == o.tossup.is_tiebreaker
        &&& f == (Game { tossup: f.tossup, ..o })
    }

    /// Lock out the controller after a wrong toss-up answer.
    pub fn tossup_wrong_answer(&mut self)
        ensures
            Self::tossup_missed(*old(self), *final(self)),
    {
        let controller = self.tossup.controller_sid.take();
        match controller {
            Some(sid) => {
                self.tossup.locked_sids.insert(sid);
            },
            None => {},
        }
        self.tossup.buzz_timer_end_ms = None;
    }

    /// Lock out the controller when the buzz timer runs out.
    pub fn tossup_buzz_timeout(&mut self)
        ensures
            Game::tossup_missed(*old(self), *final(self)),
            final(self).tossup.controller_sid is None,
            final(self).tossup.locked_sids@ == match old(self).tossup.controller_sid {
                Some(c) => old(self).tossup.locked_sids@.insert(c@),
                None => old(self).tossup.locked_sids@,
            },
            final(self).tossup.buzz_timer_end_ms is None,
            final(self).tossup.reveal_order == old(self).tossup.reveal_order,
            final(self).tossup.allowed_player_idxs == old(self).tossup.allowed_player_idxs,
            final(self).tossup.is_tiebreaker == old(self).tossup.is_tiebreaker,
            *final(self) == (Game { tossup: final(self).tossup, ..*old(self) }),
    {
        self.tossup_wrong_answer();
    }

    /// `f` is `o` after the active player answered the toss-up correctly.
    pub open spec fn tossup_won(o: Game, f: Game) -> bool {
        &&& o.has_active() ==> f.players@ =~= o.players@.update(
            o.active_idx as int,
            Player {
                total: (o.players@[o.active_idx as int].total + TOSSUP_AWARD) as i32,
                ..o.players@[o.active_idx as int]
            },
        )
        &&& !o.has_active() ==> f.players == o.players
        &&& f.revealed@ =~= o.revealed@.union(answer_letters(o.puzzle.answer@))
        &&& f.phase == GamePhase::Normal
        &&& f.round == 1
        &&& f.tossup.is_fresh()
        &&& f == (Game {
            players: f.players,
            revealed: f.revealed,
            phase: GamePhase::Normal,
            round: 1,
            tossup: f.tossup,
            ..o
        })
    }

    /// Award the toss-up to the active player and move on to round 1 of normal
    /// play; the winner stays active.
    pub fn tossup_correct_answer(&mut self)
        requires
            old(self).has_active() ==> old(self).players@[old(self).active_idx as int].total + TOSSUP_AWARD <= i32::MAX,
        ensures
            Self::tossup_won(*old(self), *final(self)),
    {
        if self.active_idx < self.players.len() {
            let a = self.active_idx;
            self.players[a].total = self.players[a].total + TOSSUP_AWARD;
        }
        self.reveal_all();
        self.tossup.buzz_timer_end_ms = None;
        self.phase = GamePhase::Normal;
        self.round = 1;
        self.tossup = TossupState::default();
    }

    /// Milliseconds left on the buzz timer at `now_ms`, if a timer is running and
    /// has not run out.
    pub open spec fn buzz_left_at(self, now_ms: i64) -> Option<i64> {
        match self.tossup.buzz_timer_end_ms {
            Some(end) => if end - now_ms > 0 { Some((end - now_ms) as i64) } else { None },
            None => None,
        }
    }

    /// A buzz timer is running and has run out at `now_ms`.
    pub open spec fn buzz_expired_at(self, now_ms: i64) -> bool {
        self.tossup.buzz_timer_end_ms matches Some(end) && now_ms >= end
    }

    /// Milliseconds left on the buzz timer at `now_ms`, if a timer is running and
    /// has not run out.
    pub fn buzz_timer_remaining_at(&self, now_ms: i64) -> (r: Option<i64>)
        requires
            0 <= now_ms <= MAX_TIMESTAMP_MS,
        ensures
            r == match self.tossup.buzz_timer_end_ms {
                Some(end) => if end - now_ms > 0 { Some((end - now_ms) as i64) } else { None },
                None => None,
            },
    {
        match self.tossup.buzz_timer_end_ms {
            Some(end) => {
                if end > now_ms {
                    Some(end - now_ms)
                } else {
                    None
                }
            },
            None => None,
        }
    }

    /// Milliseconds left on the buzz timer now, if it is running.
    pub fn buzz_timer_remaining(&self) -> (r: Option<i64>)
        ensures
            exists|now_ms: i64| 0 <= now_ms <= MAX_TIMESTAMP_MS && r == #[trigger] self.buzz_left_at(now_ms),
            r matches Some(ms) ==> ms > 0,
            r is Some ==> self.tossup.buzz_timer_end_ms is Some,
            self.tossup.buzz_timer_end_ms is None ==> r is None,
    {
        let now = now_millis();
        let r = self.buzz_timer_remaining_at(now);
        assert(r == self.buzz_left_at(now));
        r
    }

    /// Whether a buzz timer is running and has run out at `now_ms`.
    pub fn buzz_timer_expired_at(&self, now_ms: i64) -> (r: bool)
        ensures
            r == (self.tossup.buzz_timer_end_ms matches Some(end) && now_ms >= end),
    {
        match self.tossup.buzz_timer_end_ms {
            Some(end) => now_ms >= end,
            None => false,
        }
    }

    /// Whether a buzz timer is running and has run out now.
    pub fn buzz_timer_expired(&self) -> (r: bool)
        ensures
            exists|now_ms: i64| 0 <= now_ms <= MAX_TIMESTAMP_MS && r == #[trigger] self.buzz_expired_at(now_ms),
            r ==> self.tossup.buzz_timer_end_ms is Some,
    {
        let now = now_millis();
        let r = self.buzz_timer_expired_at(now);
        assert(r == self.buzz_expired_at(now));
        r
    }

    /// `f` is `o` after the toss-up controller guessed `letter` with result `r`.
    pub open spec fn tossup_letter_guessed(o: Game, f: Game, letter: char, r: GuessResult) -> bool {
        &&& ({
            let l = upper(letter);
            let n = count_char(o.answer_upper(), l);
            if !is_ascii_letter(l) {
                r == GuessResult::InvalidLetter && f == o
            } else if o.used_letters@.contains(l) {
                r == GuessResult::AlreadyUsed && f == o
            } else if n > 0 {
                &&& r == GuessResult::Correct(n as usize)
                &&& f.used_letters@ =~= o.used_letters@.insert(l)
                &&& f.revealed@ =~= o.revealed@.insert(l)
                &&& f == (Game { used_letters: f.used_letters, revealed: f.revealed, ..o })
            } else {
                &&& r == GuessResult::Incorrect
                &&& f.used_letters@ =~= o.used_letters@.insert(l)
                &&& f.tossup.controller_sid is None
                &&& f.tossup.locked_sids@ =~= match o.tossup.controller_sid {
                    Some(c) => o.tossup.locked_sids@.insert(c@),
                    None => o.tossup.locked_sids@,
                }
                &&& f.tossup.buzz_timer_end_ms is None
                &&& f.tossup.reveal_order == o.tossup.reveal_order
                &&& f.tossup.allowed_player_idxs == o.tossup.allowed_player_idxs
                &&& f.tossup.is_tiebreaker == o.tossup.is_tiebreaker
                &&& f == (Game { used_letters: f.used_letters, tossup: f.tossup, ..o })
            }
        })
    }

    /// Guess a letter during a toss-up: no spin needed, vowels are free. A miss
    /// locks the controller out.
    pub fn tossup_guess_letter(&mut self, letter: char) -> (r: GuessResult)
        ensures
            Self::tossup_letter_guessed(*old(self), *final(self), letter, r),
    {
        let letter = to_ascii_upper(letter);
        if !is_ascii_alpha(letter) {
            return GuessResult::InvalidLetter;
        }
        if self.used_letters.contains(&letter) {
            return GuessResult::AlreadyUsed;
        }
        self.used_letters.insert(letter);
        let count = self.count_in_answer(letter);
        if count > 0 {
            self.revealed.insert(letter);
            GuessResult::Correct(count)
        } else {
            self.tossup_wrong_answer();
            GuessResult::Incorrect
        }
    }

    /// `f` is `o` with the toss-up over and normal play resumed.
    pub open spec fn tossup_ended(o: Game, f: Game) -> bool {
        &&& f.phase == GamePhase::Normal
        &&& f.tossup.is_fresh()
        &&& f == (Game { phase: GamePhase::Normal, tossup: f.tossup, ..o })
    }

    /// End the toss-up and return to normal play.
    pub fn end_tossup(&mut self)
        ensures
            Self::tossup_ended(*old(self), *final(self)),
    {
        self.phase = GamePhase::Normal;
        self.tossup = TossupState::default();
    }

    /// Renumber the players by position.
    fn renumber_players(&mut self)
        ensures
            final(self).players@ == renumbered(old(self).players@),
            *final(self) == (Game { players: final(self).players, ..*old(self) }),
    {
        let mut i: usize = 0;
        while i < self.players.len()
            invariant
                i <= self.players@.len(),
                self.players@.len() == old(self).players@.len(),
                forall|j: int| 0 <= j < i ==> #[trigger] self.players@[j] == (Player { id: j as usize, ..old(self).players@[j] }),
                forall|j: int| i <= j < self.players@.len() ==> #[trigger] self.players@[j] == old(self).players@[j],
                *self == (Game { players: self.players, ..*old(self) }),
            decreases self.players@.len() - i,
        {
            self.players[i].id = i;
            i += 1;
        }
        assert(self.players@ =~= renumbered(old(self).players@));
    }

    /// `f` is `o` after the player on socket `sid` left, `r` being that player:
    /// the first player on that socket leaves when there is one.
    pub open spec fn left_by_socket(o: Game, f: Game, sid: Seq<char>, r: Option<Player>) -> bool {
        &&& (forall|j: int| 0 <= j < o.players@.len() ==> !has_socket(#[trigger] o.players@[j], sid))
            <==> r is None
        &&& r is None ==> f == o
        &&& r matches Some(p) ==> exists|i: int| {
            &&& 0 <= i < o.players@.len()
            &&& has_socket(#[trigger] o.players@[i], sid)
            &&& forall|j: int| 0 <= j < i ==> !has_socket(#[trigger] o.players@[j], sid)
            &&& p == o.players@[i]
            &&& f.players@ =~= renumbered(o.players@.remove(i))
            &&& f == (Game {
                players: f.players,
                active_idx: active_after_removal_by_socket(o.active_idx, (o.players@.len() - 1) as nat),
                ..o
            })
        }
        &&& r is None ==> f == o
    }

    /// Remove the first player connected through `socket_id`; the remaining
    /// players are renumbered.
    pub fn remove_player_by_socket(&mut self, socket_id: &str) -> (r: Option<Player>)
        ensures
            Self::left_by_socket(*old(self), *final(self), socket_id@, r),
    {
        match self.player_idx_by_socket(socket_id) {
            Some(pos) => {
                let player = self.players.remove(pos);
                self.renumber_players();
                if self.active_idx >= self.players.len() && self.players.len() > 0 {
                    self.active_idx = 0;
                }
                Some(player)
            },
            None => None,
        }
    }

    /// Remove the player at `idx`; the remaining players are renumbered and the
    /// active index follows its player.
    pub fn remove_player(&mut self, idx: usize) -> (r: Option<Player>)
        ensures
            idx >= old(self).players@.len() ==> r is None && *final(self) == *old(self),
            idx < old(self).players@.len() ==> {
                &&& r == Some(old(self).players@[idx as int])
                &&& final(self).players@ == renumbered(old(self).players@.remove(idx as int))
                &&& *final(self) == (Game {
                    players: final(self).players,
                    active_idx: active_after_removal(old(self).active_idx, idx, (old(self).players@.len() - 1) as nat),
                    ..*old(self)
                })
            },
    {
        if idx >= self.players.len() {
            return None;
        }
        let player = self.players.remove(idx);
        self.renumber_players();
        if self.active_idx >= self.players.len() && self.players.len() > 0 {
            self.active_idx = 0;
        } else if idx < self.active_idx {
            self.active_idx = self.active_idx - 1;
        }
        Some(player)
    }

    /// The socket `sid` is this game's host, controls its toss-up, or holds one of
    /// its player seats.
    pub open spec fn involves_socket(self, sid: Seq<char>) -> bool {
        ||| (self.host_sid matches Some(h) && h@ == sid)
        ||| (self.tossup.controller_sid matches Some(c) && c@ == sid)
        ||| exists|j: int| 0 <= j < self.players@.len() && has_socket(#[trigger] self.players@[j], sid)
    }

    /// Whether the socket `socket_id` is the host, controls the toss-up, or holds
    /// a player seat.
    pub fn involves_socket_exec(&self, socket_id: &str) -> (r: bool)
        ensures
            r == self.involves_socket(socket_id@),
    {
        if let Some(h) = &self.host_sid {
            if str_equal(h.as_str(), socket_id) {
                return true;
            }
        }
        if let Some(c) = &self.tossup.controller_sid {
            if str_equal(c.as_str(), socket_id) {
                return true;
            }
        }
        self.player_idx_by_socket(socket_id).is_some()
    }

    /// The player `p` once the socket `sid` has dropped at `now_secs`: a player
    /// on that socket keeps the seat, without a socket, disconnected since then.
    pub open spec fn player_after_drop(p: Player, sid: Seq<char>, now_secs: i64) -> Player {
        if has_socket(p, sid) {
            Player { socket_id: None, disconnected_at: Some(now_secs), ..p }
        } else {
            p
        }
    }

    /// `f` is `o` after the socket `sid` dropped at `now_secs`: it is no longer
    /// host, controller of the toss-up or locked out of it, and its players are
    /// marked disconnected; nothing else changes.
    pub open spec fn socket_dropped(o: Game, f: Game, sid: Seq<char>, now_secs: i64) -> bool {
        &&& f.host_sid == (if o.host_sid matches Some(h) && h@ == sid { None } else { o.host_sid })
        &&& f.tossup.controller_sid == (if o.tossup.controller_sid matches Some(c) && c@ == sid {
            None
        } else {
            o.tossup.controller_sid
        })
        &&& f.tossup.locked_sids@ == o.tossup.locked_sids@.remove(sid)
        &&& f.players@.len() == o.players@.len()
        &&& forall|j: int| 0 <= j < o.players@.len()
            ==> #[trigger] f.players@[j] == Self::player_after_drop(o.players@[j], sid, now_secs)
        &&& f == (Game {
            players: f.players,
            host_sid: f.host_sid,
            tossup: TossupState {
                controller_sid: f.tossup.controller_sid,
                locked_sids: f.tossup.locked_sids,
                ..o.tossup
            },
            ..o
        })
    }

    /// The socket `socket_id` dropped at `now_secs` (Unix seconds): it gives up
    /// the host role, control of the toss-up and any lock-out, and its players
    /// keep their seats, marked disconnected.
    pub fn disconnect_socket_at(&mut self, socket_id: &str, now_secs: i64)
        ensures
            Self::socket_dropped(*old(self), *final(self), socket_id@, now_secs),
    {
        let is_host = match &self.host_sid {
            Some(h) => str_equal(h.as_str(), socket_id),
            None => false,
        };
        if is_host {
            self.host_sid = None;
        }
        let controls = match &self.tossup.controller_sid {
            Some(c) => str_equal(c.as_str(), socket_id),
            None => false,
        };
        if controls {
            self.tossup.controller_sid = None;
        }
        let ghost mid = *self;
        let mut i: usize = 0;
        while i < self.players.len()
            invariant
                i <= self.players@.len(),
                self.players@.len() == mid.players@.len(),
                forall|j: int| 0 <= j < i ==> #[trigger] self.players@[j]
                    == Self::player_after_drop(mid.players@[j], socket_id@, now_secs),
                forall|j: int| i <= j < self.players@.len() ==> #[trigger] self.players@[j] == mid.players@[j],
                *self == (Game { players: self.players, ..mid }),
            decreases self.players@.len() - i,
        {
            let on_socket = match &self.players[i].socket_id {
                Some(s) => str_equal(s.as_str(), socket_id),
                None => false,
            };
            if on_socket {
                self.players[i].socket_id = None;
                self.players[i].disconnected_at = Some(now_secs);
            }
            i += 1;
        }
        self.tossup.locked_sids.remove(socket_id);
    }

    /// Every disconnect time is recent enough that its age can be computed.
    pub open spec fn disconnect_times_bounded(self) -> bool {
        forall|j: int| 0 <= j < self.players@.len() ==> ((#[trigger] self.players@[j]).disconnected_at matches Some(d)
            ==> d >= i64::MIN / 2)
    }

    /// The player at `j` has been disconnected for at least the configured
    /// timeout at `now_secs`.
    pub open spec fn timed_out(self, j: int, now_secs: i64) -> bool {
        self.players@[j].disconnected_at matches Some(d) && now_secs - d >= self.config.disconnect_timeout_secs
    }

    /// Remove players disconnected for at least the configured timeout at
    /// `now_secs` (nothing when the timeout is 0 or negative); returns the names of
    /// the removed players, from the last position to the first.
    pub fn cleanup_timed_out_players_at(&mut self, now_secs: i64) -> (r: Vec<String>)
        requires
            0 <= now_secs <= MAX_TIMESTAMP_MS / 1000,
            old(self).disconnect_times_bounded(),
        ensures
            cleanup_outcome(*old(self), *final(self), r@, now_secs),
    {
        let mut removed_names: Vec<String> = Vec::new();
        if self.config.disconnect_timeout_secs <= 0 {
            return removed_names;
        }
        let timeout = self.config.disconnect_timeout_secs;
        let mut timed_out: Vec<usize> = Vec::new();
        let mut i: usize = 0;
        while i < self.players.len()
            invariant
                i <= self.players@.len(),
                *self == *old(self),
                timeout == old(self).config.disconnect_timeout_secs,
                0 <= now_secs <= MAX_TIMESTAMP_MS / 1000,
                old(self).disconnect_times_bounded(),
                timed_out@ == timed_out_prefix(*old(self), now_secs, i as int),
            decreases self.players@.len() - i,
        {
            let hit = match self.players[i].disconnected_at {
                Some(d) => now_secs - d >= timeout,
                None => false,
            };
            if hit {
                timed_out.push(i);
            }
            i += 1;
        }
        let ghost idxs = timed_out@;
        let _ = self.players.len();
        let mut k: usize = timed_out.len();
        while k > 0
            invariant
                k <= idxs.len(),
                idxs == timed_out@,
                idxs == timed_out_indices(*old(self), now_secs),
                old(self).config.disconnect_timeout_secs > 0,
                old(self).players@.len() <= usize::MAX,
                removed_names@.len() == idxs.len() - k,
                forall|m: int| 0 <= m < removed_names@.len() ==> #[trigger] removed_names@[m]
                    == old(self).players@[idxs[idxs.len() - 1 - m] as int].name,
                self.players@ == if k == idxs.len() { old(self).players@ } else { renumbered(kept_upto(*old(self), now_secs, k as int)) },
                *self == (Game { players: self.players, active_idx: self.active_idx, ..*old(self) }),
            decreases k,
        {
            k -= 1;
            let idx = timed_out[k];
            proof {
                lemma_timed_out_prefix(*old(self), now_secs, old(self).players@.len() as int);
                lemma_kept_upto_shape(*old(self), now_secs, (k + 1) as int);
                let prev = kept_upto(*old(self), now_secs, (k + 1) as int);
                let b1 = if k + 1 < idxs.len() { idxs[k + 1] as int } else { old(self).players@.len() as int };
                assert(idx < b1) by {
                    if k + 1 < idxs.len() {
                        assert(idxs[k as int] < idxs[k + 1]);
                    }
                }
                assert(prev[idx as int] == old(self).players@[idx as int]);
                assert(kept_upto(*old(self), now_secs, k as int) == prev.remove(idx as int));
                lemma_renumbered_remove(prev, idx as int);
                if k + 1 == idxs.len() {
                    assert(prev == old(self).players@);
                }
            }
            let removed = self.remove_player(idx);
            match removed {
                Some(player) => {
                    removed_names.push(player.name);
                },
                None => {},
            }
        }
        proof {
            lemma_kept_upto_zero(*old(self), now_secs);
        }
        removed_names
    }

    /// Remove players disconnected for at least the configured timeout now;
    /// returns the names of the removed players.
    pub fn cleanup_timed_out_players(&mut self) -> (r: Vec<String>)
        requires
            old(self).disconnect_times_bounded(),
        ensures
            exists|now_secs: i64| 0 <= now_secs <= MAX_TIMESTAMP_MS / 1000
                && #[trigger] cleanup_outcome(*old(self), *final(self), r@, now_secs),
    {
        let now = crate::clock::now_secs();
        self.cleanup_timed_out_players_at(now)
    }

    // ========== FINAL SPIN ROUND ==========

    /// Whether the Final Spin should start: round 4, normal play, and enough
    /// consonants guessed.
    pub fn should_trigger_final_spin(&self) -> (r: bool)
        ensures
            r == (self.round == 4 && self.phase == GamePhase::Normal
                && self.final_spin.consonants_guessed >= self.final_spin.trigger_after_consonants),
    {
        self.round == 4 && self.phase == GamePhase::Normal
            && self.final_spin.consonants_guessed >= self.final_spin.trigger_after_consonants
    }

    /// Switch to the Final Spin; the spin itself is still to be done. A new
    /// threshold is drawn for a later game.
    pub fn trigger_final_spin(&mut self)
        ensures
            final(self).phase == GamePhase::Final,
            !final(self).final_spin.spin_done,
            final(self).final_spin.spin_value == 0,
            5 <= final(self).final_spin.trigger_after_consonants <= 10,
            final(self).final_spin.consonants_guessed == old(self).final_spin.consonants_guessed,
            *final(self) == (Game { phase: GamePhase::Final, final_spin: final(self).final_spin, ..old(self).turn_cleared() }),
    {
        self.phase = GamePhase::Final;
        self.final_spin.spin_done = false;
        self.final_spin.spin_value = 0;
        self.final_spin.trigger_after_consonants = random_final_spin_threshold();
        self.clear_turn_state();
    }

    /// Start the Final Spin round with a fresh round state.
    pub fn start_final_spin(&mut self)
        ensures
            final(self).phase == GamePhase::Final,
            !final(self).final_spin.spin_done,
            final(self).final_spin.spin_value == 0,
            5 <= final(self).final_spin.trigger_after_consonants <= 10,
            final(self).final_spin.consonants_guessed == 0,
            *final(self) == (Game { phase: GamePhase::Final, final_spin: final(self).final_spin, ..old(self).turn_cleared() }),
    {
        self.phase = GamePhase::Final;
        self.final_spin = FinalSpinState {
            spin_value: 0,
            spin_done: false,
            trigger_after_consonants: random_final_spin_threshold(),
            consonants_guessed: 0,
        };
        self.clear_turn_state();
    }

    /// Set the Final Spin value by hand.
    pub fn set_final_spin_value(&mut self, value: i32)
        ensures
            *final(self) == (Game {
                final_spin: FinalSpinState { spin_value: value, spin_done: true, ..old(self).final_spin },
                ..*old(self)
            }),
    {
        self.final_spin.spin_value = value;
        self.final_spin.spin_done = true;
    }

    /// A correct Final Spin consonant would not overflow the active player's bank.
    pub open spec fn final_spin_award_fits(self, letter: char) -> bool {
        let l = upper(letter);
        let n = count_char(self.answer_upper(), l);
        (self.final_spin.spin_done && !spec_is_vowel(l) && !self.used_letters@.contains(l) && n > 0)
            ==> {
            &&& self.final_spin.spin_value + FINAL_SPIN_LETTER_BONUS <= i32::MAX
            &&& self.has_active() ==> award_fits(
                self.players@[self.active_idx as int].round_bank,
                self.final_spin.spin_value + FINAL_SPIN_LETTER_BONUS,
                n,
            )
        }
    }

    /// The state after `n` correct consonants earn the Final Spin rate.
    pub open spec fn final_spin_paid(self, n: nat) -> Seq<Player> {
        if self.has_active() {
            let p = self.players@[self.active_idx as int];
            self.players@.update(self.active_idx as int, Player {
                round_bank: (p.round_bank + (self.final_spin.spin_value + FINAL_SPIN_LETTER_BONUS) * n) as i32,
                ..p
            })
        } else {
            self.players@
        }
    }

    /// Pay the active player for `count` letters at the Final Spin rate.
    fn pay_final_spin(&mut self, count: usize)
        requires
            old(self).final_spin.spin_value + FINAL_SPIN_LETTER_BONUS <= i32::MAX,
            old(self).has_active() ==> award_fits(
                old(self).players@[old(self).active_idx as int].round_bank,
                old(self).final_spin.spin_value + FINAL_SPIN_LETTER_BONUS,
                count as nat,
            ),
        ensures
            final(self).players@ == old(self).final_spin_paid(count as nat),
            *final(self) == (Game { players: final(self).players, ..*old(self) }),
    {
        let amount_per_letter = self.final_spin.spin_value + FINAL_SPIN_LETTER_BONUS;
        if self.active_idx < self.players.len() {
            let a = self.active_idx;
            let bank = self.players[a].round_bank;
            self.players[a].round_bank = bank + amount_per_letter * (count as i32);
        }
    }

    /// Guess a consonant in the Final Spin: each letter found earns the spin value
    /// plus the Final Spin bonus; a miss passes the turn.
    pub fn final_spin_guess_consonant(&mut self, letter: char) -> (r: GuessResult)
        requires
            old(self).final_spin_award_fits(letter),
        ensures
            ({
                let l = upper(letter);
                let n = count_char(old(self).answer_upper(), l);
                let o = *old(self);
                let f = *final(self);
                if !o.final_spin.spin_done {
                    r == GuessResult::NeedToSpin && f == o
                } else if spec_is_vowel(l) {
                    r == GuessResult::InvalidLetter && f == o
                } else if o.used_letters@.contains(l) {
                    r == GuessResult::AlreadyUsed && f == o
                } else if n > 0 {
                    &&& r == GuessResult::Correct(n as usize)
                    &&& f.used_letters@ == o.used_letters@.insert(l)
                    &&& f.revealed@ == o.revealed@.insert(l)
                    &&& f.players@ == o.final_spin_paid(n)
                    &&& f == (Game { used_letters: f.used_letters, revealed: f.revealed, players: f.players, ..o })
                } else {
                    &&& r == GuessResult::Incorrect
                    &&& f.used_letters@ == o.used_letters@.insert(l)
                    &&& f == (Game { used_letters: f.used_letters, ..o.turn_advanced() })
                }
            }),
    {
        let letter = to_ascii_upper(letter);
        if !self.final_spin.spin_done {
            return GuessResult::NeedToSpin;
        }
        if Self::is_vowel(letter) {
            return GuessResult::InvalidLetter;
        }
        if self.used_letters.contains(&letter) {
            return GuessResult::AlreadyUsed;
        }
        self.used_letters.insert(letter);
        let count = self.count_in_answer(letter);
        if count > 0 {
            self.revealed.insert(letter);
            self.pay_final_spin(count);
            GuessResult::Correct(count)
        } else {
            self.advance_turn();
            GuessResult::Incorrect
        }
    }

    /// Call a vowel in the Final Spin: vowels are free and earn nothing; a miss
    /// passes the turn.
    pub fn final_spin_buy_vowel(&mut self, letter: char) -> (r: GuessResult)
        ensures
            ({
                let l = upper(letter);
                let n = count_char(old(self).answer_upper(), l);
                let o = *old(self);
                let f = *final(self);
                if !o.final_spin.spin_done {
                    r == GuessResult::NeedToSpin && f == o
                } else if !spec_is_vowel(l) {
                    r == GuessResult::InvalidLetter && f == o
                } else if o.used_letters@.contains(l) {
                    r == GuessResult::AlreadyUsed && f == o
                } else if n > 0 {
                    &&& r == GuessResult::Correct(n as usize)
                    &&& f.used_letters@ == o.used_letters@.insert(l)
                    &&& f.revealed@ == o.revealed@.insert(l)
                    &&& f == (Game { used_letters: f.used_letters, revealed: f.revealed, ..o })
                } else {
                    &&& r == GuessResult::Incorrect
                    &&& f.used_letters@ == o.used_letters@.insert(l)
                    &&& f == (Game { used_letters: f.used_letters, ..o.turn_advanced() })
                }
            }),
    {
        let letter = to_ascii_upper(letter);
        if !self.final_spin.spin_done {
            return GuessResult::NeedToSpin;
        }
        if !Self::is_vowel(letter) {
            return GuessResult::InvalidLetter;
        }
        if self.used_letters.contains(&letter) {
            return GuessResult::AlreadyUsed;
        }
        self.used_letters.insert(letter);
        let count = self.count_in_answer(letter);
        if count > 0 {
            self.revealed.insert(letter);
            GuessResult::Correct(count)
        } else {
            self.advance_turn();
            GuessResult::Incorrect
        }
    }

    /// Call any letter in the Final Spin: consonants earn the Final Spin rate,
    /// vowels are free; a miss passes the turn.
    pub fn final_spin_guess_letter(&mut self, letter: char) -> (r: GuessResult)
        requires
            old(self).final_spin_award_fits(letter),
        ensures
            ({
                let l = upper(letter);
                let n = count_char(old(self).answer_upper(), l);
                let o = *old(self);
                let f = *final(self);
                if !o.final_spin.spin_done {
                    r == GuessResult::NeedToSpin && f == o
                } else if !is_ascii_letter(l) {
                    r == GuessResult::InvalidLetter && f == o
                } else if o.used_letters@.contains(l) {
                    r == GuessResult::AlreadyUsed && f == o
                } else if n > 0 {
                    &&& r == GuessResult::Correct(n as usize)
                    &&& f.used_letters@ == o.used_letters@.insert(l)
                    &&& f.revealed@ == o.revealed@.insert(l)
                    &&& f.players@ == if spec_is_vowel(l) { o.players@ } else { o.final_spin_paid(n) }
                    &&& f == (Game { used_letters: f.used_letters, revealed: f.revealed, players: f.players, ..o })
                } else {
                    &&& r == GuessResult::Incorrect
                    &&& f.used_letters@ == o.used_letters@.insert(l)
                    &&& f == (Game { used_letters: f.used_letters, ..o.turn_advanced() })
                }
            }),
    {
        let letter = to_ascii_upper(letter);
        if !self.final_spin.spin_done {
            return GuessResult::NeedToSpin;
        }
        if !is_ascii_alpha(letter) {
            return GuessResult::InvalidLetter;
        }
        if self.used_letters.contains(&letter) {
            return GuessResult::AlreadyUsed;
        }
        self.used_letters.insert(letter);
        let count = self.count_in_answer(letter);
        if count > 0 {
            self.revealed.insert(letter);
            if !Self::is_vowel(letter) {
                self.pay_final_spin(count);
            }
            GuessResult::Correct(count)
        } else {
            self.advance_turn();
            GuessResult::Incorrect
        }
    }

    /// End the Final Spin round and return to normal play.
    pub fn end_final_spin(&mut self)
        ensures
            final(self).phase == GamePhase::Normal,
            final(self).final_spin.spin_value == 0,
            !final(self).final_spin.spin_done,
            5 <= final(self).final_spin.trigger_after_consonants <= 10,
            final(self).final_spin.consonants_guessed == 0,
            *final(self) == (Game { phase: GamePhase::Normal, final_spin: final(self).final_spin, ..*old(self) }),
    {
        self.phase = GamePhase::Normal;
        self.final_spin = FinalSpinState::default();
    }

    // ========== BONUS ROUND ==========

    /// `f` is `o` with the bonus round started: picking, nothing picked, no timer,
    /// the turn cleared, and R, S, T, L, N, E revealed and used.
    pub open spec fn bonus_started(o: Game, f: Game) -> bool {
        &&& f.phase == GamePhase::Bonus
        &&& f.bonus_state.stage == BonusStage::Pick
        &&& f.bonus_state.picks_consonants@.len() == 0
        &&& f.bonus_state.pick_vowel is None
        &&& f.bonus_state.end_ms is None
        &&& f.revealed@ == o.revealed@.union(bonus_rstlne().to_set())
        &&& f.used_letters@ == o.used_letters@.union(bonus_rstlne().to_set())
        &&& f == (Game {
            phase: GamePhase::Bonus,
            bonus_state: f.bonus_state,
            revealed: f.revealed,
            used_letters: f.used_letters,
            ..o.turn_cleared()
        })
    }

    /// Start the bonus round in the pick stage, revealing R, S, T, L, N and E.
    pub fn start_bonus(&mut self)
        ensures
            Game::bonus_started(*old(self), *final(self)),
            final(self).phase == GamePhase::Bonus,
            final(self).bonus_state.stage == BonusStage::Pick,
            final(self).bonus_state.picks_consonants@.len() == 0,
            final(self).bonus_state.pick_vowel is None,
            final(self).bonus_state.end_ms is None,
            final(self).revealed@ == old(self).revealed@.union(bonus_rstlne().to_set()),
            final(self).used_letters@ == old(self).used_letters@.union(bonus_rstlne().to_set()),
            final(self).revealed@ == old(self).revealed@.union(set!['R', 'S', 'T', 'L', 'N', 'E']),
            final(self).used_letters@ == old(self).used_letters@.union(set!['R', 'S', 'T', 'L', 'N', 'E']),
            *final(self) == (Game {
                phase: GamePhase::Bonus,
                bonus_state: final(self).bonus_state,
                revealed: final(self).revealed,
                used_letters: final(self).used_letters,
                ..old(self).turn_cleared()
            }),
    {
        self.phase = GamePhase::Bonus;
        self.bonus_state = BonusState { stage: BonusStage::Pick, picks_consonants: Vec::new(), pick_vowel: None, end_ms: None };
        self.clear_turn_state();
        let letters: Vec<char> = vec!['R', 'S', 'T', 'L', 'N', 'E'];
        let mut i: usize = 0;
        while i < letters.len()
            invariant
                letters@ == bonus_rstlne(),
                i <= letters@.len(),
                self.revealed@ == old(self).revealed@.union(letters@.subrange(0, i as int).to_set()),
                self.used_letters@ == old(self).used_letters@.union(letters@.subrange(0, i as int).to_set()),
                *self == (Game {
                    phase: GamePhase::Bonus,
                    bonus_state: self.bonus_state,
                    revealed: self.revealed,
                    used_letters: self.used_letters,
                    ..old(self).turn_cleared()
                }),
                self.bonus_state.stage == BonusStage::Pick,
                self.bonus_state.picks_consonants@.len() == 0,
                self.bonus_state.pick_vowel is None,
                self.bonus_state.end_ms is None,
            decreases letters@.len() - i,
        {
            let ch = letters[i];
            self.revealed.insert(ch);
            self.used_letters.insert(ch);
            proof {
                let a = letters@.subrange(0, i as int);
                let b = letters@.subrange(0, i + 1);
                assert(b =~= a.push(ch));
                assert(b.to_set() =~= a.to_set().insert(ch)) by {
                    assert forall|x: char| b.contains(x) <==> a.contains(x) || x == ch by {
                        if b.contains(x) {
                            let j = choose|j: int| 0 <= j < b.len() && b[j] == x;
                            if j < a.len() {
                                assert(a[j] == x);
                            }
                        }
                        if a.contains(x) {
                            let j = choose|j: int| 0 <= j < a.len() && a[j] == x;
                            assert(b[j] == x);
                        }
                        if x == ch {
                            assert(b[i as int] == x);
                        }
                    }
                }
                assert(self.revealed@ =~= old(self).revealed@.union(b.to_set()));
                assert(self.used_letters@ =~= old(self).used_letters@.union(b.to_set()));
            }
            i += 1;
        }
        assert(letters@.subrange(0, 6) =~= letters@);
        proof {
            lemma_rstlne_set();
        }
    }

    /// Whether all bonus picks are made: three consonants and a vowel.
    pub fn bonus_all_picks_complete(&self) -> (r: bool)
        ensures
            r == self.picks_complete(),
    {
        self.bonus_state.picks_consonants.len() >= 3 && self.bonus_state.pick_vowel.is_some()
    }

    /// Three consonants and a vowel have been picked.
    pub open spec fn picks_complete(self) -> bool {
        self.bonus_state.picks_consonants@.len() >= 3 && self.bonus_state.pick_vowel is Some
    }

    /// The solve timer of the bonus round would end at `now_ms`.
    pub open spec fn bonus_deadline(self, now_ms: i64) -> i64 {
        (now_ms + self.config.bonus_seconds * 1000) as i64
    }

    /// This state has the bonus round running from `o` at `now_ms`: the picked
    /// letters revealed and the solve timer set.
    pub open spec fn bonus_running_from(self, o: Game, now_ms: i64) -> bool {
        let picked = o.bonus_state.picks_consonants@.to_set().union(match o.bonus_state.pick_vowel {
            Some(v) => set![v],
            None => Set::<char>::empty(),
        });
        &&& self.revealed@ == o.revealed@.union(picked)
        &&& self.bonus_state == (BonusState { stage: BonusStage::Running, end_ms: Some(o.bonus_deadline(now_ms)), ..o.bonus_state })
        &&& self == (Game { revealed: self.revealed, bonus_state: self.bonus_state, ..o })
    }

    /// Reveal the picks and start the bonus solve timer at `now_ms`.
    fn bonus_start_running(&mut self, now_ms: i64)
        requires
            0 <= now_ms <= MAX_TIMESTAMP_MS,
        ensures
            final(self).bonus_running_from(*old(self), now_ms),
    {
        let picks = self.bonus_state.picks_consonants.clone();
        let mut i: usize = 0;
        while i < picks.len()
            invariant
                picks@ == old(self).bonus_state.picks_consonants@,
                i <= picks@.len(),
                self.revealed@ == old(self).revealed@.union(picks@.subrange(0, i as int).to_set()),
                *self == (Game { revealed: self.revealed, ..*old(self) }),
            decreases picks@.len() - i,
        {
            let ch = picks[i];
            self.revealed.insert(ch);
            proof {
                let a = picks@.subrange(0, i as int);
                let b = picks@.subrange(0, i + 1);
                assert(b =~= a.push(ch));
                assert(b.to_set() =~= a.to_set().insert(ch)) by {
                    assert forall|x: char| b.contains(x) <==> a.contains(x) || x == ch by {
                        if b.contains(x) {
                            let j = choose|j: int| 0 <= j < b.len() && b[j] == x;
                            if j < a.len() {
                                assert(a[j] == x);
                            }
                        }
                        if a.contains(x) {
                            let j = choose|j: int| 0 <= j < a.len() && a[j] == x;
                            assert(b[j] == x);
                        }
                        if x == ch {
                            assert(b[i as int] == x);
                        }
                    }
                }
                assert(self.revealed@ =~= old(self).revealed@.union(b.to_set()));
            }
            i += 1;
        }
        assert(picks@.subrange(0, picks@.len() as int) =~= picks@);
        match self.bonus_state.pick_vowel {
            Some(v) => {
                self.revealed.insert(v);
            },
            None => {},
        }
        self.bonus_state.end_ms = Some(now_ms + (self.config.bonus_seconds as i64) * 1000);
        self.bonus_state.stage = BonusStage::Running;
        assert(self.revealed@ =~= old(self).revealed@.union(old(self).bonus_state.picks_consonants@.to_set().union(
            match old(self).bonus_state.pick_vowel {
                Some(v) => set![v],
                None => Set::<char>::empty(),
            },
        )));
    }

    /// The outcome of picking `letter` as a bonus consonant at `now_ms`.
    pub open spec fn pick_consonant_outcome(o: Game, f: Game, letter: char, r: Result<(), &'static str>, now_ms: i64) -> bool {
        let l = upper(letter);
        if o.phase != GamePhase::Bonus || o.bonus_state.stage != BonusStage::Pick {
            (r matches Err(e) && e@ == "Not in bonus pick phase"@) && f == o
        } else if spec_is_vowel(l) {
            (r matches Err(e) && e@ == "That's a vowel"@) && f == o
        } else if o.used_letters@.contains(l) {
            (r matches Err(e) && e@ == "Letter already used"@) && f == o
        } else if o.bonus_state.picks_consonants@.len() >= 3 {
            (r matches Err(e) && e@ == "Already picked 3 consonants"@) && f == o
        } else {
            let picked = Game {
                bonus_state: BonusState { picks_consonants: f.bonus_state.picks_consonants, ..o.bonus_state },
                used_letters: f.used_letters,
                ..o
            };
            &&& r is Ok
            &&& f.bonus_state.picks_consonants@ == o.bonus_state.picks_consonants@.push(l)
            &&& f.used_letters@ == o.used_letters@.insert(l)
            &&& if picked.picks_complete() {
                f.bonus_running_from(picked, now_ms)
            } else {
                f == picked
            }
        }
    }

    /// Pick a bonus-round consonant at `now_ms`; the solve timer starts once all
    /// picks are made.
    pub fn bonus_pick_consonant_at(&mut self, letter: char, now_ms: i64) -> (r: Result<(), &'static str>)
        requires
            0 <= now_ms <= MAX_TIMESTAMP_MS,
        ensures
            Self::pick_consonant_outcome(*old(self), *final(self), letter, r, now_ms),
    {
        let letter = to_ascii_upper(letter);
        if self.phase != GamePhase::Bonus || self.bonus_state.stage != BonusStage::Pick {
            return Err("Not in bonus pick phase");
        }
        if Self::is_vowel(letter) {
            return Err("That's a vowel");
        }
        if self.used_letters.contains(&letter) {
            return Err("Letter already used");
        }
        if self.bonus_state.picks_consonants.len() >= 3 {
            return Err("Already picked 3 consonants");
        }
        self.bonus_state.picks_consonants.push(letter);
        self.used_letters.insert(letter);
        if self.bonus_all_picks_complete() {
            self.bonus_start_running(now_ms);
        }
        Ok(())
    }

    /// Pick a bonus-round consonant now.
    pub fn bonus_pick_consonant(&mut self, letter: char) -> (r: Result<(), &'static str>)
        ensures
            exists|now_ms: i64| 0 <= now_ms <= MAX_TIMESTAMP_MS
                && #[trigger] Self::pick_consonant_outcome(*old(self), *final(self), letter, r, now_ms),
    {
        self.bonus_pick_consonant_at(letter, now_millis())
    }

    /// The outcome of picking `letter` as the bonus vowel at `now_ms`.
    pub open spec fn pick_vowel_outcome(o: Game, f: Game, letter: char, r: Result<(), &'static str>, now_ms: i64) -> bool {
        let l = upper(letter);
        if o.phase != GamePhase::Bonus || o.bonus_state.stage != BonusStage::Pick {
            (r matches Err(e) && e@ == "Not in bonus pick phase"@) && f == o
        } else if !spec_is_vowel(l) {
            (r matches Err(e) && e@ == "That's not a vowel"@) && f == o
        } else if o.used_letters@.contains(l) {
            (r matches Err(e) && e@ == "Letter already used"@) && f == o
        } else if o.bonus_state.pick_vowel is Some {
            (r matches Err(e) && e@ == "Already picked a vowel"@) && f == o
        } else {
            let picked = Game {
                bonus_state: BonusState { pick_vowel: Some(l), ..o.bonus_state },
                used_letters: f.used_letters,
                ..o
            };
            &&& r is Ok
            &&& f.used_letters@ == o.used_letters@.insert(l)
            &&& if picked.picks_complete() {
                f.bonus_running_from(picked, now_ms)
            } else {
                f == picked
            }
        }
    }

    /// Pick the bonus-round vowel at `now_ms`; the solve timer starts once all
    /// picks are made.
    pub fn bonus_pick_vowel_at(&mut self, letter: char, now_ms: i64) -> (r: Result<(), &'static str>)
        requires
            0 <= now_ms <= MAX_TIMESTAMP_MS,
        ensures
            Self::pick_vowel_outcome(*old(self), *final(self), letter, r, now_ms),
    {
        let letter = to_ascii_upper(letter);
        if self.phase != GamePhase::Bonus || self.bonus_state.stage != BonusStage::Pick {
            return Err("Not in bonus pick phase");
        }
        if !Self::is_vowel(letter) {
            return Err("That's not a vowel");
        }
        if self.used_letters.contains(&letter) {
            return Err("Letter already used");
        }
        if self.bonus_state.pick_vowel.is_some() {
            return Err("Already picked a vowel");
        }
        self.bonus_state.pick_vowel = Some(letter);
        self.used_letters.insert(letter);
        if self.bonus_all_picks_complete() {
            self.bonus_start_running(now_ms);
        }
        Ok(())
    }

    /// Pick the bonus-round vowel now.
    pub fn bonus_pick_vowel(&mut self, letter: char) -> (r: Result<(), &'static str>)
        ensures
            exists|now_ms: i64| 0 <= now_ms <= MAX_TIMESTAMP_MS
                && #[trigger] Self::pick_vowel_outcome(*old(self), *final(self), letter, r, now_ms),
    {
        self.bonus_pick_vowel_at(letter, now_millis())
    }

    /// Start the bonus solve at `now_ms` if the picks are complete and the round is
    /// still in the pick stage; otherwise nothing changes.
    pub fn bonus_start_solve_at(&mut self, now_ms: i64)
        requires
            0 <= now_ms <= MAX_TIMESTAMP_MS,
        ensures
            (old(self).bonus_state.stage == BonusStage::Pick && old(self).picks_complete())
                ==> final(self).bonus_running_from(*old(self), now_ms),
            !(old(self).bonus_state.stage == BonusStage::Pick && old(self).picks_complete())
                ==> *final(self) == *old(self),
    {
        if self.bonus_state.stage == BonusStage::Pick && self.bonus_all_picks_complete() {
            self.bonus_start_running(now_ms);
        }
    }

    /// Start the bonus solve now if the picks are complete.
    pub fn bonus_start_solve(&mut self)
        ensures
            (old(self).bonus_state.stage == BonusStage::Pick && old(self).picks_complete())
                ==> exists|now_ms: i64| 0 <= now_ms <= MAX_TIMESTAMP_MS
                && #[trigger] final(self).bonus_running_from(*old(self), now_ms),
            !(old(self).bonus_state.stage == BonusStage::Pick && old(self).picks_complete())
                ==> *final(self) == *old(self),
    {
        self.bonus_start_solve_at(now_millis())
    }

    /// Whole seconds left until `end` at `now_ms` (never negative), rounded down.
    pub open spec fn seconds_left_floor(end: i64, now_ms: i64) -> int {
        if end - now_ms > 0 { (end - now_ms) / 1000 } else { 0 }
    }

    /// Whole seconds left until `end` at `now_ms` (never negative), rounded up.
    pub open spec fn seconds_left_ceil(end: i64, now_ms: i64) -> int {
        if end - now_ms > 0 { (end - now_ms + 999) / 1000 } else { 0 }
    }

    /// Whole seconds, rounded down, left on the bonus timer at `now_ms`.
    pub fn bonus_remaining_seconds_at(&self, now_ms: i64) -> (r: Option<i32>)
        requires
            0 <= now_ms <= MAX_TIMESTAMP_MS,
        ensures
            r == match self.bonus_state.end_ms {
                Some(end) => Some(clamp_i32(Self::seconds_left_floor(end, now_ms))),
                None => None,
            },
    {
        match self.bonus_state.end_ms {
            Some(end) => Some(floor_seconds_left(end, now_ms)),
            None => None,
        }
    }

    /// Whole seconds left on the bonus timer now.
    pub fn bonus_remaining_seconds(&self) -> (r: Option<i32>)
        ensures
            r is Some <==> self.bonus_state.end_ms is Some,
            r matches Some(x) ==> x >= 0,
    {
        self.bonus_remaining_seconds_at(now_millis())
    }

    /// The bonus solve timer has run out at `now_ms`.
    pub open spec fn bonus_expired_at(self, now_ms: i64) -> bool {
        self.bonus_state.end_ms matches Some(end) && Self::seconds_left_floor(end, now_ms) <= 0
    }

    /// Whether the bonus timer has run out at `now_ms` (less than a second left).
    pub fn bonus_timer_expired_at(&self, now_ms: i64) -> (r: bool)
        requires
            0 <= now_ms <= MAX_TIMESTAMP_MS,
        ensures
            r == (self.bonus_state.end_ms matches Some(end) && Self::seconds_left_floor(end, now_ms) <= 0),
    {
        match self.bonus_remaining_seconds_at(now_ms) {
            Some(remaining) => remaining <= 0,
            None => false,
        }
    }

    /// Whether the bonus timer has run out now.
    pub fn bonus_timer_expired(&self) -> (r: bool)
        ensures
            exists|now_ms: i64| 0 <= now_ms <= MAX_TIMESTAMP_MS && r == #[trigger] self.bonus_expired_at(now_ms),
            r ==> self.bonus_state.end_ms is Some,
    {
        let now = now_millis();
        let r = self.bonus_timer_expired_at(now);
        assert(r == self.bonus_expired_at(now));
        r
    }

    /// Whole seconds, rounded down, left on the turn timer at `now_ms`.
    pub fn turn_timer_remaining_seconds_at(&self, now_ms: i64) -> (r: Option<i32>)
        requires
            0 <= now_ms <= MAX_TIMESTAMP_MS,
        ensures
            r == match self.turn_timer_end_ms {
                Some(end) => Some(clamp_i32(Self::seconds_left_floor(end, now_ms))),
                None => None,
            },
    {
        match self.turn_timer_end_ms {
            Some(end) => Some(floor_seconds_left(end, now_ms)),
            None => None,
        }
    }

    /// Whole seconds left on the turn timer now.
    pub fn turn_timer_remaining_seconds(&self) -> (r: Option<i32>)
        ensures
            r is Some <==> self.turn_timer_end_ms is Some,
            r matches Some(x) ==> x >= 0,
    {
        self.turn_timer_remaining_seconds_at(now_millis())
    }

    /// The turn timer has run out at `now_ms`.
    pub open spec fn turn_expired_at(self, now_ms: i64) -> bool {
        self.turn_timer_end_ms matches Some(end) && Self::seconds_left_floor(end, now_ms) <= 0
    }

    /// Whether the turn timer has run out at `now_ms` (less than a second left).
    pub fn turn_timer_expired_at(&self, now_ms: i64) -> (r: bool)
        requires
            0 <= now_ms <= MAX_TIMESTAMP_MS,
        ensures
            r == (self.turn_timer_end_ms matches Some(end) && Self::seconds_left_floor(end, now_ms) <= 0),
    {
        match self.turn_timer_remaining_seconds_at(now_ms) {
            Some(remaining) => remaining <= 0,
            None => false,
        }
    }

    /// Whether the turn timer has run out now.
    pub fn turn_timer_expired(&self) -> (r: bool)
        ensures
            exists|now_ms: i64| 0 <= now_ms <= MAX_TIMESTAMP_MS && r == #[trigger] self.turn_expired_at(now_ms),
            r ==> self.turn_timer_end_ms is Some,
    {
        let now = now_millis();
        let r = self.turn_timer_expired_at(now);
        assert(r == self.turn_expired_at(now));
        r
    }

    /// Start the turn timer at `now_ms`, when timers are enabled and a wedge is
    /// showing.
    pub fn start_turn_timer_at(&mut self, now_ms: i64)
        requires
            0 <= now_ms <= MAX_TIMESTAMP_MS,
        ensures
            *final(self) == if old(self).config.turn_timer_seconds > 0 && old(self).current_wedge is Some {
                Game {
                    turn_timer_end_ms: Some((now_ms + old(self).config.turn_timer_seconds * 1000) as i64),
                    ..*old(self)
                }
            } else {
                *old(self)
            },
    {
        if self.config.turn_timer_seconds > 0 && self.current_wedge.is_some() {
            self.turn_timer_end_ms = Some(now_ms + (self.config.turn_timer_seconds as i64) * 1000);
        }
    }

    /// Start the turn timer now.
    pub fn start_turn_timer(&mut self)
        ensures
            !(old(self).config.turn_timer_seconds > 0 && old(self).current_wedge is Some) ==> *final(self) == *old(self),
            (old(self).config.turn_timer_seconds > 0 && old(self).current_wedge is Some)
                ==> *final(self) == (Game { turn_timer_end_ms: final(self).turn_timer_end_ms, ..*old(self) })
                && final(self).turn_timer_end_ms is Some,
    {
        self.start_turn_timer_at(now_millis())
    }

    /// Clear the turn timer.
    pub fn clear_turn_timer(&mut self)
        ensures
            *final(self) == (Game { turn_timer_end_ms: None, ..*old(self) }),
    {
        self.turn_timer_end_ms = None;
    }

    /// The winner of the game: the last player with the highest total, with that
    /// total; none when there are no players.
    pub open spec fn winner_is(self, idx: usize) -> bool {
        &&& idx < self.players@.len()
        &&& forall|j: int| 0 <= j < self.players@.len() ==> #[trigger] self.players@[j].total <= self.players@[idx as int].total
        &&& forall|j: int| idx < j < self.players@.len() ==> #[trigger] self.players@[j].total < self.players@[idx as int].total
    }

    /// `f` is `o` with the bonus round ended at `now_ms`: the game is over, the
    /// player with the highest total (the last of them, among equals) wins, the
    /// bonus counts as won when its puzzle was solved, and the game-over display
    /// runs from `now_ms`.
    pub open spec fn bonus_ended(o: Game, f: Game, now_ms: i64) -> bool {
        let go = f.game_over_state;
        &&& go.bonus_won == (o.bonus_state.stage == BonusStage::Done && o.puzzle_solved_by is Some)
        &&& go.reset_at_ms == Some((now_ms + GAME_OVER_DISPLAY_SECONDS * 1000) as i64)
        &&& if o.players@.len() == 0 {
            go.winner_idx is None && go.winner_name is None && go.winner_score == 0
        } else {
            go.winner_idx matches Some(w) && o.winner_is(w)
                && go.winner_name == Some(o.players@[w as int].name)
                && go.winner_score == o.players@[w as int].total
        }
        &&& f == (Game {
            game_over_state: go,
            phase: GamePhase::GameOver,
            bonus_state: BonusState { stage: BonusStage::Done, ..o.bonus_state },
            ..o
        })
    }

    /// End the bonus round at `now_ms`: record the winner (the last player with the
    /// highest total) and whether the bonus was won, and show the game-over screen
    /// for a while.
    pub fn end_bonus_at(&mut self, now_ms: i64)
        requires
            0 <= now_ms <= MAX_TIMESTAMP_MS,
        ensures
            Game::bonus_ended(*old(self), *final(self), now_ms),
            ({
                let o = *old(self);
                let f = *final(self);
                let go = f.game_over_state;
                &&& go.bonus_won == (o.bonus_state.stage == BonusStage::Done && o.puzzle_solved_by is Some)
                &&& go.reset_at_ms == Some((now_ms + GAME_OVER_DISPLAY_SECONDS * 1000) as i64)
                &&& if o.players@.len() == 0 {
                    go.winner_idx is None && go.winner_name is None && go.winner_score == 0
                } else {
                    go.winner_idx matches Some(w) && o.winner_is(w)
                        && go.winner_name == Some(o.players@[w as int].name)
                        && go.winner_score == o.players@[w as int].total
                }
                &&& f == (Game {
                    game_over_state: go,
                    phase: GamePhase::GameOver,
                    bonus_state: BonusState { stage: BonusStage::Done, ..o.bonus_state },
                    ..o
                })
            }),
    {
        let bonus_won = self.bonus_state.stage == BonusStage::Done && self.puzzle_solved_by.is_some();
        let mut winner: Option<usize> = None;
        let mut i: usize = 0;
        while i < self.players.len()
            invariant
                i <= self.players@.len(),
                i == 0 <==> winner is None,
                winner matches Some(w) ==> w < i
                    && (forall|j: int| 0 <= j < i ==> #[trigger] self.players@[j].total <= self.players@[w as int].total)
                    && (forall|j: int| w < j < i ==> #[trigger] self.players@[j].total < self.players@[w as int].total),
            decreases self.players@.len() - i,
        {
            match winner {
                Some(w) => {
                    if self.players[i].total >= self.players[w].total {
                        winner = Some(i);
                    }
                },
                None => {
                    winner = Some(i);
                },
            }
            i += 1;
        }
        let (winner_idx, winner_name, winner_score) = match winner {
            Some(w) => (Some(w), Some(self.players[w].name.clone()), self.players[w].total),
            None => (None, None, 0),
        };
        let reset_at = now_ms + (GAME_OVER_DISPLAY_SECONDS as i64) * 1000;
        self.game_over_state = GameOverState { winner_idx, winner_name, winner_score, bonus_won, reset_at_ms: Some(reset_at) };
        self.phase = GamePhase::GameOver;
        self.bonus_state.stage = BonusStage::Done;
    }

    /// End the bonus round now.
    pub fn end_bonus(&mut self)
        ensures
            final(self).phase == GamePhase::GameOver,
            final(self).bonus_state.stage == BonusStage::Done,
            final(self).game_over_state.bonus_won == (old(self).bonus_state.stage == BonusStage::Done
                && old(self).puzzle_solved_by is Some),
            final(self).game_over_state.reset_at_ms is Some,
            old(self).players@.len() == 0 ==> final(self).game_over_state.winner_idx is None,
            final(self).game_over_state.winner_idx matches Some(w) ==> old(self).winner_is(w),
    {
        self.end_bonus_at(now_millis())
    }

    /// The game is over and its game-over screen has been shown long enough at
    /// `now_ms`.
    pub open spec fn game_over_due_at(self, now_ms: i64) -> bool {
        self.phase == GamePhase::GameOver && (self.game_over_state.reset_at_ms matches Some(t) && now_ms >= t)
    }

    /// Whether the game-over screen has been shown long enough at `now_ms`.
    pub fn game_over_should_reset_at(&self, now_ms: i64) -> (r: bool)
        ensures
            r == (self.phase == GamePhase::GameOver && (self.game_over_state.reset_at_ms matches Some(t) && now_ms >= t)),
    {
        if self.phase != GamePhase::GameOver {
            return false;
        }
        match self.game_over_state.reset_at_ms {
            Some(t) => now_ms >= t,
            None => false,
        }
    }

    /// Whether the game-over screen has been shown long enough now.
    pub fn game_over_should_reset(&self) -> (r: bool)
        ensures
            exists|now_ms: i64| 0 <= now_ms <= MAX_TIMESTAMP_MS && r == #[trigger] self.game_over_due_at(now_ms),
            r ==> self.phase == GamePhase::GameOver && self.game_over_state.reset_at_ms is Some,
    {
        let now = now_millis();
        let r = self.game_over_should_reset_at(now);
        assert(r == self.game_over_due_at(now));
        r
    }

    /// Whole seconds, rounded up, until the game resets, during game over.
    pub fn game_over_remaining_seconds_at(&self, now_ms: i64) -> (r: Option<i32>)
        requires
            0 <= now_ms <= MAX_TIMESTAMP_MS,
        ensures
            r == if self.phase != GamePhase::GameOver {
                None
            } else {
                match self.game_over_state.reset_at_ms {
                    Some(t) => Some(clamp_i32(Self::seconds_left_ceil(t, now_ms))),
                    None => None,
                }
            },
    {
        if self.phase != GamePhase::GameOver {
            return None;
        }
        match self.game_over_state.reset_at_ms {
            Some(t) => Some(ceil_seconds_left(t, now_ms)),
            None => None,
        }
    }

    /// Whole seconds, rounded up, until the game resets now.
    pub fn game_over_remaining_seconds(&self) -> (r: Option<i32>)
        ensures
            r is Some <==> (self.phase == GamePhase::GameOver && self.game_over_state.reset_at_ms is Some),
            r matches Some(x) ==> x >= 0,
    {
        self.game_over_remaining_seconds_at(now_millis())
    }

    /// Solving the bonus puzzle now would not overflow the active player's total.
    pub open spec fn bonus_award_fits(self, attempt: Seq<char>) -> bool {
        &&& self.solve_award_fits(attempt)
        &&& (self.solves(attempt) && self.has_active()) ==> i32::MIN <= self.players@[self.active_idx as int].total
            + self.players@[self.active_idx as int].round_bank + self.config.bonus_jackpot <= i32::MAX
    }

    /// `f` is `o` after the bonus-round solve attempt `attempt`, with result `r`.
    pub open spec fn bonus_attempt_solved(o: Game, f: Game, attempt: Seq<char>, r: bool) -> bool {
        &&& r == o.solves(attempt)
        &&& r ==> {
            let a = o.active_idx as int;
            &&& f.revealed@ =~= o.revealed@.union(answer_letters(o.puzzle.answer@))
            &&& f.bonus_state == (BonusState { stage: BonusStage::Done, ..o.bonus_state })
            &&& if o.has_active() {
                let p = o.players@[a];
                let q = f.players@[a];
                &&& f.puzzle_solved_by == Some(p.name)
                &&& f.players@ =~= o.players@.update(a, Player {
                    total: (p.total + p.round_bank + o.config.bonus_jackpot) as i32,
                    round_bank: 0,
                    prizes: q.prizes,
                    round_prizes: q.round_prizes,
                    ..p
                })
                &&& q.prizes@ =~= p.prizes@ + p.round_prizes@
                &&& q.round_prizes@.len() == 0
            } else {
                f.puzzle_solved_by == o.puzzle_solved_by && f.players == o.players
            }
            &&& f == (Game {
                revealed: f.revealed,
                puzzle_solved_by: f.puzzle_solved_by,
                players: f.players,
                bonus_state: f.bonus_state,
                ..o
            })
        }
        &&& !r ==> f == o.turn_advanced()
    }

    /// Solve in the bonus round: a correct attempt is solved as usual and also
    /// wins the jackpot; the bonus round is then done.
    #[verifier::rlimit(40)]
    pub fn bonus_solve(&mut self, attempt: &str) -> (r: bool)
        requires
            old(self).bonus_award_fits(attempt@),
        ensures
            Self::bonus_attempt_solved(*old(self), *final(self), attempt@, r),
    {
        if self.solve(attempt) {
            if self.active_idx < self.players.len() {
                let a = self.active_idx;
                self.players[a].total = self.players[a].total + self.config.bonus_jackpot;
            }
            self.bonus_state.stage = BonusStage::Done;
            true
        } else {
            false
        }
    }

    // ========== SPINNING ==========

    /// Count how often `raw` appears in the spin history.
    fn count_exact_hits(&self, raw: usize) -> (r: usize)
        ensures
            r == exact_hits(self.spin_history@, raw),
    {
        let h = &self.spin_history;
        let mut n: usize = 0;
        let mut i: usize = 0;
        while i < h.len()
            invariant
                i <= h@.len(),
                n <= i,
                *h == self.spin_history,
                n == exact_hits(h@.subrange(0, i as int), raw),
            decreases h@.len() - i,
        {
            assert(h@.subrange(0, i + 1).drop_last() =~= h@.subrange(0, i as int));
            if h[i] == raw {
                n += 1;
            }
            i += 1;
        }
        assert(h@.subrange(0, h@.len() as int) =~= h@);
        n
    }

    /// Count how many of the last three spins landed on or next to `raw`.
    fn count_adjacent_hits(&self, raw: usize) -> (r: usize)
        ensures
            r == adjacent_hits(self.spin_history@, raw, self.wheel_slots@.len()),
    {
        let h = &self.spin_history;
        let n_slots = self.wheel_slots.len();
        let start: usize = if h.len() >= 3 { h.len() - 3 } else { 0 };
        let ghost recent = h@.subrange(start as int, h@.len() as int);
        let mut n: usize = 0;
        let mut i: usize = start;
        while i < h.len()
            invariant
                start <= i <= h@.len(),
                *h == self.spin_history,
                n_slots == self.wheel_slots@.len(),
                recent == h@.subrange(start as int, h@.len() as int),
                n <= i - start,
                n == recent_adjacent(h@.subrange(start as int, i as int), raw, n_slots as nat),
            decreases h@.len() - i,
        {
            assert(h@.subrange(start as int, i + 1).drop_last() =~= h@.subrange(start as int, i as int));
            let idx = h[i];
            let diff = if raw >= idx { raw - idx } else { idx - raw };
            if diff <= 1 || (n_slots >= 1 && diff >= n_slots - 1) || n_slots == 0 {
                n += 1;
            }
            i += 1;
        }
        n
    }

    /// A landing at `raw` may be nudged, which needs room for the nudge.
    pub open spec fn nudge_possible(self, raw: usize) -> bool {
        nudge_tenths(self.spin_history@, raw, self.wheel_slots@.len()) > 0
    }

    /// Where a spin that landed at `raw_idx` ends up: usually `raw_idx`, but a
    /// position hit repeatedly or surrounded by recent hits may be nudged at least
    /// three places further.
    fn apply_anti_clustering(&self, raw_idx: usize) -> (r: usize)
        requires
            raw_idx < self.wheel_slots@.len(),
            self.nudge_possible(raw_idx) ==> self.wheel_slots@.len() >= 6,
        ensures
            r < self.wheel_slots@.len(),
            nudged_to(self.spin_history@, raw_idx, self.wheel_slots@.len(), r),
    {
        let num_slots = self.wheel_slots.len();
        let exact = self.count_exact_hits(raw_idx);
        let adjacent_count = self.count_adjacent_hits(raw_idx);
        let should_adjust = if exact >= 2 {
            random_ratio(7, 10)
        } else if adjacent_count >= 2 {
            random_ratio(4, 10)
        } else {
            false
        };
        if should_adjust {
            let offset = random_in_range(3, num_slots - 2);
            let r = if raw_idx >= num_slots - offset { raw_idx - (num_slots - offset) } else { raw_idx + offset };
            assert(r == (raw_idx + offset) % (num_slots as int)) by {
                let m = num_slots as int;
                let x = raw_idx + offset;
                if raw_idx >= num_slots - offset {
                    vstd::arithmetic::div_mod::lemma_fundamental_div_mod_converse(x, m, 1, x - m);
                } else {
                    vstd::arithmetic::div_mod::lemma_small_mod(x as nat, m as nat);
                }
            }
            assert(nudge_by(raw_idx, num_slots as nat, offset as int, r));
            r
        } else {
            raw_idx
        }
    }

    /// The state after the wheel stops at `idx`: the wedge is showing, the history
    /// records the position (keeping the last six), and a BANKRUPT or LOSE A TURN
    /// takes effect.
    pub open spec fn landed_at(self, o: Game, idx: usize) -> bool {
        let wedge = o.wheel_slots@[idx as int];
        let h = o.spin_history@;
        let h2 = if h.len() >= 6 { h.drop_first().push(idx) } else { h.push(idx) };
        let shown = Game {
            wheel_index: Some(idx),
            last_spin_index: Some(idx),
            spin_history: self.spin_history,
            current_wedge: Some(wedge),
            ..o
        };
        &&& self.spin_history@ == h2
        &&& match wedge {
            WedgeValue::Bankrupt => {
                &&& if o.has_active() {
                    let p = o.players@[o.active_idx as int];
                    let q = self.players@[o.active_idx as int];
                    &&& self.players@ == o.players@.update(o.active_idx as int, Player {
                        round_bank: 0,
                        round_prizes: q.round_prizes,
                        ..p
                    })
                    &&& q.round_prizes@.len() == 0
                } else {
                    self.players == o.players
                }
                &&& self == (Game { players: self.players, ..shown.turn_advanced() })
            },
            WedgeValue::LoseTurn => self == shown.turn_advanced(),
            _ => self == shown,
        }
    }

    /// `f` is `o` after a spin that physically landed at `raw_idx`, with result `r`.
    pub open spec fn spun(o: Game, f: Game, raw_idx: usize, r: Option<WedgeValue>) -> bool {
        &&& o.wheel_slots@.len() == 0 ==> r is None && f == o
        &&& o.wheel_slots@.len() > 0 ==> exists|idx: usize| {
            &&& idx < o.wheel_slots@.len()
            &&& nudged_to(o.spin_history@, raw_idx, o.wheel_slots@.len(), idx)
            &&& r == Some(o.wheel_slots@[idx as int])
            &&& #[trigger] f.landed_at(o, idx)
        }
    }

    /// Spin the wheel, given where the physical spin landed (`raw_idx`). Returns
    /// the wedge, or `None` for an empty wheel.
    pub fn spin(&mut self, raw_idx: usize) -> (r: Option<WedgeValue>)
        requires
            old(self).wheel_slots@.len() > 0 ==> raw_idx < old(self).wheel_slots@.len(),
            old(self).wheel_slots@.len() > 0 && old(self).nudge_possible(raw_idx) ==> old(self).wheel_slots@.len() >= 6,
        ensures
            Self::spun(*old(self), *final(self), raw_idx, r),
    {
        if self.wheel_slots.len() == 0 {
            return None;
        }
        let idx = self.apply_anti_clustering(raw_idx);
        self.wheel_index = Some(idx);
        self.last_spin_index = Some(idx);
        if self.spin_history.len() >= 6 {
            self.spin_history.pop_front();
        }
        self.spin_history.push_back(idx);
        let wedge = self.wheel_slots[idx].copy_value();
        self.current_wedge = Some(wedge.copy_value());
        let ghost shown = *self;
        assert(shown == (Game {
            wheel_index: Some(idx),
            last_spin_index: Some(idx),
            spin_history: self.spin_history,
            current_wedge: Some(old(self).wheel_slots@[idx as int]),
            ..*old(self)
        }));
        match wedge {
            WedgeValue::Bankrupt => {
                if self.active_idx < self.players.len() {
                    let a = self.active_idx;
                    self.players[a].round_bank = 0;
                    self.players[a].round_prizes.clear();
                    assert(self.players@ =~= old(self).players@.update(a as int, Player {
                        round_bank: 0,
                        round_prizes: self.players@[a as int].round_prizes,
                        ..old(self).players@[a as int]
                    }));
                }
                let ghost paid = *self;
                assert(paid == (Game { players: paid.players, ..shown }));
                self.clear_turn_state();
                self.advance_turn();
                assert(*self == (Game { players: self.players, ..shown.turn_advanced() }));
            },
            WedgeValue::LoseTurn => {
                self.clear_turn_state();
                self.advance_turn();
            },
            _ => {},
        }
        proof {
            let o = *old(self);
            let h = o.spin_history@;
            assert(self.spin_history@ =~= if h.len() >= 6 { h.drop_first().push(idx) } else { h.push(idx) });
            assert(wedge == o.wheel_slots@[idx as int]);
            match wedge {
                WedgeValue::Bankrupt => {
                    assert(self.landed_at(o, idx));
                },
                WedgeValue::LoseTurn => {
                    assert(*self == shown.turn_advanced());
                    assert(self.landed_at(o, idx));
                },
                _ => {
                    assert(*self == shown);
                    assert(self.landed_at(o, idx));
                },
            }
            assert(final_landed(*old(self), *self, idx));
        }
        Some(wedge)
    }

    /// One Final Spin attempt, given where the physical spin landed: a cash wedge
    /// sets the round's spin value; any other wedge takes its usual effect and the
    /// wheel must be spun again (`spin_done` stays false).
    pub fn final_spin_attempt_at(&mut self, raw_idx: usize) -> (r: Option<WedgeValue>)
        requires
            old(self).wheel_slots@.len() > 0 ==> raw_idx < old(self).wheel_slots@.len(),
            old(self).wheel_slots@.len() > 0 && old(self).nudge_possible(raw_idx) ==> old(self).wheel_slots@.len() >= 6,
        ensures
            old(self).phase != GamePhase::Final ==> r is None && *final(self) == *old(self),
            old(self).phase == GamePhase::Final && old(self).wheel_slots@.len() == 0 ==> r is None && *final(self) == *old(self),
            old(self).phase == GamePhase::Final && old(self).wheel_slots@.len() > 0 ==> exists|idx: usize, g: Game| {
                &&& idx < old(self).wheel_slots@.len()
                &&& nudged_to(old(self).spin_history@, raw_idx, old(self).wheel_slots@.len(), idx)
                &&& r == Some(old(self).wheel_slots@[idx as int])
                &&& #[trigger] g.landed_at(*old(self), idx)
                &&& *final(self) == match old(self).wheel_slots@[idx as int] {
                    WedgeValue::Cash(amount) => Game {
                        final_spin: FinalSpinState { spin_value: amount, spin_done: true, ..g.final_spin },
                        ..g
                    },
                    _ => g,
                }
            },
    {
        if self.phase != GamePhase::Final {
            return None;
        }
        let result = self.spin(raw_idx);
        let ghost g = *self;
        match &result {
            Some(WedgeValue::Cash(amount)) => {
                self.final_spin.spin_value = *amount;
                self.final_spin.spin_done = true;
            },
            _ => {},
        }
        result
    }

    // ========== CLIENT STATE ==========

    /// Every player's prize totals can be added up without overflow.
    pub open spec fn prize_totals_fit(self) -> bool {
        forall|j: int| 0 <= j < self.players@.len()
            ==> prize_sum_fits((#[trigger] self.players@[j]).prizes@) && prize_sum_fits(self.players@[j].round_prizes@)
    }

    /// Indices of the players whose socket is locked out of the toss-up, ascending.
    pub open spec fn locked_player_idxs(self) -> Seq<usize> {
        locked_prefix(self, self.players@.len() as int)
    }

    fn locked_indices(&self) -> (r: Vec<usize>)
        ensures
            r@ == self.locked_player_idxs(),
    {
        let mut out: Vec<usize> = Vec::new();
        let mut i: usize = 0;
        while i < self.players.len()
            invariant
                i <= self.players@.len(),
                out@ == locked_prefix(*self, i as int),
            decreases self.players@.len() - i,
        {
            let locked = match &self.players[i].socket_id {
                Some(sid) => self.tossup.locked_sids.contains(sid.as_str()),
                None => false,
            };
            if locked {
                out.push(i);
            }
            i += 1;
        }
        out
    }

    fn player_states(&self) -> (r: Vec<PlayerState>)
        requires
            self.prize_totals_fit(),
        ensures
            r@.len() == self.players@.len(),
            forall|j: int| 0 <= j < r@.len() ==> shows_player(#[trigger] r@[j], self.players@[j]),
    {
        let mut out: Vec<PlayerState> = Vec::new();
        let mut i: usize = 0;
        while i < self.players.len()
            invariant
                i <= self.players@.len(),
                self.prize_totals_fit(),
                out@.len() == i,
                forall|j: int| 0 <= j < i ==> shows_player(#[trigger] out@[j], self.players@[j]),
            decreases self.players@.len() - i,
        {
            let p = &self.players[i];
            assert(prize_sum_fits(self.players@[i as int].prizes@));
            let st = PlayerState {
                id: p.id,
                name: p.name.clone(),
                total: p.total,
                prizes: copy_prizes(&p.prizes),
                prize_value_total: p.prize_value_total(),
                round_bank: p.round_bank,
                round_prizes: copy_prizes(&p.round_prizes),
                round_prize_value_total: p.round_prize_value_total(),
                claimed: p.socket_id.is_some(),
                avatar_id: p.avatar_id,
            };
            out.push(st);
            i += 1;
        }
        out
    }

    /// `st` is what clients see of this game at `now_ms`.
    pub open spec fn shows(self, st: GameState, now_ms: i64) -> bool {
        &&& st.room@ == self.room_name@
        &&& st.phase == self.phase
        &&& st.round == self.round
        &&& st.players@.len() == self.players@.len()
        &&& forall|j: int| 0 <= j < st.players@.len() ==> shows_player(#[trigger] st.players@[j], self.players@[j])
        &&& st.active_idx == self.active_idx
        &&& st.puzzle.id == self.puzzle.id
        &&& st.puzzle.category == self.puzzle.category
        &&& st.puzzle.answer == self.puzzle.answer
        &&& st.revealed@.no_duplicates() && st.revealed@.to_set() == self.revealed@
        &&& st.used@.no_duplicates() && st.used@.to_set() == self.used_letters@
        &&& st.current_wedge == self.current_wedge
        &&& st.wheel_index == self.wheel_index
        &&& st.wheel_slots@ == self.wheel_slots@
        &&& st.last_spin_index == self.last_spin_index
        &&& st.puzzle_solved_by == self.puzzle_solved_by
        &&& st.host.claimed == (self.host_sid is Some)
        &&& st.config.vowel_cost == self.config.vowel_cost
        &&& st.config.bonus_seconds == self.config.bonus_seconds
        &&& st.config.bonus_jackpot == self.config.bonus_jackpot
        &&& st.config.prize_replace_cash_values@ == self.config.prize_replace_cash_values@
        &&& st.config.puzzle_display_seconds == self.config.puzzle_display_seconds
        &&& st.config.prize_wedge_names@ == self.config.prize_wedge_names@
        &&& st.config.pack_id == self.config.pack_id
        &&& st.config.disconnect_timeout_secs == self.config.disconnect_timeout_secs
        &&& st.config.turn_timer_seconds == self.config.turn_timer_seconds
        &&& st.config.buzz_timer_seconds == self.config.buzz_timer_seconds
        &&& st.active_pack_id == self.active_pack_id
        &&& st.active_pack_name == self.active_pack_name
        &&& st.tossup.controller_player_idx == match self.tossup.controller_sid {
            Some(c) => first_with_socket(self.players@, c@),
            None => None,
        }
        &&& st.tossup.locked_player_idxs@ == self.locked_player_idxs()
        &&& st.tossup.allowed_player_idxs@ == self.tossup.allowed_player_idxs@
        &&& st.tossup.is_tiebreaker == self.tossup.is_tiebreaker
        &&& st.tossup.remaining_seconds == match self.tossup.buzz_timer_end_ms {
            Some(end) => if end - now_ms > 0 { Some(clamp_i32(Self::seconds_left_ceil(end, now_ms))) } else { None },
            None => None,
        }
        &&& st.bonus_round.stage == self.bonus_state.stage
        &&& st.bonus_round.picks.consonants@ == self.bonus_state.picks_consonants@
        &&& st.bonus_round.picks.vowel == self.bonus_state.pick_vowel
        &&& st.bonus_round.remaining_seconds == match self.bonus_state.end_ms {
            Some(end) => Some(clamp_i32(Self::seconds_left_floor(end, now_ms))),
            None => None,
        }
        &&& st.bonus_round.jackpot == self.config.bonus_jackpot
        &&& st.final_spin.spin_value == self.final_spin.spin_value
        &&& st.final_spin.spin_done == self.final_spin.spin_done
        &&& st.final_spin.consonants_guessed == self.final_spin.consonants_guessed
        &&& st.final_spin.trigger_after_consonants == self.final_spin.trigger_after_consonants
        &&& st.game_over.winner_idx == self.game_over_state.winner_idx
        &&& st.game_over.winner_name == self.game_over_state.winner_name
        &&& st.game_over.winner_score == self.game_over_state.winner_score
        &&& st.game_over.bonus_won == self.game_over_state.bonus_won
        &&& st.game_over.remaining_seconds == if self.phase != GamePhase::GameOver {
            None
        } else {
            match self.game_over_state.reset_at_ms {
                Some(t) => Some(clamp_i32(Self::seconds_left_ceil(t, now_ms))),
                None => None,
            }
        }
        &&& st.turn_timer_remaining == match self.turn_timer_end_ms {
            Some(end) => Some(clamp_i32(Self::seconds_left_floor(end, now_ms))),
            None => None,
        }
    }

    /// The game state for clients at `now_ms`.
    pub fn get_state_at(&self, now_ms: i64) -> (r: GameState)
        requires
            0 <= now_ms <= MAX_TIMESTAMP_MS,
            self.prize_totals_fit(),
        ensures
            self.shows(r, now_ms),
    {
        let controller_idx = match &self.tossup.controller_sid {
            Some(sid) => self.player_idx_by_socket(sid.as_str()),
            None => None,
        };
        proof {
            if self.tossup.controller_sid is Some {
                assert(self.players@.len() == self.players.len());
                lemma_first_with_socket(self.players@, self.tossup.controller_sid->0@, controller_idx);
            }
        }
        let remaining = match self.buzz_timer_remaining_at(now_ms) {
            Some(_) => match self.tossup.buzz_timer_end_ms {
                Some(end) => Some(ceil_seconds_left(end, now_ms)),
                None => None,
            },
            None => None,
        };
        let config = self.config.copy_value();
        proof {
            assert(config.prize_wedge_names@ =~= self.config.prize_wedge_names@);
        }
        GameState {
            room: self.room_name.clone(),
            phase: self.phase,
            round: self.round,
            players: self.player_states(),
            active_idx: self.active_idx,
            puzzle: PuzzleState {
                id: self.puzzle.id,
                category: self.puzzle.category.clone(),
                answer: self.puzzle.answer.clone(),
            },
            revealed: self.revealed.to_vec(),
            used: self.used_letters.to_vec(),
            current_wedge: match &self.current_wedge {
                Some(w) => Some(w.copy_value()),
                None => None,
            },
            wheel_index: self.wheel_index,
            wheel_slots: copy_wedges(&self.wheel_slots),
            last_spin_index: self.last_spin_index,
            puzzle_solved_by: copy_opt_string(&self.puzzle_solved_by),
            host: HostState { claimed: self.host_sid.is_some() },
            config,
            active_pack_id: self.active_pack_id,
            active_pack_name: copy_opt_string(&self.active_pack_name),
            tossup: TossupStateClient {
                controller_player_idx: controller_idx,
                locked_player_idxs: self.locked_indices(),
                allowed_player_idxs: copy_indices(&self.tossup.allowed_player_idxs),
                is_tiebreaker: self.tossup.is_tiebreaker,
                remaining_seconds: remaining,
            },
            bonus_round: BonusStateClient {
                stage: self.bonus_state.stage,
                picks: BonusPicks {
                    consonants: copy_chars(&self.bonus_state.picks_consonants),
                    vowel: self.bonus_state.pick_vowel,
                },
                remaining_seconds: self.bonus_remaining_seconds_at(now_ms),
                jackpot: self.config.bonus_jackpot,
            },
            final_spin: FinalSpinStateClient {
                spin_value: self.final_spin.spin_value,
                spin_done: self.final_spin.spin_done,
                consonants_guessed: self.final_spin.consonants_guessed,
                trigger_after_consonants: self.final_spin.trigger_after_consonants,
            },
            game_over: GameOverStateClient {
                winner_idx: self.game_over_state.winner_idx,
                winner_name: copy_opt_string(&self.game_over_state.winner_name),
                winner_score: self.game_over_state.winner_score,
                bonus_won: self.game_over_state.bonus_won,
                remaining_seconds: self.game_over_remaining_seconds_at(now_ms),
            },
            turn_timer_remaining: self.turn_timer_remaining_seconds_at(now_ms),
        }
    }

    /// The game state for clients now.
    pub fn get_state(&self) -> (r: GameState)
        requires
            self.prize_totals_fit(),
        ensures
            exists|now_ms: i64| 0 <= now_ms <= MAX_TIMESTAMP_MS && #[trigger] self.shows(r, now_ms),
    {
        self.get_state_at(now_millis())
    }

    /// Count of `letter` in the upper-cased answer.
    pub fn count_in_answer(&self, letter: char) -> (r: usize)
        ensures
            r == count_char(self.answer_upper(), letter),
    {
        let upper_answer = to_uppercase(self.puzzle.answer.as_str());
        let chars = str_chars(upper_answer.as_str());
        count_occurrences(&chars, letter)
    }
}

/// Whether every running sum of the values of `s` fits in an `i32`.
pub fn prize_sums_in_range(s: &Vec<Prize>) -> (r: bool)
    ensures
        r == prize_sum_fits(s@),
{
    let mut total: i64 = 0;
    let mut i: usize = 0;
    assert(prize_sum(s@.subrange(0, 0)) == 0);
    while i < s.len()
        invariant
            i <= s@.len(),
            total == prize_sum(s@.subrange(0, i as int)),
            forall|k: int| 0 <= k <= i ==> i32::MIN <= #[trigger] prize_sum(s@.subrange(0, k)) <= i32::MAX,
        decreases s@.len() - i,
    {
        assert(s@.subrange(0, i + 1).drop_last() =~= s@.subrange(0, i as int));
        total = total + s[i].value as i64;
        i += 1;
        if total < i32::MIN as i64 || total > i32::MAX as i64 {
            assert(prize_sum(s@.subrange(0, i as int)) == total);
            assert(!(i32::MIN <= prize_sum(s@.subrange(0, i as int)) <= i32::MAX));
            return false;
        }
    }
    assert(s@.subrange(0, s@.len() as int) =~= s@);
    true
}

impl Game {
    /// Whether the prize totals of every player can be added up (see `prize_totals_fit`).
    pub fn prize_totals_in_range(&self) -> (r: bool)
        ensures
            r == self.prize_totals_fit(),
    {
        let mut i: usize = 0;
        while i < self.players.len()
            invariant
                i <= self.players@.len(),
                forall|j: int| 0 <= j < i ==> prize_sum_fits((#[trigger] self.players@[j]).prizes@)
                    && prize_sum_fits(self.players@[j].round_prizes@),
            decreases self.players@.len() - i,
        {
            if !prize_sums_in_range(&self.players[i].prizes) || !prize_sums_in_range(&self.players[i].round_prizes) {
                return false;
            }
            i += 1;
        }
        true
    }

    /// Whether guessing `letter` now cannot overflow the active player's round bank
    /// (see `consonant_award_fits`).
    pub fn consonant_award_in_range(&self, letter: char) -> (r: bool)
        ensures
            r == self.consonant_award_fits(letter),
    {
        let l = to_ascii_upper(letter);
        match &self.current_wedge {
            Some(WedgeValue::Cash(amount)) => {
                if Self::is_vowel(l) || self.used_letters.contains(&l) || self.active_idx >= self.players.len() {
                    return true;
                }
                let n = self.count_in_answer(l);
                if n == 0 {
                    return true;
                }
                if n > i32::MAX as usize {
                    return false;
                }
                let bank = self.players[self.active_idx].round_bank as i64;
                assert(-0x4000_0000_0000_0000 <= (*amount as int) * (n as int) <= 0x4000_0000_0000_0000) by (nonlinear_arith)
                    requires
                        0 <= n <= i32::MAX,
                        i32::MIN <= *amount <= i32::MAX;
                let award = (*amount as i64) * (n as i64);
                award >= i32::MIN as i64 && award <= i32::MAX as i64 && bank + award >= i32::MIN as i64
                    && bank + award <= i32::MAX as i64
            },
            _ => true,
        }
    }

    /// Whether the attempt solves the puzzle.
    pub fn solves_attempt(&self, attempt: &str) -> (r: bool)
        ensures
            r == self.solves(attempt@),
    {
        let a = normalize_text(self.puzzle.answer.as_str());
        let b = normalize_text(attempt);
        chars_equal(&a, &b)
    }

    /// Whether a solve attempt now cannot overflow the active player's total, with
    /// `extra` more added to it (see `solve_award_fits` and `bonus_award_fits`).
    pub fn solve_award_in_range(&self, attempt: &str, extra: i32) -> (r: bool)
        ensures
            r == ((self.solves(attempt@) && self.has_active()) ==> {
                &&& i32::MIN <= self.players@[self.active_idx as int].total + self.players@[self.active_idx as int].round_bank <= i32::MAX
                &&& i32::MIN <= self.players@[self.active_idx as int].total + self.players@[self.active_idx as int].round_bank + extra <= i32::MAX
            }),
    {
        if self.active_idx >= self.players.len() || !self.solves_attempt(attempt) {
            return true;
        }
        let p = &self.players[self.active_idx];
        let sum = p.total as i64 + p.round_bank as i64;
        let with_extra = sum + extra as i64;
        sum >= i32::MIN as i64 && sum <= i32::MAX as i64 && with_extra >= i32::MIN as i64 && with_extra <= i32::MAX as i64
    }

    /// Whether paying for a vowel now cannot overflow (see `vowel_cost_fits`).
    pub fn vowel_cost_in_range(&self) -> (r: bool)
        ensures
            r == self.vowel_cost_fits(),
    {
        if self.active_idx >= self.players.len() {
            return true;
        }
        let v = self.players[self.active_idx].round_bank as i64 - self.config.vowel_cost as i64;
        v >= i32::MIN as i64 && v <= i32::MAX as i64
    }

    /// Whether a spin that came to rest at `raw_idx` (below the wheel size) can be
    /// carried out (see `nudge_possible`).
    pub fn nudge_in_range(&self, raw_idx: usize) -> (r: bool)
        requires
            raw_idx < self.wheel_slots@.len(),
        ensures
            r == (self.nudge_possible(raw_idx) ==> self.wheel_slots@.len() >= 6),
    {
        if self.wheel_slots.len() >= 6 {
            return true;
        }
        let exact = self.count_exact_hits(raw_idx);
        let adjacent = self.count_adjacent_hits(raw_idx);
        !(exact >= 2 || adjacent >= 2)
    }
}

} // verus!
