//! The session lifecycle manager and settlement executor.
//!
//! A session record tracks one wager game end to end. It is created by an
//! initiator who locks up a stake, joined by exactly one counterparty who
//! locks up the same stake, and settled exactly once: the resolver picks the
//! outcome, the whole pot moves to the winner (or is refunded half and half
//! on a tie), and the session reaches its terminal state.
//!
//! The durable storage, atomic transfer and signer authentication are the
//! host's business. The engine sees each participant as an [`Account`]: an
//! identity the host has already authenticated, with the balance it holds.
//! Every operation either performs its full effect or returns an error with
//! no change at all; funds move in the same step as the state transition, so
//! no session is ever left half-settled or double-paid.

use vstd::prelude::*;
use crate::resolver::{GameResult, determine_winner, resolve, valid_move};

verus! {

/// The identity sentinel meaning "no participant": the counterparty before a
/// join, and the winner before settlement or on a tie. No real participant
/// carries this identity.
pub const NO_IDENTITY: u64 = 0;

/// The lifecycle state of a session: strictly forward-moving, never skipping
/// a stage and never reversing.
#[derive(Clone, Copy, Debug, PartialEq, Eq, Structural)]
pub enum GameState {
    WaitingForPlayer2,
    InProgress,
    Finished,
}

/// The typed failures of the lifecycle operations. All are per-call
/// outcomes: a failed operation changes no state and moves no funds.
#[derive(Clone, Copy, Debug, PartialEq, Eq, Structural)]
pub enum ErrorCode {
    /// A stake transfer could not be funded.
    InsufficientFunds,
    /// A session already exists under the requested derivation key.
    DuplicateSession,
    /// A join was attempted on a session not awaiting a counterparty.
    GameNotAvailable,
    /// The initiator attempted to join their own session.
    CannotPlayAgainstSelf,
    /// Settlement was attempted on a session not in progress.
    GameNotInProgress,
    /// The payout targets handed to settlement do not match the
    /// participants stored in the session record.
    MismatchedParticipant,
}

/// One account as the host presents it to the engine: an authenticated
/// identity and the balance it holds.
#[derive(Clone, Copy, Debug, PartialEq, Eq, Structural)]
pub struct Account {
    pub id: u64,
    pub balance: u64,
}

/// The session record: the sole persistent entity, one per wager game.
///
/// `balance` is the custodied stake held by the session itself: it equals
/// the stake while awaiting the counterparty, twice the stake while in
/// progress, and zero once finished.
#[derive(Clone, Copy, Debug, PartialEq, Eq, Structural)]
pub struct Game {
    /// The creating participant; set at creation, immutable thereafter.
    pub player1: u64,
    /// The joining participant; `NO_IDENTITY` until the join.
    pub player2: u64,
    /// The per-participant wager; the total pot is twice this.
    pub wager_amount: u64,
    /// The initiator's move; set at creation.
    pub player1_move: u8,
    /// The counterparty's move; zero until the join.
    pub player2_move: u8,
    /// The payout recipient once settled; `NO_IDENTITY` before settlement
    /// and on a tie.
    pub winner: u64,
    pub game_state: GameState,
    /// The creation timestamp; informational only.
    pub created_at: i64,
    /// The funds custodied by the session itself.
    pub balance: u64,
}

/// The position of a state in the lifecycle order `WaitingForPlayer2`,
/// `InProgress`, `Finished`.
pub open spec fn state_rank(s: GameState) -> int {
    match s {
        GameState::WaitingForPlayer2 => 0,
        GameState::InProgress => 1,
        GameState::Finished => 2,
    }
}

/// Whether one lifecycle call can take a session's state from `pre` to
/// `post`: the state stays put (every failed call, and every call on a
/// finished session) or moves exactly one stage forward. No call skips a
/// stage and none moves back.
pub open spec fn advances(pre: GameState, post: GameState) -> bool {
    ||| post == pre
    ||| (pre == GameState::WaitingForPlayer2 && post == GameState::InProgress)
    ||| (pre == GameState::InProgress && post == GameState::Finished)
}

/// The participant the settled record names as winner: the player whose
/// move won, or `NO_IDENTITY` on a tie.
pub open spec fn winner_of(g: Game) -> u64 {
    match resolve(g.player1_move, g.player2_move) {
        GameResult::Player1Wins => g.player1,
        GameResult::Player2Wins => g.player2,
        GameResult::Tie => NO_IDENTITY,
    }
}

/// The amount settlement credits to the initiator: the whole pot on a win,
/// the stake back on a tie, nothing on a loss.
pub open spec fn payout_to_initiator(g: Game) -> int {
    match resolve(g.player1_move, g.player2_move) {
        GameResult::Player1Wins => 2 * g.wager_amount,
        GameResult::Player2Wins => 0,
        GameResult::Tie => g.wager_amount as int,
    }
}

/// The amount settlement credits to the counterparty: the whole pot on a
/// win, the stake back on a tie, nothing on a loss.
pub open spec fn payout_to_counterparty(g: Game) -> int {
    match resolve(g.player1_move, g.player2_move) {
        GameResult::Player1Wins => 0,
        GameResult::Player2Wins => 2 * g.wager_amount,
        GameResult::Tie => g.wager_amount as int,
    }
}

/// Well-formedness of a session record: what every record satisfies from
/// creation on, whatever its stage.
///
/// The stake is positive and small enough that the pot fits the balance
/// type; the initiator is a real identity with a legal move; and the
/// stage-dependent fields agree with the stage, the custodied balance
/// above all: one stake while awaiting the counterparty, the full pot
/// while in progress, and zero once finished.
pub open spec fn wf(g: Game) -> bool {
    &&& g.player1 != NO_IDENTITY
    &&& g.wager_amount > 0
    &&& 2 * g.wager_amount <= u64::MAX
    &&& valid_move(g.player1_move)
    &&& match g.game_state {
        GameState::WaitingForPlayer2 => {
            &&& g.player2 == NO_IDENTITY
            &&& g.player2_move == 0
            &&& g.winner == NO_IDENTITY
            &&& g.balance == g.wager_amount
        },
        GameState::InProgress => {
            &&& g.player2 != NO_IDENTITY
            &&& g.player2 != g.player1
            &&& valid_move(g.player2_move)
            &&& g.winner == NO_IDENTITY
            &&& g.balance == 2 * g.wager_amount
        },
        GameState::Finished => {
            &&& g.player2 != NO_IDENTITY
            &&& g.player2 != g.player1
            &&& valid_move(g.player2_move)
            &&& g.winner == winner_of(g)
            &&& g.balance == 0
        },
    }
}

/// The record a successful creation persists.
pub open spec fn created_game(initiator: u64, wager_amount: u64, player_move: u8, now: i64) -> Game {
    Game {
        player1: initiator,
        player2: NO_IDENTITY,
        wager_amount: wager_amount,
        player1_move: player_move,
        player2_move: 0,
        winner: NO_IDENTITY,
        game_state: GameState::WaitingForPlayer2,
        created_at: now,
        balance: wager_amount,
    }
}

/// The record a successful join leaves: the counterparty and their move
/// recorded, the state advanced, and the second stake custodied.
pub open spec fn joined_game(g: Game, counterparty: u64, counterparty_move: u8) -> Game {
    Game {
        player2: counterparty,
        player2_move: counterparty_move,
        game_state: GameState::InProgress,
        balance: (g.balance + g.wager_amount) as u64,
        ..g
    }
}

/// The record a successful settlement leaves: the winner recorded, the
/// custodied funds drained to zero, and the state pinned at its terminus.
pub open spec fn settled_game(g: Game) -> Game {
    Game {
        winner: winner_of(g),
        game_state: GameState::Finished,
        balance: 0,
        ..g
    }
}

/// The accounts a session creation works on: the initiator, authenticated
/// by the host, whose balance funds the stake.
pub struct CreateGame {
    pub player: Account,
}

/// The accounts a join works on: the session record and the joining
/// counterparty, authenticated by the host, whose balance funds the stake.
pub struct JoinGame {
    pub game: Game,
    pub player: Account,
}

/// The accounts a settlement works on: the session record and the two
/// payout targets named by the caller. The engine cross-checks the targets
/// against the stored participants before any funds move.
pub struct RevealAndSettle {
    pub game: Game,
    pub player1: Account,
    pub player2: Account,
}

/// Whether a settlement call would succeed: the session is in progress and
/// the payout targets the caller named are exactly the stored participants.
pub open spec fn settle_enabled(ctx: RevealAndSettle) -> bool {
    &&& ctx.game.game_state == GameState::InProgress
    &&& ctx.player1.id == ctx.game.player1
    &&& ctx.player2.id == ctx.game.player2
}

/// Creates a session: allocates a well-formed record awaiting a
/// counterparty and moves one stake from the initiator into its custody,
/// atomically — on failure nothing persists and no funds move.
///
/// `session_exists` is the host's answer to whether a record already sits
/// under this initiator's derivation key; creation refuses a duplicate.
pub fn create_game(
    ctx: &mut CreateGame,
    session_exists: bool,
    wager_amount: u64,
    player_move: u8,
    now: i64,
) -> (r: Result<Game, ErrorCode>)
    requires
        old(ctx).player.id != NO_IDENTITY,
        wager_amount > 0,
        2 * wager_amount <= u64::MAX,
        valid_move(player_move),
    ensures
        final(ctx).player.id == old(ctx).player.id,
        r is Err ==> *final(ctx) == *old(ctx),
        r == Err::<Game, ErrorCode>(ErrorCode::DuplicateSession) <==> session_exists,
        r == Err::<Game, ErrorCode>(ErrorCode::InsufficientFunds) <==> !session_exists
            && old(ctx).player.balance < wager_amount,
        r is Ok <==> !session_exists && old(ctx).player.balance >= wager_amount,
        r is Ok ==> {
            &&& r->Ok_0 == created_game(old(ctx).player.id, wager_amount, player_move, now)
            &&& wf(r->Ok_0)
            &&& final(ctx).player.balance == old(ctx).player.balance - wager_amount
        },
{
    if session_exists {
        return Err(ErrorCode::DuplicateSession);
    }
    if ctx.player.balance < wager_amount {
        return Err(ErrorCode::InsufficientFunds);
    }
    ctx.player.balance = ctx.player.balance - wager_amount;
    Ok(Game {
        player1: ctx.player.id,
        player2: NO_IDENTITY,
        wager_amount: wager_amount,
        player1_move: player_move,
        player2_move: 0,
        winner: NO_IDENTITY,
        game_state: GameState::WaitingForPlayer2,
        created_at: now,
        balance: wager_amount,
    })
}

/// Joins a session: records the counterparty and their move, advances the
/// state, and moves the second stake into custody, atomically — on failure
/// the record and the balances are untouched.
///
/// A session accepts exactly one counterparty: once joined (or finished) it
/// is no longer available. The initiator cannot join their own session,
/// whatever the stake or move.
pub fn join_game(ctx: &mut JoinGame, player_move: u8) -> (r: Result<(), ErrorCode>)
    requires
        wf(old(ctx).game),
        old(ctx).player.id != NO_IDENTITY,
        valid_move(player_move),
    ensures
        wf(final(ctx).game),
        advances(old(ctx).game.game_state, final(ctx).game.game_state),
        final(ctx).player.id == old(ctx).player.id,
        r is Err ==> *final(ctx) == *old(ctx),
        r == Err::<(), ErrorCode>(ErrorCode::GameNotAvailable) <==> old(ctx).game.game_state
            != GameState::WaitingForPlayer2,
        r == Err::<(), ErrorCode>(ErrorCode::CannotPlayAgainstSelf) <==> old(ctx).game.game_state
            == GameState::WaitingForPlayer2 && old(ctx).player.id == old(ctx).game.player1,
        r == Err::<(), ErrorCode>(ErrorCode::InsufficientFunds) <==> old(ctx).game.game_state
            == GameState::WaitingForPlayer2 && old(ctx).player.id != old(ctx).game.player1
            && old(ctx).player.balance < old(ctx).game.wager_amount,
        r is Ok <==> old(ctx).game.game_state == GameState::WaitingForPlayer2
            && old(ctx).player.id != old(ctx).game.player1
            && old(ctx).player.balance >= old(ctx).game.wager_amount,
        r is Ok ==> {
            &&& final(ctx).game == joined_game(old(ctx).game, old(ctx).player.id, player_move)
            &&& final(ctx).player.balance == old(ctx).player.balance - old(ctx).game.wager_amount
        },
{
    if !matches!(ctx.game.game_state, GameState::WaitingForPlayer2) {
        return Err(ErrorCode::GameNotAvailable);
    }
    if ctx.player.id == ctx.game.player1 {
        return Err(ErrorCode::CannotPlayAgainstSelf);
    }
    if ctx.player.balance < ctx.game.wager_amount {
        return Err(ErrorCode::InsufficientFunds);
    }
    ctx.player.balance = ctx.player.balance - ctx.game.wager_amount;
    ctx.game.player2 = ctx.player.id;
    ctx.game.player2_move = player_move;
    ctx.game.balance = ctx.game.balance + ctx.game.wager_amount;
    ctx.game.game_state = GameState::InProgress;
    Ok(())
}

/// Settles a session: resolves the two stored moves, credits the whole pot
/// to the winner — or one stake back to each participant on a tie — drains
/// the custodied balance to exactly zero, records the winner, and pins the
/// state at its terminus, all in one atomic step. A second settlement finds
/// the session no longer in progress and fails without paying again.
///
/// The caller names the payout targets; the engine refuses targets that do
/// not match the stored participants, so no caller can redirect the pot.
pub fn reveal_and_settle(ctx: &mut RevealAndSettle) -> (r: Result<GameResult, ErrorCode>)
    requires
        wf(old(ctx).game),
        settle_enabled(*old(ctx)) ==> old(ctx).player1.balance + 2 * old(ctx).game.wager_amount
            <= u64::MAX,
        settle_enabled(*old(ctx)) ==> old(ctx).player2.balance + 2 * old(ctx).game.wager_amount
            <= u64::MAX,
    ensures
        wf(final(ctx).game),
        advances(old(ctx).game.game_state, final(ctx).game.game_state),
        final(ctx).player1.id == old(ctx).player1.id,
        final(ctx).player2.id == old(ctx).player2.id,
        r is Err ==> *final(ctx) == *old(ctx),
        r == Err::<GameResult, ErrorCode>(ErrorCode::GameNotInProgress) <==> old(
            ctx,
        ).game.game_state != GameState::InProgress,
        r == Err::<GameResult, ErrorCode>(ErrorCode::MismatchedParticipant) <==> old(
            ctx,
        ).game.game_state == GameState::InProgress && !(old(ctx).player1.id == old(
            ctx,
        ).game.player1 && old(ctx).player2.id == old(ctx).game.player2),
        r is Ok <==> settle_enabled(*old(ctx)),
        r is Ok ==> {
            &&& r->Ok_0 == resolve(old(ctx).game.player1_move, old(ctx).game.player2_move)
            &&& final(ctx).game == settled_game(old(ctx).game)
            &&& final(ctx).game.winner == winner_of(old(ctx).game)
            &&& final(ctx).game.balance == 0
            &&& final(ctx).player1.balance == old(ctx).player1.balance + payout_to_initiator(
                old(ctx).game,
            )
            &&& final(ctx).player2.balance == old(ctx).player2.balance + payout_to_counterparty(
                old(ctx).game,
            )
        },
{
    if !matches!(ctx.game.game_state, GameState::InProgress) {
        return Err(ErrorCode::GameNotInProgress);
    }
    if ctx.player1.id != ctx.game.player1 || ctx.player2.id != ctx.game.player2 {
        return Err(ErrorCode::MismatchedParticipant);
    }

    let outcome = determine_winner(ctx.game.player1_move, ctx.game.player2_move);
    let total_pot: u64 = 2 * ctx.game.wager_amount;

    match outcome {
        GameResult::Player1Wins => {
            ctx.game.winner = ctx.game.player1;
            ctx.game.balance = ctx.game.balance - total_pot;
            ctx.player1.balance = ctx.player1.balance + total_pot;
        },
        GameResult::Player2Wins => {
            ctx.game.winner = ctx.game.player2;
            ctx.game.balance = ctx.game.balance - total_pot;
            ctx.player2.balance = ctx.player2.balance + total_pot;
        },
        GameResult::Tie => {
            ctx.game.balance = ctx.game.balance - total_pot;
            ctx.player1.balance = ctx.player1.balance + ctx.game.wager_amount;
            ctx.player2.balance = ctx.player2.balance + ctx.game.wager_amount;
        },
    }

    ctx.game.game_state = GameState::Finished;
    Ok(outcome)
}

} // verus!
