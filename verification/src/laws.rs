//! The guarantees of the escrow lifecycle, stated and proved once and for
//! all over the state machine that the lifecycle operations' contracts are
//! written in: the state only ever moves forward, a session is joined at
//! most once and settled exactly once, and settlement conserves the pot.

use vstd::prelude::*;
use crate::session::{
    Game, GameState, advances, joined_game, payout_to_counterparty, payout_to_initiator,
    settled_game, state_rank, wf,
};

verus! {

/// One lifecycle step never moves the state backwards, and never skips a
/// stage: the rank stays put or grows by exactly one.
pub proof fn lemma_step_forward(pre: GameState, post: GameState)
    requires
        advances(pre, post),
    ensures
        state_rank(pre) <= state_rank(post) <= state_rank(pre) + 1,
{
}

/// Monotonic state: along any sequence of observed states in which each
/// neighbouring pair is one lifecycle step, a later observation never shows
/// an earlier stage. Together with `lemma_step_forward` this makes every
/// such sequence, read stage by stage, a prefix of `WaitingForPlayer2`,
/// `InProgress`, `Finished`.
pub proof fn lemma_states_monotonic(trace: Seq<GameState>, i: int, j: int)
    requires
        forall|k: int| 0 <= k < trace.len() - 1 ==> advances(#[trigger] trace[k], trace[k + 1]),
        0 <= i <= j < trace.len(),
    ensures
        state_rank(trace[i]) <= state_rank(trace[j]),
    decreases j - i,
{
    if i < j {
        lemma_states_monotonic(trace, i, j - 1);
        assert(advances(trace[j - 1], trace[j]));
    }
}

/// At most one join: the record a successful join leaves is in progress,
/// and no sequence of lifecycle steps from there ever shows
/// `WaitingForPlayer2` again — so every later join attempt finds the
/// session unavailable and fails, as `join_game`'s contract states.
pub proof fn lemma_at_most_one_join(
    g: Game,
    counterparty: u64,
    counterparty_move: u8,
    trace: Seq<GameState>,
)
    requires
        trace.len() > 0,
        trace[0] == joined_game(g, counterparty, counterparty_move).game_state,
        forall|k: int| 0 <= k < trace.len() - 1 ==> advances(#[trigger] trace[k], trace[k + 1]),
    ensures
        forall|k: int| 0 <= k < trace.len() ==> trace[k] != GameState::WaitingForPlayer2,
{
    assert forall|k: int| 0 <= k < trace.len() implies trace[k]
        != GameState::WaitingForPlayer2 by {
        lemma_states_monotonic(trace, 0, k);
    }
}

/// Exactly one settlement: the record a successful settlement leaves is
/// finished, and finished is terminal — every state a lifecycle step can
/// reach from there is still `Finished`. A second settlement therefore
/// finds the session no longer in progress and fails without paying again,
/// as `reveal_and_settle`'s contract states.
pub proof fn lemma_settlement_is_final(g: Game, trace: Seq<GameState>)
    requires
        trace.len() > 0,
        trace[0] == settled_game(g).game_state,
        forall|k: int| 0 <= k < trace.len() - 1 ==> advances(#[trigger] trace[k], trace[k + 1]),
    ensures
        forall|k: int| 0 <= k < trace.len() ==> trace[k] == GameState::Finished,
{
    assert forall|k: int| 0 <= k < trace.len() implies trace[k] == GameState::Finished by {
        lemma_states_monotonic(trace, 0, k);
    }
}

/// Conservation: on every session in progress, what settlement credits to
/// the two participants sums to exactly twice the stake — the custodied pot,
/// to the last unit — and the settled record custodies nothing.
pub proof fn lemma_settlement_conserves_pot(g: Game)
    requires
        wf(g),
        g.game_state == GameState::InProgress,
    ensures
        payout_to_initiator(g) + payout_to_counterparty(g) == 2 * g.wager_amount,
        payout_to_initiator(g) + payout_to_counterparty(g) == g.balance,
        settled_game(g).balance == 0,
{
}

} // verus!
