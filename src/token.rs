//! The cancellation token: a single-assignment cell that the first worker to
//! find a winning candidate sets, and that every worker reads to stop.
use vstd::prelude::*;

verus! {

/// The winner after one attempt to set a token holding `winner`: the first
/// write wins and later ones are discarded.
pub open spec fn after_attempt(winner: Option<u64>, candidate: u64) -> Option<u64> {
    match winner {
        Some(w) => Some(w),
        None => Some(candidate),
    }
}

/// The winner after the attempts of `attempts`, made in that order.
pub open spec fn after_attempts(winner: Option<u64>, attempts: Seq<u64>) -> Option<u64>
    decreases attempts.len(),
{
    if attempts.len() == 0 {
        winner
    } else {
        after_attempts(after_attempt(winner, attempts[0]), attempts.drop_first())
    }
}

/// The search's shared stop flag, holding the winning candidate once set.
#[derive(Clone, Copy, Debug, PartialEq, Eq)]
pub struct CancellationToken {
    winner: Option<u64>,
}

impl CancellationToken {
    pub closed spec fn view(&self) -> Option<u64> {
        self.winner
    }

    /// An unset token, for a new search.
    pub fn new() -> (r: Self)
        ensures
            r@ is None,
    {
        CancellationToken { winner: None }
    }

    /// The token has been set.
    pub fn is_set(&self) -> (r: bool)
        ensures
            r == self@ is Some,
    {
        self.winner.is_some()
    }

    /// The winning candidate, if the token has been set.
    pub fn winner(&self) -> (r: Option<u64>)
        ensures
            r == self@,
    {
        self.winner
    }

    /// Attempts to set the token with `candidate`. Only the first attempt
    /// succeeds; it returns `true` for that one alone.
    pub fn try_set(&mut self, candidate: u64) -> (r: bool)
        ensures
            final(self)@ == after_attempt(old(self)@, candidate),
            r == old(self)@ is None,
    {
        if self.winner.is_some() {
            false
        } else {
            self.winner = Some(candidate);
            true
        }
    }
}

/// At most one winner, and it is the first: whatever attempts follow, a token
/// that was set keeps its candidate.
pub proof fn lemma_set_token_keeps_winner(winner: u64, attempts: Seq<u64>)
    ensures
        after_attempts(Some(winner), attempts) == Some(winner),
    decreases attempts.len(),
{
    if attempts.len() > 0 {
        lemma_set_token_keeps_winner(winner, attempts.drop_first());
    }
}

/// First write wins: starting from an unset token, a non-empty series of
/// attempts leaves exactly one winner, the candidate of the first attempt.
pub proof fn lemma_first_attempt_wins(attempts: Seq<u64>)
    requires
        attempts.len() > 0,
    ensures
        after_attempts(None, attempts) == Some(attempts[0]),
{
    lemma_set_token_keeps_winner(attempts[0], attempts.drop_first());
}

} // verus!
