use vstd::prelude::*;

use crate::error::ErrorCode;
use crate::identity::Identity;
use crate::ledger::DepositAccount;

verus! {

/// A player's balance and statistics, used by wagered matches.
#[derive(Clone, Copy, Debug, PartialEq, Eq, Structural)]
pub struct Player {
    pub balance: u64,
    pub wager: u64,
    pub wins: u64,
    pub losses: u64,
    pub total_bet: u64,
    pub total_won: u64,
    pub total_lost: u64,
}

/// The record of one two-player wagered match.
#[derive(Clone, Copy, Debug)]
pub struct Game {
    pub player1: Identity,
    pub player2: Identity,
    pub wager: u64,
    pub is_active: bool,
}

impl Player {
    /// A player with the given balance and no history.
    pub fn new(balance: u64) -> (r: Player)
        ensures
            r == (Player {
                balance,
                wager: 0,
                wins: 0,
                losses: 0,
                total_bet: 0,
                total_won: 0,
                total_lost: 0,
            }),
    {
        Player { balance, wager: 0, wins: 0, losses: 0, total_bet: 0, total_won: 0, total_lost: 0 }
    }
}

/// `p` with `wager` taken from its balance.
pub open spec fn debited(p: Player, wager: u64) -> Player {
    Player { balance: (p.balance - wager) as u64, ..p }
}

/// Opens a match between two players, moving `wager` from each player's
/// balance into the escrow's total. Only the escrow's owner may do so; both
/// balances are checked before either is debited. On failure nothing changes.
pub fn create_game(
    escrow: &mut DepositAccount,
    caller: Identity,
    player1_key: Identity,
    player1: &mut Player,
    player2_key: Identity,
    player2: &mut Player,
    wager: u64,
) -> (r: Result<Game, ErrorCode>)
    requires
        old(escrow)@.total + 2 * wager <= u64::MAX,
    ensures
        caller != old(escrow)@.owner ==> r == Err::<Game, ErrorCode>(ErrorCode::Unauthorized),
        caller == old(escrow)@.owner
            && (old(player1).balance < wager || old(player2).balance < wager)
            ==> r == Err::<Game, ErrorCode>(ErrorCode::InsufficientFunds),
        r is Err ==> *final(player1) == *old(player1),
        r is Err ==> *final(player2) == *old(player2),
        r is Err ==> final(escrow)@ == old(escrow)@,
        r is Ok <==> caller == old(escrow)@.owner && wager <= old(player1).balance && wager <= old(
            player2,
        ).balance,
        r is Ok ==> r == Ok::<Game, ErrorCode>(
            (Game { player1: player1_key, player2: player2_key, wager, is_active: true }),
        ),
        r is Ok ==> *final(player1) == debited(*old(player1), wager),
        r is Ok ==> *final(player2) == debited(*old(player2), wager),
        r is Ok ==> final(escrow)@.total == old(escrow)@.total + 2 * wager,
        r is Ok ==> final(escrow)@.owner == old(escrow)@.owner,
        r is Ok ==> final(escrow)@.deposits == old(escrow)@.deposits,
        old(escrow)@.wf() ==> final(escrow)@.wf(),
{
    if caller != escrow.owner {
        return Err(ErrorCode::Unauthorized);
    }
    if player1.balance < wager {
        return Err(ErrorCode::InsufficientFunds);
    }
    if player2.balance < wager {
        return Err(ErrorCode::InsufficientFunds);
    }
    player1.balance = player1.balance - wager;
    player2.balance = player2.balance - wager;
    escrow.total_deposits = escrow.total_deposits + 2 * wager;
    Ok(Game { player1: player1_key, player2: player2_key, wager, is_active: true })
}

} // verus!
