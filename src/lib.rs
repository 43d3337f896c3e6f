//! A custodial escrow ledger: a shared pool of deposits with a tracked claim
//! per depositor, and the settlement of two-player wagered matches into it.

mod error;
mod game;
mod identity;
mod laws;
mod ledger;

pub use error::{message_of, ErrorCode};
pub use game::{create_game, debited, Game, Player};
pub use identity::Identity;
pub use laws::{
    lemma_deposit_upsert,
    lemma_deposit_withdraw_round_trip,
    lemma_exact_withdraw,
    lemma_ledger_stays_balanced,
    lemma_over_withdraw,
};
pub use ledger::{
    deposit,
    get_total_deposits,
    index_of,
    initialize,
    sum_amounts,
    users_unique,
    withdraw,
    DepositAccount,
    EscrowView,
    UserDeposit,
};
