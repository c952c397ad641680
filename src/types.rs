use vstd::prelude::*;

verus! {

/// Identity of an account or a contract, as the host hands it to the contract.
#[derive(Clone, Copy, Debug, PartialEq, Eq, Structural)]
pub struct Address {
    pub id: u64,
}

/// Settings fixed when the contract is initialized.
#[derive(Clone, Copy, Debug)]
pub struct Config {
    pub admin: Address,
    pub token_address: Address,
    pub token_wasm_hash: [u8; 32],
    pub campaign_duration: u64,
}

/// Where the single campaign of a contract stands. Times are ledger timestamps.
#[derive(Clone, Copy, Debug, PartialEq, Eq, Structural)]
pub enum CampaignState {
    NotStarted,
    Open { start_time: u64 },
    Closed { start_time: u64, end_time: u64 },
}

/// What the ledger keeps for one contributor.
#[derive(Clone, Copy, Debug, PartialEq, Eq, Structural)]
pub struct ContributionRecord {
    pub amount_contributed: u128,
    pub share_balance: u128,
    pub repaid: bool,
}

/// Why an operation was refused. A refused operation changes nothing.
#[derive(Clone, Copy, Debug, PartialEq, Eq, Structural)]
pub enum ContractError {
    AlreadyInitialized,
    NotInitialized,
    Unauthorized,
    InvalidState,
    InvalidToken,
    InvalidAmount,
    NoContribution,
    AlreadyRepaid,
    InsufficientBalance,
    /// The pooled total would no longer fit an `i128`.
    Overflow,
    /// The token contract refused a transfer that an operation asked for.
    TransferFailed,
}

/// A movement of tokens that an accepted operation asks the host to carry out
/// within the same transaction.
#[derive(Clone, Copy, Debug, PartialEq, Eq, Structural)]
pub struct Transfer {
    pub token: Address,
    pub from: Address,
    pub to: Address,
    pub amount: i128,
}

pub open spec fn empty_record() -> ContributionRecord {
    ContributionRecord { amount_contributed: 0, share_balance: 0, repaid: false }
}

} // verus!
