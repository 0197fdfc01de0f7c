//! The plain data model of the pipeline: what a signature listing returns,
//! what a transaction lookup returns, and the normalized activity record
//! that is handed back to the caller.

use vstd::prelude::*;

verus! {

/// Failure taxonomy of the pipeline.
///
/// `InvalidAddress` is raised before any remote call is made; the remaining
/// variants classify failures of the remote ledger service.  A failed lookup
/// of a single transaction is never surfaced through this type: it degrades
/// to an activity record with unknown delta and fee.
#[derive(Clone, Debug, PartialEq, Eq)]
pub enum ActivityError {
    /// The address string is not the base-58 form of a 32-byte public key.
    InvalidAddress,
    /// The remote service does not know the requested transaction.
    NotFound,
    /// The remote service could not be reached at all.
    UpstreamUnavailable,
    /// The remote service answered with an application-level error message.
    UpstreamError(String),
}

impl ActivityError {
    /// The diagnostic text of a failure, as it appears in an error payload.
    /// A remote application-level message is passed through unchanged.
    pub fn message(&self) -> (r: String)
        ensures
            (match self {
                ActivityError::InvalidAddress => r@ == "invalid address"@,
                ActivityError::NotFound => r@ == "transaction not found"@,
                ActivityError::UpstreamUnavailable => r@ == "ledger service unreachable"@,
                ActivityError::UpstreamError(m) => r@ == m@,
            }),
    {
        match self {
            ActivityError::InvalidAddress => "invalid address".to_owned(),
            ActivityError::NotFound => "transaction not found".to_owned(),
            ActivityError::UpstreamUnavailable => "ledger service unreachable".to_owned(),
            ActivityError::UpstreamError(m) => m.clone(),
        }
    }
}

/// Finality level reported for a transaction by the signature listing.
#[derive(Clone, Copy, Debug, PartialEq, Eq, Structural)]
pub enum ConfirmationStatus {
    Processed,
    Confirmed,
    Finalized,
}

/// One entry of a signature listing, newest first.
#[derive(Clone, Debug)]
pub struct SignatureRecord {
    /// Opaque identifier of the transaction.
    pub signature: String,
    /// Ledger position the transaction was recorded at.
    pub slot: u64,
    /// Unix seconds of the containing block, absent if not yet finalized.
    pub block_time: Option<i64>,
    /// Finality level, if the service reported one.
    pub confirmation_status: Option<ConfirmationStatus>,
    /// On-chain error indicator: present exactly when the transaction failed.
    pub err: Option<String>,
}

/// A mapping-style account entry: an address together with metadata, of
/// which only the address itself takes part in the delta computation.
#[derive(Clone, Debug)]
pub struct ParsedAccount {
    /// Base-58 address of the account.
    pub pubkey: String,
}

/// The two account-list encodings a fetched transaction can carry.
#[derive(Clone, Debug)]
pub enum AccountKeys {
    /// Mapping-style entries, compared by their embedded address field.
    Parsed(Vec<ParsedAccount>),
    /// A plain ordered list of address strings.
    Raw(Vec<String>),
}

/// Execution metadata of a transaction: the fee paid and the balance
/// snapshots around execution, indexed like the account list.
#[derive(Clone, Debug)]
pub struct TransactionMeta {
    /// Fee paid, in the smallest currency unit.
    pub fee: u64,
    /// Balance of each account immediately before execution.
    pub pre_balances: Vec<u64>,
    /// Balance of each account immediately after execution.
    pub post_balances: Vec<u64>,
}

/// Everything the pipeline reads from one fetched transaction.  Both parts
/// are optional: a lookup may come back in an encoding without an account
/// list, or without metadata, and either absence degrades to "unknown".
#[derive(Clone, Debug)]
pub struct TransactionDetail {
    /// The account list, absent for encodings that do not carry one.
    pub account_keys: Option<AccountKeys>,
    /// Execution metadata, absent if the service returned none.
    pub meta: Option<TransactionMeta>,
}

/// Two-valued outcome of a transaction, derived solely from the on-chain
/// error indicator of its signature record.
#[derive(Clone, Copy, Debug, PartialEq, Eq, Structural)]
pub enum ActivityStatus {
    Success,
    Failed,
}

/// One normalized output record of the pipeline.
#[derive(Clone, Debug)]
pub struct ActivityRecord {
    /// Opaque identifier of the transaction.
    pub signature: String,
    /// Raw epoch seconds of the containing block, if known.
    pub timestamp: Option<i64>,
    /// Ledger position the transaction was recorded at.
    pub slot: u64,
    /// Human-readable finality level, if one was reported.
    pub confirmation_status: Option<String>,
    /// Net balance change of the queried address, in the smallest currency
    /// unit; absent whenever it could not be determined.
    pub lamports_delta: Option<i128>,
    /// Fee paid, in the smallest currency unit; absent without metadata.
    pub fee: Option<u64>,
    /// Outcome derived from the on-chain error indicator.
    pub status: ActivityStatus,
    /// Block time rendered as a fixed UTC string, if a block time exists.
    pub block_time: Option<String>,
}

} // verus!
