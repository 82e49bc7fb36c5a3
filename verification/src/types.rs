use vstd::prelude::*;

verus! {

/// An account or contract address, held as the 56 ASCII characters of its
/// strkey (`G...` for accounts, `C...` for contracts). Two addresses are the
/// same address exactly when their strkeys are equal.
#[derive(Clone, Copy, Debug, PartialEq, Eq)]
pub struct Address {
    pub strkey: [u8; 56],
}

impl Address {
    /// Builds an address from its strkey characters.
    pub fn from_strkey(strkey: [u8; 56]) -> (a: Address)
        ensures
            a.strkey == strkey,
    {
        Address { strkey }
    }

    /// Whether `self` and `other` are the same address.
    pub fn same_as(&self, other: &Address) -> (r: bool)
        ensures
            r == (*self == *other),
    {
        let mut i: usize = 0;
        while i < 56
            invariant
                0 <= i <= 56,
                forall|j: int| 0 <= j < i ==> self.strkey@[j] == other.strkey@[j],
            decreases 56 - i,
        {
            if self.strkey[i] != other.strkey[i] {
                return false;
            }
            i = i + 1;
        }
        proof {
            assert(self.strkey@ =~= other.strkey@);
            vstd::array::axiom_array_ext_equal(self.strkey, other.strkey);
        }
        true
    }
}

/// Contract error codes of the treasury.
#[derive(Clone, Copy, Debug, PartialEq, Eq, PartialOrd, Ord, Hash)]
pub enum Error {
    /// Contract has not been initialized yet.
    NotInitialized,
    /// Contract is already initialized.
    AlreadyInitialized,
    /// Caller is not authorized for this operation.
    Unauthorized,
    /// Deposit amount must be greater than zero.
    InvalidAmount,
    /// Treasury does not have enough funds to process withdrawal.
    InsufficientFunds,
    /// The provided threshold is invalid (must be > 0 and <= signer count).
    InvalidThreshold,
    /// Transaction proposal was not found.
    TransactionNotFound,
    /// Signer has already approved this transaction.
    AlreadyApproved,
    /// Transaction has already been executed.
    AlreadyExecuted,
    /// Address is already a signer.
    AlreadySigner,
    /// Address is not a signer.
    NotASigner,
    /// Cannot remove signer: it would breach the threshold.
    ThresholdBreach,
    /// Transaction has expired.
    TransactionExpired,
    /// Transaction has been canceled.
    TransactionCanceled,
    /// Caller is not the proposer.
    NotProposer,
    /// Signer has not approved this transaction.
    NotApproved,
    /// Expiry timestamp is invalid.
    InvalidExpiry,
    /// Transaction policy has been invalidated.
    PolicyInvalidated,
    /// Duplicate signer in initialization or addition.
    DuplicateSigner,
}

/// The numeric contract error code of each error.
pub open spec fn error_code(e: Error) -> u32 {
    match e {
        Error::NotInitialized => 1,
        Error::AlreadyInitialized => 2,
        Error::Unauthorized => 3,
        Error::InvalidAmount => 4,
        Error::InsufficientFunds => 5,
        Error::InvalidThreshold => 6,
        Error::TransactionNotFound => 7,
        Error::AlreadyApproved => 8,
        Error::AlreadyExecuted => 9,
        Error::AlreadySigner => 10,
        Error::NotASigner => 11,
        Error::ThresholdBreach => 12,
        Error::TransactionExpired => 13,
        Error::TransactionCanceled => 14,
        Error::NotProposer => 15,
        Error::NotApproved => 16,
        Error::InvalidExpiry => 17,
        Error::PolicyInvalidated => 18,
        Error::DuplicateSigner => 19,
    }
}

/// The error whose numeric contract code is `code`, if there is one.
pub open spec fn error_of_code(code: u32) -> Option<Error> {
    if code == 1 { Some(Error::NotInitialized) }
    else if code == 2 { Some(Error::AlreadyInitialized) }
    else if code == 3 { Some(Error::Unauthorized) }
    else if code == 4 { Some(Error::InvalidAmount) }
    else if code == 5 { Some(Error::InsufficientFunds) }
    else if code == 6 { Some(Error::InvalidThreshold) }
    else if code == 7 { Some(Error::TransactionNotFound) }
    else if code == 8 { Some(Error::AlreadyApproved) }
    else if code == 9 { Some(Error::AlreadyExecuted) }
    else if code == 10 { Some(Error::AlreadySigner) }
    else if code == 11 { Some(Error::NotASigner) }
    else if code == 12 { Some(Error::ThresholdBreach) }
    else if code == 13 { Some(Error::TransactionExpired) }
    else if code == 14 { Some(Error::TransactionCanceled) }
    else if code == 15 { Some(Error::NotProposer) }
    else if code == 16 { Some(Error::NotApproved) }
    else if code == 17 { Some(Error::InvalidExpiry) }
    else if code == 18 { Some(Error::PolicyInvalidated) }
    else if code == 19 { Some(Error::DuplicateSigner) }
    else { None }
}

impl Error {
    /// The numeric contract error code (`1` for `NotInitialized` up to `19`
    /// for `DuplicateSigner`).
    pub fn code(&self) -> (c: u32)
        ensures
            c == error_code(*self),
    {
        match self {
            Error::NotInitialized => 1,
            Error::AlreadyInitialized => 2,
            Error::Unauthorized => 3,
            Error::InvalidAmount => 4,
            Error::InsufficientFunds => 5,
            Error::InvalidThreshold => 6,
            Error::TransactionNotFound => 7,
            Error::AlreadyApproved => 8,
            Error::AlreadyExecuted => 9,
            Error::AlreadySigner => 10,
            Error::NotASigner => 11,
            Error::ThresholdBreach => 12,
            Error::TransactionExpired => 13,
            Error::TransactionCanceled => 14,
            Error::NotProposer => 15,
            Error::NotApproved => 16,
            Error::InvalidExpiry => 17,
            Error::PolicyInvalidated => 18,
            Error::DuplicateSigner => 19,
        }
    }

    /// The error with the given numeric contract code, or `None` for a code
    /// that no error has.
    pub fn from_code(code: u32) -> (r: Option<Error>)
        ensures
            r == error_of_code(code),
            r matches Some(e) ==> error_code(e) == code,
    {
        if code == 1 { Some(Error::NotInitialized) }
        else if code == 2 { Some(Error::AlreadyInitialized) }
        else if code == 3 { Some(Error::Unauthorized) }
        else if code == 4 { Some(Error::InvalidAmount) }
        else if code == 5 { Some(Error::InsufficientFunds) }
        else if code == 6 { Some(Error::InvalidThreshold) }
        else if code == 7 { Some(Error::TransactionNotFound) }
        else if code == 8 { Some(Error::AlreadyApproved) }
        else if code == 9 { Some(Error::AlreadyExecuted) }
        else if code == 10 { Some(Error::AlreadySigner) }
        else if code == 11 { Some(Error::NotASigner) }
        else if code == 12 { Some(Error::ThresholdBreach) }
        else if code == 13 { Some(Error::TransactionExpired) }
        else if code == 14 { Some(Error::TransactionCanceled) }
        else if code == 15 { Some(Error::NotProposer) }
        else if code == 16 { Some(Error::NotApproved) }
        else if code == 17 { Some(Error::InvalidExpiry) }
        else if code == 18 { Some(Error::PolicyInvalidated) }
        else if code == 19 { Some(Error::DuplicateSigner) }
        else { None }
    }
}

/// Keys under which the treasury keeps its state.
#[derive(Clone, Copy, Debug, PartialEq, Eq)]
pub enum DataKey {
    /// The admin address that initialized the contract.
    Admin,
    /// The immutable asset address bound to this treasury.
    Asset,
    /// The approval threshold for multi-sig.
    Threshold,
    /// List of authorized signers.
    Signers,
    /// Balance held in treasury.
    Balance,
    /// Transaction proposal by ID.
    Transaction(u64),
    /// Counter for transaction IDs.
    TxCounter,
    /// Whether the contract is initialized.
    Initialized,
    /// The current policy version for multi-sig.
    PolicyVersion,
    /// The access-control contract address for RBAC enforcement.
    AclAddress,
}

/// The three addresses fixed at initialization, admin aside changeable only by
/// `transfer_admin`.
#[derive(Clone, Copy, Debug, PartialEq, Eq)]
pub struct Roles {
    pub admin: Address,
    pub asset: Address,
    pub acl: Address,
}

/// A withdrawal proposal of the multi-sig treasury.
#[derive(Clone, Debug, PartialEq, Eq)]
pub struct Transaction {
    /// Unique identifier.
    pub id: u64,
    /// Destination address for the withdrawal.
    pub to: Address,
    /// Amount to withdraw (in stroops).
    pub amount: i128,
    /// Text description / memo for the transaction.
    pub memo: String,
    /// Addresses that have approved this transaction.
    pub approvals: Vec<Address>,
    /// Whether the transaction has been executed.
    pub executed: bool,
    /// Timestamp when the transaction was proposed.
    pub created_at: u64,
    /// Address that proposed the transaction.
    pub proposer: Address,
    /// Timestamp when the transaction expires.
    pub expires_at: u64,
    /// Whether the transaction has been canceled.
    pub canceled: bool,
    /// The policy version under which this transaction is valid.
    pub policy_version: u32,
}

/// The mathematical value of a transaction.
pub struct TransactionView {
    pub id: u64,
    pub to: Address,
    pub amount: i128,
    pub memo: Seq<char>,
    pub approvals: Seq<Address>,
    pub executed: bool,
    pub created_at: u64,
    pub proposer: Address,
    pub expires_at: u64,
    pub canceled: bool,
    pub policy_version: u32,
}

impl View for Transaction {
    type V = TransactionView;

    open spec fn view(&self) -> TransactionView {
        TransactionView {
            id: self.id,
            to: self.to,
            amount: self.amount,
            memo: self.memo@,
            approvals: self.approvals@,
            executed: self.executed,
            created_at: self.created_at,
            proposer: self.proposer,
            expires_at: self.expires_at,
            canceled: self.canceled,
            policy_version: self.policy_version,
        }
    }
}

/// Treasury configuration data.
#[derive(Clone, Copy, Debug, PartialEq, Eq)]
pub struct TreasuryConfig {
    /// Admin address.
    pub admin: Address,
    /// Asset address.
    pub asset: Address,
    /// Required approval threshold.
    pub threshold: u32,
    /// Number of signers.
    pub signer_count: u32,
    /// Current balance (in stroops).
    pub balance: i128,
    /// Total transactions proposed.
    pub tx_count: u64,
    /// Current policy version.
    pub policy_version: u32,
}

/// An event that the treasury publishes under the topic `treasury`.
#[derive(Clone, Copy, Debug, PartialEq, Eq)]
pub enum Event {
    /// `init`: admin, asset, threshold, signer count.
    Init { admin: Address, asset: Address, threshold: u32, signer_count: u32 },
    /// `deposit`: depositor, amount, new balance.
    Deposit { from: Address, amount: i128, new_balance: i128 },
    /// `propose`: transaction id, proposer, recipient, amount.
    Propose { id: u64, proposer: Address, to: Address, amount: i128 },
    /// `approve`: transaction id, signer, approval count.
    Approve { id: u64, signer: Address, approvals: u32 },
    /// `execute`: transaction id, recipient, amount, new balance.
    Execute { id: u64, to: Address, amount: i128, new_balance: i128 },
    /// `revoke`: transaction id, signer, approval count.
    Revoke { id: u64, signer: Address, approvals: u32 },
    /// `cancel`: transaction id, caller.
    Cancel { id: u64, caller: Address },
    /// `add_sig`: new signer, signer count.
    SignerAdded { signer: Address, signer_count: u32 },
    /// `rem_sig`: removed signer, signer count.
    SignerRemoved { signer: Address, signer_count: u32 },
    /// `thresh`: new threshold.
    ThresholdSet { threshold: u32 },
    /// `admin`: previous admin, new admin.
    AdminTransferred { previous: Address, new_admin: Address },
}

/// What a successful call asks of the host, in order: token movements of the
/// bound asset, a code upgrade, or an event to publish.
#[derive(Clone, Copy, Debug, PartialEq, Eq)]
pub enum Effect {
    /// Move `amount` of the asset from `from` into the treasury's own account.
    CollectDeposit { from: Address, amount: i128 },
    /// Move `amount` of the asset from the treasury's own account to `to`.
    PayOut { to: Address, amount: i128 },
    /// Replace the contract's code by the code with this hash.
    UpgradeCode { wasm_hash: [u8; 32] },
    /// Publish an event.
    Publish(Event),
}

} // verus!
