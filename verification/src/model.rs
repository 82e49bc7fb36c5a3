use vstd::prelude::*;

use crate::seqs::remove_all;
use crate::types::{Address, Effect, Error, Event, Roles, TransactionView, TreasuryConfig};

verus! {

/// The mathematical state of a treasury: what its storage holds, together with
/// the effects its successful calls have asked of the host so far.
pub struct TreasuryView {
    /// `None` until the treasury is initialized.
    pub roles: Option<Roles>,
    pub threshold: u32,
    pub signers: Seq<Address>,
    pub balance: i128,
    pub tx_counter: u64,
    pub policy_version: u32,
    /// The proposal with id `k` is at position `k - 1`.
    pub transactions: Seq<TransactionView>,
    pub log: Seq<Effect>,
}

/// A well-formed proposal stored under id `id` while the policy version is `policy`.
pub open spec fn tx_wf(t: TransactionView, id: int, policy: u32) -> bool {
    &&& t.id == id
    &&& t.amount > 0
    &&& t.approvals.no_duplicates()
    &&& t.approvals.len() <= u32::MAX
    &&& t.policy_version <= policy
    &&& !(t.executed && t.canceled)
}

impl TreasuryView {
    /// What every reachable state satisfies.
    pub open spec fn inv(self) -> bool {
        &&& self.signers.no_duplicates()
        &&& self.signers.len() <= u32::MAX
        &&& self.balance >= 0
        &&& self.transactions.len() == self.tx_counter
        &&& forall|i: int|
            0 <= i < self.transactions.len() ==> #[trigger] tx_wf(
                self.transactions[i],
                i + 1,
                self.policy_version,
            )
        &&& match self.roles {
            None => {
                &&& self.signers.len() == 0
                &&& self.balance == 0
                &&& self.tx_counter == 0
                &&& self.threshold == 0
                &&& self.policy_version == 0
            },
            Some(_) => {
                &&& 1 <= self.threshold <= self.signers.len()
                &&& self.policy_version >= 1
            },
        }
    }

    pub open spec fn initialized(self) -> bool {
        self.roles is Some
    }

    pub open spec fn admin(self) -> Address {
        self.roles->0.admin
    }

    pub open spec fn is_signer(self, a: Address) -> bool {
        self.signers.contains(a)
    }

    /// Whether a proposal with this id exists.
    pub open spec fn has_tx(self, id: u64) -> bool {
        1 <= id <= self.transactions.len()
    }

    /// The proposal with this id (meaningful when `has_tx(id)`).
    pub open spec fn tx(self, id: u64) -> TransactionView {
        self.transactions[id - 1]
    }

    /// The state with the proposal `id` replaced by `t`.
    pub open spec fn with_tx(self, id: u64, t: TransactionView) -> TreasuryView {
        TreasuryView { transactions: self.transactions.update(id - 1, t), ..self }
    }

    /// Whether `caller` passes the admin check, given what the access-control
    /// contract answered about the caller.
    pub open spec fn admin_ok(self, caller: Address, caller_acl_admin: bool) -> bool {
        self.admin() == caller && caller_acl_admin
    }

    /// The state with the policy version moved on by one.
    pub open spec fn bump_policy(self) -> TreasuryView {
        TreasuryView { policy_version: (self.policy_version + 1) as u32, ..self }
    }

    /// The state with `e` appended to the log.
    pub open spec fn emit(self, e: Effect) -> TreasuryView {
        TreasuryView { log: self.log.push(e), ..self }
    }
}

/// The state that follows a call, given the call's outcome: the new state on
/// success, the state before the call on failure.
pub open spec fn after<R>(s: TreasuryView, o: Result<(TreasuryView, R), Error>) -> TreasuryView {
    match o {
        Ok((t, _)) => t,
        Err(_) => s,
    }
}

/// What a call returns, given its outcome.
pub open spec fn answer<R>(o: Result<(TreasuryView, R), Error>) -> Result<R, Error> {
    match o {
        Ok((_, v)) => Ok(v),
        Err(e) => Err(e),
    }
}

/// The state of a treasury that was never initialized.
pub open spec fn empty_treasury() -> TreasuryView {
    TreasuryView {
        roles: None,
        threshold: 0,
        signers: Seq::empty(),
        balance: 0,
        tx_counter: 0,
        policy_version: 0,
        transactions: Seq::empty(),
        log: Seq::empty(),
    }
}

/// Why a proposal can no longer be approved, revoked or executed, if it can't.
pub open spec fn closed_reason(t: TransactionView, now: u64, policy: u32) -> Option<Error> {
    if t.executed {
        Some(Error::AlreadyExecuted)
    } else if t.canceled {
        Some(Error::TransactionCanceled)
    } else if now > t.expires_at {
        Some(Error::TransactionExpired)
    } else if t.policy_version != policy {
        Some(Error::PolicyInvalidated)
    } else {
        None
    }
}

/// `initialize`: bind admin, asset, threshold, signers and the access-control
/// contract, once.
pub open spec fn initialize_step(
    s: TreasuryView,
    admin: Address,
    asset: Address,
    threshold: u32,
    signers: Seq<Address>,
    acl: Address,
    admin_acl_admin: bool,
) -> Result<(TreasuryView, ()), Error> {
    if s.initialized() {
        Err(Error::AlreadyInitialized)
    } else if !signers.no_duplicates() {
        Err(Error::DuplicateSigner)
    } else if threshold == 0 || threshold > signers.len() {
        Err(Error::InvalidThreshold)
    } else if !admin_acl_admin {
        Err(Error::Unauthorized)
    } else {
        Ok(
            (
                TreasuryView {
                    roles: Some(Roles { admin, asset, acl }),
                    threshold,
                    signers,
                    balance: 0,
                    tx_counter: 0,
                    policy_version: 1,
                    transactions: Seq::empty(),
                    log: s.log.push(
                        Effect::Publish(
                            Event::Init {
                                admin,
                                asset,
                                threshold,
                                signer_count: signers.len() as u32,
                            },
                        ),
                    ),
                },
                (),
            ),
        )
    }
}

/// `deposit`: take `amount` of the asset from `from` into the treasury.
pub open spec fn deposit_step(s: TreasuryView, from: Address, amount: i128) -> Result<
    (TreasuryView, ()),
    Error,
> {
    if !s.initialized() {
        Err(Error::NotInitialized)
    } else if amount <= 0 {
        Err(Error::InvalidAmount)
    } else {
        let new_balance = (s.balance + amount) as i128;
        Ok(
            (
                TreasuryView { balance: new_balance, ..s }.emit(
                    Effect::CollectDeposit { from, amount },
                ).emit(Effect::Publish(Event::Deposit { from, amount, new_balance })),
                (),
            ),
        )
    }
}

/// The proposal that `propose_withdrawal` stores.
pub open spec fn new_proposal(
    s: TreasuryView,
    proposer: Address,
    to: Address,
    amount: i128,
    memo: Seq<char>,
    expires_at: u64,
    now: u64,
) -> TransactionView {
    TransactionView {
        id: (s.tx_counter + 1) as u64,
        to,
        amount,
        memo,
        approvals: seq![proposer],
        executed: false,
        created_at: now,
        proposer,
        expires_at,
        canceled: false,
        policy_version: s.policy_version,
    }
}

/// `propose_withdrawal`: a signer proposes to pay `amount` to `to`; the
/// proposer's approval comes with the proposal. Returns the new proposal's id.
pub open spec fn propose_step(
    s: TreasuryView,
    proposer: Address,
    to: Address,
    amount: i128,
    memo: Seq<char>,
    expires_at: u64,
    now: u64,
) -> Result<(TreasuryView, u64), Error> {
    if !s.initialized() {
        Err(Error::NotInitialized)
    } else if !s.is_signer(proposer) {
        Err(Error::NotASigner)
    } else if amount <= 0 {
        Err(Error::InvalidAmount)
    } else if expires_at <= now {
        Err(Error::InvalidExpiry)
    } else if s.balance < amount {
        Err(Error::InsufficientFunds)
    } else {
        let id = (s.tx_counter + 1) as u64;
        let t = new_proposal(s, proposer, to, amount, memo, expires_at, now);
        Ok(
            (
                TreasuryView {
                    tx_counter: id,
                    transactions: s.transactions.push(t),
                    ..s
                }.emit(Effect::Publish(Event::Propose { id, proposer, to, amount })),
                id,
            ),
        )
    }
}

/// `approve`: a signer adds its approval to an open proposal. Returns the
/// number of approvals.
pub open spec fn approve_step(s: TreasuryView, signer: Address, tx_id: u64, now: u64) -> Result<
    (TreasuryView, u32),
    Error,
> {
    if !s.initialized() {
        Err(Error::NotInitialized)
    } else if !s.is_signer(signer) {
        Err(Error::NotASigner)
    } else if !s.has_tx(tx_id) {
        Err(Error::TransactionNotFound)
    } else if closed_reason(s.tx(tx_id), now, s.policy_version) is Some {
        Err(closed_reason(s.tx(tx_id), now, s.policy_version)->0)
    } else if s.tx(tx_id).approvals.contains(signer) {
        Err(Error::AlreadyApproved)
    } else {
        let t = s.tx(tx_id);
        let approvals = t.approvals.push(signer);
        let count = approvals.len() as u32;
        Ok(
            (
                s.with_tx(tx_id, TransactionView { approvals, ..t }).emit(
                    Effect::Publish(Event::Approve { id: tx_id, signer, approvals: count }),
                ),
                count,
            ),
        )
    }
}

/// `execute`: a signer executes an open proposal that has reached the
/// threshold, paying out of the treasury. `held` is what the treasury's own
/// account holds of the asset.
pub open spec fn execute_step(
    s: TreasuryView,
    executor: Address,
    tx_id: u64,
    now: u64,
    held: i128,
) -> Result<(TreasuryView, ()), Error> {
    if !s.initialized() {
        Err(Error::NotInitialized)
    } else if !s.is_signer(executor) {
        Err(Error::NotASigner)
    } else if !s.has_tx(tx_id) {
        Err(Error::TransactionNotFound)
    } else if closed_reason(s.tx(tx_id), now, s.policy_version) is Some {
        Err(closed_reason(s.tx(tx_id), now, s.policy_version)->0)
    } else if s.tx(tx_id).approvals.len() < s.threshold {
        Err(Error::Unauthorized)
    } else if s.balance < s.tx(tx_id).amount {
        Err(Error::InsufficientFunds)
    } else if held < s.tx(tx_id).amount {
        Err(Error::InsufficientFunds)
    } else {
        let t = s.tx(tx_id);
        let new_balance = (s.balance - t.amount) as i128;
        Ok(
            (
                TreasuryView {
                    balance: new_balance,
                    ..s.with_tx(tx_id, TransactionView { executed: true, ..t })
                }.emit(Effect::PayOut { to: t.to, amount: t.amount }).emit(
                    Effect::Publish(
                        Event::Execute { id: tx_id, to: t.to, amount: t.amount, new_balance },
                    ),
                ),
                (),
            ),
        )
    }
}

/// `revoke_approval`: a signer withdraws its approval of an open proposal.
/// Returns the number of approvals left.
pub open spec fn revoke_step(s: TreasuryView, signer: Address, tx_id: u64, now: u64) -> Result<
    (TreasuryView, u32),
    Error,
> {
    if !s.initialized() {
        Err(Error::NotInitialized)
    } else if !s.is_signer(signer) {
        Err(Error::NotASigner)
    } else if !s.has_tx(tx_id) {
        Err(Error::TransactionNotFound)
    } else if closed_reason(s.tx(tx_id), now, s.policy_version) is Some {
        Err(closed_reason(s.tx(tx_id), now, s.policy_version)->0)
    } else if !s.tx(tx_id).approvals.contains(signer) {
        Err(Error::NotApproved)
    } else {
        let t = s.tx(tx_id);
        let approvals = remove_all(t.approvals, signer);
        let count = approvals.len() as u32;
        Ok(
            (
                s.with_tx(tx_id, TransactionView { approvals, ..t }).emit(
                    Effect::Publish(Event::Revoke { id: tx_id, signer, approvals: count }),
                ),
                count,
            ),
        )
    }
}

/// `cancel_withdrawal`: the proposer or the admin cancels a proposal that is
/// neither executed nor canceled.
pub open spec fn cancel_step(s: TreasuryView, caller: Address, tx_id: u64) -> Result<
    (TreasuryView, ()),
    Error,
> {
    if !s.initialized() {
        Err(Error::NotInitialized)
    } else if !s.has_tx(tx_id) {
        Err(Error::TransactionNotFound)
    } else if s.tx(tx_id).executed {
        Err(Error::AlreadyExecuted)
    } else if s.tx(tx_id).canceled {
        Err(Error::TransactionCanceled)
    } else if caller != s.tx(tx_id).proposer && caller != s.admin() {
        Err(Error::Unauthorized)
    } else {
        let t = s.tx(tx_id);
        Ok(
            (
                s.with_tx(tx_id, TransactionView { canceled: true, ..t }).emit(
                    Effect::Publish(Event::Cancel { id: tx_id, caller }),
                ),
                (),
            ),
        )
    }
}

/// `add_signer`: the admin adds a signer; the policy version moves on.
pub open spec fn add_signer_step(
    s: TreasuryView,
    admin: Address,
    admin_acl_admin: bool,
    new_signer: Address,
) -> Result<(TreasuryView, ()), Error> {
    if !s.initialized() {
        Err(Error::NotInitialized)
    } else if !s.admin_ok(admin, admin_acl_admin) {
        Err(Error::Unauthorized)
    } else if s.is_signer(new_signer) {
        Err(Error::AlreadySigner)
    } else {
        let signers = s.signers.push(new_signer);
        Ok(
            (
                TreasuryView { signers, ..s.bump_policy() }.emit(
                    Effect::Publish(
                        Event::SignerAdded { signer: new_signer, signer_count: signers.len() as u32 },
                    ),
                ),
                (),
            ),
        )
    }
}

/// `remove_signer`: the admin removes a signer, never below the threshold; the
/// policy version moves on.
pub open spec fn remove_signer_step(
    s: TreasuryView,
    admin: Address,
    admin_acl_admin: bool,
    signer: Address,
) -> Result<(TreasuryView, ()), Error> {
    if !s.initialized() {
        Err(Error::NotInitialized)
    } else if !s.admin_ok(admin, admin_acl_admin) {
        Err(Error::Unauthorized)
    } else if s.signers.len() <= s.threshold {
        Err(Error::ThresholdBreach)
    } else if !s.is_signer(signer) {
        Err(Error::NotASigner)
    } else {
        let signers = remove_all(s.signers, signer);
        Ok(
            (
                TreasuryView { signers, ..s.bump_policy() }.emit(
                    Effect::Publish(
                        Event::SignerRemoved { signer, signer_count: signers.len() as u32 },
                    ),
                ),
                (),
            ),
        )
    }
}

/// `set_threshold`: the admin sets a threshold between one and the signer
/// count; the policy version moves on.
pub open spec fn set_threshold_step(
    s: TreasuryView,
    admin: Address,
    admin_acl_admin: bool,
    new_threshold: u32,
) -> Result<(TreasuryView, ()), Error> {
    if !s.initialized() {
        Err(Error::NotInitialized)
    } else if !s.admin_ok(admin, admin_acl_admin) {
        Err(Error::Unauthorized)
    } else if new_threshold == 0 || new_threshold > s.signers.len() {
        Err(Error::InvalidThreshold)
    } else {
        Ok(
            (
                TreasuryView { threshold: new_threshold, ..s.bump_policy() }.emit(
                    Effect::Publish(Event::ThresholdSet { threshold: new_threshold }),
                ),
                (),
            ),
        )
    }
}

/// `transfer_admin`: the admin hands the role to an address that the
/// access-control contract ranks admin or above.
pub open spec fn transfer_admin_step(
    s: TreasuryView,
    current_admin: Address,
    current_acl_admin: bool,
    new_admin: Address,
    new_acl_admin: bool,
) -> Result<(TreasuryView, ()), Error> {
    if !s.initialized() {
        Err(Error::NotInitialized)
    } else if !s.admin_ok(current_admin, current_acl_admin) {
        Err(Error::Unauthorized)
    } else if !new_acl_admin {
        Err(Error::Unauthorized)
    } else {
        let r = s.roles->0;
        Ok(
            (
                TreasuryView { roles: Some(Roles { admin: new_admin, ..r }), ..s }.emit(
                    Effect::Publish(Event::AdminTransferred { previous: current_admin, new_admin }),
                ),
                (),
            ),
        )
    }
}

/// `upgrade`: the admin replaces the contract's code.
pub open spec fn upgrade_step(
    s: TreasuryView,
    admin: Address,
    admin_acl_admin: bool,
    wasm_hash: [u8; 32],
) -> Result<(TreasuryView, ()), Error> {
    if !s.initialized() {
        Err(Error::NotInitialized)
    } else if !s.admin_ok(admin, admin_acl_admin) {
        Err(Error::Unauthorized)
    } else {
        Ok((s.emit(Effect::UpgradeCode { wasm_hash }), ()))
    }
}

/// The configuration `get_config` reports of an initialized treasury.
pub open spec fn config_of(s: TreasuryView) -> TreasuryConfig {
    TreasuryConfig {
        admin: s.roles->0.admin,
        asset: s.roles->0.asset,
        threshold: s.threshold,
        signer_count: s.signers.len() as u32,
        balance: s.balance,
        tx_count: s.tx_counter,
        policy_version: s.policy_version,
    }
}

} // verus!
