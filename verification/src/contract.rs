use vstd::prelude::*;

use crate::invariants::{
    lemma_add_signer_inv, lemma_approve_inv, lemma_cancel_inv, lemma_deposit_inv,
    lemma_execute_inv, lemma_initialize_inv, lemma_propose_inv, lemma_remove_signer_inv,
    lemma_revoke_inv, lemma_set_threshold_inv, lemma_transfer_admin_inv, lemma_tx_wf,
    lemma_upgrade_inv,
};
use crate::model::{
    add_signer_step, after, answer, approve_step, cancel_step, config_of, deposit_step,
    empty_treasury, execute_step, tx_wf, initialize_step, propose_step, remove_signer_step, revoke_step,
    set_threshold_step, transfer_admin_step, upgrade_step, TreasuryView,
};
use crate::seqs::{
    contains_address, copy_addresses, has_duplicate, lemma_remove_all_len, without_address,
};
use crate::types::{
    Address, DataKey, Effect, Error, Event, Roles, Transaction, TransactionView, TreasuryConfig,
};

verus! {

/// The views of a sequence of proposals.
pub open spec fn tx_views(s: Seq<Transaction>) -> Seq<TransactionView> {
    s.map_values(|t: Transaction| t@)
}

proof fn lemma_tx_views_update(s: Seq<Transaction>, i: int, t: Transaction)
    requires
        0 <= i < s.len(),
    ensures
        tx_views(s.update(i, t)) == tx_views(s).update(i, t@),
{
    assert(tx_views(s.update(i, t)) =~= tx_views(s).update(i, t@));
}

proof fn lemma_tx_views_push(s: Seq<Transaction>, t: Transaction)
    ensures
        tx_views(s.push(t)) == tx_views(s).push(t@),
{
    assert(tx_views(s.push(t)) =~= tx_views(s).push(t@));
}

/// Whether storage holds an entry under `key` in state `s`.
pub open spec fn key_present(s: TreasuryView, key: DataKey) -> bool {
    match key {
        DataKey::Transaction(id) => s.has_tx(id),
        _ => s.initialized(),
    }
}

/// The multi-sig treasury: its stored state, and the effects (token movements,
/// code upgrade, events) that its successful calls have asked of the host.
pub struct TreasuryContract {
    roles: Option<Roles>,
    threshold: u32,
    signers: Vec<Address>,
    balance: i128,
    tx_counter: u64,
    policy_version: u32,
    transactions: Vec<Transaction>,
    log: Vec<Effect>,
}

impl View for TreasuryContract {
    type V = TreasuryView;

    closed spec fn view(&self) -> TreasuryView {
        TreasuryView {
            roles: self.roles,
            threshold: self.threshold,
            signers: self.signers@,
            balance: self.balance,
            tx_counter: self.tx_counter,
            policy_version: self.policy_version,
            transactions: tx_views(self.transactions@),
            log: self.log@,
        }
    }
}

/// The state that storage holding these entries stands for, before any call.
pub open spec fn stored_state(
    roles: Option<Roles>,
    threshold: u32,
    signers: Seq<Address>,
    balance: i128,
    tx_counter: u64,
    policy_version: u32,
    transactions: Seq<TransactionView>,
) -> TreasuryView {
    TreasuryView {
        roles,
        threshold,
        signers,
        balance,
        tx_counter,
        policy_version,
        transactions,
        log: Seq::empty(),
    }
}

/// Whether `t` is a well-formed proposal under id `id` and policy version `policy`.
fn stored_tx_ok(t: &Transaction, id: u64, policy: u32) -> (r: bool)
    ensures
        r == tx_wf(t@, id as int, policy),
{
    t.id == id && t.amount > 0 && !has_duplicate(&t.approvals) && (t.approvals.len() as u64)
        <= (u32::MAX as u64) && t.policy_version <= policy && !(t.executed && t.canceled)
}

impl TreasuryContract {
    /// The treasury keeps its invariant.
    pub open spec fn wf(&self) -> bool {
        self@.inv()
    }

    /// A treasury whose storage is empty: nothing is initialized yet.
    pub fn new() -> (c: TreasuryContract)
        ensures
            c.wf(),
            c@ == empty_treasury(),
    {
        let c = TreasuryContract {
            roles: None,
            threshold: 0,
            signers: Vec::new(),
            balance: 0,
            tx_counter: 0,
            policy_version: 0,
            transactions: Vec::new(),
            log: Vec::new(),
        };
        assert(tx_views(c.transactions@) =~= Seq::<TransactionView>::empty());
        c
    }

    /// The treasury that storage holding these entries stands for, or `None`
    /// when they do not form a state that the treasury can reach.
    pub fn restore(
        roles: Option<Roles>,
        threshold: u32,
        signers: Vec<Address>,
        balance: i128,
        tx_counter: u64,
        policy_version: u32,
        transactions: Vec<Transaction>,
    ) -> (r: Option<TreasuryContract>)
        ensures
            r is Some <==> stored_state(
                roles,
                threshold,
                signers@,
                balance,
                tx_counter,
                policy_version,
                tx_views(transactions@),
            ).inv(),
            r matches Some(c) ==> c.wf() && c@ == stored_state(
                roles,
                threshold,
                signers@,
                balance,
                tx_counter,
                policy_version,
                tx_views(transactions@),
            ),
    {
        let ghost st = stored_state(
            roles,
            threshold,
            signers@,
            balance,
            tx_counter,
            policy_version,
            tx_views(transactions@),
        );
        if has_duplicate(&signers) || (signers.len() as u64) > (u32::MAX as u64) || balance < 0
            || (transactions.len() as u64) != tx_counter {
            return None;
        }
        let mut i: usize = 0;
        while i < transactions.len()
            invariant
                0 <= i <= transactions.len(),
                st == stored_state(
                    roles,
                    threshold,
                    signers@,
                    balance,
                    tx_counter,
                    policy_version,
                    tx_views(transactions@),
                ),
                forall|j: int|
                    0 <= j < i ==> #[trigger] tx_wf(st.transactions[j], j + 1, policy_version),
            decreases transactions.len() - i,
        {
            if !stored_tx_ok(&transactions[i], (i + 1) as u64, policy_version) {
                assert(!tx_wf(st.transactions[i as int], i + 1, policy_version));
                return None;
            }
            i = i + 1;
        }
        let shape_ok = match &roles {
            None => signers.len() == 0 && balance == 0 && tx_counter == 0 && threshold == 0
                && policy_version == 0,
            Some(_) => 1 <= threshold && (threshold as u64) <= (signers.len() as u64)
                && policy_version >= 1,
        };
        if !shape_ok {
            return None;
        }
        let c = TreasuryContract {
            roles,
            threshold,
            signers,
            balance,
            tx_counter,
            policy_version,
            transactions,
            log: Vec::new(),
        };
        assert(c@ =~= st);
        Some(c)
    }

    /// The index of the proposal `tx_id`, if it exists.
    fn tx_index(&self, tx_id: u64) -> (r: Option<usize>)
        requires
            self.wf(),
        ensures
            r matches Some(i) ==> self@.has_tx(tx_id) && i == tx_id - 1,
            r is None ==> !self@.has_tx(tx_id),
    {
        if tx_id == 0 || tx_id > self.transactions.len() as u64 {
            None
        } else {
            Some((tx_id - 1) as usize)
        }
    }

    /// `Ok` exactly when the treasury is initialized.
    pub fn require_initialized(&self) -> (r: Result<(), Error>)
        ensures
            r == (if self@.initialized() {
                Ok::<(), Error>(())
            } else {
                Err(Error::NotInitialized)
            }),
    {
        if self.roles.is_none() {
            return Err(Error::NotInitialized);
        }
        Ok(())
    }

    /// The address of the access-control contract, once initialized.
    pub fn get_acl(&self) -> (r: Result<Address, Error>)
        ensures
            r == (if self@.initialized() {
                Ok::<Address, Error>(self@.roles->0.acl)
            } else {
                Err(Error::NotInitialized)
            }),
    {
        match &self.roles {
            Some(roles) => Ok(roles.acl),
            None => Err(Error::NotInitialized),
        }
    }

    /// `Ok` when the treasury is initialized and the access-control contract
    /// ranks the caller admin or above (`caller_acl_admin`).
    pub fn require_acl_admin_or_above(&self, caller_acl_admin: bool) -> (r: Result<(), Error>)
        ensures
            r == (if !self@.initialized() {
                Err(Error::NotInitialized)
            } else if !caller_acl_admin {
                Err(Error::Unauthorized)
            } else {
                Ok::<(), Error>(())
            }),
    {
        match self.get_acl() {
            Err(e) => Err(e),
            Ok(_) => {
                if !caller_acl_admin {
                    Err(Error::Unauthorized)
                } else {
                    Ok(())
                }
            },
        }
    }

    /// `Ok` when the treasury is initialized and the access-control contract
    /// ranks the caller member or above (`caller_acl_member`).
    pub fn require_acl_member_or_above(&self, caller_acl_member: bool) -> (r: Result<(), Error>)
        ensures
            r == (if !self@.initialized() {
                Err(Error::NotInitialized)
            } else if !caller_acl_member {
                Err(Error::Unauthorized)
            } else {
                Ok::<(), Error>(())
            }),
    {
        match self.get_acl() {
            Err(e) => Err(e),
            Ok(_) => {
                if !caller_acl_member {
                    Err(Error::Unauthorized)
                } else {
                    Ok(())
                }
            },
        }
    }

    /// `Ok` when `caller` is the admin and the access-control contract ranks it
    /// admin or above.
    pub fn require_admin(&self, caller: &Address, caller_acl_admin: bool) -> (r: Result<(), Error>)
        ensures
            r == (if !self@.initialized() {
                Err(Error::NotInitialized)
            } else if !self@.admin_ok(*caller, caller_acl_admin) {
                Err(Error::Unauthorized)
            } else {
                Ok::<(), Error>(())
            }),
    {
        match &self.roles {
            None => Err(Error::NotInitialized),
            Some(roles) => {
                if !caller.same_as(&roles.admin) {
                    return Err(Error::Unauthorized);
                }
                self.require_acl_admin_or_above(caller_acl_admin)
            },
        }
    }

    /// `Ok` when `caller` is one of the signers.
    pub fn require_signer(&self, caller: &Address) -> (r: Result<(), Error>)
        ensures
            r == (if self@.is_signer(*caller) {
                Ok::<(), Error>(())
            } else {
                Err(Error::NotASigner)
            }),
    {
        if !contains_address(&self.signers, caller) {
            return Err(Error::NotASigner);
        }
        Ok(())
    }

    /// Initialize the treasury with an admin, the asset it holds, the approval
    /// threshold, the signers and the access-control contract.
    /// `admin_acl_admin` is whether the access-control contract ranks `admin`
    /// admin or above.
    pub fn initialize(
        &mut self,
        admin: Address,
        asset: Address,
        threshold: u32,
        signers: Vec<Address>,
        acl_address: Address,
        admin_acl_admin: bool,
    ) -> (r: Result<(), Error>)
        requires
            old(self).wf(),
            signers@.len() <= u32::MAX,
        ensures
            final(self).wf(),
            final(self)@ == after(
                old(self)@,
                initialize_step(
                    old(self)@,
                    admin,
                    asset,
                    threshold,
                    signers@,
                    acl_address,
                    admin_acl_admin,
                ),
            ),
            r == answer(
                initialize_step(
                    old(self)@,
                    admin,
                    asset,
                    threshold,
                    signers@,
                    acl_address,
                    admin_acl_admin,
                ),
            ),
    {
        proof {
            lemma_initialize_inv(
                self@,
                admin,
                asset,
                threshold,
                signers@,
                acl_address,
                admin_acl_admin,
            );
        }
        if self.roles.is_some() {
            return Err(Error::AlreadyInitialized);
        }
        if has_duplicate(&signers) {
            return Err(Error::DuplicateSigner);
        }
        let signer_count = signers.len() as u32;
        if threshold == 0 || threshold > signer_count {
            return Err(Error::InvalidThreshold);
        }
        if !admin_acl_admin {
            return Err(Error::Unauthorized);
        }
        self.roles = Some(Roles { admin, asset, acl: acl_address });
        self.threshold = threshold;
        self.signers = signers;
        self.balance = 0;
        self.tx_counter = 0;
        self.policy_version = 1;
        self.transactions = Vec::new();
        self.log.push(
            Effect::Publish(Event::Init { admin, asset, threshold, signer_count }),
        );
        assert(tx_views(self.transactions@) =~= Seq::<TransactionView>::empty());
        Ok(())
    }

    /// Deposit `amount` of the asset from `from` into the treasury.
    pub fn deposit(&mut self, from: Address, amount: i128) -> (r: Result<(), Error>)
        requires
            old(self).wf(),
            amount > 0 ==> old(self)@.balance + amount <= i128::MAX,
        ensures
            final(self).wf(),
            final(self)@ == after(old(self)@, deposit_step(old(self)@, from, amount)),
            r == answer(deposit_step(old(self)@, from, amount)),
    {
        proof {
            lemma_deposit_inv(self@, from, amount);
        }
        if let Err(e) = self.require_initialized() {
            return Err(e);
        }
        if amount <= 0 {
            return Err(Error::InvalidAmount);
        }
        let new_balance = self.balance + amount;
        self.balance = new_balance;
        self.log.push(Effect::CollectDeposit { from, amount });
        self.log.push(Effect::Publish(Event::Deposit { from, amount, new_balance }));
        Ok(())
    }

    /// Propose a withdrawal of `amount` to `to`, expiring at `expires_at`, at
    /// ledger time `now`. Returns the new proposal's id.
    pub fn propose_withdrawal(
        &mut self,
        proposer: Address,
        to: Address,
        amount: i128,
        memo: String,
        expires_at: u64,
        now: u64,
    ) -> (r: Result<u64, Error>)
        requires
            old(self).wf(),
            old(self)@.tx_counter < u64::MAX,
        ensures
            final(self).wf(),
            final(self)@ == after(
                old(self)@,
                propose_step(old(self)@, proposer, to, amount, memo@, expires_at, now),
            ),
            r == answer(propose_step(old(self)@, proposer, to, amount, memo@, expires_at, now)),
    {
        proof {
            lemma_propose_inv(self@, proposer, to, amount, memo@, expires_at, now);
        }
        if let Err(e) = self.require_initialized() {
            return Err(e);
        }
        if let Err(e) = self.require_signer(&proposer) {
            return Err(e);
        }
        if amount <= 0 {
            return Err(Error::InvalidAmount);
        }
        if expires_at <= now {
            return Err(Error::InvalidExpiry);
        }
        if self.balance < amount {
            return Err(Error::InsufficientFunds);
        }
        let id = self.tx_counter + 1;
        self.tx_counter = id;
        let mut approvals: Vec<Address> = Vec::new();
        approvals.push(proposer);
        let t = Transaction {
            id,
            to,
            amount,
            memo,
            approvals,
            executed: false,
            created_at: now,
            proposer,
            expires_at,
            canceled: false,
            policy_version: self.policy_version,
        };
        proof {
            lemma_tx_views_push(self.transactions@, t);
            assert(t@.approvals =~= seq![proposer]);
        }
        self.transactions.push(t);
        self.log.push(Effect::Publish(Event::Propose { id, proposer, to, amount }));
        Ok(id)
    }

    /// Why proposal `i` can no longer be approved, revoked or executed at
    /// ledger time `now`, if it can't.
    fn closed_reason(&self, i: usize, now: u64) -> (r: Option<Error>)
        requires
            i < self.transactions@.len(),
        ensures
            r == crate::model::closed_reason(
                self.transactions@[i as int]@,
                now,
                self.policy_version,
            ),
    {
        let t = &self.transactions[i];
        if t.executed {
            Some(Error::AlreadyExecuted)
        } else if t.canceled {
            Some(Error::TransactionCanceled)
        } else if now > t.expires_at {
            Some(Error::TransactionExpired)
        } else if t.policy_version != self.policy_version {
            Some(Error::PolicyInvalidated)
        } else {
            None
        }
    }

    /// Approve a pending proposal at ledger time `now`. Returns the number of
    /// approvals.
    pub fn approve(&mut self, signer: Address, tx_id: u64, now: u64) -> (r: Result<u32, Error>)
        requires
            old(self).wf(),
            old(self)@.has_tx(tx_id) ==> old(self)@.tx(tx_id).approvals.len() < u32::MAX,
        ensures
            final(self).wf(),
            final(self)@ == after(old(self)@, approve_step(old(self)@, signer, tx_id, now)),
            r == answer(approve_step(old(self)@, signer, tx_id, now)),
    {
        proof {
            lemma_approve_inv(self@, signer, tx_id, now);
        }
        if let Err(e) = self.require_initialized() {
            return Err(e);
        }
        if let Err(e) = self.require_signer(&signer) {
            return Err(e);
        }
        let i = match self.tx_index(tx_id) {
            None => {
                return Err(Error::TransactionNotFound);
            },
            Some(i) => i,
        };
        if let Some(e) = self.closed_reason(i, now) {
            return Err(e);
        }
        if contains_address(&self.transactions[i].approvals, &signer) {
            return Err(Error::AlreadyApproved);
        }
        let ghost txs = self.transactions@;
        let mut t = self.transactions.remove(i);
        t.approvals.push(signer);
        let count = t.approvals.len() as u32;
        let ghost tv = t@;
        self.transactions.insert(i, t);
        proof {
            assert(self.transactions@ =~= txs.update(i as int, t));
            lemma_tx_views_update(txs, i as int, t);
        }
        self.log.push(Effect::Publish(Event::Approve { id: tx_id, signer, approvals: count }));
        Ok(count)
    }

    /// Execute a fully approved proposal at ledger time `now`, paying it out of
    /// the treasury. `held` is the asset balance of the treasury's own account.
    pub fn execute(&mut self, executor: Address, tx_id: u64, now: u64, held: i128) -> (r: Result<
        (),
        Error,
    >)
        requires
            old(self).wf(),
        ensures
            final(self).wf(),
            final(self)@ == after(old(self)@, execute_step(old(self)@, executor, tx_id, now, held)),
            r == answer(execute_step(old(self)@, executor, tx_id, now, held)),
    {
        proof {
            lemma_execute_inv(self@, executor, tx_id, now, held);
        }
        if let Err(e) = self.require_initialized() {
            return Err(e);
        }
        if let Err(e) = self.require_signer(&executor) {
            return Err(e);
        }
        let i = match self.tx_index(tx_id) {
            None => {
                return Err(Error::TransactionNotFound);
            },
            Some(i) => i,
        };
        if let Some(e) = self.closed_reason(i, now) {
            return Err(e);
        }
        if (self.transactions[i].approvals.len() as u64) < (self.threshold as u64) {
            return Err(Error::Unauthorized);
        }
        let amount = self.transactions[i].amount;
        let to = self.transactions[i].to;
        proof {
            lemma_tx_wf(self@, tx_id);
        }
        if self.balance < amount {
            return Err(Error::InsufficientFunds);
        }
        if held < amount {
            return Err(Error::InsufficientFunds);
        }
        let ghost txs = self.transactions@;
        let mut t = self.transactions.remove(i);
        t.executed = true;
        self.transactions.insert(i, t);
        proof {
            assert(self.transactions@ =~= txs.update(i as int, t));
            lemma_tx_views_update(txs, i as int, t);
        }
        let new_balance = self.balance - amount;
        self.balance = new_balance;
        self.log.push(Effect::PayOut { to, amount });
        self.log.push(Effect::Publish(Event::Execute { id: tx_id, to, amount, new_balance }));
        Ok(())
    }

    /// Revoke an approval of a pending proposal at ledger time `now`. Returns
    /// the number of approvals left.
    pub fn revoke_approval(&mut self, signer: Address, tx_id: u64, now: u64) -> (r: Result<
        u32,
        Error,
    >)
        requires
            old(self).wf(),
        ensures
            final(self).wf(),
            final(self)@ == after(old(self)@, revoke_step(old(self)@, signer, tx_id, now)),
            r == answer(revoke_step(old(self)@, signer, tx_id, now)),
    {
        proof {
            lemma_revoke_inv(self@, signer, tx_id, now);
        }
        if let Err(e) = self.require_initialized() {
            return Err(e);
        }
        if let Err(e) = self.require_signer(&signer) {
            return Err(e);
        }
        let i = match self.tx_index(tx_id) {
            None => {
                return Err(Error::TransactionNotFound);
            },
            Some(i) => i,
        };
        if let Some(e) = self.closed_reason(i, now) {
            return Err(e);
        }
        if !contains_address(&self.transactions[i].approvals, &signer) {
            return Err(Error::NotApproved);
        }
        let remaining = without_address(&self.transactions[i].approvals, &signer);
        proof {
            lemma_tx_wf(self@, tx_id);
            lemma_remove_all_len(self.transactions@[i as int].approvals@, signer);
        }
        let count = remaining.len() as u32;
        let ghost txs = self.transactions@;
        let mut t = self.transactions.remove(i);
        t.approvals = remaining;
        self.transactions.insert(i, t);
        proof {
            assert(self.transactions@ =~= txs.update(i as int, t));
            lemma_tx_views_update(txs, i as int, t);
        }
        self.log.push(Effect::Publish(Event::Revoke { id: tx_id, signer, approvals: count }));
        Ok(count)
    }

    /// Cancel a proposal; only its proposer or the admin may.
    pub fn cancel_withdrawal(&mut self, caller: Address, tx_id: u64) -> (r: Result<(), Error>)
        requires
            old(self).wf(),
        ensures
            final(self).wf(),
            final(self)@ == after(old(self)@, cancel_step(old(self)@, caller, tx_id)),
            r == answer(cancel_step(old(self)@, caller, tx_id)),
    {
        proof {
            lemma_cancel_inv(self@, caller, tx_id);
        }
        let admin = match &self.roles {
            None => {
                return Err(Error::NotInitialized);
            },
            Some(roles) => roles.admin,
        };
        let i = match self.tx_index(tx_id) {
            None => {
                return Err(Error::TransactionNotFound);
            },
            Some(i) => i,
        };
        if self.transactions[i].executed {
            return Err(Error::AlreadyExecuted);
        }
        if self.transactions[i].canceled {
            return Err(Error::TransactionCanceled);
        }
        if !caller.same_as(&self.transactions[i].proposer) && !caller.same_as(&admin) {
            return Err(Error::Unauthorized);
        }
        let ghost txs = self.transactions@;
        let mut t = self.transactions.remove(i);
        t.canceled = true;
        self.transactions.insert(i, t);
        proof {
            assert(self.transactions@ =~= txs.update(i as int, t));
            lemma_tx_views_update(txs, i as int, t);
        }
        self.log.push(Effect::Publish(Event::Cancel { id: tx_id, caller }));
        Ok(())
    }

    /// Add a signer; admin only. Moves the policy version on.
    pub fn add_signer(&mut self, admin: Address, admin_acl_admin: bool, new_signer: Address) -> (r:
        Result<(), Error>)
        requires
            old(self).wf(),
            old(self)@.signers.len() < u32::MAX,
            old(self)@.policy_version < u32::MAX,
        ensures
            final(self).wf(),
            final(self)@ == after(
                old(self)@,
                add_signer_step(old(self)@, admin, admin_acl_admin, new_signer),
            ),
            r == answer(add_signer_step(old(self)@, admin, admin_acl_admin, new_signer)),
    {
        proof {
            lemma_add_signer_inv(self@, admin, admin_acl_admin, new_signer);
        }
        if let Err(e) = self.require_initialized() {
            return Err(e);
        }
        if let Err(e) = self.require_admin(&admin, admin_acl_admin) {
            return Err(e);
        }
        if contains_address(&self.signers, &new_signer) {
            return Err(Error::AlreadySigner);
        }
        self.signers.push(new_signer);
        self.policy_version = self.policy_version + 1;
        let signer_count = self.signers.len() as u32;
        self.log.push(Effect::Publish(Event::SignerAdded { signer: new_signer, signer_count }));
        Ok(())
    }

    /// Remove a signer; admin only, never below the threshold. Moves the policy
    /// version on.
    pub fn remove_signer(&mut self, admin: Address, admin_acl_admin: bool, signer: Address) -> (r:
        Result<(), Error>)
        requires
            old(self).wf(),
            old(self)@.policy_version < u32::MAX,
        ensures
            final(self).wf(),
            final(self)@ == after(
                old(self)@,
                remove_signer_step(old(self)@, admin, admin_acl_admin, signer),
            ),
            r == answer(remove_signer_step(old(self)@, admin, admin_acl_admin, signer)),
    {
        proof {
            lemma_remove_signer_inv(self@, admin, admin_acl_admin, signer);
        }
        if let Err(e) = self.require_initialized() {
            return Err(e);
        }
        if let Err(e) = self.require_admin(&admin, admin_acl_admin) {
            return Err(e);
        }
        if (self.signers.len() as u64) <= (self.threshold as u64) {
            return Err(Error::ThresholdBreach);
        }
        if !contains_address(&self.signers, &signer) {
            return Err(Error::NotASigner);
        }
        let remaining = without_address(&self.signers, &signer);
        proof {
            lemma_remove_all_len(self.signers@, signer);
        }
        self.signers = remaining;
        self.policy_version = self.policy_version + 1;
        let signer_count = self.signers.len() as u32;
        self.log.push(Effect::Publish(Event::SignerRemoved { signer, signer_count }));
        Ok(())
    }

    /// Set the approval threshold; admin only. Moves the policy version on.
    pub fn set_threshold(&mut self, admin: Address, admin_acl_admin: bool, new_threshold: u32) -> (r:
        Result<(), Error>)
        requires
            old(self).wf(),
            old(self)@.policy_version < u32::MAX,
        ensures
            final(self).wf(),
            final(self)@ == after(
                old(self)@,
                set_threshold_step(old(self)@, admin, admin_acl_admin, new_threshold),
            ),
            r == answer(set_threshold_step(old(self)@, admin, admin_acl_admin, new_threshold)),
    {
        proof {
            lemma_set_threshold_inv(self@, admin, admin_acl_admin, new_threshold);
        }
        if let Err(e) = self.require_initialized() {
            return Err(e);
        }
        if let Err(e) = self.require_admin(&admin, admin_acl_admin) {
            return Err(e);
        }
        if new_threshold == 0 || (new_threshold as u64) > (self.signers.len() as u64) {
            return Err(Error::InvalidThreshold);
        }
        self.threshold = new_threshold;
        self.policy_version = self.policy_version + 1;
        self.log.push(Effect::Publish(Event::ThresholdSet { threshold: new_threshold }));
        Ok(())
    }

    /// The treasury's balance (zero before initialization).
    pub fn get_balance(&self) -> (b: i128)
        ensures
            b == self@.balance,
    {
        self.balance
    }

    /// The treasury's configuration.
    pub fn get_config(&self) -> (r: Result<TreasuryConfig, Error>)
        requires
            self.wf(),
        ensures
            r == (if self@.initialized() {
                Ok::<TreasuryConfig, Error>(config_of(self@))
            } else {
                Err(Error::NotInitialized)
            }),
    {
        match &self.roles {
            None => Err(Error::NotInitialized),
            Some(roles) => Ok(
                TreasuryConfig {
                    admin: roles.admin,
                    asset: roles.asset,
                    threshold: self.threshold,
                    signer_count: self.signers.len() as u32,
                    balance: self.balance,
                    tx_count: self.tx_counter,
                    policy_version: self.policy_version,
                },
            ),
        }
    }

    /// The proposal with id `tx_id`.
    pub fn get_transaction(&self, tx_id: u64) -> (r: Result<&Transaction, Error>)
        requires
            self.wf(),
        ensures
            match r {
                Ok(t) => self@.has_tx(tx_id) && t@ == self@.tx(tx_id),
                Err(e) => !self@.has_tx(tx_id) && e == Error::TransactionNotFound,
            },
    {
        match self.tx_index(tx_id) {
            None => Err(Error::TransactionNotFound),
            Some(i) => Ok(&self.transactions[i]),
        }
    }

    /// The current signers, in the order they were added.
    pub fn get_signers(&self) -> (v: Vec<Address>)
        ensures
            v@ == self@.signers,
    {
        copy_addresses(&self.signers)
    }

    /// Hand the admin role to `new_admin`; admin only, and the access-control
    /// contract must rank `new_admin` admin or above (`new_acl_admin`).
    pub fn transfer_admin(
        &mut self,
        current_admin: Address,
        current_acl_admin: bool,
        new_admin: Address,
        new_acl_admin: bool,
    ) -> (r: Result<(), Error>)
        requires
            old(self).wf(),
        ensures
            final(self).wf(),
            final(self)@ == after(
                old(self)@,
                transfer_admin_step(
                    old(self)@,
                    current_admin,
                    current_acl_admin,
                    new_admin,
                    new_acl_admin,
                ),
            ),
            r == answer(
                transfer_admin_step(
                    old(self)@,
                    current_admin,
                    current_acl_admin,
                    new_admin,
                    new_acl_admin,
                ),
            ),
    {
        proof {
            lemma_transfer_admin_inv(self@, current_admin, current_acl_admin, new_admin, new_acl_admin);
        }
        if let Err(e) = self.require_initialized() {
            return Err(e);
        }
        if let Err(e) = self.require_admin(&current_admin, current_acl_admin) {
            return Err(e);
        }
        if let Err(e) = self.require_acl_admin_or_above(new_acl_admin) {
            return Err(e);
        }
        let roles = match &self.roles {
            Some(r) => *r,
            None => {
                return Err(Error::NotInitialized);
            },
        };
        self.roles = Some(Roles { admin: new_admin, asset: roles.asset, acl: roles.acl });
        self.log.push(
            Effect::Publish(Event::AdminTransferred { previous: current_admin, new_admin }),
        );
        Ok(())
    }

    /// Replace the contract's code by the code with hash `new_wasm_hash`; admin
    /// only.
    pub fn upgrade(&mut self, admin: Address, admin_acl_admin: bool, new_wasm_hash: [u8; 32]) -> (r:
        Result<(), Error>)
        requires
            old(self).wf(),
        ensures
            final(self).wf(),
            final(self)@ == after(
                old(self)@,
                upgrade_step(old(self)@, admin, admin_acl_admin, new_wasm_hash),
            ),
            r == answer(upgrade_step(old(self)@, admin, admin_acl_admin, new_wasm_hash)),
    {
        proof {
            lemma_upgrade_inv(self@, admin, admin_acl_admin, new_wasm_hash);
        }
        if let Err(e) = self.require_initialized() {
            return Err(e);
        }
        if let Err(e) = self.require_admin(&admin, admin_acl_admin) {
            return Err(e);
        }
        self.log.push(Effect::UpgradeCode { wasm_hash: new_wasm_hash });
        Ok(())
    }

    /// Whether storage holds an entry under `key`.
    pub fn has_key(&self, key: &DataKey) -> (r: bool)
        requires
            self.wf(),
        ensures
            r == key_present(self@, *key),
    {
        match key {
            DataKey::Transaction(id) => self.tx_index(*id).is_some(),
            _ => self.roles.is_some(),
        }
    }

    /// The effects asked of the host so far, oldest first.
    pub fn effects(&self) -> (v: &Vec<Effect>)
        ensures
            v@ == self@.log,
    {
        &self.log
    }

    /// Hand out the effects asked of the host so far, oldest first, and forget
    /// them; the stored state stays as it is.
    pub fn take_effects(&mut self) -> (v: Vec<Effect>)
        requires
            old(self).wf(),
        ensures
            final(self).wf(),
            v@ == old(self)@.log,
            final(self)@ == (TreasuryView { log: Seq::empty(), ..old(self)@ }),
    {
        let mut v: Vec<Effect> = Vec::new();
        std::mem::swap(&mut v, &mut self.log);
        v
    }
}

} // verus!
