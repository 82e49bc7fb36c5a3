use vstd::prelude::*;

use crate::model::{
    add_signer_step, after, approve_step, cancel_step, deposit_step, execute_step,
    initialize_step, new_proposal, propose_step, remove_signer_step, revoke_step,
    set_threshold_step, transfer_admin_step, tx_wf, upgrade_step, TreasuryView,
};
use crate::seqs::{
    lemma_push_no_duplicates, lemma_remove_all_len, lemma_remove_all_no_duplicates, remove_all,
};
use crate::types::{Address, TransactionView};

verus! {

/// Each stored proposal of a state that keeps the invariant is well formed.
pub proof fn lemma_tx_wf(s: TreasuryView, id: u64)
    requires
        s.inv(),
        s.has_tx(id),
    ensures
        tx_wf(s.tx(id), id as int, s.policy_version),
{
    let i = id - 1;
    assert(tx_wf(s.transactions[i], i + 1, s.policy_version));
}

/// A state whose proposals are replaced by a same-id proposal with the same
/// amount, no duplicate approvals and the same policy version keeps its
/// invariant.
proof fn lemma_with_tx_inv(s: TreasuryView, id: u64, t: TransactionView)
    requires
        s.inv(),
        s.has_tx(id),
        t.id == s.tx(id).id,
        t.amount == s.tx(id).amount,
        t.policy_version == s.tx(id).policy_version,
        t.approvals.no_duplicates(),
        t.approvals.len() <= u32::MAX,
        !(t.executed && t.canceled),
    ensures
        s.with_tx(id, t).inv(),
{
    let n = s.with_tx(id, t);
    assert forall|i: int| 0 <= i < n.transactions.len() implies #[trigger] tx_wf(
        n.transactions[i],
        i + 1,
        n.policy_version,
    ) by {
        if i != id - 1 {
            assert(n.transactions[i] == s.transactions[i]);
            assert(tx_wf(s.transactions[i], i + 1, s.policy_version));
        } else {
            assert(tx_wf(s.transactions[i], i + 1, s.policy_version));
        }
    }
}

/// A successful `initialize` leads to a state that keeps the invariant.
pub proof fn lemma_initialize_inv(
    s: TreasuryView,
    admin: Address,
    asset: Address,
    threshold: u32,
    signers: Seq<Address>,
    acl: Address,
    ok: bool,
)
    requires
        s.inv(),
        signers.len() <= u32::MAX,
    ensures
        after(s, initialize_step(s, admin, asset, threshold, signers, acl, ok)).inv(),
{
}

/// `deposit` keeps the invariant.
pub proof fn lemma_deposit_inv(s: TreasuryView, from: Address, amount: i128)
    requires
        s.inv(),
        amount > 0 ==> s.balance + amount <= i128::MAX,
    ensures
        after(s, deposit_step(s, from, amount)).inv(),
{
}

/// `propose_withdrawal` keeps the invariant.
pub proof fn lemma_propose_inv(
    s: TreasuryView,
    proposer: Address,
    to: Address,
    amount: i128,
    memo: Seq<char>,
    expires_at: u64,
    now: u64,
)
    requires
        s.inv(),
        s.tx_counter < u64::MAX,
    ensures
        after(s, propose_step(s, proposer, to, amount, memo, expires_at, now)).inv(),
{
    if propose_step(s, proposer, to, amount, memo, expires_at, now) is Ok {
        let n = after(s, propose_step(s, proposer, to, amount, memo, expires_at, now));
        let t = new_proposal(s, proposer, to, amount, memo, expires_at, now);
        assert(t.approvals.no_duplicates());
        assert forall|i: int| 0 <= i < n.transactions.len() implies #[trigger] tx_wf(
            n.transactions[i],
            i + 1,
            n.policy_version,
        ) by {
            if i < s.transactions.len() {
                assert(n.transactions[i] == s.transactions[i]);
                assert(tx_wf(s.transactions[i], i + 1, s.policy_version));
            }
        }
    }
}

/// `approve` keeps the invariant.
pub proof fn lemma_approve_inv(s: TreasuryView, signer: Address, tx_id: u64, now: u64)
    requires
        s.inv(),
        s.has_tx(tx_id) ==> s.tx(tx_id).approvals.len() < u32::MAX,
    ensures
        after(s, approve_step(s, signer, tx_id, now)).inv(),
{
    if approve_step(s, signer, tx_id, now) is Ok {
        let t = s.tx(tx_id);
        lemma_tx_wf(s, tx_id);
        lemma_push_no_duplicates(t.approvals, signer);
        lemma_with_tx_inv(s, tx_id, TransactionView { approvals: t.approvals.push(signer), ..t });
    }
}

/// `execute` keeps the invariant.
pub proof fn lemma_execute_inv(s: TreasuryView, executor: Address, tx_id: u64, now: u64, held: i128)
    requires
        s.inv(),
    ensures
        after(s, execute_step(s, executor, tx_id, now, held)).inv(),
{
    if execute_step(s, executor, tx_id, now, held) is Ok {
        let t = s.tx(tx_id);
        lemma_tx_wf(s, tx_id);
        lemma_with_tx_inv(s, tx_id, TransactionView { executed: true, ..t });
    }
}

/// `revoke_approval` keeps the invariant.
pub proof fn lemma_revoke_inv(s: TreasuryView, signer: Address, tx_id: u64, now: u64)
    requires
        s.inv(),
    ensures
        after(s, revoke_step(s, signer, tx_id, now)).inv(),
{
    if revoke_step(s, signer, tx_id, now) is Ok {
        let t = s.tx(tx_id);
        lemma_tx_wf(s, tx_id);
        lemma_remove_all_no_duplicates(t.approvals, signer);
        lemma_remove_all_len(t.approvals, signer);
        lemma_with_tx_inv(
            s,
            tx_id,
            TransactionView { approvals: remove_all(t.approvals, signer), ..t },
        );
    }
}

/// `cancel_withdrawal` keeps the invariant.
pub proof fn lemma_cancel_inv(s: TreasuryView, caller: Address, tx_id: u64)
    requires
        s.inv(),
    ensures
        after(s, cancel_step(s, caller, tx_id)).inv(),
{
    if cancel_step(s, caller, tx_id) is Ok {
        let t = s.tx(tx_id);
        lemma_tx_wf(s, tx_id);
        lemma_with_tx_inv(s, tx_id, TransactionView { canceled: true, ..t });
    }
}

/// Moving the policy version on keeps every proposal well formed.
proof fn lemma_bump_policy_txs(s: TreasuryView)
    requires
        s.inv(),
        s.policy_version < u32::MAX,
    ensures
        forall|i: int|
            0 <= i < s.transactions.len() ==> #[trigger] tx_wf(
                s.transactions[i],
                i + 1,
                (s.policy_version + 1) as u32,
            ),
{
    assert forall|i: int| 0 <= i < s.transactions.len() implies #[trigger] tx_wf(
        s.transactions[i],
        i + 1,
        (s.policy_version + 1) as u32,
    ) by {
        assert(tx_wf(s.transactions[i], i + 1, s.policy_version));
    }
}

/// `add_signer` keeps the invariant.
pub proof fn lemma_add_signer_inv(s: TreasuryView, admin: Address, ok: bool, new_signer: Address)
    requires
        s.inv(),
        s.signers.len() < u32::MAX,
        s.policy_version < u32::MAX,
    ensures
        after(s, add_signer_step(s, admin, ok, new_signer)).inv(),
{
    if add_signer_step(s, admin, ok, new_signer) is Ok {
        lemma_push_no_duplicates(s.signers, new_signer);
        lemma_bump_policy_txs(s);
    }
}

/// `remove_signer` keeps the invariant.
pub proof fn lemma_remove_signer_inv(s: TreasuryView, admin: Address, ok: bool, signer: Address)
    requires
        s.inv(),
        s.policy_version < u32::MAX,
    ensures
        after(s, remove_signer_step(s, admin, ok, signer)).inv(),
{
    if remove_signer_step(s, admin, ok, signer) is Ok {
        lemma_remove_all_no_duplicates(s.signers, signer);
        lemma_remove_all_len(s.signers, signer);
        lemma_bump_policy_txs(s);
    }
}

/// `set_threshold` keeps the invariant.
pub proof fn lemma_set_threshold_inv(s: TreasuryView, admin: Address, ok: bool, new_threshold: u32)
    requires
        s.inv(),
        s.policy_version < u32::MAX,
    ensures
        after(s, set_threshold_step(s, admin, ok, new_threshold)).inv(),
{
    if set_threshold_step(s, admin, ok, new_threshold) is Ok {
        lemma_bump_policy_txs(s);
    }
}

/// `transfer_admin` keeps the invariant.
pub proof fn lemma_transfer_admin_inv(
    s: TreasuryView,
    current: Address,
    current_ok: bool,
    new_admin: Address,
    new_ok: bool,
)
    requires
        s.inv(),
    ensures
        after(s, transfer_admin_step(s, current, current_ok, new_admin, new_ok)).inv(),
{
}

/// `upgrade` keeps the invariant.
pub proof fn lemma_upgrade_inv(s: TreasuryView, admin: Address, ok: bool, wasm_hash: [u8; 32])
    requires
        s.inv(),
    ensures
        after(s, upgrade_step(s, admin, ok, wasm_hash)).inv(),
{
}

} // verus!
