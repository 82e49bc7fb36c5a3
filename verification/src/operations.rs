use vstd::prelude::*;

use crate::invariants::lemma_tx_wf;
use crate::model::{
    add_signer_step, after, answer, approve_step, cancel_step, deposit_step, execute_step,
    initialize_step, propose_step, remove_signer_step, revoke_step, set_threshold_step,
    transfer_admin_step, upgrade_step, config_of, empty_treasury, TreasuryView,
};
use crate::contract::key_present;
use crate::seqs::{
    lemma_push_contains, lemma_remove_all_contains, lemma_remove_all_is_filter,
    lemma_remove_all_len,
};
use crate::types::{Address, DataKey, Effect, Error, Event, Roles, TransactionView};

verus! {

// What each operation of the treasury does, stated over its inputs: when it
// succeeds, which error it answers otherwise, and what it changes.

/// A proposal is open at ledger time `now` under policy version `policy` when
/// it is neither executed nor canceled, has not expired, and was made under
/// that policy version.
pub open spec fn is_open(t: TransactionView, now: u64, policy: u32) -> bool {
    !t.executed && !t.canceled && now <= t.expires_at && t.policy_version == policy
}

/// `n` differs from `s` at most in its proposals and its log, and has as many
/// proposals.
pub open spec fn same_but_proposals(s: TreasuryView, n: TreasuryView) -> bool {
    &&& n.roles == s.roles
    &&& n.threshold == s.threshold
    &&& n.signers == s.signers
    &&& n.balance == s.balance
    &&& n.tx_counter == s.tx_counter
    &&& n.policy_version == s.policy_version
    &&& n.transactions.len() == s.transactions.len()
}

/// Every stored proposal other than `id` is the same in `n` as in `s`.
pub open spec fn other_proposals_unchanged(s: TreasuryView, n: TreasuryView, id: u64) -> bool {
    forall|k: u64| s.has_tx(k) && k != id ==> #[trigger] n.tx(k) == s.tx(k)
}

/// `initialize` succeeds exactly on an uninitialized treasury, with signers
/// free of duplicates, a threshold between one and the signer count, and an
/// admin that the access-control contract ranks admin or above; the admin may
/// be one of the signers. It then holds exactly what it was given, with a
/// zero balance, no proposals and policy version one.
pub proof fn law_initialize_behaviour(
    s: TreasuryView,
    admin: Address,
    asset: Address,
    threshold: u32,
    signers: Seq<Address>,
    acl: Address,
    admin_acl_admin: bool,
)
    requires
        s.inv(),
        signers.len() <= u32::MAX,
    ensures
        ({
            let o = initialize_step(s, admin, asset, threshold, signers, acl, admin_acl_admin);
            let n = after(s, o);
            &&& o is Ok <==> (!s.initialized() && signers.no_duplicates() && 1 <= threshold
                <= signers.len() && admin_acl_admin)
            &&& s.initialized() ==> answer(o) == Err::<(), Error>(Error::AlreadyInitialized)
            &&& !s.initialized() && !signers.no_duplicates() ==> answer(o) == Err::<(), Error>(
                Error::DuplicateSigner,
            )
            &&& !s.initialized() && signers.no_duplicates() && !(1 <= threshold <= signers.len())
                ==> answer(o) == Err::<(), Error>(Error::InvalidThreshold)
            &&& !s.initialized() && signers.no_duplicates() && 1 <= threshold <= signers.len()
                && !admin_acl_admin ==> answer(o) == Err::<(), Error>(Error::Unauthorized)
            &&& o is Ok ==> {
                &&& n.roles == Some(Roles { admin, asset, acl })
                &&& n.signers == signers
                &&& n.threshold == threshold
                &&& n.balance == 0
                &&& n.tx_counter == 0
                &&& n.transactions.len() == 0
                &&& n.policy_version == 1
                &&& n.log == s.log.push(
                    Effect::Publish(
                        Event::Init { admin, asset, threshold, signer_count: signers.len() as u32 },
                    ),
                )
            }
        }),
{
}

/// `deposit` succeeds exactly on an initialized treasury with a positive
/// amount, and then adds the amount to the balance and nothing else.
pub proof fn law_deposit_behaviour(s: TreasuryView, from: Address, amount: i128)
    requires
        s.inv(),
        amount > 0 ==> s.balance + amount <= i128::MAX,
    ensures
        ({
            let o = deposit_step(s, from, amount);
            let n = after(s, o);
            &&& o is Ok <==> (s.initialized() && amount > 0)
            &&& !s.initialized() ==> answer(o) == Err::<(), Error>(Error::NotInitialized)
            &&& s.initialized() && amount <= 0 ==> answer(o) == Err::<(), Error>(
                Error::InvalidAmount,
            )
            &&& o is Ok ==> {
                &&& n.balance == s.balance + amount
                &&& n.roles == s.roles
                &&& n.threshold == s.threshold
                &&& n.signers == s.signers
                &&& n.tx_counter == s.tx_counter
                &&& n.policy_version == s.policy_version
                &&& n.transactions == s.transactions
                &&& n.log == s.log.push(Effect::CollectDeposit { from, amount }).push(
                    Effect::Publish(
                        Event::Deposit { from, amount, new_balance: (s.balance + amount) as i128 },
                    ),
                )
            }
        }),
{
}

/// `propose_withdrawal` succeeds, whoever the recipient is, exactly when the
/// treasury is initialized, the proposer is a signer, the amount is positive,
/// the expiry lies after `now` and the balance covers the amount. It then
/// stores, under the next id, a proposal paying `to` with the proposer's
/// approval alone, made now under the current policy version, and changes
/// nothing else.
pub proof fn law_propose_behaviour(
    s: TreasuryView,
    proposer: Address,
    to: Address,
    amount: i128,
    memo: Seq<char>,
    expires_at: u64,
    now: u64,
)
    requires
        s.inv(),
        s.tx_counter < u64::MAX,
    ensures
        ({
            let o = propose_step(s, proposer, to, amount, memo, expires_at, now);
            let n = after(s, o);
            let id = (s.tx_counter + 1) as u64;
            &&& o is Ok <==> (s.initialized() && s.is_signer(proposer) && amount > 0 && expires_at
                > now && s.balance >= amount)
            &&& !s.initialized() ==> answer(o) == Err::<u64, Error>(Error::NotInitialized)
            &&& s.initialized() && !s.is_signer(proposer) ==> answer(o) == Err::<u64, Error>(
                Error::NotASigner,
            )
            &&& s.initialized() && s.is_signer(proposer) && amount <= 0 ==> answer(o) == Err::<
                u64,
                Error,
            >(Error::InvalidAmount)
            &&& s.initialized() && s.is_signer(proposer) && amount > 0 && expires_at <= now
                ==> answer(o) == Err::<u64, Error>(Error::InvalidExpiry)
            &&& s.initialized() && s.is_signer(proposer) && amount > 0 && expires_at > now
                && s.balance < amount ==> answer(o) == Err::<u64, Error>(Error::InsufficientFunds)
            &&& o is Ok ==> {
                &&& answer(o) == Ok::<u64, Error>(id)
                &&& id == s.tx_counter + 1
                &&& n.tx_counter == id
                &&& n.transactions == s.transactions.push(
                    TransactionView {
                        id,
                        to,
                        amount,
                        memo,
                        approvals: seq![proposer],
                        executed: false,
                        created_at: now,
                        proposer,
                        expires_at,
                        canceled: false,
                        policy_version: s.policy_version,
                    },
                )
                &&& n.roles == s.roles
                &&& n.threshold == s.threshold
                &&& n.signers == s.signers
                &&& n.balance == s.balance
                &&& n.policy_version == s.policy_version
                &&& n.log == s.log.push(
                    Effect::Publish(Event::Propose { id, proposer, to, amount }),
                )
            }
        }),
{
}

/// `approve` succeeds exactly when a signer approves a stored, open proposal
/// that it has not approved yet, however many approvals the proposal already
/// has. It then appends the signer to the approvals, answers their new
/// number, and changes nothing else.
pub proof fn law_approve_behaviour(s: TreasuryView, signer: Address, tx_id: u64, now: u64)
    requires
        s.inv(),
        s.has_tx(tx_id) ==> s.tx(tx_id).approvals.len() < u32::MAX,
    ensures
        ({
            let o = approve_step(s, signer, tx_id, now);
            let n = after(s, o);
            let t = s.tx(tx_id);
            let ready = s.initialized() && s.is_signer(signer) && s.has_tx(tx_id);
            &&& o is Ok <==> (ready && is_open(t, now, s.policy_version) && !t.approvals.contains(
                signer,
            ))
            &&& !s.initialized() ==> answer(o) == Err::<u32, Error>(Error::NotInitialized)
            &&& s.initialized() && !s.is_signer(signer) ==> answer(o) == Err::<u32, Error>(
                Error::NotASigner,
            )
            &&& s.initialized() && s.is_signer(signer) && !s.has_tx(tx_id) ==> answer(o) == Err::<
                u32,
                Error,
            >(Error::TransactionNotFound)
            &&& ready && t.executed ==> answer(o) == Err::<u32, Error>(Error::AlreadyExecuted)
            &&& ready && !t.executed && t.canceled ==> answer(o) == Err::<u32, Error>(
                Error::TransactionCanceled,
            )
            &&& ready && !t.executed && !t.canceled && now > t.expires_at ==> answer(o) == Err::<
                u32,
                Error,
            >(Error::TransactionExpired)
            &&& ready && !t.executed && !t.canceled && now <= t.expires_at && t.policy_version
                != s.policy_version ==> answer(o) == Err::<u32, Error>(Error::PolicyInvalidated)
            &&& ready && is_open(t, now, s.policy_version) && t.approvals.contains(signer)
                ==> answer(o) == Err::<u32, Error>(Error::AlreadyApproved)
            &&& o is Ok ==> {
                &&& answer(o) == Ok::<u32, Error>((t.approvals.len() + 1) as u32)
                &&& n.tx(tx_id) == (TransactionView { approvals: t.approvals.push(signer), ..t })
                &&& n.tx(tx_id).approvals.contains(signer)
                &&& forall|a: Address| t.approvals.contains(a) ==> n.tx(
                    tx_id,
                ).approvals.contains(a)
                &&& same_but_proposals(s, n)
                &&& other_proposals_unchanged(s, n, tx_id)
                &&& n.log == s.log.push(
                    Effect::Publish(
                        Event::Approve {
                            id: tx_id,
                            signer,
                            approvals: (t.approvals.len() + 1) as u32,
                        },
                    ),
                )
            }
        }),
{
    let t = s.tx(tx_id);
    let o = approve_step(s, signer, tx_id, now);
    let n = after(s, o);
    if o is Ok {
        lemma_push_contains(t.approvals, signer, signer);
        assert forall|a: Address| t.approvals.contains(a) implies n.tx(tx_id).approvals.contains(
            a,
        ) by {
            lemma_push_contains(t.approvals, signer, a);
        }
        assert forall|k: u64| s.has_tx(k) && k != tx_id implies #[trigger] n.tx(k) == s.tx(k) by {
            assert(n.transactions[k - 1] == s.transactions[k - 1]);
        }
    }
}

/// `execute` succeeds exactly when a signer executes a stored, open proposal
/// with at least threshold approvals, and both the balance and the asset held
/// by the treasury's account cover its amount. It then marks the proposal
/// executed, takes its amount from the balance, pays it to the recipient, and
/// changes nothing else.
pub proof fn law_execute_behaviour(
    s: TreasuryView,
    executor: Address,
    tx_id: u64,
    now: u64,
    held: i128,
)
    requires
        s.inv(),
    ensures
        ({
            let o = execute_step(s, executor, tx_id, now, held);
            let n = after(s, o);
            let t = s.tx(tx_id);
            let ready = s.initialized() && s.is_signer(executor) && s.has_tx(tx_id);
            let open = ready && is_open(t, now, s.policy_version);
            &&& o is Ok <==> (open && t.approvals.len() >= s.threshold && s.balance >= t.amount
                && held >= t.amount)
            &&& !s.initialized() ==> answer(o) == Err::<(), Error>(Error::NotInitialized)
            &&& s.initialized() && !s.is_signer(executor) ==> answer(o) == Err::<(), Error>(
                Error::NotASigner,
            )
            &&& s.initialized() && s.is_signer(executor) && !s.has_tx(tx_id) ==> answer(o)
                == Err::<(), Error>(Error::TransactionNotFound)
            &&& ready && t.executed ==> answer(o) == Err::<(), Error>(Error::AlreadyExecuted)
            &&& ready && !t.executed && t.canceled ==> answer(o) == Err::<(), Error>(
                Error::TransactionCanceled,
            )
            &&& ready && !t.executed && !t.canceled && now > t.expires_at ==> answer(o) == Err::<
                (),
                Error,
            >(Error::TransactionExpired)
            &&& ready && !t.executed && !t.canceled && now <= t.expires_at && t.policy_version
                != s.policy_version ==> answer(o) == Err::<(), Error>(Error::PolicyInvalidated)
            &&& open && t.approvals.len() < s.threshold ==> answer(o) == Err::<(), Error>(
                Error::Unauthorized,
            )
            &&& open && t.approvals.len() >= s.threshold && (s.balance < t.amount || held
                < t.amount) ==> answer(o) == Err::<(), Error>(Error::InsufficientFunds)
            &&& o is Ok ==> {
                &&& n.tx(tx_id) == (TransactionView { executed: true, ..t })
                &&& n.balance == s.balance - t.amount
                &&& n.roles == s.roles
                &&& n.threshold == s.threshold
                &&& n.signers == s.signers
                &&& n.tx_counter == s.tx_counter
                &&& n.policy_version == s.policy_version
                &&& n.transactions.len() == s.transactions.len()
                &&& other_proposals_unchanged(s, n, tx_id)
                &&& n.log == s.log.push(Effect::PayOut { to: t.to, amount: t.amount }).push(
                    Effect::Publish(
                        Event::Execute {
                            id: tx_id,
                            to: t.to,
                            amount: t.amount,
                            new_balance: (s.balance - t.amount) as i128,
                        },
                    ),
                )
            }
        }),
{
    let o = execute_step(s, executor, tx_id, now, held);
    let n = after(s, o);
    if o is Ok {
        lemma_tx_wf(s, tx_id);
        assert forall|k: u64| s.has_tx(k) && k != tx_id implies #[trigger] n.tx(k) == s.tx(k) by {
            assert(n.transactions[k - 1] == s.transactions[k - 1]);
        }
    }
}

/// `revoke_approval` succeeds exactly when a signer revokes its own approval
/// of a stored, open proposal. It then removes that signer's approval and only
/// that one: every other approver keeps its approval, in the same order, and
/// the answer is the number of approvals left, one fewer than before.
pub proof fn law_revoke_behaviour(s: TreasuryView, signer: Address, tx_id: u64, now: u64)
    requires
        s.inv(),
    ensures
        ({
            let o = revoke_step(s, signer, tx_id, now);
            let n = after(s, o);
            let t = s.tx(tx_id);
            let ready = s.initialized() && s.is_signer(signer) && s.has_tx(tx_id);
            &&& o is Ok <==> (ready && is_open(t, now, s.policy_version) && t.approvals.contains(
                signer,
            ))
            &&& !s.initialized() ==> answer(o) == Err::<u32, Error>(Error::NotInitialized)
            &&& s.initialized() && !s.is_signer(signer) ==> answer(o) == Err::<u32, Error>(
                Error::NotASigner,
            )
            &&& s.initialized() && s.is_signer(signer) && !s.has_tx(tx_id) ==> answer(o) == Err::<
                u32,
                Error,
            >(Error::TransactionNotFound)
            &&& ready && t.executed ==> answer(o) == Err::<u32, Error>(Error::AlreadyExecuted)
            &&& ready && !t.executed && t.canceled ==> answer(o) == Err::<u32, Error>(
                Error::TransactionCanceled,
            )
            &&& ready && !t.executed && !t.canceled && now > t.expires_at ==> answer(o) == Err::<
                u32,
                Error,
            >(Error::TransactionExpired)
            &&& ready && !t.executed && !t.canceled && now <= t.expires_at && t.policy_version
                != s.policy_version ==> answer(o) == Err::<u32, Error>(Error::PolicyInvalidated)
            &&& ready && is_open(t, now, s.policy_version) && !t.approvals.contains(signer)
                ==> answer(o) == Err::<u32, Error>(Error::NotApproved)
            &&& o is Ok ==> {
                &&& n.tx(tx_id).approvals == t.approvals.filter(|a: Address| a != signer)
                &&& !n.tx(tx_id).approvals.contains(signer)
                &&& forall|a: Address|
                    a != signer ==> (#[trigger] n.tx(tx_id).approvals.contains(a)
                        <==> t.approvals.contains(a))
                &&& n.tx(tx_id).approvals.len() == t.approvals.len() - 1
                &&& answer(o) == Ok::<u32, Error>((t.approvals.len() - 1) as u32)
                &&& n.tx(tx_id) == (TransactionView { approvals: n.tx(tx_id).approvals, ..t })
                &&& same_but_proposals(s, n)
                &&& other_proposals_unchanged(s, n, tx_id)
                &&& n.log == s.log.push(
                    Effect::Publish(
                        Event::Revoke {
                            id: tx_id,
                            signer,
                            approvals: (t.approvals.len() - 1) as u32,
                        },
                    ),
                )
            }
        }),
{
    let t = s.tx(tx_id);
    let o = revoke_step(s, signer, tx_id, now);
    let n = after(s, o);
    if o is Ok {
        lemma_tx_wf(s, tx_id);
        lemma_remove_all_is_filter(t.approvals, signer);
        lemma_remove_all_len(t.approvals, signer);
        lemma_remove_all_contains(t.approvals, signer, signer);
        assert forall|a: Address| a != signer implies (#[trigger] n.tx(tx_id).approvals.contains(a)
            <==> t.approvals.contains(a)) by {
            lemma_remove_all_contains(t.approvals, signer, a);
        }
        assert forall|k: u64| s.has_tx(k) && k != tx_id implies #[trigger] n.tx(k) == s.tx(k) by {
            assert(n.transactions[k - 1] == s.transactions[k - 1]);
        }
    }
}

/// `cancel_withdrawal` succeeds exactly when the proposer or the admin of an
/// initialized treasury cancels a stored proposal that is neither executed nor
/// canceled, whatever its expiry and policy version. It then marks the
/// proposal canceled and changes nothing else.
pub proof fn law_cancel_behaviour(s: TreasuryView, caller: Address, tx_id: u64)
    requires
        s.inv(),
    ensures
        ({
            let o = cancel_step(s, caller, tx_id);
            let n = after(s, o);
            let t = s.tx(tx_id);
            let found = s.initialized() && s.has_tx(tx_id);
            &&& o is Ok <==> (found && !t.executed && !t.canceled && (caller == t.proposer
                || caller == s.admin()))
            &&& !s.initialized() ==> answer(o) == Err::<(), Error>(Error::NotInitialized)
            &&& s.initialized() && !s.has_tx(tx_id) ==> answer(o) == Err::<(), Error>(
                Error::TransactionNotFound,
            )
            &&& found && t.executed ==> answer(o) == Err::<(), Error>(Error::AlreadyExecuted)
            &&& found && !t.executed && t.canceled ==> answer(o) == Err::<(), Error>(
                Error::TransactionCanceled,
            )
            &&& found && !t.executed && !t.canceled && caller != t.proposer && caller != s.admin()
                ==> answer(o) == Err::<(), Error>(Error::Unauthorized)
            &&& o is Ok ==> {
                &&& n.tx(tx_id) == (TransactionView { canceled: true, ..t })
                &&& same_but_proposals(s, n)
                &&& other_proposals_unchanged(s, n, tx_id)
                &&& n.log == s.log.push(Effect::Publish(Event::Cancel { id: tx_id, caller }))
            }
        }),
{
    let o = cancel_step(s, caller, tx_id);
    let n = after(s, o);
    if o is Ok {
        assert forall|k: u64| s.has_tx(k) && k != tx_id implies #[trigger] n.tx(k) == s.tx(k) by {
            assert(n.transactions[k - 1] == s.transactions[k - 1]);
        }
    }
}

/// `add_signer` succeeds exactly when the admin, ranked admin or above by the
/// access-control contract, adds an address that is not yet a signer. It then
/// appends that address to the signers, moves the policy version on by one,
/// and changes nothing else.
pub proof fn law_add_signer_behaviour(
    s: TreasuryView,
    admin: Address,
    admin_acl_admin: bool,
    new_signer: Address,
)
    requires
        s.inv(),
        s.signers.len() < u32::MAX,
        s.policy_version < u32::MAX,
    ensures
        ({
            let o = add_signer_step(s, admin, admin_acl_admin, new_signer);
            let n = after(s, o);
            let gate = s.initialized() && admin == s.admin() && admin_acl_admin;
            &&& o is Ok <==> (gate && !s.is_signer(new_signer))
            &&& !s.initialized() ==> answer(o) == Err::<(), Error>(Error::NotInitialized)
            &&& s.initialized() && !(admin == s.admin() && admin_acl_admin) ==> answer(o)
                == Err::<(), Error>(Error::Unauthorized)
            &&& gate && s.is_signer(new_signer) ==> answer(o) == Err::<(), Error>(
                Error::AlreadySigner,
            )
            &&& o is Ok ==> {
                &&& n.signers == s.signers.push(new_signer)
                &&& n.policy_version == s.policy_version + 1
                &&& n.roles == s.roles
                &&& n.threshold == s.threshold
                &&& n.balance == s.balance
                &&& n.tx_counter == s.tx_counter
                &&& n.transactions == s.transactions
                &&& n.log == s.log.push(
                    Effect::Publish(
                        Event::SignerAdded {
                            signer: new_signer,
                            signer_count: (s.signers.len() + 1) as u32,
                        },
                    ),
                )
            }
        }),
{
}

/// `remove_signer` succeeds exactly when the admin, ranked admin or above by
/// the access-control contract, removes a signer while the signers outnumber
/// the threshold. It then drops that signer and only it, keeps the others in
/// their order, moves the policy version on by one, and changes nothing else.
pub proof fn law_remove_signer_behaviour(
    s: TreasuryView,
    admin: Address,
    admin_acl_admin: bool,
    signer: Address,
)
    requires
        s.inv(),
        s.policy_version < u32::MAX,
    ensures
        ({
            let o = remove_signer_step(s, admin, admin_acl_admin, signer);
            let n = after(s, o);
            let gate = s.initialized() && admin == s.admin() && admin_acl_admin;
            &&& o is Ok <==> (gate && s.signers.len() > s.threshold && s.is_signer(signer))
            &&& !s.initialized() ==> answer(o) == Err::<(), Error>(Error::NotInitialized)
            &&& s.initialized() && !(admin == s.admin() && admin_acl_admin) ==> answer(o)
                == Err::<(), Error>(Error::Unauthorized)
            &&& gate && s.signers.len() <= s.threshold ==> answer(o) == Err::<(), Error>(
                Error::ThresholdBreach,
            )
            &&& gate && s.signers.len() > s.threshold && !s.is_signer(signer) ==> answer(o)
                == Err::<(), Error>(Error::NotASigner)
            &&& o is Ok ==> {
                &&& n.signers == s.signers.filter(|a: Address| a != signer)
                &&& !n.signers.contains(signer)
                &&& forall|a: Address|
                    a != signer ==> (#[trigger] n.signers.contains(a) <==> s.signers.contains(a))
                &&& n.signers.len() == s.signers.len() - 1
                &&& n.policy_version == s.policy_version + 1
                &&& n.roles == s.roles
                &&& n.threshold == s.threshold
                &&& n.balance == s.balance
                &&& n.tx_counter == s.tx_counter
                &&& n.transactions == s.transactions
                &&& n.log == s.log.push(
                    Effect::Publish(
                        Event::SignerRemoved {
                            signer,
                            signer_count: (s.signers.len() - 1) as u32,
                        },
                    ),
                )
            }
        }),
{
    let o = remove_signer_step(s, admin, admin_acl_admin, signer);
    let n = after(s, o);
    if o is Ok {
        lemma_remove_all_is_filter(s.signers, signer);
        lemma_remove_all_len(s.signers, signer);
        lemma_remove_all_contains(s.signers, signer, signer);
        assert forall|a: Address| a != signer implies (#[trigger] n.signers.contains(a)
            <==> s.signers.contains(a)) by {
            lemma_remove_all_contains(s.signers, signer, a);
        }
    }
}

/// `set_threshold` succeeds exactly when the admin, ranked admin or above by
/// the access-control contract, sets a threshold between one and the signer
/// count. It then stores that threshold, moves the policy version on by one,
/// and changes nothing else.
pub proof fn law_set_threshold_behaviour(
    s: TreasuryView,
    admin: Address,
    admin_acl_admin: bool,
    new_threshold: u32,
)
    requires
        s.inv(),
        s.policy_version < u32::MAX,
    ensures
        ({
            let o = set_threshold_step(s, admin, admin_acl_admin, new_threshold);
            let n = after(s, o);
            let gate = s.initialized() && admin == s.admin() && admin_acl_admin;
            &&& o is Ok <==> (gate && 1 <= new_threshold <= s.signers.len())
            &&& !s.initialized() ==> answer(o) == Err::<(), Error>(Error::NotInitialized)
            &&& s.initialized() && !(admin == s.admin() && admin_acl_admin) ==> answer(o)
                == Err::<(), Error>(Error::Unauthorized)
            &&& gate && !(1 <= new_threshold <= s.signers.len()) ==> answer(o) == Err::<
                (),
                Error,
            >(Error::InvalidThreshold)
            &&& o is Ok ==> {
                &&& n.threshold == new_threshold
                &&& n.policy_version == s.policy_version + 1
                &&& n.roles == s.roles
                &&& n.signers == s.signers
                &&& n.balance == s.balance
                &&& n.tx_counter == s.tx_counter
                &&& n.transactions == s.transactions
                &&& n.log == s.log.push(
                    Effect::Publish(Event::ThresholdSet { threshold: new_threshold }),
                )
            }
        }),
{
}

/// `transfer_admin` succeeds exactly when the admin, ranked admin or above by
/// the access-control contract, hands the role to an address that the
/// access-control contract also ranks admin or above. It then replaces the
/// admin, keeps asset and access-control contract, and changes nothing else.
pub proof fn law_transfer_admin_behaviour(
    s: TreasuryView,
    current: Address,
    current_acl_admin: bool,
    new_admin: Address,
    new_acl_admin: bool,
)
    requires
        s.inv(),
    ensures
        ({
            let o = transfer_admin_step(s, current, current_acl_admin, new_admin, new_acl_admin);
            let n = after(s, o);
            let gate = s.initialized() && current == s.admin() && current_acl_admin;
            &&& o is Ok <==> (gate && new_acl_admin)
            &&& !s.initialized() ==> answer(o) == Err::<(), Error>(Error::NotInitialized)
            &&& s.initialized() && !gate ==> answer(o) == Err::<(), Error>(Error::Unauthorized)
            &&& gate && !new_acl_admin ==> answer(o) == Err::<(), Error>(Error::Unauthorized)
            &&& o is Ok ==> {
                &&& n.roles == Some(
                    Roles { admin: new_admin, asset: s.roles->0.asset, acl: s.roles->0.acl },
                )
                &&& n.threshold == s.threshold
                &&& n.signers == s.signers
                &&& n.balance == s.balance
                &&& n.tx_counter == s.tx_counter
                &&& n.policy_version == s.policy_version
                &&& n.transactions == s.transactions
                &&& n.log == s.log.push(
                    Effect::Publish(Event::AdminTransferred { previous: current, new_admin }),
                )
            }
        }),
{
}

/// `upgrade` succeeds exactly when the admin, ranked admin or above by the
/// access-control contract, asks for it; it then asks the host for the code
/// with the given hash and leaves the stored state as it is.
pub proof fn law_upgrade_behaviour(
    s: TreasuryView,
    admin: Address,
    admin_acl_admin: bool,
    wasm_hash: [u8; 32],
)
    requires
        s.inv(),
    ensures
        ({
            let o = upgrade_step(s, admin, admin_acl_admin, wasm_hash);
            let n = after(s, o);
            &&& o is Ok <==> (s.initialized() && admin == s.admin() && admin_acl_admin)
            &&& !s.initialized() ==> answer(o) == Err::<(), Error>(Error::NotInitialized)
            &&& s.initialized() && !(admin == s.admin() && admin_acl_admin) ==> answer(o)
                == Err::<(), Error>(Error::Unauthorized)
            &&& o is Ok ==> n == (TreasuryView {
                log: s.log.push(Effect::UpgradeCode { wasm_hash }),
                ..s
            })
        }),
{
}

/// The configuration reports the admin, the asset, the threshold, the number
/// of signers, the balance, the number of proposals made and the policy
/// version, as they stand.
pub proof fn law_config_reports_state(s: TreasuryView)
    requires
        s.inv(),
        s.initialized(),
    ensures
        config_of(s).admin == s.roles->0.admin,
        config_of(s).asset == s.roles->0.asset,
        config_of(s).threshold == s.threshold,
        config_of(s).signer_count == s.signers.len(),
        config_of(s).balance == s.balance,
        config_of(s).tx_count == s.tx_counter,
        config_of(s).tx_count == s.transactions.len(),
        config_of(s).policy_version == s.policy_version,
{
}

/// Storage holds the treasury's settings exactly once it is initialized, and
/// a proposal entry exactly for the ids from one up to the number of
/// proposals made.
pub proof fn law_stored_keys(s: TreasuryView, id: u64)
    requires
        s.inv(),
    ensures
        key_present(s, DataKey::Initialized) <==> s.initialized(),
        key_present(s, DataKey::Admin) <==> s.initialized(),
        key_present(s, DataKey::Signers) <==> s.initialized(),
        key_present(s, DataKey::Balance) <==> s.initialized(),
        key_present(s, DataKey::Transaction(id)) <==> (1 <= id && id <= s.tx_counter),
{
}

/// A fresh treasury is uninitialized, holds nothing, and has asked nothing of
/// the host.
pub proof fn law_fresh_treasury()
    ensures
        !empty_treasury().initialized(),
        empty_treasury().inv(),
        empty_treasury().balance == 0,
        empty_treasury().signers.len() == 0,
        empty_treasury().transactions.len() == 0,
        empty_treasury().log.len() == 0,
{
}

} // verus!
