use vstd::prelude::*;

use crate::invariants::{
    lemma_add_signer_inv, lemma_approve_inv, lemma_cancel_inv, lemma_deposit_inv,
    lemma_execute_inv, lemma_initialize_inv, lemma_propose_inv, lemma_remove_signer_inv,
    lemma_revoke_inv, lemma_set_threshold_inv, lemma_transfer_admin_inv, lemma_tx_wf,
    lemma_upgrade_inv,
};
use crate::model::{
    add_signer_step, after, approve_step, cancel_step, closed_reason, deposit_step, execute_step,
    initialize_step, new_proposal, propose_step, remove_signer_step, revoke_step,
    set_threshold_step, transfer_admin_step, upgrade_step, TreasuryView,
};
use crate::seqs::{lemma_remove_all_len, lemma_remove_all_push};
use crate::types::{Address, Effect, Error};

verus! {

/// One call of the treasury with all its inputs, among them what the host
/// answered (ledger time, access-control ranks, the asset balance held).
pub enum Call {
    Initialize {
        admin: Address,
        asset: Address,
        threshold: u32,
        signers: Seq<Address>,
        acl: Address,
        admin_acl_admin: bool,
    },
    Deposit { from: Address, amount: i128 },
    Propose {
        proposer: Address,
        to: Address,
        amount: i128,
        memo: Seq<char>,
        expires_at: u64,
        now: u64,
    },
    Approve { signer: Address, tx_id: u64, now: u64 },
    Execute { executor: Address, tx_id: u64, now: u64, held: i128 },
    Revoke { signer: Address, tx_id: u64, now: u64 },
    Cancel { caller: Address, tx_id: u64 },
    AddSigner { admin: Address, admin_acl_admin: bool, signer: Address },
    RemoveSigner { admin: Address, admin_acl_admin: bool, signer: Address },
    SetThreshold { admin: Address, admin_acl_admin: bool, threshold: u32 },
    TransferAdmin {
        current: Address,
        current_acl_admin: bool,
        new_admin: Address,
        new_acl_admin: bool,
    },
    Upgrade { admin: Address, admin_acl_admin: bool, wasm_hash: [u8; 32] },
}

/// The state after a call, whether it succeeds or fails.
pub open spec fn apply(s: TreasuryView, c: Call) -> TreasuryView {
    match c {
        Call::Initialize { admin, asset, threshold, signers, acl, admin_acl_admin } => after(
            s,
            initialize_step(s, admin, asset, threshold, signers, acl, admin_acl_admin),
        ),
        Call::Deposit { from, amount } => after(s, deposit_step(s, from, amount)),
        Call::Propose { proposer, to, amount, memo, expires_at, now } => after(
            s,
            propose_step(s, proposer, to, amount, memo, expires_at, now),
        ),
        Call::Approve { signer, tx_id, now } => after(s, approve_step(s, signer, tx_id, now)),
        Call::Execute { executor, tx_id, now, held } => after(
            s,
            execute_step(s, executor, tx_id, now, held),
        ),
        Call::Revoke { signer, tx_id, now } => after(s, revoke_step(s, signer, tx_id, now)),
        Call::Cancel { caller, tx_id } => after(s, cancel_step(s, caller, tx_id)),
        Call::AddSigner { admin, admin_acl_admin, signer } => after(
            s,
            add_signer_step(s, admin, admin_acl_admin, signer),
        ),
        Call::RemoveSigner { admin, admin_acl_admin, signer } => after(
            s,
            remove_signer_step(s, admin, admin_acl_admin, signer),
        ),
        Call::SetThreshold { admin, admin_acl_admin, threshold } => after(
            s,
            set_threshold_step(s, admin, admin_acl_admin, threshold),
        ),
        Call::TransferAdmin { current, current_acl_admin, new_admin, new_acl_admin } => after(
            s,
            transfer_admin_step(s, current, current_acl_admin, new_admin, new_acl_admin),
        ),
        Call::Upgrade { admin, admin_acl_admin, wasm_hash } => after(
            s,
            upgrade_step(s, admin, admin_acl_admin, wasm_hash),
        ),
    }
}

/// Whether a call succeeds.
pub open spec fn succeeds(s: TreasuryView, c: Call) -> bool {
    match c {
        Call::Initialize { admin, asset, threshold, signers, acl, admin_acl_admin } => initialize_step(
            s,
            admin,
            asset,
            threshold,
            signers,
            acl,
            admin_acl_admin,
        ) is Ok,
        Call::Deposit { from, amount } => deposit_step(s, from, amount) is Ok,
        Call::Propose { proposer, to, amount, memo, expires_at, now } => propose_step(
            s,
            proposer,
            to,
            amount,
            memo,
            expires_at,
            now,
        ) is Ok,
        Call::Approve { signer, tx_id, now } => approve_step(s, signer, tx_id, now) is Ok,
        Call::Execute { executor, tx_id, now, held } => execute_step(
            s,
            executor,
            tx_id,
            now,
            held,
        ) is Ok,
        Call::Revoke { signer, tx_id, now } => revoke_step(s, signer, tx_id, now) is Ok,
        Call::Cancel { caller, tx_id } => cancel_step(s, caller, tx_id) is Ok,
        Call::AddSigner { admin, admin_acl_admin, signer } => add_signer_step(
            s,
            admin,
            admin_acl_admin,
            signer,
        ) is Ok,
        Call::RemoveSigner { admin, admin_acl_admin, signer } => remove_signer_step(
            s,
            admin,
            admin_acl_admin,
            signer,
        ) is Ok,
        Call::SetThreshold { admin, admin_acl_admin, threshold } => set_threshold_step(
            s,
            admin,
            admin_acl_admin,
            threshold,
        ) is Ok,
        Call::TransferAdmin { current, current_acl_admin, new_admin, new_acl_admin } =>
            transfer_admin_step(s, current, current_acl_admin, new_admin, new_acl_admin) is Ok,
        Call::Upgrade { admin, admin_acl_admin, wasm_hash } => upgrade_step(
            s,
            admin,
            admin_acl_admin,
            wasm_hash,
        ) is Ok,
    }
}

/// The effects a call asks of the host, oldest first.
pub open spec fn new_effects(s: TreasuryView, c: Call) -> Seq<Effect> {
    apply(s, c).log.subrange(s.log.len() as int, apply(s, c).log.len() as int)
}

/// What a sequence of effects moves into the treasury's own token account.
pub open spec fn net_inflow(effects: Seq<Effect>) -> int
    decreases effects.len(),
{
    if effects.len() == 0 {
        0
    } else {
        net_inflow(effects.drop_last()) + match effects.last() {
            Effect::CollectDeposit { amount, .. } => amount as int,
            Effect::PayOut { amount, .. } => -(amount as int),
            _ => 0,
        }
    }
}

/// The machine limits under which a call of the library is defined: the
/// numbers it stores fit their integer types.
pub open spec fn within_limits(s: TreasuryView, c: Call) -> bool {
    match c {
        Call::Initialize { signers, .. } => signers.len() <= u32::MAX,
        Call::Deposit { amount, .. } => amount > 0 ==> s.balance + amount <= i128::MAX,
        Call::Propose { .. } => s.tx_counter < u64::MAX,
        Call::Approve { tx_id, .. } => s.has_tx(tx_id) ==> s.tx(tx_id).approvals.len() < u32::MAX,
        Call::AddSigner { .. } => s.signers.len() < u32::MAX && s.policy_version < u32::MAX,
        Call::RemoveSigner { .. } => s.policy_version < u32::MAX,
        Call::SetThreshold { .. } => s.policy_version < u32::MAX,
        _ => true,
    }
}

/// What a call brings into the treasury's balance.
pub open spec fn deposited(s: TreasuryView, c: Call) -> int {
    match c {
        Call::Deposit { from, amount } => if deposit_step(s, from, amount) is Ok {
            amount as int
        } else {
            0
        },
        _ => 0,
    }
}

/// What a call pays out of the treasury's balance.
pub open spec fn withdrawn(s: TreasuryView, c: Call) -> int {
    match c {
        Call::Execute { executor, tx_id, now, held } => if execute_step(
            s,
            executor,
            tx_id,
            now,
            held,
        ) is Ok {
            s.tx(tx_id).amount as int
        } else {
            0
        },
        _ => 0,
    }
}

/// How many proposals a call stores.
pub open spec fn proposed(s: TreasuryView, c: Call) -> int {
    match c {
        Call::Propose { proposer, to, amount, memo, expires_at, now } => if propose_step(
            s,
            proposer,
            to,
            amount,
            memo,
            expires_at,
            now,
        ) is Ok {
            1
        } else {
            0
        },
        _ => 0,
    }
}

/// The state after a sequence of calls.
pub open spec fn run(s: TreasuryView, calls: Seq<Call>) -> TreasuryView
    decreases calls.len(),
{
    if calls.len() == 0 {
        s
    } else {
        apply(run(s, calls.drop_last()), calls.last())
    }
}

/// Every call of the sequence stays within the machine limits.
pub open spec fn run_within_limits(s: TreasuryView, calls: Seq<Call>) -> bool
    decreases calls.len(),
{
    if calls.len() == 0 {
        true
    } else {
        run_within_limits(s, calls.drop_last()) && within_limits(
            run(s, calls.drop_last()),
            calls.last(),
        )
    }
}

/// Everything a sequence of calls deposited.
pub open spec fn total_deposited(s: TreasuryView, calls: Seq<Call>) -> int
    decreases calls.len(),
{
    if calls.len() == 0 {
        0
    } else {
        total_deposited(s, calls.drop_last()) + deposited(run(s, calls.drop_last()), calls.last())
    }
}

/// Everything a sequence of calls paid out.
pub open spec fn total_withdrawn(s: TreasuryView, calls: Seq<Call>) -> int
    decreases calls.len(),
{
    if calls.len() == 0 {
        0
    } else {
        total_withdrawn(s, calls.drop_last()) + withdrawn(run(s, calls.drop_last()), calls.last())
    }
}

/// How many proposals a sequence of calls stored.
pub open spec fn total_proposed(s: TreasuryView, calls: Seq<Call>) -> int
    decreases calls.len(),
{
    if calls.len() == 0 {
        0
    } else {
        total_proposed(s, calls.drop_last()) + proposed(run(s, calls.drop_last()), calls.last())
    }
}

/// Every call keeps the invariant, moves the balance by exactly what it
/// deposits minus what it pays out, and moves the proposal counter by exactly
/// the proposals it stores.
pub proof fn law_call_accounting(s: TreasuryView, c: Call)
    requires
        s.inv(),
        within_limits(s, c),
    ensures
        apply(s, c).inv(),
        apply(s, c).balance == s.balance + deposited(s, c) - withdrawn(s, c),
        apply(s, c).tx_counter == s.tx_counter + proposed(s, c),
{
    match c {
        Call::Initialize { admin, asset, threshold, signers, acl, admin_acl_admin } => {
            lemma_initialize_inv(s, admin, asset, threshold, signers, acl, admin_acl_admin);
        },
        Call::Deposit { from, amount } => {
            lemma_deposit_inv(s, from, amount);
        },
        Call::Propose { proposer, to, amount, memo, expires_at, now } => {
            lemma_propose_inv(s, proposer, to, amount, memo, expires_at, now);
        },
        Call::Approve { signer, tx_id, now } => {
            lemma_approve_inv(s, signer, tx_id, now);
        },
        Call::Execute { executor, tx_id, now, held } => {
            lemma_execute_inv(s, executor, tx_id, now, held);
            if execute_step(s, executor, tx_id, now, held) is Ok {
                lemma_tx_wf(s, tx_id);
            }
        },
        Call::Revoke { signer, tx_id, now } => {
            lemma_revoke_inv(s, signer, tx_id, now);
        },
        Call::Cancel { caller, tx_id } => {
            lemma_cancel_inv(s, caller, tx_id);
        },
        Call::AddSigner { admin, admin_acl_admin, signer } => {
            lemma_add_signer_inv(s, admin, admin_acl_admin, signer);
        },
        Call::RemoveSigner { admin, admin_acl_admin, signer } => {
            lemma_remove_signer_inv(s, admin, admin_acl_admin, signer);
        },
        Call::SetThreshold { admin, admin_acl_admin, threshold } => {
            lemma_set_threshold_inv(s, admin, admin_acl_admin, threshold);
        },
        Call::TransferAdmin { current, current_acl_admin, new_admin, new_acl_admin } => {
            lemma_transfer_admin_inv(s, current, current_acl_admin, new_admin, new_acl_admin);
        },
        Call::Upgrade { admin, admin_acl_admin, wasm_hash } => {
            lemma_upgrade_inv(s, admin, admin_acl_admin, wasm_hash);
        },
    }
}

/// Over any sequence of calls, successful or not: the balance never goes
/// negative and always equals what was there before plus every deposit minus
/// every executed withdrawal; the threshold stays between one and the signer
/// count; the proposal counter grows by one per stored proposal.
pub proof fn law_balance_accounting(s: TreasuryView, calls: Seq<Call>)
    requires
        s.inv(),
        run_within_limits(s, calls),
    ensures
        run(s, calls).inv(),
        run(s, calls).balance == s.balance + total_deposited(s, calls) - total_withdrawn(s, calls),
        run(s, calls).balance >= 0,
        run(s, calls).initialized() ==> 1 <= run(s, calls).threshold <= run(
            s,
            calls,
        ).signers.len(),
        run(s, calls).tx_counter == s.tx_counter + total_proposed(s, calls),
    decreases calls.len(),
{
    if calls.len() > 0 {
        law_balance_accounting(s, calls.drop_last());
        law_call_accounting(run(s, calls.drop_last()), calls.last());
    }
}

/// A failed call leaves the state as it was and asks nothing of the host; a
/// successful one only appends to what was asked before.
pub proof fn law_failure_changes_nothing(s: TreasuryView, c: Call)
    ensures
        !succeeds(s, c) ==> apply(s, c) == s,
        succeeds(s, c) ==> apply(s, c).log.len() > s.log.len() && apply(s, c).log.subrange(
            0,
            s.log.len() as int,
        ) == s.log,
{
    if succeeds(s, c) {
        assert(apply(s, c).log.subrange(0, s.log.len() as int) =~= s.log);
    }
}

/// Every successful call but an upgrade publishes exactly one event, as the
/// last thing it asks of the host; deposits and executions move tokens just
/// before. An upgrade asks for the code replacement alone.
pub proof fn law_one_event_per_call(s: TreasuryView, c: Call)
    requires
        succeeds(s, c),
    ensures
        !(c is Upgrade) ==> new_effects(s, c).last() is Publish,
        !(c is Upgrade) ==> (new_effects(s, c).len() == 1 || (new_effects(s, c).len() == 2
            && !(new_effects(s, c)[0] is Publish))),
        (c is Deposit || c is Execute) <==> new_effects(s, c).len() == 2,
        c is Upgrade ==> new_effects(s, c) == seq![
            Effect::UpgradeCode { wasm_hash: c->Upgrade_wasm_hash },
        ],
{
    let n = new_effects(s, c);
    match c {
        Call::Deposit { .. } => {
            assert(n.len() == 2);
        },
        Call::Execute { .. } => {
            assert(n.len() == 2);
        },
        _ => {
            assert(n.len() == 1);
        },
    }
    if c is Upgrade {
        assert(n =~= seq![Effect::UpgradeCode { wasm_hash: c->Upgrade_wasm_hash }]);
    }
}

/// The books and the treasury's token account move together: what a call asks
/// to move into or out of the treasury's account is exactly what it adds to or
/// takes from the balance.
pub proof fn law_tokens_follow_books(s: TreasuryView, c: Call)
    requires
        s.inv(),
        within_limits(s, c),
    ensures
        net_inflow(new_effects(s, c)) == apply(s, c).balance - s.balance,
{
    law_call_accounting(s, c);
    reveal_with_fuel(net_inflow, 3);
    let n = new_effects(s, c);
    if succeeds(s, c) {
        match c {
            Call::Deposit { .. } => {
                assert(n.drop_last().drop_last() =~= Seq::<Effect>::empty());
            },
            Call::Execute { .. } => {
                assert(n.drop_last().drop_last() =~= Seq::<Effect>::empty());
            },
            _ => {
                assert(n.drop_last() =~= Seq::<Effect>::empty());
            },
        }
    } else {
        assert(n =~= Seq::<Effect>::empty());
    }
}

/// Executed and canceled are final: no call turns them back, and no call
/// removes or renumbers a stored proposal.
pub proof fn law_closed_stays_closed(s: TreasuryView, c: Call, id: u64)
    requires
        s.inv(),
        within_limits(s, c),
        s.has_tx(id),
    ensures
        apply(s, c).has_tx(id),
        apply(s, c).tx(id).id == s.tx(id).id,
        apply(s, c).tx(id).amount == s.tx(id).amount,
        apply(s, c).tx(id).to == s.tx(id).to,
        apply(s, c).tx(id).policy_version == s.tx(id).policy_version,
        s.tx(id).executed ==> apply(s, c).tx(id).executed,
        s.tx(id).canceled ==> apply(s, c).tx(id).canceled,
{
    law_call_accounting(s, c);
    match c {
        Call::Propose { proposer, to, amount, memo, expires_at, now } => {
            if propose_step(s, proposer, to, amount, memo, expires_at, now) is Ok {
                assert(apply(s, c).transactions[id - 1] == s.transactions[id - 1]);
            }
        },
        _ => {},
    }
}

/// An executed proposal can never be executed again: whoever asks, whenever,
/// whatever the treasury holds.
pub proof fn law_no_double_execution(
    s: TreasuryView,
    tx_id: u64,
    executor: Address,
    now: u64,
    held: i128,
)
    requires
        s.has_tx(tx_id),
        s.tx(tx_id).executed,
    ensures
        execute_step(s, executor, tx_id, now, held) is Err,
        s.initialized() && s.is_signer(executor) ==> execute_step(s, executor, tx_id, now, held)
            == Err::<(TreasuryView, ()), Error>(Error::AlreadyExecuted),
{
}

/// A successful execution had a signer as executor, an open proposal that was
/// neither expired nor stale, at least threshold approvals, and enough funds in
/// both the books and the treasury's account; it marks the proposal executed
/// and pays exactly its amount to its recipient.
pub proof fn law_execute_guards(
    s: TreasuryView,
    executor: Address,
    tx_id: u64,
    now: u64,
    held: i128,
)
    requires
        s.inv(),
        execute_step(s, executor, tx_id, now, held) is Ok,
    ensures
        s.initialized(),
        s.is_signer(executor),
        s.has_tx(tx_id),
        !s.tx(tx_id).executed,
        !s.tx(tx_id).canceled,
        now <= s.tx(tx_id).expires_at,
        s.tx(tx_id).policy_version == s.policy_version,
        s.tx(tx_id).approvals.len() >= s.threshold,
        s.balance >= s.tx(tx_id).amount,
        held >= s.tx(tx_id).amount,
        after(s, execute_step(s, executor, tx_id, now, held)).tx(tx_id).executed,
        after(s, execute_step(s, executor, tx_id, now, held)).balance == s.balance - s.tx(
            tx_id,
        ).amount,
{
    lemma_tx_wf(s, tx_id);
}

/// Once an open, unexpired proposal under the current policy has reached the
/// threshold, a signer executes it, provided the books and the treasury's
/// account both cover its amount.
pub proof fn law_execute_succeeds_when_ready(
    s: TreasuryView,
    executor: Address,
    tx_id: u64,
    now: u64,
    held: i128,
)
    requires
        s.initialized(),
        s.is_signer(executor),
        s.has_tx(tx_id),
        closed_reason(s.tx(tx_id), now, s.policy_version) is None,
        s.tx(tx_id).approvals.len() >= s.threshold,
        s.balance >= s.tx(tx_id).amount,
        held >= s.tx(tx_id).amount,
    ensures
        execute_step(s, executor, tx_id, now, held) is Ok,
{
}

/// An executed or canceled proposal is frozen: it can be neither approved,
/// nor have an approval revoked, nor be executed, nor be canceled.
pub proof fn law_closed_proposals_are_frozen(
    s: TreasuryView,
    tx_id: u64,
    who: Address,
    now: u64,
    held: i128,
)
    requires
        s.has_tx(tx_id),
        s.tx(tx_id).executed || s.tx(tx_id).canceled,
    ensures
        approve_step(s, who, tx_id, now) is Err,
        revoke_step(s, who, tx_id, now) is Err,
        execute_step(s, who, tx_id, now, held) is Err,
        cancel_step(s, who, tx_id) is Err,
{
}

/// An expired proposal can be neither approved nor executed.
pub proof fn law_expired_cannot_execute(
    s: TreasuryView,
    tx_id: u64,
    signer: Address,
    now: u64,
    held: i128,
)
    requires
        s.has_tx(tx_id),
        now > s.tx(tx_id).expires_at,
    ensures
        execute_step(s, signer, tx_id, now, held) is Err,
        approve_step(s, signer, tx_id, now) is Err,
{
}

/// The policy version never goes back, and a proposal made under an earlier
/// policy version stays behind the current one forever: it can then be
/// neither approved nor executed.
pub proof fn law_stale_stays_stale(s: TreasuryView, c: Call, tx_id: u64)
    requires
        s.inv(),
        within_limits(s, c),
        s.has_tx(tx_id),
        s.tx(tx_id).policy_version < s.policy_version,
    ensures
        apply(s, c).policy_version >= s.policy_version,
        apply(s, c).has_tx(tx_id),
        apply(s, c).tx(tx_id).policy_version < apply(s, c).policy_version,
        forall|signer: Address, now: u64, held: i128|
            execute_step(apply(s, c), signer, tx_id, now, held) is Err,
        forall|signer: Address, now: u64| approve_step(apply(s, c), signer, tx_id, now) is Err,
{
    law_closed_stays_closed(s, c, tx_id);
    let n = apply(s, c);
    assert forall|signer: Address, now: u64, held: i128|
        execute_step(n, signer, tx_id, now, held) is Err by {
        if !n.tx(tx_id).executed && !n.tx(tx_id).canceled && now <= n.tx(tx_id).expires_at {
            assert(closed_reason(n.tx(tx_id), now, n.policy_version) is Some);
        }
    }
    assert forall|signer: Address, now: u64| approve_step(n, signer, tx_id, now) is Err by {
        if !n.tx(tx_id).executed && !n.tx(tx_id).canceled && now <= n.tx(tx_id).expires_at {
            assert(closed_reason(n.tx(tx_id), now, n.policy_version) is Some);
        }
    }
}

/// A change of the signer set or the threshold moves the policy version on, so
/// that every proposal stored before it is stale.
pub proof fn law_policy_change_invalidates(s: TreasuryView, c: Call, tx_id: u64)
    requires
        s.inv(),
        within_limits(s, c),
        s.has_tx(tx_id),
        c is AddSigner || c is RemoveSigner || c is SetThreshold,
        succeeds(s, c),
    ensures
        apply(s, c).policy_version == s.policy_version + 1,
        apply(s, c).tx(tx_id).policy_version < apply(s, c).policy_version,
        forall|signer: Address, now: u64, held: i128|
            execute_step(apply(s, c), signer, tx_id, now, held) is Err,
        forall|signer: Address, now: u64| approve_step(apply(s, c), signer, tx_id, now) is Err,
{
    lemma_tx_wf(s, tx_id);
    law_closed_stays_closed(s, c, tx_id);
    let n = apply(s, c);
    assert(n.policy_version == s.policy_version + 1);
    assert forall|signer: Address, now: u64, held: i128|
        execute_step(n, signer, tx_id, now, held) is Err by {
        if !n.tx(tx_id).executed && !n.tx(tx_id).canceled && now <= n.tx(tx_id).expires_at {
            assert(closed_reason(n.tx(tx_id), now, n.policy_version) is Some);
        }
    }
    assert forall|signer: Address, now: u64| approve_step(n, signer, tx_id, now) is Err by {
        if !n.tx(tx_id).executed && !n.tx(tx_id).canceled && now <= n.tx(tx_id).expires_at {
            assert(closed_reason(n.tx(tx_id), now, n.policy_version) is Some);
        }
    }
}

/// No signer approves a proposal twice: approving again is refused, and the
/// approvals of every stored proposal hold no address twice.
pub proof fn law_no_double_approval(s: TreasuryView, signer: Address, tx_id: u64, now: u64)
    requires
        s.inv(),
        s.has_tx(tx_id),
        s.tx(tx_id).approvals.contains(signer),
    ensures
        approve_step(s, signer, tx_id, now) is Err,
        s.tx(tx_id).approvals.no_duplicates(),
{
    lemma_tx_wf(s, tx_id);
}

/// Revoking an approval right after giving it restores the proposal's
/// approvals exactly, and the count goes back to what it was.
pub proof fn law_revoke_undoes_approve(s: TreasuryView, signer: Address, tx_id: u64, now: u64)
    requires
        s.inv(),
        s.has_tx(tx_id) ==> s.tx(tx_id).approvals.len() < u32::MAX,
        approve_step(s, signer, tx_id, now) is Ok,
    ensures
        ({
            let a = after(s, approve_step(s, signer, tx_id, now));
            &&& revoke_step(a, signer, tx_id, now) is Ok
            &&& after(a, revoke_step(a, signer, tx_id, now)).tx(tx_id).approvals == s.tx(
                tx_id,
            ).approvals
            &&& revoke_step(a, signer, tx_id, now)->Ok_0.1 == s.tx(tx_id).approvals.len()
            &&& revoke_step(a, signer, tx_id, now)->Ok_0.1 + 1 == approve_step(
                s,
                signer,
                tx_id,
                now,
            )->Ok_0.1
        }),
{
    let a = after(s, approve_step(s, signer, tx_id, now));
    let old_approvals = s.tx(tx_id).approvals;
    lemma_tx_wf(s, tx_id);
    assert(a.tx(tx_id).approvals == old_approvals.push(signer));
    assert(old_approvals.push(signer).contains(signer)) by {
        assert(old_approvals.push(signer)[old_approvals.len() as int] == signer);
    }
    lemma_remove_all_push(old_approvals, signer);
}

/// Removing a signer right after adding it restores the signer list exactly;
/// the policy version has then moved on twice.
pub proof fn law_remove_undoes_add_signer(
    s: TreasuryView,
    admin: Address,
    admin_acl_admin: bool,
    signer: Address,
)
    requires
        s.inv(),
        s.policy_version + 2 <= u32::MAX,
        add_signer_step(s, admin, admin_acl_admin, signer) is Ok,
    ensures
        ({
            let a = after(s, add_signer_step(s, admin, admin_acl_admin, signer));
            &&& remove_signer_step(a, admin, admin_acl_admin, signer) is Ok
            &&& after(a, remove_signer_step(a, admin, admin_acl_admin, signer)).signers
                == s.signers
            &&& after(a, remove_signer_step(a, admin, admin_acl_admin, signer)).policy_version
                == s.policy_version + 2
        }),
{
    let a = after(s, add_signer_step(s, admin, admin_acl_admin, signer));
    assert(a.signers == s.signers.push(signer));
    assert(s.signers.push(signer).contains(signer)) by {
        assert(s.signers.push(signer)[s.signers.len() as int] == signer);
    }
    lemma_remove_all_push(s.signers, signer);
}

/// A successful proposal gets the next id, is stored under it with the
/// proposer's approval alone and the current policy version, and can then be
/// read back.
pub proof fn law_proposal_is_stored(
    s: TreasuryView,
    proposer: Address,
    to: Address,
    amount: i128,
    memo: Seq<char>,
    expires_at: u64,
    now: u64,
)
    requires
        s.inv(),
        s.tx_counter < u64::MAX,
        propose_step(s, proposer, to, amount, memo, expires_at, now) is Ok,
    ensures
        ({
            let o = propose_step(s, proposer, to, amount, memo, expires_at, now);
            let n = after(s, o);
            let id = o->Ok_0.1;
            &&& id == s.tx_counter + 1
            &&& n.tx_counter == id
            &&& n.has_tx(id)
            &&& n.tx(id) == new_proposal(s, proposer, to, amount, memo, expires_at, now)
            &&& n.tx(id).approvals == seq![proposer]
            &&& n.tx(id).policy_version == s.policy_version
            &&& forall|k: u64| s.has_tx(k) ==> n.has_tx(k) && n.tx(k) == s.tx(k)
        }),
{
    let o = propose_step(s, proposer, to, amount, memo, expires_at, now);
    let n = after(s, o);
    assert forall|k: u64| s.has_tx(k) implies n.has_tx(k) && n.tx(k) == s.tx(k) by {
        assert(n.transactions[k - 1] == s.transactions[k - 1]);
    }
}

/// Only the proposer or the admin cancels a proposal, and only one that is
/// neither executed nor canceled.
pub proof fn law_cancel_guards(s: TreasuryView, caller: Address, tx_id: u64)
    requires
        cancel_step(s, caller, tx_id) is Ok,
    ensures
        s.has_tx(tx_id),
        caller == s.tx(tx_id).proposer || caller == s.admin(),
        !s.tx(tx_id).executed,
        !s.tx(tx_id).canceled,
        after(s, cancel_step(s, caller, tx_id)).tx(tx_id).canceled,
{
}

/// The admin operations succeed only for the admin, and only when the
/// access-control contract ranks the caller admin or above.
pub proof fn law_admin_only(s: TreasuryView, c: Call)
    requires
        succeeds(s, c),
    ensures
        c matches Call::AddSigner { admin, admin_acl_admin, .. } ==> admin == s.admin()
            && admin_acl_admin,
        c matches Call::RemoveSigner { admin, admin_acl_admin, .. } ==> admin == s.admin()
            && admin_acl_admin,
        c matches Call::SetThreshold { admin, admin_acl_admin, .. } ==> admin == s.admin()
            && admin_acl_admin,
        c matches Call::Upgrade { admin, admin_acl_admin, .. } ==> admin == s.admin()
            && admin_acl_admin,
        c matches Call::TransferAdmin { current, current_acl_admin, new_acl_admin, .. } ==> current
            == s.admin() && current_acl_admin && new_acl_admin,
{
}

/// A treasury is initialized once: a second `initialize` is refused, and no
/// call makes an initialized treasury uninitialized.
pub proof fn law_initialize_once(s: TreasuryView, c: Call)
    requires
        s.initialized(),
    ensures
        apply(s, c).initialized(),
        c matches Call::Initialize { admin, asset, threshold, signers, acl, admin_acl_admin }
            ==> initialize_step(s, admin, asset, threshold, signers, acl, admin_acl_admin)
            == Err::<(TreasuryView, ()), Error>(Error::AlreadyInitialized),
{
}

/// Removing a signer never brings the signer count below the threshold.
pub proof fn law_remove_signer_keeps_quorum(
    s: TreasuryView,
    admin: Address,
    admin_acl_admin: bool,
    signer: Address,
)
    requires
        s.inv(),
        remove_signer_step(s, admin, admin_acl_admin, signer) is Ok,
    ensures
        after(s, remove_signer_step(s, admin, admin_acl_admin, signer)).signers.len() == s.signers.len()
            - 1,
        after(s, remove_signer_step(s, admin, admin_acl_admin, signer)).signers.len() >= s.threshold,
        !after(s, remove_signer_step(s, admin, admin_acl_admin, signer)).signers.contains(signer),
{
    lemma_remove_all_len(s.signers, signer);
    crate::seqs::lemma_remove_all_contains(s.signers, signer, signer);
}

} // verus!
