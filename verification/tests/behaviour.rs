use stellar_sentinel_treasury::contract::TreasuryContract;
use stellar_sentinel_treasury::types::{
    Address, DataKey, Effect, Error, Event, Roles, Transaction, TreasuryConfig,
};

fn addr(n: u32) -> Address {
    let mut k = [b'A'; 56];
    k[0] = b'G';
    k[54] = b'A' + ((n / 26) % 26) as u8;
    k[55] = b'A' + (n % 26) as u8;
    Address::from_strkey(k)
}

const ADMIN: u32 = 1;
const ASSET: u32 = 2;
const ACL: u32 = 3;
const S1: u32 = 10;
const S2: u32 = 11;
const S3: u32 = 12;
const RECIPIENT: u32 = 20;
const STRANGER: u32 = 30;

/// Initialized with signers S1, S2, S3, threshold 2, and 10_000 deposited.
fn funded() -> TreasuryContract {
    let mut t = TreasuryContract::new();
    t.initialize(addr(ADMIN), addr(ASSET), 2, vec![addr(S1), addr(S2), addr(S3)], addr(ACL), true)
        .unwrap();
    t.deposit(addr(S1), 10_000).unwrap();
    t.take_effects();
    t
}

fn snapshot(t: &TreasuryContract) -> (Result<TreasuryConfig, Error>, Vec<Address>, i128, Vec<Effect>) {
    (t.get_config(), t.get_signers(), t.get_balance(), t.effects().clone())
}

#[test]
fn error_codes_round_trip() {
    let all = [
        Error::NotInitialized,
        Error::AlreadyInitialized,
        Error::Unauthorized,
        Error::InvalidAmount,
        Error::InsufficientFunds,
        Error::InvalidThreshold,
        Error::TransactionNotFound,
        Error::AlreadyApproved,
        Error::AlreadyExecuted,
        Error::AlreadySigner,
        Error::NotASigner,
        Error::ThresholdBreach,
        Error::TransactionExpired,
        Error::TransactionCanceled,
        Error::NotProposer,
        Error::NotApproved,
        Error::InvalidExpiry,
        Error::PolicyInvalidated,
        Error::DuplicateSigner,
    ];
    for (i, e) in all.iter().enumerate() {
        assert_eq!(e.code(), i as u32 + 1);
        assert_eq!(Error::from_code(e.code()), Some(*e));
    }
    assert_eq!(Error::NotProposer.code(), 15);
    assert_eq!(Error::from_code(0), None);
    assert_eq!(Error::from_code(20), None);
}

#[test]
fn address_identity() {
    assert!(addr(5).same_as(&addr(5)));
    assert!(!addr(5).same_as(&addr(6)));
    let mut k = addr(5).strkey;
    k[0] = b'C';
    assert!(!addr(5).same_as(&Address::from_strkey(k)));
}

#[test]
fn uninitialized_treasury() {
    let t = TreasuryContract::new();
    assert_eq!(t.get_balance(), 0);
    assert_eq!(t.get_config(), Err(Error::NotInitialized));
    assert_eq!(t.get_signers(), vec![]);
    assert_eq!(t.get_transaction(1).map(|x| x.id), Err(Error::TransactionNotFound));
    assert_eq!(t.require_initialized(), Err(Error::NotInitialized));
    assert_eq!(t.get_acl(), Err(Error::NotInitialized));
    assert!(!t.has_key(&DataKey::Initialized));
    assert!(!t.has_key(&DataKey::Admin));
    assert!(!t.has_key(&DataKey::Transaction(1)));
}

#[test]
fn every_call_needs_initialization() {
    let mut t = TreasuryContract::new();
    assert_eq!(t.deposit(addr(S1), 5), Err(Error::NotInitialized));
    assert_eq!(t.propose_withdrawal(addr(S1), addr(RECIPIENT), 5, "m".to_string(), 10, 0), Err(Error::NotInitialized));
    assert_eq!(t.approve(addr(S1), 1, 0), Err(Error::NotInitialized));
    assert_eq!(t.execute(addr(S1), 1, 0, 100), Err(Error::NotInitialized));
    assert_eq!(t.revoke_approval(addr(S1), 1, 0), Err(Error::NotInitialized));
    assert_eq!(t.cancel_withdrawal(addr(S1), 1), Err(Error::NotInitialized));
    assert_eq!(t.add_signer(addr(ADMIN), true, addr(S1)), Err(Error::NotInitialized));
    assert_eq!(t.remove_signer(addr(ADMIN), true, addr(S1)), Err(Error::NotInitialized));
    assert_eq!(t.set_threshold(addr(ADMIN), true, 1), Err(Error::NotInitialized));
    assert_eq!(t.transfer_admin(addr(ADMIN), true, addr(S1), true), Err(Error::NotInitialized));
    assert_eq!(t.upgrade(addr(ADMIN), true, [7u8; 32]), Err(Error::NotInitialized));
    assert!(t.effects().is_empty());
}

#[test]
fn initialize_stores_configuration_and_emits_init() {
    let mut t = TreasuryContract::new();
    t.initialize(addr(ADMIN), addr(ASSET), 2, vec![addr(S1), addr(S2), addr(S3)], addr(ACL), true)
        .unwrap();
    let cfg = t.get_config().unwrap();
    assert_eq!(
        cfg,
        TreasuryConfig {
            admin: addr(ADMIN),
            asset: addr(ASSET),
            threshold: 2,
            signer_count: 3,
            balance: 0,
            tx_count: 0,
            policy_version: 1,
        }
    );
    assert_eq!(t.get_acl(), Ok(addr(ACL)));
    assert_eq!(t.get_signers(), vec![addr(S1), addr(S2), addr(S3)]);
    assert_eq!(
        t.effects().clone(),
        vec![Effect::Publish(Event::Init {
            admin: addr(ADMIN),
            asset: addr(ASSET),
            threshold: 2,
            signer_count: 3
        })]
    );
    assert!(t.has_key(&DataKey::Initialized));
    assert!(t.has_key(&DataKey::PolicyVersion));
    assert!(!t.has_key(&DataKey::Transaction(1)));
}

#[test]
fn initialize_refused_when_admin_lacks_acl_rank() {
    let mut t = TreasuryContract::new();
    let r = t.initialize(addr(ADMIN), addr(ASSET), 1, vec![addr(S1)], addr(ACL), false);
    assert_eq!(r, Err(Error::Unauthorized));
    assert_eq!(t.get_config(), Err(Error::NotInitialized));
    assert!(t.effects().is_empty());
}

#[test]
fn duplicate_check_comes_before_threshold_check() {
    let mut t = TreasuryContract::new();
    let r = t.initialize(addr(ADMIN), addr(ASSET), 0, vec![addr(S1), addr(S2), addr(S1)], addr(ACL), false);
    assert_eq!(r, Err(Error::DuplicateSigner));
}

#[test]
fn deposit_effects_and_invalid_amounts() {
    let mut t = funded();
    assert_eq!(t.deposit(addr(STRANGER), 0), Err(Error::InvalidAmount));
    assert_eq!(t.deposit(addr(STRANGER), -5), Err(Error::InvalidAmount));
    t.deposit(addr(STRANGER), 250).unwrap();
    assert_eq!(t.get_balance(), 10_250);
    assert_eq!(
        t.take_effects(),
        vec![
            Effect::CollectDeposit { from: addr(STRANGER), amount: 250 },
            Effect::Publish(Event::Deposit { from: addr(STRANGER), amount: 250, new_balance: 10_250 }),
        ]
    );
    assert!(t.effects().is_empty());
}

#[test]
fn proposal_is_stored_with_proposer_approval() {
    let mut t = funded();
    let id = t.propose_withdrawal(addr(S2), addr(RECIPIENT), 3_000, "rent".to_string(), 500, 100).unwrap();
    assert_eq!(id, 1);
    let tx: &Transaction = t.get_transaction(1).unwrap();
    assert_eq!(tx.id, 1);
    assert_eq!(tx.to, addr(RECIPIENT));
    assert_eq!(tx.amount, 3_000);
    assert_eq!(tx.memo, "rent");
    assert_eq!(tx.approvals, vec![addr(S2)]);
    assert!(!tx.executed && !tx.canceled);
    assert_eq!(tx.created_at, 100);
    assert_eq!(tx.proposer, addr(S2));
    assert_eq!(tx.expires_at, 500);
    assert_eq!(tx.policy_version, 1);
    assert!(t.has_key(&DataKey::Transaction(1)));
    assert!(!t.has_key(&DataKey::Transaction(2)));
    let id2 = t.propose_withdrawal(addr(S1), addr(RECIPIENT), 1, "x".to_string(), 500, 100).unwrap();
    assert_eq!(id2, 2);
    assert_eq!(t.get_config().unwrap().tx_count, 2);
}

#[test]
fn proposal_refusals() {
    let mut t = funded();
    let r = addr(RECIPIENT);
    assert_eq!(t.propose_withdrawal(addr(STRANGER), r, 5, "m".to_string(), 500, 100), Err(Error::NotASigner));
    assert_eq!(t.propose_withdrawal(addr(S1), r, 0, "m".to_string(), 500, 100), Err(Error::InvalidAmount));
    assert_eq!(t.propose_withdrawal(addr(S1), r, 5, "m".to_string(), 100, 100), Err(Error::InvalidExpiry));
    assert_eq!(t.propose_withdrawal(addr(S1), r, 10_001, "m".to_string(), 500, 100), Err(Error::InsufficientFunds));
    assert_eq!(t.get_config().unwrap().tx_count, 0);
    assert!(t.effects().is_empty());
}

#[test]
fn approval_refusals() {
    let mut t = funded();
    let id = t.propose_withdrawal(addr(S1), addr(RECIPIENT), 1_000, "m".to_string(), 500, 100).unwrap();
    assert_eq!(t.approve(addr(STRANGER), id, 100), Err(Error::NotASigner));
    assert_eq!(t.approve(addr(S2), 0, 100), Err(Error::TransactionNotFound));
    assert_eq!(t.approve(addr(S2), 9, 100), Err(Error::TransactionNotFound));
    assert_eq!(t.approve(addr(S1), id, 100), Err(Error::AlreadyApproved));
    assert_eq!(t.approve(addr(S2), id, 501), Err(Error::TransactionExpired));
    assert_eq!(t.approve(addr(S2), id, 500), Ok(2));
}

#[test]
fn execute_refusals() {
    let mut t = funded();
    let id = t.propose_withdrawal(addr(S1), addr(RECIPIENT), 4_000, "m".to_string(), 500, 100).unwrap();
    // Below threshold.
    assert_eq!(t.execute(addr(S1), id, 100, 10_000), Err(Error::Unauthorized));
    t.approve(addr(S3), id, 100).unwrap();
    // The treasury's own account holds too little.
    assert_eq!(t.execute(addr(S1), id, 100, 3_999), Err(Error::InsufficientFunds));
    assert_eq!(t.execute(addr(STRANGER), id, 100, 10_000), Err(Error::NotASigner));
    t.take_effects();
    assert_eq!(t.execute(addr(S2), id, 100, 4_000), Ok(()));
    assert_eq!(
        t.take_effects(),
        vec![
            Effect::PayOut { to: addr(RECIPIENT), amount: 4_000 },
            Effect::Publish(Event::Execute { id, to: addr(RECIPIENT), amount: 4_000, new_balance: 6_000 }),
        ]
    );
    assert_eq!(t.cancel_withdrawal(addr(S1), id), Err(Error::AlreadyExecuted));
    assert_eq!(t.revoke_approval(addr(S1), id, 100), Err(Error::AlreadyExecuted));
}

#[test]
fn internal_balance_guards_execution() {
    let mut t = funded();
    let a = t.propose_withdrawal(addr(S1), addr(RECIPIENT), 8_000, "a".to_string(), 500, 100).unwrap();
    let b = t.propose_withdrawal(addr(S1), addr(RECIPIENT), 8_000, "b".to_string(), 500, 100).unwrap();
    t.approve(addr(S2), a, 100).unwrap();
    t.approve(addr(S2), b, 100).unwrap();
    t.execute(addr(S1), a, 100, 1_000_000).unwrap();
    assert_eq!(t.get_balance(), 2_000);
    assert_eq!(t.execute(addr(S1), b, 100, 1_000_000), Err(Error::InsufficientFunds));
    assert_eq!(t.get_balance(), 2_000);
}

#[test]
fn revoke_undoes_approve() {
    let mut t = funded();
    let id = t.propose_withdrawal(addr(S1), addr(RECIPIENT), 1_000, "m".to_string(), 500, 100).unwrap();
    let before = t.get_transaction(id).unwrap().approvals.clone();
    assert_eq!(t.approve(addr(S2), id, 100), Ok(2));
    assert_eq!(t.revoke_approval(addr(S2), id, 100), Ok(1));
    assert_eq!(t.get_transaction(id).unwrap().approvals, before);
    assert_eq!(t.revoke_approval(addr(S2), id, 100), Err(Error::NotApproved));
    // The proposer may withdraw its own approval too.
    assert_eq!(t.revoke_approval(addr(S1), id, 100), Ok(0));
    assert!(t.get_transaction(id).unwrap().approvals.is_empty());
}

#[test]
fn cancel_rules() {
    let mut t = funded();
    let id = t.propose_withdrawal(addr(S1), addr(RECIPIENT), 1_000, "m".to_string(), 500, 100).unwrap();
    assert_eq!(t.cancel_withdrawal(addr(S2), id), Err(Error::Unauthorized));
    assert_eq!(t.cancel_withdrawal(addr(S1), 7), Err(Error::TransactionNotFound));
    t.cancel_withdrawal(addr(S1), id).unwrap();
    assert!(t.get_transaction(id).unwrap().canceled);
    assert_eq!(t.cancel_withdrawal(addr(ADMIN), id), Err(Error::TransactionCanceled));
    assert_eq!(t.approve(addr(S2), id, 100), Err(Error::TransactionCanceled));
    assert_eq!(t.execute(addr(S1), id, 100, 10_000), Err(Error::TransactionCanceled));

    let id2 = t.propose_withdrawal(addr(S1), addr(RECIPIENT), 1_000, "m".to_string(), 500, 100).unwrap();
    // The admin may cancel a proposal it did not make.
    assert_eq!(t.cancel_withdrawal(addr(ADMIN), id2), Ok(()));
}

#[test]
fn signer_management() {
    let mut t = funded();
    assert_eq!(t.add_signer(addr(STRANGER), true, addr(40)), Err(Error::Unauthorized));
    assert_eq!(t.add_signer(addr(ADMIN), false, addr(40)), Err(Error::Unauthorized));
    assert_eq!(t.add_signer(addr(ADMIN), true, addr(S2)), Err(Error::AlreadySigner));
    t.add_signer(addr(ADMIN), true, addr(40)).unwrap();
    assert_eq!(t.get_signers(), vec![addr(S1), addr(S2), addr(S3), addr(40)]);
    assert_eq!(t.get_config().unwrap().policy_version, 2);
    assert_eq!(t.remove_signer(addr(ADMIN), true, addr(STRANGER)), Err(Error::NotASigner));
    t.remove_signer(addr(ADMIN), true, addr(S2)).unwrap();
    assert_eq!(t.get_signers(), vec![addr(S1), addr(S3), addr(40)]);
    assert_eq!(t.get_config().unwrap().policy_version, 3);
    assert_eq!(t.require_signer(&addr(S2)), Err(Error::NotASigner));
    assert_eq!(t.require_signer(&addr(40)), Ok(()));
}

#[test]
fn remove_undoes_add_signer() {
    let mut t = funded();
    let before = t.get_signers();
    t.add_signer(addr(ADMIN), true, addr(40)).unwrap();
    t.remove_signer(addr(ADMIN), true, addr(40)).unwrap();
    assert_eq!(t.get_signers(), before);
    assert_eq!(t.get_config().unwrap().policy_version, 3);
}

#[test]
fn threshold_changes() {
    let mut t = funded();
    assert_eq!(t.set_threshold(addr(ADMIN), true, 0), Err(Error::InvalidThreshold));
    assert_eq!(t.set_threshold(addr(ADMIN), true, 4), Err(Error::InvalidThreshold));
    assert_eq!(t.set_threshold(addr(S1), true, 1), Err(Error::Unauthorized));
    t.set_threshold(addr(ADMIN), true, 3).unwrap();
    assert_eq!(t.get_config().unwrap().threshold, 3);
    // Three signers and threshold three: no signer can leave.
    assert_eq!(t.remove_signer(addr(ADMIN), true, addr(S1)), Err(Error::ThresholdBreach));
}

#[test]
fn stale_proposal_stays_stale() {
    let mut t = funded();
    let id = t.propose_withdrawal(addr(S1), addr(RECIPIENT), 1_000, "m".to_string(), 500, 100).unwrap();
    t.set_threshold(addr(ADMIN), true, 1).unwrap();
    assert_eq!(t.approve(addr(S2), id, 100), Err(Error::PolicyInvalidated));
    assert_eq!(t.revoke_approval(addr(S1), id, 100), Err(Error::PolicyInvalidated));
    assert_eq!(t.execute(addr(S1), id, 100, 10_000), Err(Error::PolicyInvalidated));
    // A new proposal under the new policy goes through with one approval.
    let id2 = t.propose_withdrawal(addr(S1), addr(RECIPIENT), 1_000, "m".to_string(), 500, 100).unwrap();
    assert_eq!(t.execute(addr(S1), id2, 100, 10_000), Ok(()));
}

#[test]
fn admin_transfer() {
    let mut t = funded();
    assert_eq!(t.transfer_admin(addr(S1), true, addr(50), true), Err(Error::Unauthorized));
    assert_eq!(t.transfer_admin(addr(ADMIN), true, addr(50), false), Err(Error::Unauthorized));
    t.transfer_admin(addr(ADMIN), true, addr(50), true).unwrap();
    assert_eq!(t.get_config().unwrap().admin, addr(50));
    assert_eq!(
        t.effects().last().copied(),
        Some(Effect::Publish(Event::AdminTransferred { previous: addr(ADMIN), new_admin: addr(50) }))
    );
    assert_eq!(t.add_signer(addr(ADMIN), true, addr(41)), Err(Error::Unauthorized));
    assert_eq!(t.add_signer(addr(50), true, addr(41)), Ok(()));
    // The admin cancels proposals as the new admin.
    let id = t.propose_withdrawal(addr(S1), addr(RECIPIENT), 1_000, "m".to_string(), 500, 100).unwrap();
    assert_eq!(t.cancel_withdrawal(addr(ADMIN), id), Err(Error::Unauthorized));
    assert_eq!(t.cancel_withdrawal(addr(50), id), Ok(()));
}

#[test]
fn upgrade_is_admin_only() {
    let mut t = funded();
    assert_eq!(t.upgrade(addr(S1), true, [9u8; 32]), Err(Error::Unauthorized));
    assert!(t.effects().is_empty());
    t.upgrade(addr(ADMIN), true, [9u8; 32]).unwrap();
    assert_eq!(t.take_effects(), vec![Effect::UpgradeCode { wasm_hash: [9u8; 32] }]);
}

#[test]
fn access_control_gates() {
    let t = funded();
    assert_eq!(t.require_admin(&addr(ADMIN), true), Ok(()));
    assert_eq!(t.require_admin(&addr(ADMIN), false), Err(Error::Unauthorized));
    assert_eq!(t.require_admin(&addr(S1), true), Err(Error::Unauthorized));
    assert_eq!(t.require_acl_admin_or_above(true), Ok(()));
    assert_eq!(t.require_acl_admin_or_above(false), Err(Error::Unauthorized));
    assert_eq!(t.require_acl_member_or_above(true), Ok(()));
    assert_eq!(t.require_acl_member_or_above(false), Err(Error::Unauthorized));
    let u = TreasuryContract::new();
    assert_eq!(u.require_acl_member_or_above(true), Err(Error::NotInitialized));
    assert_eq!(u.require_admin(&addr(ADMIN), true), Err(Error::NotInitialized));
}

#[test]
fn failed_calls_change_nothing() {
    let mut t = funded();
    let id = t.propose_withdrawal(addr(S1), addr(RECIPIENT), 1_000, "m".to_string(), 500, 100).unwrap();
    let before = snapshot(&t);
    let tx_before = t.get_transaction(id).unwrap().clone();
    assert!(t.initialize(addr(ADMIN), addr(ASSET), 1, vec![addr(S1)], addr(ACL), true).is_err());
    assert!(t.deposit(addr(S1), 0).is_err());
    assert!(t.approve(addr(S1), id, 100).is_err());
    assert!(t.execute(addr(S1), id, 100, 10_000).is_err());
    assert!(t.revoke_approval(addr(S2), id, 100).is_err());
    assert!(t.cancel_withdrawal(addr(S3), id).is_err());
    assert!(t.add_signer(addr(ADMIN), true, addr(S1)).is_err());
    assert!(t.remove_signer(addr(ADMIN), false, addr(S1)).is_err());
    assert!(t.set_threshold(addr(ADMIN), true, 0).is_err());
    assert!(t.transfer_admin(addr(S1), true, addr(S1), true).is_err());
    assert!(t.upgrade(addr(S1), true, [0u8; 32]).is_err());
    assert_eq!(snapshot(&t), before);
    assert_eq!(t.get_transaction(id).unwrap(), &tx_before);
}

#[test]
fn restore_checks_stored_state() {
    let roles = Some(Roles { admin: addr(ADMIN), asset: addr(ASSET), acl: addr(ACL) });
    let tx = Transaction {
        id: 1,
        to: addr(RECIPIENT),
        amount: 5,
        memo: "m".to_string(),
        approvals: vec![addr(S1)],
        executed: false,
        created_at: 0,
        proposer: addr(S1),
        expires_at: 10,
        canceled: false,
        policy_version: 1,
    };
    let t = TreasuryContract::restore(roles, 1, vec![addr(S1), addr(S2)], 5, 1, 1, vec![tx.clone()]).unwrap();
    assert_eq!(t.get_config().unwrap().tx_count, 1);
    assert_eq!(t.get_transaction(1).unwrap(), &tx);
    assert!(t.effects().is_empty());

    // Threshold above the signer count.
    assert!(TreasuryContract::restore(roles, 3, vec![addr(S1), addr(S2)], 5, 1, 1, vec![tx.clone()]).is_none());
    // A signer twice.
    assert!(TreasuryContract::restore(roles, 1, vec![addr(S1), addr(S1)], 5, 1, 1, vec![tx.clone()]).is_none());
    // Counter and stored proposals disagree.
    assert!(TreasuryContract::restore(roles, 1, vec![addr(S1)], 5, 2, 1, vec![tx.clone()]).is_none());
    // A proposal under a later policy version than the current one.
    assert!(TreasuryContract::restore(roles, 1, vec![addr(S1)], 5, 1, 0, vec![tx.clone()]).is_none());
    // Negative balance.
    assert!(TreasuryContract::restore(roles, 1, vec![addr(S1)], -1, 1, 1, vec![tx.clone()]).is_none());
    // Uninitialized storage with leftovers.
    assert!(TreasuryContract::restore(None, 0, vec![addr(S1)], 0, 0, 0, vec![]).is_none());
    assert!(TreasuryContract::restore(None, 0, vec![], 0, 0, 0, vec![]).is_some());
}

