use stellar_sentinel_treasury::contract::TreasuryContract;
use stellar_sentinel_treasury::types::{Address, Effect, Error, Event};

/// A distinct account address for each `n`.
fn addr(n: u32) -> Address {
    let mut k = [b'A'; 56];
    k[0] = b'G';
    k[52] = b'A' + ((n / 17576) % 26) as u8;
    k[53] = b'A' + ((n / 676) % 26) as u8;
    k[54] = b'A' + ((n / 26) % 26) as u8;
    k[55] = b'A' + (n % 26) as u8;
    Address::from_strkey(k)
}

/// The host around one treasury: ledger clock, the access-control contract's
/// admin ranks, the asset balances, and the events published so far.
struct Host {
    now: u64,
    acl_admins: Vec<Address>,
    treasury: TreasuryContract,
    held: i128,
    paid: Vec<(Address, i128)>,
    events: Vec<Event>,
    next_addr: u32,
}

impl Host {
    fn new(now: u64) -> Host {
        Host {
            now,
            acl_admins: Vec::new(),
            treasury: TreasuryContract::new(),
            held: 0,
            paid: Vec::new(),
            events: Vec::new(),
            next_addr: 1,
        }
    }

    fn generate(&mut self) -> Address {
        let a = addr(self.next_addr);
        self.next_addr += 1;
        a
    }

    fn acl_admin(&self, a: &Address) -> bool {
        self.acl_admins.contains(a)
    }

    fn settle<T>(&mut self, r: Result<T, Error>) -> Result<T, Error> {
        for e in self.treasury.take_effects() {
            match e {
                Effect::CollectDeposit { amount, .. } => self.held += amount,
                Effect::PayOut { to, amount } => {
                    self.held -= amount;
                    self.paid.push((to, amount));
                }
                Effect::UpgradeCode { .. } => {}
                Effect::Publish(ev) => self.events.push(ev),
            }
        }
        r
    }

    fn received(&self, a: &Address) -> i128 {
        self.paid.iter().filter(|(to, _)| to == a).map(|(_, x)| *x).sum()
    }

    fn initialize(
        &mut self,
        admin: Address,
        asset: Address,
        threshold: u32,
        signers: Vec<Address>,
        acl: Address,
    ) -> Result<(), Error> {
        let ok = self.acl_admin(&admin);
        let r = self.treasury.initialize(admin, asset, threshold, signers, acl, ok);
        self.settle(r)
    }

    fn deposit(&mut self, from: Address, amount: i128) -> Result<(), Error> {
        let r = self.treasury.deposit(from, amount);
        self.settle(r)
    }

    fn propose(&mut self, proposer: Address, to: Address, amount: i128, memo: &str, expires_at: u64) -> Result<u64, Error> {
        let now = self.now;
        let r = self.treasury.propose_withdrawal(proposer, to, amount, memo.to_string(), expires_at, now);
        self.settle(r)
    }

    fn approve(&mut self, signer: Address, tx_id: u64) -> Result<u32, Error> {
        let now = self.now;
        let r = self.treasury.approve(signer, tx_id, now);
        self.settle(r)
    }

    fn execute(&mut self, executor: Address, tx_id: u64) -> Result<(), Error> {
        let (now, held) = (self.now, self.held);
        let r = self.treasury.execute(executor, tx_id, now, held);
        self.settle(r)
    }

    fn add_signer(&mut self, admin: Address, new_signer: Address) -> Result<(), Error> {
        let ok = self.acl_admin(&admin);
        let r = self.treasury.add_signer(admin, ok, new_signer);
        self.settle(r)
    }

    fn remove_signer(&mut self, admin: Address, signer: Address) -> Result<(), Error> {
        let ok = self.acl_admin(&admin);
        let r = self.treasury.remove_signer(admin, ok, signer);
        self.settle(r)
    }

    fn set_threshold(&mut self, admin: Address, t: u32) -> Result<(), Error> {
        let ok = self.acl_admin(&admin);
        let r = self.treasury.set_threshold(admin, ok, t);
        self.settle(r)
    }
}

/// An admin ranked admin by the access-control contract, and its address.
fn setup_contract(now: u64) -> (Host, Address, Address) {
    let mut h = Host::new(now);
    let admin = h.generate();
    let acl = h.generate();
    h.acl_admins.push(admin);
    (h, admin, acl)
}

/// As `setup_contract`, with a fresh asset, and `init_balance` minted straight
/// into the treasury's own account.
fn setup_contract_with_token(init_balance: i128) -> (Host, Address, Address, Address) {
    let (mut h, admin, acl) = setup_contract(0);
    let asset = h.generate();
    h.held += init_balance;
    (h, admin, acl, asset)
}

#[test]
fn test_initialize() {
    let (mut h, admin, acl) = setup_contract(0);
    let signer1 = h.generate();
    let signer2 = h.generate();
    let signer3 = h.generate();
    let asset = h.generate();
    h.initialize(admin, asset, 2, vec![signer1, signer2, signer3], acl).unwrap();

    let config = h.treasury.get_config().unwrap();
    assert_eq!(config.admin, admin);
    assert_eq!(config.asset, asset);
    assert_eq!(config.threshold, 2);
    assert_eq!(config.signer_count, 3);
    assert_eq!(config.balance, 0);
}

#[test]
fn test_deposit() {
    let (mut h, admin, acl, asset) = setup_contract_with_token(0);
    let signer1 = h.generate();
    h.initialize(admin, asset, 1, vec![signer1], acl).unwrap();

    let depositor = h.generate();
    h.deposit(depositor, 1_000_000).unwrap();

    assert_eq!(h.treasury.get_balance(), 1_000_000);
}

#[test]
fn test_propose_and_approve() {
    let (mut h, admin, acl, asset) = setup_contract_with_token(5_000_000);
    let signer1 = h.generate();
    let signer2 = h.generate();
    h.initialize(admin, asset, 2, vec![signer1, signer2], acl).unwrap();

    h.deposit(signer1, 5_000_000).unwrap();

    let recipient = h.generate();
    let exp = h.now + 3600;
    let tx_id = h.propose(signer1, recipient, 1_000_000, "rent", exp).unwrap();
    assert_eq!(tx_id, 1);

    let approval_count = h.approve(signer2, tx_id).unwrap();
    assert_eq!(approval_count, 2);

    h.execute(signer1, tx_id).unwrap();

    assert_eq!(h.treasury.get_balance(), 4_000_000);

    let tx = h.treasury.get_transaction(tx_id).unwrap();
    assert_eq!(tx.executed, true);
}

#[test]
fn test_duplicate_signer_rejected() {
    let (mut h, admin, acl) = setup_contract(0);
    let signer1 = h.generate();
    let asset = h.generate();
    let r = h.initialize(admin, asset, 1, vec![signer1, signer1], acl);
    assert_eq!(r, Err(Error::DuplicateSigner));
    assert_eq!(r.unwrap_err().code(), 19);
}

#[test]
fn test_already_initialized() {
    let (mut h, admin, acl) = setup_contract(0);
    let signer1 = h.generate();
    let asset = h.generate();
    h.initialize(admin, asset, 1, vec![signer1], acl).unwrap();
    let new_asset = h.generate();
    let r = h.initialize(admin, new_asset, 1, vec![signer1], acl);
    assert_eq!(r, Err(Error::AlreadyInitialized));
    assert_eq!(r.unwrap_err().code(), 2);
}

#[test]
fn test_invalid_threshold_zero() {
    let (mut h, admin, acl) = setup_contract(0);
    let signer1 = h.generate();
    let asset = h.generate();
    let r = h.initialize(admin, asset, 0, vec![signer1], acl);
    assert_eq!(r, Err(Error::InvalidThreshold));
    assert_eq!(r.unwrap_err().code(), 6);
}

#[test]
fn test_invalid_threshold_exceeds_signers() {
    let (mut h, admin, acl) = setup_contract(0);
    let signer1 = h.generate();
    let asset = h.generate();
    let r = h.initialize(admin, asset, 2, vec![signer1], acl);
    assert_eq!(r, Err(Error::InvalidThreshold));
    assert_eq!(r.unwrap_err().code(), 6);
}

#[test]
fn test_storage_lifecycle_not_initialized_deposit() {
    let (mut h, _, _) = setup_contract(0);
    let depositor = h.generate();
    let r = h.deposit(depositor, 100);
    assert_eq!(r, Err(Error::NotInitialized));
    assert_eq!(r.unwrap_err().code(), 1);
}

#[test]
fn test_invariant_balance_tracking() {
    let (mut h, admin, acl, asset) = setup_contract_with_token(1_500);
    let signer1 = h.generate();
    h.initialize(admin, asset, 1, vec![signer1], acl).unwrap();

    assert_eq!(h.treasury.get_balance(), 0);

    let depositor = h.generate();
    h.deposit(depositor, 1_000).unwrap();
    assert_eq!(h.treasury.get_balance(), 1_000);

    h.deposit(depositor, 500).unwrap();
    assert_eq!(h.treasury.get_balance(), 1_500);

    let recipient = h.generate();
    let tx_id = h.propose(signer1, recipient, 500, "pay", 2000).unwrap();
    h.execute(signer1, tx_id).unwrap();

    assert_eq!(h.treasury.get_balance(), 1_000);
}

#[test]
fn test_invariant_insufficient_funds_proposal() {
    let (mut h, admin, acl) = setup_contract(0);
    let signer1 = h.generate();
    let asset = h.generate();
    h.initialize(admin, asset, 1, vec![signer1], acl).unwrap();

    let recipient = h.generate();
    let r = h.propose(signer1, recipient, 100, "pay", 2000);
    assert_eq!(r, Err(Error::InsufficientFunds));
    assert_eq!(r.unwrap_err().code(), 5);
}

#[test]
fn test_event_emission_coverage() {
    let (mut h, admin, acl, asset) = setup_contract_with_token(500);
    let signer1 = h.generate();

    let events_before_init = h.events.len();
    h.initialize(admin, asset, 1, vec![signer1], acl).unwrap();
    let events_after_init = h.events.len();
    assert!(events_after_init > events_before_init);

    let depositor = h.generate();
    h.deposit(depositor, 500).unwrap();
    let events_after_deposit = h.events.len();
    assert!(events_after_deposit > events_after_init);

    let recipient = h.generate();
    let tx_id = h.propose(signer1, recipient, 500, "pay", 2000).unwrap();
    let events_after_propose = h.events.len();
    assert!(events_after_propose > events_after_deposit);

    h.execute(signer1, tx_id).unwrap();
    let events_after_execute = h.events.len();
    assert!(events_after_execute > events_after_propose);
}

#[test]
fn test_invariant_threshold_breach_prevention() {
    let (mut h, admin, acl) = setup_contract(0);
    let signer1 = h.generate();
    let asset = h.generate();
    h.initialize(admin, asset, 1, vec![signer1], acl).unwrap();

    let r = h.remove_signer(admin, signer1);
    assert_eq!(r, Err(Error::ThresholdBreach));
    assert_eq!(r.unwrap_err().code(), 12);
}

/// Two signers, threshold two, 5_000_000 minted into the treasury's account
/// and 5_000_000 deposited; a proposal of 2_000_000 expiring at `expiry`.
fn funded_two_of_two(expiry_in: u64) -> (Host, Address, Address, Address, Address, u64) {
    let mut h = Host::new(0);
    let admin = h.generate();
    let acl = h.generate();
    h.acl_admins.push(admin);
    let signer1 = h.generate();
    let signer2 = h.generate();
    let recipient = h.generate();
    let asset = h.generate();
    h.initialize(admin, asset, 2, vec![signer1, signer2], acl).unwrap();
    h.held += 5_000_000;
    h.deposit(signer1, 5_000_000).unwrap();
    let exp = h.now + expiry_in;
    let tx_id = h.propose(signer1, recipient, 2_000_000, "w", exp).unwrap();
    (h, admin, signer1, signer2, recipient, tx_id)
}

#[test]
fn test_execute_transfers_real_asset_atomically() {
    let (mut h, _admin, signer1, signer2, recipient, tx_id) = funded_two_of_two(3600);
    h.approve(signer2, tx_id).unwrap();

    let recipient_balance_before = h.received(&recipient);
    let contract_balance_before = h.held;

    h.execute(signer1, tx_id).unwrap();

    assert_eq!(h.received(&recipient), recipient_balance_before + 2_000_000);
    assert_eq!(h.held, contract_balance_before - 2_000_000);
    assert_eq!(h.treasury.get_balance(), 3_000_000);

    let tx = h.treasury.get_transaction(tx_id).unwrap();
    assert_eq!(tx.executed, true);
}

#[test]
fn test_double_execute_reverts_with_real_token() {
    let (mut h, _admin, signer1, signer2, _recipient, tx_id) = funded_two_of_two(3600);
    h.approve(signer2, tx_id).unwrap();
    h.execute(signer1, tx_id).unwrap();

    let balance_after_first = h.treasury.get_balance();

    assert_eq!(h.execute(signer1, tx_id), Err(Error::AlreadyExecuted));
    assert_eq!(h.treasury.get_balance(), balance_after_first);
}

#[test]
fn test_execute_after_expiry_reverts_with_real_token() {
    let (mut h, _admin, signer1, signer2, recipient, tx_id) = funded_two_of_two(500);
    h.approve(signer2, tx_id).unwrap();

    h.now = 500 + 1;

    let recipient_balance_before = h.received(&recipient);
    assert_eq!(h.execute(signer1, tx_id), Err(Error::TransactionExpired));
    assert_eq!(h.received(&recipient), recipient_balance_before);
    assert_eq!(h.treasury.get_balance(), 5_000_000);
}

#[test]
fn test_execute_after_policy_change_reverts_with_real_token() {
    let (mut h, admin, signer1, _signer2, recipient, tx_id) = funded_two_of_two(3600);

    let new_signer = h.generate();
    h.add_signer(admin, new_signer).unwrap();

    let recipient_balance_before = h.received(&recipient);
    assert_eq!(h.execute(signer1, tx_id), Err(Error::PolicyInvalidated));
    assert_eq!(h.received(&recipient), recipient_balance_before);
    assert_eq!(h.treasury.get_balance(), 5_000_000);
}

#[test]
fn test_execute_insufficient_real_balance_reverts() {
    let mut h = Host::new(0);
    let admin = h.generate();
    let acl = h.generate();
    h.acl_admins.push(admin);
    let signer1 = h.generate();
    let signer2 = h.generate();
    let recipient = h.generate();
    let asset = h.generate();
    h.initialize(admin, asset, 2, vec![signer1, signer2], acl).unwrap();

    h.deposit(signer1, 1_000_000).unwrap();

    let exp = h.now + 3600;
    let tx_id = h.propose(signer1, recipient, 1_000_000, "w", exp).unwrap();
    h.approve(signer2, tx_id).unwrap();

    // 500_000 leaves the treasury's account behind its back.
    h.held -= 500_000;

    let recipient_balance_before = h.received(&recipient);
    assert_eq!(h.execute(signer1, tx_id), Err(Error::InsufficientFunds));
    assert_eq!(h.received(&recipient), recipient_balance_before);
}

// ---------------------------------------------------------------------------
// Cross-call invariants
// ---------------------------------------------------------------------------

/// Deterministic 64-bit LCG (Knuth/MMIX constants).
struct Rng(u64);

impl Rng {
    fn next_u64(&mut self) -> u64 {
        self.0 = self.0.wrapping_mul(6364136223846793005).wrapping_add(1442695040888963407);
        self.0
    }
    fn below(&mut self, n: u64) -> u64 {
        if n == 0 { 0 } else { self.next_u64() % n }
    }
}

/// Clock at 1_000, three signers, threshold two.
fn setup() -> (Host, Address, Vec<Address>, Address) {
    let mut h = Host::new(1_000);
    let admin = h.generate();
    let acl = h.generate();
    h.acl_admins.push(admin);
    let signers = vec![h.generate(), h.generate(), h.generate()];
    let asset = h.generate();
    let recipient = h.generate();
    h.initialize(admin, asset, 2, signers.clone(), acl).unwrap();
    (h, admin, signers, recipient)
}

fn assert_treasury_invariants(h: &Host, deposited: i128, withdrawn: i128) {
    let cfg = h.treasury.get_config().unwrap();
    assert!(cfg.balance >= 0, "treasury balance must be non-negative");
    assert_eq!(cfg.balance, deposited - withdrawn, "balance must equal deposits minus executed withdrawals");
    assert!(cfg.threshold >= 1 && cfg.threshold <= cfg.signer_count, "threshold must stay within [1, signer_count]");
}

#[test]
fn treasury_invariants_seeded_operation_sequences() {
    for seed in [1u64, 7, 42, 99, 12345] {
        let (mut h, admin, signers, recipient) = setup();
        let mut rng = Rng(seed);
        let mut deposited = 0i128;
        let mut withdrawn = 0i128;
        let mut last_tx = 0u64;

        for _ in 0..40 {
            match rng.below(5) {
                0 => {
                    let s = signers[rng.below(signers.len() as u64) as usize];
                    let amt = (rng.below(9) + 1) as i128 * 1_000;
                    if h.deposit(s, amt).is_ok() {
                        deposited += amt;
                    }
                }
                1 => {
                    let amt = (rng.below(5) + 1) as i128 * 1_000;
                    let exp = h.now + 10_000;
                    if let Ok(id) = h.propose(signers[0], recipient, amt, "w", exp) {
                        last_tx = id;
                    }
                }
                2 => {
                    let _ = h.approve(signers[1], last_tx);
                }
                3 => {
                    if last_tx != 0 {
                        let amount = h.treasury.get_transaction(last_tx).map(|t| t.amount);
                        if let Ok(amount) = amount {
                            if h.execute(signers[0], last_tx).is_ok() {
                                withdrawn += amount;
                            }
                        }
                    }
                }
                _ => {
                    let cfg = h.treasury.get_config().unwrap();
                    let nt = (rng.below(cfg.signer_count as u64) + 1) as u32;
                    let _ = h.set_threshold(admin, nt);
                }
            }
            assert_treasury_invariants(&h, deposited, withdrawn);
        }
    }
}

#[test]
fn no_double_execution() {
    let (mut h, _admin, signers, recipient) = setup();
    h.deposit(signers[0], 10_000).unwrap();
    let exp = h.now + 10_000;
    let id = h.propose(signers[0], recipient, 4_000, "rent", exp).unwrap();
    h.approve(signers[1], id).unwrap();

    h.execute(signers[0], id).unwrap();
    assert_eq!(h.treasury.get_balance(), 6_000);

    assert_eq!(h.execute(signers[0], id), Err(Error::AlreadyExecuted));
    assert_eq!(h.treasury.get_balance(), 6_000);
}

#[test]
fn expired_cannot_execute() {
    let (mut h, _admin, signers, recipient) = setup();
    h.deposit(signers[0], 10_000).unwrap();
    let exp = h.now + 100;
    let id = h.propose(signers[0], recipient, 4_000, "rent", exp).unwrap();
    h.approve(signers[1], id).unwrap();

    h.now += 200;

    assert_eq!(h.execute(signers[0], id), Err(Error::TransactionExpired));
    assert_eq!(h.treasury.get_balance(), 10_000);
}

#[test]
fn policy_change_invalidates_stale_proposal() {
    let (mut h, admin, signers, recipient) = setup();
    h.deposit(signers[0], 10_000).unwrap();
    let exp = h.now + 10_000;
    let id = h.propose(signers[0], recipient, 4_000, "rent", exp).unwrap();

    let new_signer = h.generate();
    h.add_signer(admin, new_signer).unwrap();

    assert_eq!(h.approve(signers[1], id), Err(Error::PolicyInvalidated));
    assert_eq!(h.execute(signers[0], id), Err(Error::PolicyInvalidated));
    assert_eq!(h.treasury.get_balance(), 10_000);
}

#[test]
fn insufficient_funds_preserves_state() {
    let (mut h, _admin, signers, recipient) = setup();
    h.deposit(signers[0], 1_000).unwrap();
    let exp = h.now + 10_000;

    assert_eq!(h.propose(signers[0], recipient, 5_000, "x", exp), Err(Error::InsufficientFunds));
    assert_eq!(h.treasury.get_balance(), 1_000);
    assert_eq!(h.treasury.get_config().unwrap().tx_count, 0);
}

#[test]
fn threshold_bounds_enforced() {
    let (mut h, admin, _signers, _recipient) = setup();
    assert_eq!(h.set_threshold(admin, 9), Err(Error::InvalidThreshold));
    let cfg = h.treasury.get_config().unwrap();
    assert!(cfg.threshold >= 1 && cfg.threshold <= cfg.signer_count);
}

#[test]
fn treasury_lifecycle_emits_every_step() {
    let mut h = Host::new(1_000);
    let admin = h.generate();
    let acl = h.generate();
    h.acl_admins.push(admin);
    let signers = vec![h.generate(), h.generate()];
    let asset = h.generate();
    let recipient = h.generate();
    h.initialize(admin, asset, 2, signers.clone(), acl).unwrap();

    let count_before = h.events.len();
    assert!(count_before >= 1, "init event present");

    h.deposit(signers[0], 5_000).unwrap();
    let exp = h.now + 10_000;
    let tx = h.propose(signers[0], recipient, 2_000, "r", exp).unwrap();
    h.approve(signers[1], tx).unwrap();
    h.execute(signers[0], tx).unwrap();

    let new_events = h.events.len() - count_before;
    assert!(new_events >= 4, "expected at least 4 lifecycle events, got {}", new_events);
    assert_eq!(h.treasury.get_balance(), 3_000);
}

#[test]
fn treasury_storage_growth_is_linear() {
    const N: u64 = 50;
    let mut h = Host::new(1_000);
    let admin = h.generate();
    let acl = h.generate();
    h.acl_admins.push(admin);
    let signers = vec![h.generate(), h.generate()];
    let asset = h.generate();
    let recipient = h.generate();
    h.initialize(admin, asset, 2, signers.clone(), acl).unwrap();
    h.deposit(signers[0], N as i128 * 10_000).unwrap();

    let exp = h.now + 1_000_000;
    for _ in 0..N {
        h.propose(signers[0], recipient, 1, "r", exp).unwrap();
    }
    let cfg = h.treasury.get_config().unwrap();
    assert_eq!(cfg.tx_count, N, "one transaction entry per proposal");
    println!("[resource] treasury: {} proposals -> tx_count={}, balance={}", N, cfg.tx_count, cfg.balance);
}
