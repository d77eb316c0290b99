use milestone_escrow::address::Address;
use milestone_escrow::escrow::MilestoneEscrow;
use milestone_escrow::types::{
    Effects, Error, Event, FundedEvent, Ledger, Milestone, MilestoneStatus, Transfer,
};

/// How a call can fail: the escrow refused it, or the host aborted it
/// (a token transfer that could not be made).
#[derive(Debug, PartialEq)]
enum CallError {
    Contract(Error),
    Host,
}

/// A small stand-in for the chain: it keeps token balances, carries out the
/// transfers the escrow asks for, collects the events, and rolls the escrow
/// back when a call fails.
struct Host {
    escrow: MilestoneEscrow,
    ledger: Ledger,
    balances: Vec<(String, String, i128)>,
    events: Vec<Event>,
    reentrant_token: Option<String>,
    reentry_attempted: bool,
}

fn addr(s: &str) -> Address {
    Address::from_str(s)
}

struct Parties {
    client: Address,
    freelancer: Address,
    arbiter: Address,
    admin: Address,
    token: Address,
}

fn parties() -> Parties {
    Parties {
        client: addr("GCLIENTACCOUNT"),
        freelancer: addr("GFREELANCERACCOUNT"),
        arbiter: addr("GARBITERACCOUNT"),
        admin: addr("GADMINACCOUNT"),
        token: addr("CTOKENCONTRACT"),
    }
}

impl Host {
    fn new() -> Host {
        Host {
            escrow: MilestoneEscrow::new(),
            ledger: Ledger { contract_address: addr("CESCROWCONTRACT"), timestamp: 0 },
            balances: Vec::new(),
            events: Vec::new(),
            reentrant_token: None,
            reentry_attempted: false,
        }
    }

    fn contract(&self) -> Address {
        self.ledger.contract_address.clone()
    }

    fn balance(&self, token: &Address, who: &Address) -> i128 {
        for (t, w, b) in &self.balances {
            if *t == token.strkey && *w == who.strkey {
                return *b;
            }
        }
        0
    }

    fn set_balance(&mut self, token: &Address, who: &Address, amount: i128) {
        for entry in self.balances.iter_mut() {
            if entry.0 == token.strkey && entry.1 == who.strkey {
                entry.2 = amount;
                return;
            }
        }
        self.balances.push((token.strkey.clone(), who.strkey.clone(), amount));
    }

    fn mint(&mut self, token: &Address, to: &Address, amount: i128) {
        let b = self.balance(token, to);
        self.set_balance(token, to, b + amount);
    }

    fn transfer(&mut self, t: &Transfer) -> bool {
        if self.reentrant_token.as_deref() == Some(t.token.strkey.as_str()) {
            // This token calls back into the escrow's `fund`; the host refuses
            // to re-enter a contract that is already running.
            self.reentry_attempted = true;
            return true;
        }
        let from = self.balance(&t.token, &t.from);
        if t.amount < 0 || from < t.amount {
            return false;
        }
        self.set_balance(&t.token, &t.from, from - t.amount);
        let to = self.balance(&t.token, &t.to);
        self.set_balance(&t.token, &t.to, to + t.amount);
        true
    }

    fn run<F>(&mut self, f: F) -> Result<(), CallError>
    where
        F: FnOnce(&mut MilestoneEscrow, &Ledger) -> Result<Effects, Error>,
    {
        let before = self.escrow.clone();
        let ledger = self.ledger.clone();
        match f(&mut self.escrow, &ledger) {
            Err(e) => {
                self.escrow = before;
                Err(CallError::Contract(e))
            }
            Ok(effects) => {
                if let Some(t) = &effects.transfer {
                    if !self.transfer(t) {
                        self.escrow = before;
                        return Err(CallError::Host);
                    }
                }
                if let Some(ev) = effects.event {
                    self.events.push(ev);
                }
                Ok(())
            }
        }
    }

    fn initialize(&mut self, p: &Parties, seconds: u64, amounts: &Vec<i128>) -> Result<(), CallError> {
        self.run(|e, _| {
            e.initialize(&p.admin, &p.client, &p.freelancer, &p.arbiter, &p.token, seconds, amounts)
        })
    }

    fn fund(&mut self, client: &Address) -> Result<(), CallError> {
        self.run(|e, l| e.fund(l, client))
    }

    fn mark_delivered(&mut self, freelancer: &Address, index: u32) -> Result<(), CallError> {
        self.run(|e, l| e.mark_delivered(l, freelancer, index))
    }

    fn approve_milestone(&mut self, client: &Address, index: u32) -> Result<(), CallError> {
        self.run(|e, l| e.approve_milestone(l, client, index))
    }

    fn approve_partial(&mut self, client: &Address, index: u32, amount: i128) -> Result<(), CallError> {
        self.run(|e, l| e.approve_partial(l, client, index, amount))
    }

    fn raise_dispute(&mut self, caller: &Address, index: u32) -> Result<(), CallError> {
        self.run(|e, _| e.raise_dispute(caller, index))
    }

    fn resolve_dispute(&mut self, arbiter: &Address, index: u32, release: bool) -> Result<(), CallError> {
        self.run(|e, l| e.resolve_dispute(l, arbiter, index, release))
    }

    fn milestone(&self, index: u32) -> Milestone {
        self.escrow.get_job().unwrap().milestones[index as usize]
    }
}

fn setup_funded_escrow(h: &mut Host, amounts: Vec<i128>) -> Parties {
    let p = parties();
    let total: i128 = amounts.iter().sum();
    h.mint(&p.token, &p.client, total);
    h.initialize(&p, 604800, &amounts).unwrap();
    h.fund(&p.client).unwrap();
    p
}

#[test]
fn test_full_happy_path() {
    let mut h = Host::new();
    let p = parties();
    h.mint(&p.token, &p.client, 10_000);
    let amounts = vec![3_000_i128, 7_000_i128];
    h.initialize(&p, 604800, &amounts).unwrap();
    let contract = h.contract();

    assert_eq!(h.balance(&p.token, &p.client), 10_000);

    h.fund(&p.client).unwrap();
    assert_eq!(h.balance(&p.token, &p.client), 0);
    assert_eq!(h.balance(&p.token, &contract), 10_000);

    h.mark_delivered(&p.freelancer, 0).unwrap();
    h.approve_milestone(&p.client, 0).unwrap();
    assert_eq!(h.balance(&p.token, &p.freelancer), 3_000);
    assert_eq!(h.balance(&p.token, &contract), 7_000);

    h.mark_delivered(&p.freelancer, 1).unwrap();
    h.approve_milestone(&p.client, 1).unwrap();
    assert_eq!(h.balance(&p.token, &p.freelancer), 10_000);
    assert_eq!(h.balance(&p.token, &contract), 0);
}

#[test]
fn test_dispute_release_to_freelancer() {
    let mut h = Host::new();
    let p = parties();
    h.mint(&p.token, &p.client, 5_000);
    h.initialize(&p, 604800, &vec![5_000_i128]).unwrap();
    h.fund(&p.client).unwrap();
    h.mark_delivered(&p.freelancer, 0).unwrap();
    h.raise_dispute(&p.client, 0).unwrap();
    h.resolve_dispute(&p.arbiter, 0, true).unwrap();

    assert_eq!(h.balance(&p.token, &p.freelancer), 5_000);
}

#[test]
fn test_dispute_refund_to_client() {
    let mut h = Host::new();
    let p = parties();
    h.mint(&p.token, &p.client, 5_000);
    h.initialize(&p, 604800, &vec![5_000_i128]).unwrap();
    h.fund(&p.client).unwrap();
    h.raise_dispute(&p.client, 0).unwrap();
    h.resolve_dispute(&p.arbiter, 0, false).unwrap();

    assert_eq!(h.balance(&p.token, &p.client), 5_000);
}

#[test]
fn test_double_initialize_fails() {
    let mut h = Host::new();
    let p = parties();
    let amounts = vec![1_000_i128];
    h.initialize(&p, 604800, &amounts).unwrap();
    let result = h.initialize(&p, 604800, &amounts);
    assert!(result.is_err());
}

#[test]
fn test_unauthorized_fund_fails() {
    let mut h = Host::new();
    let p = parties();
    let bad_actor = addr("GBADACTOR");
    h.initialize(&p, 604800, &vec![1_000_i128]).unwrap();
    let result = h.fund(&bad_actor);
    assert_eq!(result, Err(CallError::Contract(Error::Unauthorized)));
}

#[test]
fn test_invalid_milestone_index_fails() {
    let mut h = Host::new();
    let p = parties();
    h.mint(&p.token, &p.client, 1_000);
    h.initialize(&p, 604800, &vec![1_000_i128]).unwrap();
    h.fund(&p.client).unwrap();
    let result = h.mark_delivered(&p.freelancer, 1);
    assert_eq!(result, Err(CallError::Contract(Error::InvalidMilestone)));
}

#[test]
fn test_mark_delivered_zero_address_fails() {
    let mut h = Host::new();
    let p = parties();
    h.mint(&p.token, &p.client, 1_000);
    h.initialize(&p, 604800, &vec![1_000_i128]).unwrap();
    h.fund(&p.client).unwrap();
    let zero_account = addr("GAAAAAAAAAAAAAAAAAAAAAAAAAAAAAAAAAAAAAAAAAAAAAAAAAAAAWHF");
    let result = h.mark_delivered(&zero_account, 0);
    assert_eq!(result, Err(CallError::Contract(Error::InvalidAddress)));
}

#[test]
fn test_mark_delivered_invalid_amount_fails() {
    let mut h = Host::new();
    let p = parties();
    h.mint(&p.token, &p.client, 1_000);
    h.initialize(&p, 604800, &vec![1_000_i128]).unwrap();
    h.fund(&p.client).unwrap();
    let milestone = Milestone {
        amount: 0,
        released_amount: 0,
        status: MilestoneStatus::Pending,
        delivered_at: 0,
    };
    h.escrow.store_milestone(0, milestone);
    let result = h.mark_delivered(&p.freelancer, 0);
    assert_eq!(result, Err(CallError::Contract(Error::InvalidAmount)));
}

#[test]
fn test_mark_delivered_wrong_status_fails() {
    let mut h = Host::new();
    let p = parties();
    h.mint(&p.token, &p.client, 1_000);
    h.initialize(&p, 604800, &vec![1_000_i128]).unwrap();
    h.fund(&p.client).unwrap();
    h.mark_delivered(&p.freelancer, 0).unwrap();
    let result = h.mark_delivered(&p.freelancer, 0);
    assert_eq!(result, Err(CallError::Contract(Error::InvalidStatus)));
}

#[test]
fn test_mark_delivered_after_released_fails() {
    let mut h = Host::new();
    let p = setup_funded_escrow(&mut h, vec![1_000_i128]);
    h.mark_delivered(&p.freelancer, 0).unwrap();
    h.approve_milestone(&p.client, 0).unwrap();
    let result = h.mark_delivered(&p.freelancer, 0);
    assert_eq!(result, Err(CallError::Contract(Error::InvalidStatus)));
}

#[test]
fn test_mark_delivered_after_disputed_fails() {
    let mut h = Host::new();
    let p = setup_funded_escrow(&mut h, vec![1_000_i128]);
    h.mark_delivered(&p.freelancer, 0).unwrap();
    h.raise_dispute(&p.client, 0).unwrap();
    let result = h.mark_delivered(&p.freelancer, 0);
    assert_eq!(result, Err(CallError::Contract(Error::InvalidStatus)));
}

#[test]
fn test_mark_delivered_after_refunded_fails() {
    let mut h = Host::new();
    let p = setup_funded_escrow(&mut h, vec![1_000_i128]);
    h.mark_delivered(&p.freelancer, 0).unwrap();
    h.raise_dispute(&p.client, 0).unwrap();
    h.resolve_dispute(&p.arbiter, 0, false).unwrap();
    let result = h.mark_delivered(&p.freelancer, 0);
    assert_eq!(result, Err(CallError::Contract(Error::InvalidStatus)));
}

#[test]
fn test_mark_delivered_after_partially_released_fails() {
    let mut h = Host::new();
    let p = setup_funded_escrow(&mut h, vec![1_000_i128]);
    h.mark_delivered(&p.freelancer, 0).unwrap();
    h.approve_partial(&p.client, 0, 400).unwrap();
    let result = h.mark_delivered(&p.freelancer, 0);
    assert_eq!(result, Err(CallError::Contract(Error::InvalidStatus)));
}

#[test]
fn test_approve_milestone_zero_account_address_fails() {
    let mut h = Host::new();
    let p = parties();
    h.mint(&p.token, &p.client, 1_000);
    h.initialize(&p, 604800, &vec![1_000_i128]).unwrap();
    h.fund(&p.client).unwrap();
    h.mark_delivered(&p.freelancer, 0).unwrap();
    let zero_account = addr("GAAAAAAAAAAAAAAAAAAAAAAAAAAAAAAAAAAAAAAAAAAAAAAAAAAAAWHF");
    let result = h.approve_milestone(&zero_account, 0);
    assert_eq!(result, Err(CallError::Contract(Error::InvalidAddress)));
}

#[test]
fn test_approve_milestone_zero_contract_address_fails() {
    let mut h = Host::new();
    let p = parties();
    h.mint(&p.token, &p.client, 1_000);
    h.initialize(&p, 604800, &vec![1_000_i128]).unwrap();
    h.fund(&p.client).unwrap();
    h.mark_delivered(&p.freelancer, 0).unwrap();
    let zero_contract = addr("CAAAAAAAAAAAAAAAAAAAAAAAAAAAAAAAAAAAAAAAAAAAAAAAAAAABSC4");
    let result = h.approve_milestone(&zero_contract, 0);
    assert_eq!(result, Err(CallError::Contract(Error::InvalidAddress)));
}

#[test]
fn test_approve_milestone_wrong_status_fails() {
    let mut h = Host::new();
    let p = parties();
    h.mint(&p.token, &p.client, 1_000);
    h.initialize(&p, 604800, &vec![1_000_i128]).unwrap();
    h.fund(&p.client).unwrap();
    let result = h.approve_milestone(&p.client, 0);
    assert_eq!(result, Err(CallError::Contract(Error::InvalidStatus)));
}

#[test]
fn test_approve_milestone_invalid_index_fails() {
    let mut h = Host::new();
    let p = parties();
    h.mint(&p.token, &p.client, 10_000);
    h.initialize(&p, 604800, &vec![10_000_i128]).unwrap();
    h.fund(&p.client).unwrap();
    h.mark_delivered(&p.freelancer, 0).unwrap();
    let result = h.approve_milestone(&p.client, 1);
    assert_eq!(result, Err(CallError::Contract(Error::InvalidMilestone)));
}

#[test]
fn test_approve_milestone_zero_amount_fails() {
    let mut h = Host::new();
    let p = parties();
    h.mint(&p.token, &p.client, 10_000);
    let result = h.initialize(&p, 604800, &vec![0_i128]);
    assert_eq!(result, Err(CallError::Contract(Error::InvalidAmount)));
}

#[test]
fn test_raise_dispute_wrong_status_fails() {
    let mut h = Host::new();
    let p = parties();
    h.mint(&p.token, &p.client, 1_000);
    h.initialize(&p, 604800, &vec![1_000_i128]).unwrap();
    h.fund(&p.client).unwrap();
    h.mark_delivered(&p.freelancer, 0).unwrap();
    h.approve_milestone(&p.client, 0).unwrap();
    let result = h.raise_dispute(&p.client, 0);
    assert!(result.is_err());
}

#[test]
fn test_resolve_dispute_unauthorized_fails() {
    let mut h = Host::new();
    let p = parties();
    let bad_actor = addr("GBADACTOR");
    h.mint(&p.token, &p.client, 1_000);
    h.initialize(&p, 604800, &vec![1_000_i128]).unwrap();
    h.fund(&p.client).unwrap();
    h.raise_dispute(&p.client, 0).unwrap();
    let result = h.resolve_dispute(&bad_actor, 0, true);
    assert!(result.is_err());
}

#[test]
fn test_resolve_dispute_wrong_status_fails() {
    let mut h = Host::new();
    let p = parties();
    h.mint(&p.token, &p.client, 1_000);
    h.initialize(&p, 604800, &vec![1_000_i128]).unwrap();
    h.fund(&p.client).unwrap();
    let result = h.resolve_dispute(&p.arbiter, 0, true);
    assert!(result.is_err());
}

#[test]
fn test_fund_before_initialized_fails() {
    let mut h = Host::new();
    let p = parties();
    let result = h.fund(&p.client);
    assert_eq!(result, Err(CallError::Contract(Error::NotInitialized)));
}

#[test]
fn test_double_fund_fails() {
    let mut h = Host::new();
    let p = parties();
    h.mint(&p.token, &p.client, 2_000);
    h.initialize(&p, 604800, &vec![1_000_i128]).unwrap();
    h.fund(&p.client).unwrap();
    let result = h.fund(&p.client);
    assert_eq!(result, Err(CallError::Contract(Error::AlreadyFunded)));
}

#[test]
fn test_fund_reentrancy_guard_blocks_callback_fund() {
    let mut h = Host::new();
    let p = parties();
    h.reentrant_token = Some(p.token.strkey.clone());
    h.initialize(&p, 604800, &vec![1_000_i128]).unwrap();

    h.fund(&p.client).unwrap();

    assert!(h.reentry_attempted);
    let job = h.escrow.get_job().unwrap();
    assert!(job.funded);
    assert_eq!(job.milestones.len(), 1);

    let result = h.fund(&p.client);
    assert_eq!(result, Err(CallError::Contract(Error::AlreadyFunded)));
}

fn fund_events(h: &Host) -> Vec<FundedEvent> {
    let mut found = Vec::new();
    for ev in &h.events {
        if let Event::Funded(f) = ev {
            found.push(f.clone());
        }
    }
    found
}

#[test]
fn test_fund_emits_structured_event() {
    let mut h = Host::new();
    let p = parties();
    h.mint(&p.token, &p.client, 3_000);
    h.initialize(&p, 604800, &vec![1_000_i128, 2_000_i128]).unwrap();
    h.fund(&p.client).unwrap();

    let events = fund_events(&h);
    assert_eq!(events.len(), 1);
    assert_eq!(
        events[0],
        FundedEvent {
            contract_id: h.contract(),
            client: p.client.clone(),
            freelancer: p.freelancer.clone(),
            arbiter: p.arbiter.clone(),
            token: p.token.clone(),
            total_amount: 3_000,
            milestone_count: 2,
            auto_release_seconds: 604800,
            funded: true,
        }
    );
}

#[test]
fn test_failed_fund_does_not_emit_fund_event() {
    let mut h = Host::new();
    let p = parties();
    let wrong_client = addr("GWRONGCLIENT");
    h.initialize(&p, 604800, &vec![1_000_i128]).unwrap();
    let result = h.fund(&wrong_client);
    assert_eq!(result, Err(CallError::Contract(Error::Unauthorized)));
    assert_eq!(fund_events(&h).len(), 0);
}

#[test]
fn test_fund_before_initialize_fails() {
    let mut h = Host::new();
    let p = parties();
    let result = h.fund(&p.client);
    assert_eq!(result, Err(CallError::Contract(Error::NotInitialized)));
}

#[test]
fn test_fund_rejects_contract_address() {
    let mut h = Host::new();
    let contract = h.contract();
    let result = h.fund(&contract);
    assert_eq!(result, Err(CallError::Contract(Error::InvalidAddress)));
}

#[test]
fn test_fund_rejects_wrong_client() {
    let mut h = Host::new();
    let p = parties();
    let wrong_client = addr("GWRONGCLIENT");
    h.initialize(&p, 604800, &vec![1_000_i128]).unwrap();
    let result = h.fund(&wrong_client);
    assert_eq!(result, Err(CallError::Contract(Error::Unauthorized)));
}

#[test]
fn test_fund_fails_without_balance() {
    let mut h = Host::new();
    let p = parties();
    h.initialize(&p, 604800, &vec![1_000_i128]).unwrap();
    let result = h.fund(&p.client);
    assert!(result.is_err());
}

#[test]
fn test_fund_uses_cached_total_for_many_milestones() {
    let mut h = Host::new();
    let p = parties();
    let mut amounts = Vec::new();
    let mut total = 0_i128;
    for _ in 0..100u32 {
        amounts.push(1_i128);
        total += 1;
    }
    h.mint(&p.token, &p.client, total);
    h.initialize(&p, 604800, &amounts).unwrap();
    h.fund(&p.client).unwrap();

    let contract = h.contract();
    assert_eq!(h.balance(&p.token, &p.client), 0);
    assert_eq!(h.balance(&p.token, &contract), total);
    let job = h.escrow.get_job().unwrap();
    assert!(job.funded);
    assert_eq!(job.milestones.len(), 100);
}

#[test]
fn test_fund_rejects_missing_milestone_index() {
    let mut h = Host::new();
    let p = parties();
    h.mint(&p.token, &p.client, 3_000);
    h.initialize(&p, 604800, &vec![1_000_i128, 2_000_i128]).unwrap();
    h.escrow.milestones[1] = None;

    let result = h.fund(&p.client);
    let contract = h.contract();
    assert_eq!(result, Err(CallError::Contract(Error::InvalidMilestone)));
    assert_eq!(h.balance(&p.token, &p.client), 3_000);
    assert_eq!(h.balance(&p.token, &contract), 0);
}

#[test]
fn test_fund_rejects_zero_milestone_amount() {
    let mut h = Host::new();
    let p = parties();
    h.mint(&p.token, &p.client, 1_000);
    h.initialize(&p, 604800, &vec![1_000_i128]).unwrap();
    let mut milestone = h.escrow.load_milestone(0).unwrap();
    milestone.amount = 0;
    h.escrow.store_milestone(0, milestone);

    let result = h.fund(&p.client);
    let contract = h.contract();
    assert_eq!(result, Err(CallError::Contract(Error::InvalidAmount)));
    assert_eq!(h.balance(&p.token, &p.client), 1_000);
    assert_eq!(h.balance(&p.token, &contract), 0);
}

#[test]
fn test_fund_rejects_negative_milestone_amount() {
    let mut h = Host::new();
    let p = parties();
    h.mint(&p.token, &p.client, 1_000);
    h.initialize(&p, 604800, &vec![1_000_i128]).unwrap();
    let mut milestone = h.escrow.load_milestone(0).unwrap();
    milestone.amount = -1;
    h.escrow.store_milestone(0, milestone);

    let result = h.fund(&p.client);
    let contract = h.contract();
    assert_eq!(result, Err(CallError::Contract(Error::InvalidAmount)));
    assert_eq!(h.balance(&p.token, &p.client), 1_000);
    assert_eq!(h.balance(&p.token, &contract), 0);
}

#[test]
fn test_fund_rejects_empty_milestone_set() {
    let mut h = Host::new();
    let p = parties();
    let result = h.initialize(&p, 604800, &Vec::new());
    assert_eq!(result, Err(CallError::Contract(Error::InvalidAmount)));
}

#[test]
fn test_mark_delivered_before_funded_fails() {
    let mut h = Host::new();
    let p = parties();
    h.initialize(&p, 604800, &vec![1_000_i128]).unwrap();
    let result = h.mark_delivered(&p.freelancer, 0);
    assert!(result.is_err());
}

fn whitelist_host(tokens: &[&str]) -> (Host, Parties, Vec<Address>) {
    let mut h = Host::new();
    let mut p = parties();
    let list: Vec<Address> = tokens.iter().map(|t| addr(t)).collect();
    p.token = list[0].clone();
    h.initialize(&p, 604800, &vec![1_000_i128]).unwrap();
    (h, p, list)
}

#[test]
fn test_admin_add_token() {
    let (mut h, p, t) = whitelist_host(&["CTOKENONE", "CTOKENTWO"]);
    assert!(h.escrow.is_token_whitelisted(&t[0]));
    assert!(!h.escrow.is_token_whitelisted(&t[1]));

    h.run(|e, _| e.add_whitelisted_token(&p.admin, &t[1])).unwrap();
    assert!(h.escrow.is_token_whitelisted(&t[1]));

    let whitelist = h.escrow.get_whitelisted_tokens().unwrap();
    assert_eq!(whitelist.len(), 2);
}

#[test]
fn test_non_admin_add_token_fails() {
    let (mut h, _p, t) = whitelist_host(&["CTOKENONE", "CTOKENTWO"]);
    let bad_actor = addr("GBADACTOR");
    let result = h.run(|e, _| e.add_whitelisted_token(&bad_actor, &t[1]));
    assert_eq!(result, Err(CallError::Contract(Error::Unauthorized)));
}

#[test]
fn test_admin_remove_token() {
    let (mut h, p, t) = whitelist_host(&["CTOKENONE", "CTOKENTWO"]);
    h.run(|e, _| e.add_whitelisted_token(&p.admin, &t[1])).unwrap();
    assert!(h.escrow.is_token_whitelisted(&t[1]));

    h.run(|e, _| e.remove_whitelisted_token(&p.admin, &t[1])).unwrap();
    assert!(!h.escrow.is_token_whitelisted(&t[1]));
}

#[test]
fn test_non_admin_remove_token_fails() {
    let (mut h, p, t) = whitelist_host(&["CTOKENONE", "CTOKENTWO"]);
    let bad_actor = addr("GBADACTOR");
    h.run(|e, _| e.add_whitelisted_token(&p.admin, &t[1])).unwrap();
    let result = h.run(|e, _| e.remove_whitelisted_token(&bad_actor, &t[1]));
    assert_eq!(result, Err(CallError::Contract(Error::Unauthorized)));
}

#[test]
fn test_add_existing_token_fails() {
    let (mut h, p, t) = whitelist_host(&["CTOKENONE"]);
    let result = h.run(|e, _| e.add_whitelisted_token(&p.admin, &t[0]));
    assert!(result.is_err());
}

#[test]
fn test_remove_nonexistent_token_fails() {
    let (mut h, p, t) = whitelist_host(&["CTOKENONE", "CTOKENTWO"]);
    let result = h.run(|e, _| e.remove_whitelisted_token(&p.admin, &t[1]));
    assert!(result.is_err());
}

fn delivered_escrow(amount: i128) -> (Host, Parties) {
    let mut h = Host::new();
    let p = parties();
    h.mint(&p.token, &p.client, amount);
    h.initialize(&p, 604800, &vec![amount]).unwrap();
    h.fund(&p.client).unwrap();
    h.mark_delivered(&p.freelancer, 0).unwrap();
    (h, p)
}

#[test]
fn test_partial_release_remaining_balance() {
    let (mut h, p) = delivered_escrow(10_000);
    h.approve_partial(&p.client, 0, 4_000).unwrap();

    let contract = h.contract();
    assert_eq!(h.balance(&p.token, &p.freelancer), 4_000);
    assert_eq!(h.balance(&p.token, &contract), 6_000);

    let milestone = h.milestone(0);
    assert_eq!(milestone.released_amount, 4_000);
    assert_eq!(milestone.status, MilestoneStatus::PartiallyReleased);
}

#[test]
fn test_multiple_partial_releases_sum_full() {
    let (mut h, p) = delivered_escrow(10_000);
    h.approve_partial(&p.client, 0, 3_000).unwrap();
    h.approve_partial(&p.client, 0, 3_000).unwrap();
    h.approve_partial(&p.client, 0, 4_000).unwrap();

    let contract = h.contract();
    assert_eq!(h.balance(&p.token, &p.freelancer), 10_000);
    assert_eq!(h.balance(&p.token, &contract), 0);

    let milestone = h.milestone(0);
    assert_eq!(milestone.released_amount, 10_000);
    assert_eq!(milestone.status, MilestoneStatus::Released);
}

#[test]
fn test_over_release_fails() {
    let (mut h, p) = delivered_escrow(10_000);
    let result = h.approve_partial(&p.client, 0, 11_000);
    assert!(result.is_err());
}

#[test]
fn test_negative_or_zero_release_fails() {
    let (mut h, p) = delivered_escrow(10_000);
    let result1 = h.approve_partial(&p.client, 0, 0);
    assert!(result1.is_err());
    let result2 = h.approve_partial(&p.client, 0, -1000);
    assert!(result2.is_err());
}

#[test]
fn test_approve_partial_large_amounts_fails() {
    let (mut h, p) = delivered_escrow(i128::MAX);
    h.approve_partial(&p.client, 0, 1).unwrap();
    let result = h.approve_partial(&p.client, 0, i128::MAX);
    assert_eq!(result, Err(CallError::Contract(Error::InvalidAmount)));
}

fn funded_escrow(amount: i128) -> (Host, Parties) {
    let mut h = Host::new();
    let p = parties();
    h.mint(&p.token, &p.client, amount);
    h.initialize(&p, 604800, &vec![amount]).unwrap();
    h.fund(&p.client).unwrap();
    (h, p)
}

#[test]
fn test_release_on_wrong_status_fails() {
    let (mut h, p) = funded_escrow(10_000);
    let result = h.approve_partial(&p.client, 0, 4000);
    assert!(result.is_err());
}

#[test]
fn test_approve_partial_wrong_status_fails() {
    let (mut h, p) = funded_escrow(10_000);
    let result = h.approve_partial(&p.client, 0, 4000);
    assert_eq!(result, Err(CallError::Contract(Error::InvalidStatus)));

    h.mark_delivered(&p.freelancer, 0).unwrap();
    h.approve_milestone(&p.client, 0).unwrap();

    let result = h.approve_partial(&p.client, 0, 1000);
    assert_eq!(result, Err(CallError::Contract(Error::InvalidStatus)));
}

#[test]
fn test_approve_partial_invalid_milestone_fails() {
    let (mut h, p) = delivered_escrow(10_000);
    let result = h.approve_partial(&p.client, 1, 4000);
    assert_eq!(result, Err(CallError::Contract(Error::InvalidMilestone)));
}

#[test]
fn test_approve_partial_before_funded_fails() {
    let mut h = Host::new();
    let p = parties();
    h.initialize(&p, 604800, &vec![10_000_i128]).unwrap();
    let result = h.approve_partial(&p.client, 0, 4000);
    assert_eq!(result, Err(CallError::Contract(Error::NotFunded)));
}

#[test]
fn test_approve_partial_unauthorized_partial_release_fails() {
    let (mut h, p) = delivered_escrow(10_000);
    let result = h.approve_partial(&p.freelancer, 0, 4000);
    assert_eq!(result, Err(CallError::Contract(Error::Unauthorized)));
}

#[test]
fn test_approve_partial_arbiter_is_unauthorized() {
    let (mut h, p) = delivered_escrow(10_000);
    let result = h.approve_partial(&p.arbiter, 0, 4000);
    assert_eq!(result, Err(CallError::Contract(Error::Unauthorized)));
}

#[test]
fn test_approve_partial_zero_amount_fails() {
    let (mut h, p) = delivered_escrow(10_000);
    let result = h.approve_partial(&p.client, 0, 0);
    assert_eq!(result, Err(CallError::Contract(Error::InvalidAmount)));
}

#[test]
fn test_approve_partial_negative_amount_fails() {
    let (mut h, p) = delivered_escrow(10_000);
    let result = h.approve_partial(&p.client, 0, -1);
    assert_eq!(result, Err(CallError::Contract(Error::InvalidAmount)));
}

#[test]
fn test_whitelist_state_transitions() {
    let (mut h, p, t) = whitelist_host(&["CTOKENONE", "CTOKENTWO", "CTOKENTHREE"]);
    assert!(h.escrow.is_token_whitelisted(&t[0]));
    assert!(!h.escrow.is_token_whitelisted(&t[1]));

    h.run(|e, _| e.add_whitelisted_token(&p.admin, &t[1])).unwrap();
    assert!(h.escrow.is_token_whitelisted(&t[1]));

    let whitelist = h.escrow.get_whitelisted_tokens().unwrap();
    assert_eq!(whitelist.len(), 2);

    h.run(|e, _| e.remove_whitelisted_token(&p.admin, &t[1])).unwrap();
    assert!(!h.escrow.is_token_whitelisted(&t[1]));

    h.run(|e, _| e.add_whitelisted_token(&p.admin, &t[2])).unwrap();
    assert!(h.escrow.is_token_whitelisted(&t[2]));
}

#[test]
fn test_approve_partial_on_disputed_milestone_fails() {
    let (mut h, p) = delivered_escrow(10_000);
    h.raise_dispute(&p.client, 0).unwrap();
    let result = h.approve_partial(&p.client, 0, 4000);
    assert_eq!(result, Err(CallError::Contract(Error::InvalidStatus)));
}

#[test]
fn test_approve_partial_on_refunded_milestone_fails() {
    let (mut h, p) = delivered_escrow(10_000);
    h.raise_dispute(&p.client, 0).unwrap();
    h.resolve_dispute(&p.arbiter, 0, false).unwrap();
    let result = h.approve_partial(&p.client, 0, 4000);
    assert_eq!(result, Err(CallError::Contract(Error::InvalidStatus)));
}

#[test]
fn test_multisig_lock_requires_admin() {
    let mut h = Host::new();
    let p = setup_funded_escrow(&mut h, vec![1_000_i128]);
    let attacker = addr("GATTACKER");
    let result = h.run(|e, _| e.multisig_lock(&attacker));
    assert_eq!(result, Err(CallError::Contract(Error::Unauthorized)));

    h.run(|e, _| e.multisig_lock(&p.admin)).unwrap();
    assert!(h.escrow.is_multisig_locked());
}

#[test]
fn test_multisig_lock_state_transitions() {
    let mut h = Host::new();
    let p = setup_funded_escrow(&mut h, vec![1_000_i128]);
    assert!(!h.escrow.is_multisig_locked());
    h.run(|e, _| e.multisig_lock(&p.admin)).unwrap();
    assert!(h.escrow.is_multisig_locked());
}

#[test]
fn test_multisig_admin_override_release_requires_admin() {
    let mut h = Host::new();
    let p = setup_funded_escrow(&mut h, vec![1_000_i128]);
    let attacker = addr("GATTACKER");
    let result = h.run(|e, l| e.multisig_admin_override_release(l, &attacker, 0));
    assert_eq!(result, Err(CallError::Contract(Error::Unauthorized)));

    let freelancer_before = h.balance(&p.token, &p.freelancer);
    h.run(|e, l| e.multisig_admin_override_release(l, &p.admin, 0)).unwrap();
    assert_eq!(h.balance(&p.token, &p.freelancer), freelancer_before + 1_000);
    assert!(!h.escrow.is_multisig_locked());
}

#[test]
fn test_multisig_admin_override_refund_requires_admin() {
    let mut h = Host::new();
    let p = setup_funded_escrow(&mut h, vec![1_000_i128]);
    let attacker = addr("GATTACKER");
    let result = h.run(|e, l| e.multisig_admin_override_refund(l, &attacker, 0));
    assert_eq!(result, Err(CallError::Contract(Error::Unauthorized)));

    let client_before = h.balance(&p.token, &p.client);
    h.run(|e, l| e.multisig_admin_override_refund(l, &p.admin, 0)).unwrap();
    assert_eq!(h.balance(&p.token, &p.client), client_before + 1_000);
    assert!(!h.escrow.is_multisig_locked());
}

#[test]
fn test_multisig_admin_override_release_emits_event() {
    let mut h = Host::new();
    let p = setup_funded_escrow(&mut h, vec![1_000_i128]);
    h.run(|e, l| e.multisig_admin_override_release(l, &p.admin, 0)).unwrap();

    let mut found = false;
    for event in &h.events {
        if let Event::MultisigAdminOverrideRelease(ev) = event {
            found = true;
            assert_eq!(ev.admin, p.admin);
            assert_eq!(ev.contract_id, h.contract());
            assert_eq!(ev.milestone_index, 0);
            assert_eq!(ev.freelancer, p.freelancer);
            assert_eq!(ev.token, p.token);
            assert_eq!(ev.amount, 1_000);
        }
    }
    assert!(found, "msadmrel event not emitted");
}

#[test]
fn test_multisig_admin_override_refund_emits_event() {
    let mut h = Host::new();
    let p = setup_funded_escrow(&mut h, vec![1_000_i128]);
    h.run(|e, l| e.multisig_admin_override_refund(l, &p.admin, 0)).unwrap();

    let mut found = false;
    for event in &h.events {
        if let Event::MultisigAdminOverrideRefund(ev) = event {
            found = true;
            assert_eq!(ev.admin, p.admin);
            assert_eq!(ev.contract_id, h.contract());
            assert_eq!(ev.milestone_index, 0);
            assert_eq!(ev.client, p.client);
            assert_eq!(ev.token, p.token);
            assert_eq!(ev.amount, 1_000);
        }
    }
    assert!(found, "msadmref event not emitted");
}

#[test]
fn test_multisig_override_release_clears_locked_flag() {
    let mut h = Host::new();
    let p = setup_funded_escrow(&mut h, vec![1_000_i128]);
    h.run(|e, _| e.multisig_lock(&p.admin)).unwrap();
    assert!(h.escrow.is_multisig_locked());
    h.run(|e, l| e.multisig_admin_override_release(l, &p.admin, 0)).unwrap();
    assert!(!h.escrow.is_multisig_locked());
}

#[test]
fn test_multisig_override_refund_clears_locked_flag() {
    let mut h = Host::new();
    let p = setup_funded_escrow(&mut h, vec![1_000_i128]);
    h.run(|e, _| e.multisig_lock(&p.admin)).unwrap();
    assert!(h.escrow.is_multisig_locked());
    h.run(|e, l| e.multisig_admin_override_refund(l, &p.admin, 0)).unwrap();
    assert!(!h.escrow.is_multisig_locked());
}

#[test]
fn test_multisig_admin_override_release_on_released_fails() {
    let mut h = Host::new();
    let p = setup_funded_escrow(&mut h, vec![1_000_i128]);
    h.mark_delivered(&p.freelancer, 0).unwrap();
    h.approve_milestone(&p.client, 0).unwrap();
    let result = h.run(|e, l| e.multisig_admin_override_release(l, &p.admin, 0));
    assert_eq!(result, Err(CallError::Contract(Error::InvalidStatus)));
}

#[test]
fn test_multisig_admin_override_release_not_funded_fails() {
    let mut h = Host::new();
    let p = parties();
    h.initialize(&p, 604800, &vec![1_000_i128]).unwrap();
    let result = h.run(|e, l| e.multisig_admin_override_release(l, &p.admin, 0));
    assert_eq!(result, Err(CallError::Contract(Error::NotFunded)));
}

#[test]
fn test_raise_dispute_bad_actor_returns_unauthorized() {
    let mut h = Host::new();
    let p = setup_funded_escrow(&mut h, vec![1_000_i128]);
    h.mark_delivered(&p.freelancer, 0).unwrap();
    let bad_actor = addr("GBADACTOR");
    let result = h.raise_dispute(&bad_actor, 0);
    assert_eq!(result, Err(CallError::Contract(Error::Unauthorized)));
}

#[test]
fn test_raise_dispute_by_freelancer_succeeds() {
    let mut h = Host::new();
    let p = setup_funded_escrow(&mut h, vec![1_000_i128]);
    h.mark_delivered(&p.freelancer, 0).unwrap();
    h.raise_dispute(&p.freelancer, 0).unwrap();
    assert_eq!(h.milestone(0).status, MilestoneStatus::Disputed);
}

#[test]
fn test_raise_dispute_by_client_succeeds() {
    let mut h = Host::new();
    let p = setup_funded_escrow(&mut h, vec![1_000_i128]);
    h.raise_dispute(&p.client, 0).unwrap();
    assert_eq!(h.milestone(0).status, MilestoneStatus::Disputed);
}

#[test]
fn test_raise_dispute_writes_dispute_flag() {
    let mut h = Host::new();
    let p = setup_funded_escrow(&mut h, vec![1_000_i128]);
    h.raise_dispute(&p.client, 0).unwrap();
    let flag_set = h.escrow.dispute_flags.contains(&0u32);
    assert!(flag_set, "DisputeFlag should be set in temporary storage");
}

#[test]
fn test_dispute_flag_not_set_before_raise_dispute() {
    let mut h = Host::new();
    let _p = setup_funded_escrow(&mut h, vec![1_000_i128]);
    let flag_set = h.escrow.dispute_flags.contains(&0u32);
    assert!(!flag_set, "DisputeFlag should NOT be set before raise_dispute");
}

#[test]
fn test_dispute_flag_only_sets_targeted_milestone() {
    let mut h = Host::new();
    let p = setup_funded_escrow(&mut h, vec![1_000_i128, 1_000_i128]);
    h.raise_dispute(&p.client, 0).unwrap();
    let flag_0 = h.escrow.dispute_flags.contains(&0u32);
    let flag_1 = h.escrow.dispute_flags.contains(&1u32);
    assert!(flag_0, "DisputeFlag(0) should be set");
    assert!(!flag_1, "DisputeFlag(1) should NOT be set");
}

#[test]
fn test_multisig_split_refund_even_split() {
    let (allocation, _) = MilestoneEscrow::multisig_split_refund(1_000, 5_000, 5_000).unwrap();
    assert_eq!(allocation.client_refund, 500);
    assert_eq!(allocation.freelancer_payout, 500);
    assert_eq!(allocation.client_refund_bps, 5_000);
    assert_eq!(allocation.freelancer_payout_bps, 5_000);
    assert_eq!(allocation.client_refund + allocation.freelancer_payout, 1_000);
}

#[test]
fn test_multisig_split_refund_uneven_split() {
    let (allocation, _) = MilestoneEscrow::multisig_split_refund(1_000, 7_000, 3_000).unwrap();
    assert_eq!(allocation.client_refund, 700);
    assert_eq!(allocation.freelancer_payout, 300);
    assert_eq!(allocation.client_refund_bps, 7_000);
    assert_eq!(allocation.freelancer_payout_bps, 3_000);
    assert_eq!(allocation.client_refund + allocation.freelancer_payout, 1_000);
}

#[test]
fn test_multisig_split_refund_full_client_refund() {
    let (allocation, _) = MilestoneEscrow::multisig_split_refund(1_000, 10_000, 0).unwrap();
    assert_eq!(allocation.client_refund, 1_000);
    assert_eq!(allocation.freelancer_payout, 0);
}

#[test]
fn test_multisig_split_refund_full_freelancer_payout() {
    let (allocation, _) = MilestoneEscrow::multisig_split_refund(1_000, 0, 10_000).unwrap();
    assert_eq!(allocation.client_refund, 0);
    assert_eq!(allocation.freelancer_payout, 1_000);
}

#[test]
fn test_multisig_split_refund_invalid_ratio_fails() {
    let result = MilestoneEscrow::multisig_split_refund(1_000, 5_000, 3_000);
    assert_eq!(result.err(), Some(Error::InvalidRatio));
}

#[test]
fn test_multisig_split_refund_zero_total_fails() {
    let result = MilestoneEscrow::multisig_split_refund(0, 5_000, 5_000);
    assert_eq!(result.err(), Some(Error::InvalidAmount));
}

#[test]
fn test_multisig_split_refund_odd_amount_rounding() {
    let (allocation, _) = MilestoneEscrow::multisig_split_refund(101, 5_000, 5_000).unwrap();
    assert_eq!(allocation.client_refund + allocation.freelancer_payout, 101);
}

#[test]
fn test_multisig_split_refund_extreme_split_preserves_total() {
    let (allocation, _) = MilestoneEscrow::multisig_split_refund(10_000, 1, 9_999).unwrap();
    assert_eq!(allocation.client_refund + allocation.freelancer_payout, 10_000);
    assert_eq!(allocation.client_refund_bps, 1);
    assert_eq!(allocation.freelancer_payout_bps, 9_999);
}

#[test]
fn test_multisig_split_refund_emits_event() {
    let (_, effects) = MilestoneEscrow::multisig_split_refund(1_000, 7_000, 3_000).unwrap();
    let mut found = false;
    if let Some(Event::SplitRefundCalculated(ev)) = effects.event {
        found = true;
        assert_eq!(ev.client_refund, 700);
        assert_eq!(ev.freelancer_payout, 300);
        assert_eq!(ev.client_refund_bps, 7_000);
        assert_eq!(ev.freelancer_payout_bps, 3_000);
    }
    assert!(found, "splitref event not emitted");
}

#[test]
fn test_multisig_transfer_admin_ratio_split_preserves_total() {
    let allocations = MilestoneEscrow::multisig_transfer_admin(100, vec![1, 1, 1]).unwrap();
    assert_eq!(allocations.len(), 3);
    assert_eq!(allocations[0], 34);
    assert_eq!(allocations[1], 33);
    assert_eq!(allocations[2], 33);
    let total = allocations.iter().fold(0_i128, |acc, v| acc + v);
    assert_eq!(total, 100);
}

#[test]
fn test_multisig_transfer_admin_invalid_ratio_fails() {
    let result = MilestoneEscrow::multisig_transfer_admin(100, vec![0, 0]);
    assert_eq!(result, Err(Error::InvalidRatio));
}
