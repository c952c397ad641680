use std::collections::HashMap;

use staking_contract::contract::{Call, StakingContract};
use staking_contract::types::{Address, CampaignState, ContractError, Transfer};

const DURATION: u64 = 604800;

fn addr(id: u64) -> Address {
    Address { id }
}

/// A plain token for the tests: balances per address, and the transfers that
/// the contract asks for.
struct Token {
    balances: HashMap<u64, i128>,
}

impl Token {
    fn new() -> Token {
        Token { balances: HashMap::new() }
    }

    fn mint(&mut self, to: Address, amount: i128) {
        *self.balances.entry(to.id).or_insert(0) += amount;
    }

    fn balance(&self, of: Address) -> i128 {
        *self.balances.get(&of.id).unwrap_or(&0)
    }

    fn apply(&mut self, t: Transfer) {
        assert!(self.balance(t.from) >= t.amount);
        *self.balances.entry(t.from.id).or_insert(0) -= t.amount;
        *self.balances.entry(t.to.id).or_insert(0) += t.amount;
    }
}

struct Setup {
    admin: Address,
    token: Address,
    contract: Address,
    client: StakingContract,
}

fn setup() -> Setup {
    let admin = addr(1);
    let token = addr(100);
    let contract = addr(200);
    let mut client = StakingContract::new(contract);
    client.initialize(admin, [7u8; 32], token, DURATION).unwrap();
    Setup { admin, token, contract, client }
}

#[test]
fn contribute() {
    let admin = addr(1);
    let user = addr(2);
    let token_address = addr(100);
    let contract = addr(200);
    let mut token1 = Token::new();
    let mut client = StakingContract::new(contract);

    token1.mint(user, 50000);
    token1.mint(admin, 50000);
    assert_eq!(token1.balance(user), 50000);
    client.initialize(admin, [7u8; 32], token_address, 604800).unwrap();
    client.start_campaign(admin, 1000).unwrap();
    let t = client.deposit(user, token_address, 50000, 1001).unwrap();
    token1.apply(t);
    assert_eq!(client.check_repayment(user), false);
    assert_eq!(client.get_user_contribution(user), 50000);
    assert_eq!(client.get_share_token_balance(user), 50000);
    client.stop_campaign(admin, 2000).unwrap();
    let t = client.disbursment(admin, user, token_address, 50000).unwrap();
    assert_eq!(t, Transfer { token: token_address, from: contract, to: user, amount: 50000 });
    token1.apply(t);
    assert_eq!(token1.balance(user), 50000);
    assert_eq!(token1.balance(contract), 0);
    assert_eq!(client.check_repayment(user), true);
}

#[test]
fn no_deposit_reads_zero() {
    let s = setup();
    assert_eq!(s.client.get_user_contribution(addr(5)), 0);
    assert_eq!(s.client.get_share_token_balance(addr(5)), 0);
    assert_eq!(s.client.check_repayment(addr(5)), false);
    assert_eq!(StakingContract::new(addr(9)).get_user_contribution(addr(5)), 0);
}

#[test]
fn contributions_add_up_per_contributor() {
    let mut s = setup();
    s.client.start_campaign(s.admin, 10).unwrap();
    let (a, b) = (addr(2), addr(3));
    s.client.deposit(a, s.token, 100, 11).unwrap();
    s.client.deposit(b, s.token, 7, 12).unwrap();
    s.client.deposit(a, s.token, 250, 13).unwrap();
    s.client.deposit(a, s.token, 1, 14).unwrap();
    assert_eq!(s.client.get_user_contribution(a), 351);
    assert_eq!(s.client.get_user_contribution(b), 7);
    assert_eq!(s.client.get_share_token_balance(a), 351);
    assert_eq!(s.client.get_share_token_balance(b), 7);
    assert_eq!(s.client.total_contributed(), 358);
    assert_eq!(s.client.total_shares_issued(), 358);
}

#[test]
fn deposit_returns_transfer_into_pool() {
    let mut s = setup();
    s.client.start_campaign(s.admin, 10).unwrap();
    let t = s.client.deposit(addr(2), s.token, 42, 11).unwrap();
    assert_eq!(t, Transfer { token: s.token, from: addr(2), to: s.contract, amount: 42 });
}

#[test]
fn deposit_refused_before_start_and_after_stop() {
    let mut s = setup();
    let user = addr(2);
    assert_eq!(s.client.deposit(user, s.token, 10, 5), Err(ContractError::InvalidState));
    assert_eq!(s.client.get_user_contribution(user), 0);
    assert_eq!(s.client.total_contributed(), 0);
    s.client.start_campaign(s.admin, 10).unwrap();
    s.client.deposit(user, s.token, 10, 11).unwrap();
    s.client.stop_campaign(s.admin, 20).unwrap();
    assert_eq!(s.client.deposit(user, s.token, 10, 21), Err(ContractError::InvalidState));
    assert_eq!(s.client.get_user_contribution(user), 10);
    assert_eq!(s.client.total_contributed(), 10);
}

#[test]
fn deposit_refused_once_duration_has_run_out() {
    let mut s = setup();
    s.client.start_campaign(s.admin, 1000).unwrap();
    s.client.deposit(addr(2), s.token, 5, 1000 + DURATION - 1).unwrap();
    assert_eq!(
        s.client.deposit(addr(2), s.token, 5, 1000 + DURATION),
        Err(ContractError::InvalidState)
    );
    assert_eq!(s.client.get_user_contribution(addr(2)), 5);
}

#[test]
fn deposit_checks_token_and_amount() {
    let mut s = setup();
    s.client.start_campaign(s.admin, 10).unwrap();
    assert_eq!(s.client.deposit(addr(2), addr(101), 10, 11), Err(ContractError::InvalidToken));
    assert_eq!(s.client.deposit(addr(2), s.token, 0, 11), Err(ContractError::InvalidAmount));
    assert_eq!(s.client.deposit(addr(2), s.token, -3, 11), Err(ContractError::InvalidAmount));
    assert_eq!(s.client.get_user_contribution(addr(2)), 0);
}

#[test]
fn deposit_refused_when_pool_would_overflow() {
    let mut s = setup();
    s.client.start_campaign(s.admin, 10).unwrap();
    s.client.deposit(addr(2), s.token, i128::MAX - 1, 11).unwrap();
    assert_eq!(s.client.deposit(addr(3), s.token, 2, 12), Err(ContractError::Overflow));
    s.client.deposit(addr(3), s.token, 1, 12).unwrap();
    assert_eq!(s.client.total_contributed(), i128::MAX);
    assert_eq!(s.client.get_user_contribution(addr(2)), i128::MAX - 1);
}

#[test]
fn uninitialized_contract_refuses_everything() {
    let mut c = StakingContract::new(addr(200));
    assert_eq!(c.start_campaign(addr(1), 1), Err(ContractError::NotInitialized));
    assert_eq!(c.stop_campaign(addr(1), 1), Err(ContractError::NotInitialized));
    assert_eq!(c.deposit(addr(2), addr(100), 5, 1), Err(ContractError::NotInitialized));
    assert_eq!(
        c.disbursment(addr(1), addr(2), addr(100), 5),
        Err(ContractError::NotInitialized)
    );
    assert!(c.config().is_none());
}

#[test]
fn disbursment_refused_while_open() {
    let mut s = setup();
    s.client.start_campaign(s.admin, 10).unwrap();
    s.client.deposit(addr(2), s.token, 100, 11).unwrap();
    assert_eq!(
        s.client.disbursment(s.admin, addr(2), s.token, 100),
        Err(ContractError::InvalidState)
    );
    assert_eq!(s.client.check_repayment(addr(2)), false);
}

#[test]
fn disbursment_pays_once() {
    let mut s = setup();
    s.client.start_campaign(s.admin, 10).unwrap();
    s.client.deposit(addr(2), s.token, 100, 11).unwrap();
    s.client.stop_campaign(s.admin, 20).unwrap();
    s.client.disbursment(s.admin, addr(2), s.token, 60).unwrap();
    assert_eq!(s.client.check_repayment(addr(2)), true);
    assert_eq!(
        s.client.disbursment(s.admin, addr(2), s.token, 40),
        Err(ContractError::AlreadyRepaid)
    );
    assert_eq!(s.client.get_user_contribution(addr(2)), 100);
    assert_eq!(s.client.get_share_token_balance(addr(2)), 100);
}

#[test]
fn disbursment_checks_token_amount_and_record() {
    let mut s = setup();
    s.client.start_campaign(s.admin, 10).unwrap();
    s.client.deposit(addr(2), s.token, 100, 11).unwrap();
    s.client.stop_campaign(s.admin, 20).unwrap();
    assert_eq!(
        s.client.disbursment(s.admin, addr(2), addr(101), 10),
        Err(ContractError::InvalidToken)
    );
    assert_eq!(
        s.client.disbursment(s.admin, addr(2), s.token, 0),
        Err(ContractError::InvalidAmount)
    );
    assert_eq!(
        s.client.disbursment(s.admin, addr(3), s.token, 10),
        Err(ContractError::NoContribution)
    );
    assert_eq!(s.client.check_repayment(addr(2)), false);
}

#[test]
fn over_withdrawal_refused() {
    let mut s = setup();
    let mut token = Token::new();
    token.mint(addr(2), 100);
    s.client.start_campaign(s.admin, 10).unwrap();
    let t = s.client.deposit(addr(2), s.token, 100, 11).unwrap();
    token.apply(t);
    s.client.stop_campaign(s.admin, 20).unwrap();
    assert_eq!(
        s.client.disbursment(s.admin, addr(2), s.token, 101),
        Err(ContractError::InsufficientBalance)
    );
    assert_eq!(s.client.get_user_contribution(addr(2)), 100);
    assert_eq!(s.client.check_repayment(addr(2)), false);
    assert_eq!(token.balance(addr(2)), 0);
    assert_eq!(token.balance(s.contract), 100);
    let t = s.client.disbursment(s.admin, addr(2), s.token, 100).unwrap();
    token.apply(t);
    assert_eq!(token.balance(addr(2)), 100);
}

#[test]
fn second_initialize_refused() {
    let mut s = setup();
    assert_eq!(
        s.client.initialize(addr(9), [1u8; 32], addr(101), 5),
        Err(ContractError::AlreadyInitialized)
    );
    let cfg = s.client.config().unwrap();
    assert_eq!(cfg.admin, s.admin);
    assert_eq!(cfg.token_address, s.token);
    assert_eq!(cfg.token_wasm_hash, [7u8; 32]);
    assert_eq!(cfg.campaign_duration, DURATION);
}

#[test]
fn only_admin_drives_the_campaign() {
    let mut s = setup();
    let other = addr(2);
    assert_eq!(s.client.start_campaign(other, 10), Err(ContractError::Unauthorized));
    assert_eq!(s.client.stop_campaign(other, 10), Err(ContractError::Unauthorized));
    assert_eq!(s.client.disbursment(other, other, s.token, 1), Err(ContractError::Unauthorized));
    assert_eq!(s.client.campaign_state(), CampaignState::NotStarted);
    s.client.start_campaign(s.admin, 10).unwrap();
    s.client.deposit(other, s.token, 5, 11).unwrap();
    assert_eq!(s.client.start_campaign(other, 12), Err(ContractError::Unauthorized));
    assert_eq!(s.client.stop_campaign(other, 12), Err(ContractError::Unauthorized));
    assert_eq!(s.client.disbursment(other, other, s.token, 1), Err(ContractError::Unauthorized));
    assert_eq!(s.client.campaign_state(), CampaignState::Open { start_time: 10 });
    s.client.stop_campaign(s.admin, 20).unwrap();
    assert_eq!(s.client.start_campaign(other, 21), Err(ContractError::Unauthorized));
    assert_eq!(s.client.stop_campaign(other, 21), Err(ContractError::Unauthorized));
    assert_eq!(s.client.disbursment(other, other, s.token, 1), Err(ContractError::Unauthorized));
    assert_eq!(s.client.check_repayment(other), false);
}

#[test]
fn lifecycle_runs_once() {
    let mut s = setup();
    assert_eq!(s.client.stop_campaign(s.admin, 5), Err(ContractError::InvalidState));
    s.client.start_campaign(s.admin, 10).unwrap();
    assert_eq!(s.client.start_campaign(s.admin, 11), Err(ContractError::InvalidState));
    s.client.stop_campaign(s.admin, 20).unwrap();
    assert_eq!(
        s.client.campaign_state(),
        CampaignState::Closed { start_time: 10, end_time: 20 }
    );
    assert_eq!(s.client.start_campaign(s.admin, 21), Err(ContractError::InvalidState));
    assert_eq!(s.client.stop_campaign(s.admin, 21), Err(ContractError::InvalidState));
    assert_eq!(s.client.contract_address(), s.contract);
}

#[test]
fn second_disbursment_refused_whatever_the_amount() {
    let mut s = setup();
    s.client.start_campaign(s.admin, 10).unwrap();
    s.client.deposit(addr(2), s.token, 100, 11).unwrap();
    s.client.stop_campaign(s.admin, 20).unwrap();
    s.client.disbursment(s.admin, addr(2), s.token, 100).unwrap();
    for amount in [0i128, -5, 1, 100, 1000] {
        assert_eq!(
            s.client.disbursment(s.admin, addr(2), s.token, amount),
            Err(ContractError::AlreadyRepaid)
        );
    }
    assert_eq!(s.client.check_repayment(addr(2)), true);
}

#[test]
fn invoke_dispatches_each_call() {
    let admin = addr(1);
    let user = addr(2);
    let token = addr(100);
    let mut c = StakingContract::new(addr(200));
    let init = Call::Initialize {
        admin,
        token_wasm_hash: [3u8; 32],
        token_address: token,
        campaign_duration: 50,
    };
    assert_eq!(c.invoke(init), Ok(None));
    assert_eq!(c.invoke(init), Err(ContractError::AlreadyInitialized));
    assert_eq!(c.invoke(Call::StartCampaign { caller: admin, now: 10 }), Ok(None));
    let dep = Call::Deposit { contributor: user, token_address: token, amount: 30, now: 11 };
    assert_eq!(
        c.invoke(dep),
        Ok(Some(Transfer { token, from: user, to: addr(200), amount: 30 }))
    );
    let late = Call::Deposit { contributor: user, token_address: token, amount: 30, now: 60 };
    assert_eq!(c.invoke(late), Err(ContractError::InvalidState));
    assert_eq!(c.get_user_contribution(user), 30);
    assert_eq!(c.invoke(Call::StopCampaign { caller: user, now: 20 }), Err(ContractError::Unauthorized));
    assert_eq!(c.invoke(Call::StopCampaign { caller: admin, now: 20 }), Ok(None));
    let pay = Call::Disbursment { caller: admin, recipient: user, token_address: token, amount: 30 };
    assert_eq!(
        c.invoke(pay),
        Ok(Some(Transfer { token, from: addr(200), to: user, amount: 30 }))
    );
    assert_eq!(c.invoke(pay), Err(ContractError::AlreadyRepaid));
    assert_eq!(c.check_repayment(user), true);
}
