use vstd::prelude::*;

use crate::ledger::{Ledger, LedgerView, MAX_TOTAL};
use crate::types::{Address, CampaignState, Config, ContractError, Transfer};

verus! {

/// One call of the contract's interface, with its arguments.
#[derive(Clone, Copy, Debug)]
pub enum Call {
    Initialize {
        admin: Address,
        token_wasm_hash: [u8; 32],
        token_address: Address,
        campaign_duration: u64,
    },
    StartCampaign { caller: Address, now: u64 },
    StopCampaign { caller: Address, now: u64 },
    Deposit { contributor: Address, token_address: Address, amount: i128, now: u64 },
    Disbursment { caller: Address, recipient: Address, token_address: Address, amount: i128 },
}

/// The contract's state in mathematical form.
pub struct ContractView {
    pub contract_address: Address,
    pub config: Option<Config>,
    pub state: CampaignState,
    pub ledger: LedgerView,
}

/// Whether a campaign in `state` still takes contributions at time `now`.
pub open spec fn open_at(state: CampaignState, duration: u64, now: u64) -> bool {
    match state {
        CampaignState::Open { start_time } => now < start_time + duration,
        _ => false,
    }
}

/// The state after an open campaign was stopped at `now`.
pub open spec fn closed_at(state: CampaignState, now: u64) -> CampaignState {
    match state {
        CampaignState::Open { start_time } => CampaignState::Closed { start_time, end_time: now },
        _ => state,
    }
}

impl ContractView {
    /// The ledger is consistent, and nothing happens before initialization.
    pub open spec fn valid(self) -> bool {
        &&& self.ledger.valid()
        &&& self.config is None ==> self.state == CampaignState::NotStarted && self.ledger
            == LedgerView::empty()
    }

    pub open spec fn contribution(self, c: Address) -> int {
        self.ledger.record(c).amount_contributed as int
    }

    pub open spec fn shares(self, c: Address) -> int {
        self.ledger.record(c).share_balance as int
    }

    pub open spec fn repaid(self, c: Address) -> bool {
        self.ledger.record(c).repaid
    }

    pub open spec fn is_admin(self, caller: Address) -> bool {
        match self.config {
            Some(cfg) => cfg.admin == caller,
            None => false,
        }
    }

    pub open spec fn initialize_error(self) -> Option<ContractError> {
        if self.config is Some {
            Some(ContractError::AlreadyInitialized)
        } else {
            None
        }
    }

    pub open spec fn start_error(self, caller: Address) -> Option<ContractError> {
        match self.config {
            None => Some(ContractError::NotInitialized),
            Some(cfg) => if caller != cfg.admin {
                Some(ContractError::Unauthorized)
            } else if self.state != CampaignState::NotStarted {
                Some(ContractError::InvalidState)
            } else {
                None
            },
        }
    }

    pub open spec fn stop_error(self, caller: Address) -> Option<ContractError> {
        match self.config {
            None => Some(ContractError::NotInitialized),
            Some(cfg) => if caller != cfg.admin {
                Some(ContractError::Unauthorized)
            } else if !(self.state is Open) {
                Some(ContractError::InvalidState)
            } else {
                None
            },
        }
    }

    pub open spec fn deposit_error(
        self,
        token_address: Address,
        amount: i128,
        now: u64,
    ) -> Option<ContractError> {
        match self.config {
            None => Some(ContractError::NotInitialized),
            Some(cfg) => if !open_at(self.state, cfg.campaign_duration, now) {
                Some(ContractError::InvalidState)
            } else if token_address != cfg.token_address {
                Some(ContractError::InvalidToken)
            } else if amount <= 0 {
                Some(ContractError::InvalidAmount)
            } else if self.ledger.total_contributed + amount > MAX_TOTAL {
                Some(ContractError::Overflow)
            } else {
                None
            },
        }
    }

    pub open spec fn disbursment_error(
        self,
        caller: Address,
        recipient: Address,
        token_address: Address,
        amount: i128,
    ) -> Option<ContractError> {
        match self.config {
            None => Some(ContractError::NotInitialized),
            Some(cfg) => if caller != cfg.admin {
                Some(ContractError::Unauthorized)
            } else if !(self.state is Closed) {
                Some(ContractError::InvalidState)
            } else if token_address != cfg.token_address {
                Some(ContractError::InvalidToken)
            } else if !self.ledger.records.contains_key(recipient.id) {
                Some(ContractError::NoContribution)
            } else if self.ledger.record(recipient).repaid {
                Some(ContractError::AlreadyRepaid)
            } else if amount <= 0 {
                Some(ContractError::InvalidAmount)
            } else if amount > self.contribution(recipient) {
                Some(ContractError::InsufficientBalance)
            } else {
                None
            },
        }
    }

    /// Why `call` is refused in this state, if it is.
    pub open spec fn call_error(self, call: Call) -> Option<ContractError> {
        match call {
            Call::Initialize { .. } => self.initialize_error(),
            Call::StartCampaign { caller, .. } => self.start_error(caller),
            Call::StopCampaign { caller, .. } => self.stop_error(caller),
            Call::Deposit { token_address, amount, now, .. } => self.deposit_error(
                token_address,
                amount,
                now,
            ),
            Call::Disbursment { caller, recipient, token_address, amount } => self.disbursment_error(
                caller,
                recipient,
                token_address,
                amount,
            ),
        }
    }

    /// The state after `call` was accepted.
    pub open spec fn applied(self, call: Call) -> ContractView {
        match call {
            Call::Initialize { admin, token_wasm_hash, token_address, campaign_duration } => self.with_config(
                Config { admin, token_address, token_wasm_hash, campaign_duration },
            ),
            Call::StartCampaign { now, .. } => self.with_state(CampaignState::Open { start_time: now }),
            Call::StopCampaign { now, .. } => self.with_state(closed_at(self.state, now)),
            Call::Deposit { contributor, amount, .. } => self.with_ledger(
                self.ledger.credited(contributor, amount as int),
            ),
            Call::Disbursment { recipient, .. } => self.with_ledger(
                self.ledger.marked_repaid(recipient),
            ),
        }
    }

    /// The state after `call`: unchanged where it is refused.
    pub open spec fn step(self, call: Call) -> ContractView {
        if self.call_error(call) is None {
            self.applied(call)
        } else {
            self
        }
    }

    /// The transfer that `call` asks for once accepted, if any.
    pub open spec fn transfer_of(self, call: Call) -> Option<Transfer> {
        match call {
            Call::Deposit { contributor, token_address, amount, .. } => Some(
                Transfer { token: token_address, from: contributor, to: self.contract_address, amount },
            ),
            Call::Disbursment { recipient, token_address, amount, .. } => Some(
                Transfer { token: token_address, from: self.contract_address, to: recipient, amount },
            ),
            _ => None,
        }
    }

    /// What `call` adds to the contribution of `c`: the amount of an accepted
    /// deposit by `c`, else 0.
    pub open spec fn credit_to(self, call: Call, c: Address) -> int {
        match call {
            Call::Deposit { contributor, amount, .. } => if contributor == c && self.call_error(
                call,
            ) is None {
                amount as int
            } else {
                0
            },
            _ => 0,
        }
    }

    pub open spec fn with_config(self, cfg: Config) -> ContractView {
        ContractView { config: Some(cfg), ..self }
    }

    pub open spec fn with_state(self, state: CampaignState) -> ContractView {
        ContractView { state, ..self }
    }

    pub open spec fn with_ledger(self, ledger: LedgerView) -> ContractView {
        ContractView { ledger, ..self }
    }
}

/// A pooled-contribution contract running one campaign: the admin opens it,
/// contributors deposit while it is open and receive one share per unit, and
/// after it closes the admin pays each contributor back once.
///
/// Operations that move tokens return the `Transfer` for the host to carry out
/// in the same transaction; where the token contract refuses it, the host
/// discards the whole operation, this state included.
pub struct StakingContract {
    contract_address: Address,
    config: Option<Config>,
    state: CampaignState,
    ledger: Ledger,
}

impl View for StakingContract {
    type V = ContractView;

    closed spec fn view(&self) -> ContractView {
        ContractView {
            contract_address: self.contract_address,
            config: self.config,
            state: self.state,
            ledger: self.ledger@,
        }
    }
}

impl StakingContract {
    pub open spec fn wf(&self) -> bool {
        self@.valid()
    }

    /// A contract instance at `contract_address`, not yet initialized.
    pub fn new(contract_address: Address) -> (c: StakingContract)
        ensures
            c@ == (ContractView {
                contract_address,
                config: None,
                state: CampaignState::NotStarted,
                ledger: LedgerView::empty(),
            }),
            c.wf(),
    {
        StakingContract {
            contract_address,
            config: None,
            state: CampaignState::NotStarted,
            ledger: Ledger::new(),
        }
    }

    /// Stores the configuration; a contract is initialized once only.
    pub fn initialize(
        &mut self,
        admin: Address,
        token_wasm_hash: [u8; 32],
        token_address: Address,
        campaign_duration: u64,
    ) -> (r: Result<(), ContractError>)
        requires
            old(self).wf(),
        ensures
            final(self).wf(),
            match r {
                Ok(_) => old(self)@.initialize_error() is None && final(self)@ == old(self)@.with_config(
                    Config { admin, token_address, token_wasm_hash, campaign_duration },
                ),
                Err(e) => old(self)@.initialize_error() == Some(e) && final(self)@ == old(self)@,
            },
    {
        if self.config.is_some() {
            return Err(ContractError::AlreadyInitialized);
        }
        self.config = Some(Config { admin, token_address, token_wasm_hash, campaign_duration });
        Ok(())
    }

    /// Opens the campaign at ledger time `now`; admin only.
    pub fn start_campaign(&mut self, caller: Address, now: u64) -> (r: Result<(), ContractError>)
        requires
            old(self).wf(),
        ensures
            final(self).wf(),
            match r {
                Ok(_) => old(self)@.start_error(caller) is None && final(self)@ == old(self)@.with_state(
                    CampaignState::Open { start_time: now },
                ),
                Err(e) => old(self)@.start_error(caller) == Some(e) && final(self)@ == old(self)@,
            },
    {
        let cfg = match self.config {
            None => return Err(ContractError::NotInitialized),
            Some(cfg) => cfg,
        };
        if caller != cfg.admin {
            return Err(ContractError::Unauthorized);
        }
        match self.state {
            CampaignState::NotStarted => {},
            _ => return Err(ContractError::InvalidState),
        }
        self.state = CampaignState::Open { start_time: now };
        Ok(())
    }

    /// Closes the open campaign at ledger time `now`; admin only. A closed
    /// campaign never opens again.
    pub fn stop_campaign(&mut self, caller: Address, now: u64) -> (r: Result<(), ContractError>)
        requires
            old(self).wf(),
        ensures
            final(self).wf(),
            match r {
                Ok(_) => old(self)@.stop_error(caller) is None && final(self)@ == old(self)@.with_state(
                    closed_at(old(self)@.state, now),
                ),
                Err(e) => old(self)@.stop_error(caller) == Some(e) && final(self)@ == old(self)@,
            },
    {
        let cfg = match self.config {
            None => return Err(ContractError::NotInitialized),
            Some(cfg) => cfg,
        };
        if caller != cfg.admin {
            return Err(ContractError::Unauthorized);
        }
        match self.state {
            CampaignState::Open { start_time } => {
                self.state = CampaignState::Closed { start_time, end_time: now };
                Ok(())
            },
            _ => Err(ContractError::InvalidState),
        }
    }

    /// Takes `amount` from `contributor` into the pool while the campaign is
    /// open and before its duration has run out at ledger time `now`, and
    /// credits as many shares. On success the caller owes the returned
    /// transfer from the contributor to the contract.
    pub fn deposit(
        &mut self,
        contributor: Address,
        token_address: Address,
        amount: i128,
        now: u64,
    ) -> (r: Result<Transfer, ContractError>)
        requires
            old(self).wf(),
        ensures
            final(self).wf(),
            match r {
                Ok(t) => {
                    &&& old(self)@.deposit_error(token_address, amount, now) is None
                    &&& final(self)@ == old(self)@.with_ledger(
                        old(self)@.ledger.credited(contributor, amount as int),
                    )
                    &&& t == Transfer {
                        token: token_address,
                        from: contributor,
                        to: old(self)@.contract_address,
                        amount,
                    }
                },
                Err(e) => old(self)@.deposit_error(token_address, amount, now) == Some(e)
                    && final(self)@ == old(self)@,
            },
    {
        let cfg = match self.config {
            None => return Err(ContractError::NotInitialized),
            Some(cfg) => cfg,
        };
        let open = match self.state {
            CampaignState::Open { start_time } => now < start_time || now - start_time
                < cfg.campaign_duration,
            _ => false,
        };
        if !open {
            return Err(ContractError::InvalidState);
        }
        if token_address != cfg.token_address {
            return Err(ContractError::InvalidToken);
        }
        if amount <= 0 {
            return Err(ContractError::InvalidAmount);
        }
        let units = amount as u128;
        if units > MAX_TOTAL - self.ledger.total_contributed() {
            return Err(ContractError::Overflow);
        }
        self.ledger.credit(contributor, units);
        Ok(Transfer { token: token_address, from: contributor, to: self.contract_address, amount })
    }

    /// Pays `amount` from the pool back to `recipient` once the campaign is
    /// closed; admin only. Each contributor is paid once, and never more than
    /// they contributed: a recipient already repaid is refused as such before
    /// the amount is looked at. On success the record is marked repaid and the
    /// caller owes the returned transfer from the contract to the recipient.
    pub fn disbursment(
        &mut self,
        caller: Address,
        recipient: Address,
        token_address: Address,
        amount: i128,
    ) -> (r: Result<Transfer, ContractError>)
        requires
            old(self).wf(),
        ensures
            final(self).wf(),
            match r {
                Ok(t) => {
                    &&& old(self)@.disbursment_error(caller, recipient, token_address, amount)
                        is None
                    &&& final(self)@ == old(self)@.with_ledger(
                        old(self)@.ledger.marked_repaid(recipient),
                    )
                    &&& t == Transfer {
                        token: token_address,
                        from: old(self)@.contract_address,
                        to: recipient,
                        amount,
                    }
                },
                Err(e) => old(self)@.disbursment_error(caller, recipient, token_address, amount)
                    == Some(e) && final(self)@ == old(self)@,
            },
    {
        let cfg = match self.config {
            None => return Err(ContractError::NotInitialized),
            Some(cfg) => cfg,
        };
        if caller != cfg.admin {
            return Err(ContractError::Unauthorized);
        }
        match self.state {
            CampaignState::Closed { .. } => {},
            _ => return Err(ContractError::InvalidState),
        }
        if token_address != cfg.token_address {
            return Err(ContractError::InvalidToken);
        }
        if !self.ledger.has_record(recipient) {
            return Err(ContractError::NoContribution);
        }
        let record = self.ledger.record(recipient);
        if record.repaid {
            return Err(ContractError::AlreadyRepaid);
        }
        if amount <= 0 {
            return Err(ContractError::InvalidAmount);
        }
        if amount as u128 > record.amount_contributed {
            return Err(ContractError::InsufficientBalance);
        }
        self.ledger.mark_repaid(recipient);
        Ok(Transfer { token: token_address, from: self.contract_address, to: recipient, amount })
    }

    /// Runs one call of the interface: the single entry point through which a
    /// host dispatches. Refused calls change nothing.
    pub fn invoke(&mut self, call: Call) -> (r: Result<Option<Transfer>, ContractError>)
        requires
            old(self).wf(),
        ensures
            final(self).wf(),
            final(self)@ == old(self)@.step(call),
            match r {
                Ok(t) => old(self)@.call_error(call) is None && t == old(self)@.transfer_of(call),
                Err(e) => old(self)@.call_error(call) == Some(e),
            },
    {
        match call {
            Call::Initialize { admin, token_wasm_hash, token_address, campaign_duration } => {
                match self.initialize(admin, token_wasm_hash, token_address, campaign_duration) {
                    Ok(_) => Ok(None),
                    Err(e) => Err(e),
                }
            },
            Call::StartCampaign { caller, now } => match self.start_campaign(caller, now) {
                Ok(_) => Ok(None),
                Err(e) => Err(e),
            },
            Call::StopCampaign { caller, now } => match self.stop_campaign(caller, now) {
                Ok(_) => Ok(None),
                Err(e) => Err(e),
            },
            Call::Deposit { contributor, token_address, amount, now } => match self.deposit(
                contributor,
                token_address,
                amount,
                now,
            ) {
                Ok(t) => Ok(Some(t)),
                Err(e) => Err(e),
            },
            Call::Disbursment { caller, recipient, token_address, amount } => match self.disbursment(
                caller,
                recipient,
                token_address,
                amount,
            ) {
                Ok(t) => Ok(Some(t)),
                Err(e) => Err(e),
            },
        }
    }

    /// Whether `contributor` has been paid back; false where no record exists.
    pub fn check_repayment(&self, contributor: Address) -> (r: bool)
        ensures
            r == self@.repaid(contributor),
    {
        self.ledger.record(contributor).repaid
    }

    /// What `contributor` has put into the pool; 0 where no record exists.
    pub fn get_user_contribution(&self, contributor: Address) -> (r: i128)
        requires
            self.wf(),
        ensures
            r == self@.contribution(contributor),
    {
        let r = self.ledger.record(contributor);
        r.amount_contributed as i128
    }

    /// The shares held by `contributor`; 0 where no record exists.
    pub fn get_share_token_balance(&self, contributor: Address) -> (r: i128)
        requires
            self.wf(),
        ensures
            r == self@.shares(contributor),
    {
        let r = self.ledger.record(contributor);
        r.share_balance as i128
    }

    /// The pooled total of all contributions.
    pub fn total_contributed(&self) -> (r: i128)
        requires
            self.wf(),
        ensures
            r == self@.ledger.total_contributed,
    {
        self.ledger.total_contributed() as i128
    }

    /// The total of all shares issued.
    pub fn total_shares_issued(&self) -> (r: i128)
        requires
            self.wf(),
        ensures
            r == self@.ledger.total_shares_issued,
    {
        self.ledger.total_shares_issued() as i128
    }

    /// The configuration, once the contract is initialized.
    pub fn config(&self) -> (r: Option<Config>)
        ensures
            r == self@.config,
    {
        self.config
    }

    pub fn campaign_state(&self) -> (r: CampaignState)
        ensures
            r == self@.state,
    {
        self.state
    }

    pub fn contract_address(&self) -> (r: Address)
        ensures
            r == self@.contract_address,
    {
        self.contract_address
    }
}

} // verus!
