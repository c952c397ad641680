use vstd::prelude::*;

use crate::contract::{Call, ContractView};
use crate::ledger::{lemma_sum_insert, LedgerView, MAX_TOTAL};
use crate::types::{Address, Config, ContractError, ContributionRecord};

verus! {

/// One credited deposit of `amount` by `c` raises the contribution and the
/// shares of `c` by `amount` and leaves every other record as it was.
pub proof fn lemma_credit_one(l: LedgerView, c: Address, amount: int, d: Address)
    requires
        l.valid(),
        amount > 0,
        l.total_contributed + amount <= MAX_TOTAL,
    ensures
        l.credited(c, amount).valid(),
        l.credited(c, amount).record(d).amount_contributed == l.record(d).amount_contributed + (
        if d == c {
            amount
        } else {
            0
        }),
        l.credited(c, amount).record(d).share_balance == l.record(d).share_balance + (
        if d == c {
            amount
        } else {
            0
        }),
{
    let m = l.records;
    let l2 = l.credited(c, amount);
    let updated = l2.records[c.id];
    if m.contains_key(c.id) {
        assert(m[c.id].amount_contributed <= l.total_contributed);
    }
    lemma_sum_insert(m, |r: ContributionRecord| r.amount_contributed as int, c.id, updated);
    lemma_sum_insert(m, |r: ContributionRecord| r.share_balance as int, c.id, updated);
    assert forall|k: u64| #[trigger] l2.records.contains_key(k) implies {
        &&& l2.records[k].share_balance == l2.records[k].amount_contributed
        &&& l2.records[k].amount_contributed <= l2.total_contributed
    } by {
        if k != c.id {
            assert(m.contains_key(k));
        }
    }
}

/// Marking an existing record repaid keeps the ledger consistent.
pub proof fn lemma_marked_repaid_valid(l: LedgerView, c: Address)
    requires
        l.valid(),
        l.records.contains_key(c.id),
    ensures
        l.marked_repaid(c).valid(),
{
    let m = l.records;
    let l2 = l.marked_repaid(c);
    let updated = l2.records[c.id];
    lemma_sum_insert(m, |r: ContributionRecord| r.amount_contributed as int, c.id, updated);
    lemma_sum_insert(m, |r: ContributionRecord| r.share_balance as int, c.id, updated);
    assert forall|k: u64| #[trigger] l2.records.contains_key(k) implies {
        &&& l2.records[k].share_balance == l2.records[k].amount_contributed
        &&& l2.records[k].amount_contributed <= l2.total_contributed
    } by {
        assert(m.contains_key(k));
    }
}

/// The state after the calls of `calls`, made in order from `v`.
pub open spec fn run(v: ContractView, calls: Seq<Call>) -> ContractView
    decreases calls.len(),
{
    if calls.len() == 0 {
        v
    } else {
        run(v, calls.drop_last()).step(calls.last())
    }
}

/// The amounts of the deposits by `c` that were accepted during the run of
/// `calls` from `v`, summed.
pub open spec fn run_credit(v: ContractView, calls: Seq<Call>, c: Address) -> int
    decreases calls.len(),
{
    if calls.len() == 0 {
        0
    } else {
        run_credit(v, calls.drop_last(), c) + run(v, calls.drop_last()).credit_to(calls.last(), c)
    }
}

/// What one call, accepted or refused, changes of what the laws speak of.
pub proof fn lemma_step(v: ContractView, call: Call, c: Address)
    requires
        v.valid(),
    ensures
        v.step(call).valid(),
        v.step(call).contribution(c) == v.contribution(c) + v.credit_to(call, c),
        v.step(call).shares(c) == v.shares(c) + v.credit_to(call, c),
        v.repaid(c) ==> v.step(call).repaid(c),
        v.ledger.records.contains_key(c.id) ==> v.step(call).ledger.records.contains_key(c.id),
        v.config is Some ==> v.step(call).config == v.config,
        v.state is Closed ==> v.step(call).state == v.state,
{
    if v.call_error(call) is None {
        match call {
            Call::Deposit { contributor, amount, .. } => {
                lemma_credit_one(v.ledger, contributor, amount as int, c);
            },
            Call::Disbursment { recipient, .. } => {
                lemma_marked_repaid_valid(v.ledger, recipient);
            },
            _ => {},
        }
    }
}

/// What a run of calls keeps: consistency, records, the repaid flags, a
/// stored configuration and a closed campaign; and contributions grow by the
/// accepted deposits alone.
pub proof fn lemma_run(v: ContractView, calls: Seq<Call>, c: Address)
    requires
        v.valid(),
    ensures
        run(v, calls).valid(),
        run(v, calls).contribution(c) == v.contribution(c) + run_credit(v, calls, c),
        run(v, calls).shares(c) == v.shares(c) + run_credit(v, calls, c),
        v.repaid(c) ==> run(v, calls).repaid(c),
        v.ledger.records.contains_key(c.id) ==> run(v, calls).ledger.records.contains_key(c.id),
        v.config is Some ==> run(v, calls).config == v.config,
        v.state is Closed ==> run(v, calls).state == v.state,
    decreases calls.len(),
{
    if calls.len() > 0 {
        lemma_run(v, calls.drop_last(), c);
        lemma_step(run(v, calls.drop_last()), calls.last(), c);
    }
}

/// Contributions add up: after any run of calls, each contributor's recorded
/// contribution has grown by exactly the sum of that contributor's accepted
/// deposits; refused deposits and every other call add nothing. On a new
/// contract it is that sum, so 0 where no deposit of theirs was accepted.
pub proof fn lemma_contribution_is_sum_of_deposits(
    v: ContractView,
    calls: Seq<Call>,
    c: Address,
)
    requires
        v.valid(),
    ensures
        run(v, calls).contribution(c) == v.contribution(c) + run_credit(v, calls, c),
        v.ledger == LedgerView::empty() ==> run(v, calls).contribution(c) == run_credit(
            v,
            calls,
            c,
        ),
{
    lemma_run(v, calls, c);
}

/// A new contract records no contribution and no shares for anyone.
pub proof fn lemma_new_contract_holds_nothing(v: ContractView, c: Address)
    requires
        v.ledger == LedgerView::empty(),
    ensures
        v.contribution(c) == 0,
        v.shares(c) == 0,
        !v.repaid(c),
{
}

/// Shares are issued one for one: in every consistent state each contributor
/// holds exactly as many shares as they contributed.
pub proof fn lemma_shares_equal_contribution(v: ContractView, c: Address)
    requires
        v.valid(),
    ensures
        v.shares(c) == v.contribution(c),
{
}

/// No deposit is taken before the campaign starts or after it stops.
pub proof fn lemma_deposit_needs_open_campaign(
    v: ContractView,
    token_address: Address,
    amount: i128,
    now: u64,
)
    requires
        v.state is NotStarted || v.state is Closed,
    ensures
        v.deposit_error(token_address, amount, now) is Some,
        v.config is Some ==> v.deposit_error(token_address, amount, now) == Some(
            ContractError::InvalidState,
        ),
{
}

/// No disbursement is made while the campaign is open.
pub proof fn lemma_no_disbursment_while_open(
    v: ContractView,
    caller: Address,
    recipient: Address,
    token_address: Address,
    amount: i128,
)
    requires
        v.state is Open,
    ensures
        v.disbursment_error(caller, recipient, token_address, amount) is Some,
{
}

/// A contributor is paid once: after a disbursement to them succeeds, they
/// read as repaid whatever calls follow, and every later disbursement to them
/// from the admin in the contract's token fails with `AlreadyRepaid`, whatever
/// the amount.
pub proof fn lemma_paid_once(
    v: ContractView,
    caller: Address,
    recipient: Address,
    token_address: Address,
    amount: i128,
    later: Seq<Call>,
    second_amount: i128,
)
    requires
        v.valid(),
        v.disbursment_error(caller, recipient, token_address, amount) is None,
    ensures
        ({
            let paid = v.step(Call::Disbursment { caller, recipient, token_address, amount });
            &&& run(paid, later).repaid(recipient)
            &&& run(paid, later).disbursment_error(caller, recipient, token_address, second_amount)
                == Some(ContractError::AlreadyRepaid)
        }),
{
    let paid = v.step(Call::Disbursment { caller, recipient, token_address, amount });
    lemma_step(v, Call::Disbursment { caller, recipient, token_address, amount }, recipient);
    lemma_run(paid, later, recipient);
}

/// A contract is initialized once: once it holds a configuration, a further
/// `initialize` fails with `AlreadyInitialized`.
pub proof fn lemma_initialized_once(v: ContractView, cfg: Config)
    requires
        v.initialize_error() is None,
    ensures
        v.with_config(cfg).initialize_error() == Some(ContractError::AlreadyInitialized),
        v.with_config(cfg).config == Some(cfg),
{
}

/// Only the stored admin starts, stops or pays out: any other caller is
/// refused with `Unauthorized`, whatever state the campaign is in.
pub proof fn lemma_only_admin(
    v: ContractView,
    caller: Address,
    recipient: Address,
    token_address: Address,
    amount: i128,
)
    requires
        v.config is Some,
        !v.is_admin(caller),
    ensures
        v.start_error(caller) == Some(ContractError::Unauthorized),
        v.stop_error(caller) == Some(ContractError::Unauthorized),
        v.disbursment_error(caller, recipient, token_address, amount) == Some(
            ContractError::Unauthorized,
        ),
{
}

/// No recipient is paid more than they contributed: with every other check
/// met, asking for more fails with `InsufficientBalance`.
pub proof fn lemma_no_over_withdrawal(
    v: ContractView,
    caller: Address,
    recipient: Address,
    token_address: Address,
    amount: i128,
)
    requires
        v.is_admin(caller),
        v.state is Closed,
        v.config matches Some(cfg) && cfg.token_address == token_address,
        v.ledger.records.contains_key(recipient.id),
        !v.repaid(recipient),
        amount > v.contribution(recipient),
    ensures
        v.disbursment_error(caller, recipient, token_address, amount) == Some(
            ContractError::InsufficientBalance,
        ),
{
}

} // verus!
