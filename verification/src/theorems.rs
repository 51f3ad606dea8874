//! What holds of every plan that the processor makes.

use crate::address::{derived_address, Address, SYSTEM_PROGRAM_ID};
use crate::calls::{Invocation, SignerSeeds};
use crate::instruction::{
    ACCOUNTS_READ, CUSTODY_WALLET_X, POOL_MINT, TOKEN_X_MINT, USER_AUTHORITY, USER_WALLET_X,
    USER_WALLET_Y,
};
use crate::processor::{CustodyState, Processor};
use crate::state::{AccountSnapshot, TokenAccount};
use vstd::prelude::*;

verus! {

/// By how many tokens the calls of `plan` together ask to change what
/// `wallet` holds.
pub open spec fn net_change(plan: Seq<Invocation>, wallet: Address) -> int
    decreases plan.len(),
{
    if plan.len() == 0 {
        0
    } else {
        net_change(plan.drop_last(), wallet) + plan.last().call.spec_balance_change(wallet)
    }
}

/// What `wallet` holds once `plan` has been applied, where it held `balance`
/// before.
pub open spec fn balance_after(plan: Seq<Invocation>, wallet: Address, balance: int) -> int {
    balance + net_change(plan, wallet)
}

/// How many calls of `plan` allocate `account`.
pub open spec fn allocations(plan: Seq<Invocation>, account: Address) -> nat
    decreases plan.len(),
{
    if plan.len() == 0 {
        0
    } else {
        allocations(plan.drop_last(), account) + if plan.last().call.allocates(account) {
            1nat
        } else {
            0nat
        }
    }
}

/// The calls of two plans in a row change a balance by the sum of what each
/// plan changes.
pub proof fn lemma_net_change_of_sequel(first: Seq<Invocation>, second: Seq<Invocation>, wallet: Address)
    ensures
        net_change(first + second, wallet) == net_change(first, wallet) + net_change(
            second,
            wallet,
        ),
    decreases second.len(),
{
    if second.len() == 0 {
        assert(first + second =~= first);
    } else {
        assert((first + second).drop_last() =~= first + second.drop_last());
        lemma_net_change_of_sequel(first, second.drop_last(), wallet);
    }
}

/// Two plans in a row allocate an account as often as both together.
pub proof fn lemma_allocations_of_sequel(first: Seq<Invocation>, second: Seq<Invocation>, account: Address)
    ensures
        allocations(first + second, account) == allocations(first, account) + allocations(
            second,
            account,
        ),
    decreases second.len(),
{
    if second.len() == 0 {
        assert(first + second =~= first);
    } else {
        assert((first + second).drop_last() =~= first + second.drop_last());
        lemma_allocations_of_sequel(first, second.drop_last(), account);
    }
}

/// A plan of two calls changes a balance by what the two calls change.
proof fn lemma_net_change_of_pair(first: Invocation, second: Invocation, wallet: Address)
    ensures
        net_change(seq![first, second], wallet) == first.call.spec_balance_change(wallet)
            + second.call.spec_balance_change(wallet),
{
    let pair = seq![first, second];
    assert(pair.drop_last() =~= seq![first]);
    assert(pair.drop_last().drop_last() =~= Seq::<Invocation>::empty());
    reveal_with_fuel(net_change, 3);
}

/// Making the custody wallet ready moves no tokens.
proof fn lemma_provision_moves_nothing(
    state: Option<CustodyState>,
    payer: Address,
    custody: Address,
    token_x_mint: Address,
    seeds: SignerSeeds,
    wallet: Address,
)
    requires
        Processor::spec_provision_custody(state, payer, custody, token_x_mint, seeds) is Ok,
    ensures
        net_change(
            Processor::spec_provision_custody(state, payer, custody, token_x_mint, seeds)->Ok_0,
            wallet,
        ) == 0,
{
    let setup = Processor::spec_provision_custody(state, payer, custody, token_x_mint, seeds)->Ok_0;
    reveal_with_fuel(net_change, 3);
    if setup.len() == 2 {
        assert(setup.drop_last().len() == 1);
        assert(setup.drop_last().drop_last().len() == 0);
    } else if setup.len() == 1 {
        assert(setup.drop_last().len() == 0);
    }
}

/// A deposit asks to move its amount out of the user's wallet X and into
/// the custody wallet, and to issue as much into the user's wallet Y; it
/// asks for no other change of any balance.
pub proof fn lemma_deposit_moves_amount(
    program_id: Address,
    amount: u64,
    accounts: Seq<AccountSnapshot>,
    wallet: Address,
)
    requires
        Processor::spec_change_x_to_y(program_id, amount, accounts) is Ok,
    ensures
        net_change(Processor::spec_change_x_to_y(program_id, amount, accounts)->Ok_0, wallet) == (
        if wallet == accounts[CUSTODY_WALLET_X as int].key {
            amount as int
        } else {
            0
        }) - (if wallet == accounts[USER_WALLET_X as int].key {
            amount as int
        } else {
            0
        }) + (if wallet == accounts[USER_WALLET_Y as int].key {
            amount as int
        } else {
            0
        }),
{
    let user_authority = accounts[USER_AUTHORITY as int];
    let user_wallet_x = accounts[USER_WALLET_X as int];
    let user_wallet_y = accounts[USER_WALLET_Y as int];
    let token_x_mint = accounts[TOKEN_X_MINT as int];
    let pool_mint = accounts[POOL_MINT as int];
    let custody = accounts[CUSTODY_WALLET_X as int];
    let mint_authority = Processor::spec_check_mint(program_id, pool_mint)->Ok_0;
    let bump = Processor::spec_check_custody_address(program_id, user_wallet_x, custody)->Ok_0;
    let seeds = SignerSeeds { seed: user_wallet_x.key, bump };
    let setup = Processor::spec_provision_custody(
        Processor::spec_custody_state(custody),
        user_authority.key,
        custody.key,
        token_x_mint.key,
        seeds,
    )->Ok_0;
    let legs = Processor::spec_deposit_legs(
        user_authority.key,
        user_wallet_x.key,
        user_wallet_y.key,
        pool_mint.key,
        custody.key,
        mint_authority,
        amount,
    );
    lemma_provision_moves_nothing(
        Processor::spec_custody_state(custody),
        user_authority.key,
        custody.key,
        token_x_mint.key,
        seeds,
        wallet,
    );
    lemma_net_change_of_sequel(setup, legs, wallet);
    lemma_net_change_of_pair(legs[0], legs[1], wallet);
    assert(legs =~= seq![legs[0], legs[1]]);
}

/// A withdrawal asks to move its amount out of the custody wallet and into
/// the user's wallet X, and to destroy as much in the user's wallet Y; it
/// asks for no other change of any balance.
pub proof fn lemma_withdrawal_moves_amount(
    program_id: Address,
    amount: u64,
    accounts: Seq<AccountSnapshot>,
    wallet: Address,
)
    requires
        Processor::spec_change_y_to_x(program_id, amount, accounts) is Ok,
    ensures
        net_change(Processor::spec_change_y_to_x(program_id, amount, accounts)->Ok_0, wallet) == (
        if wallet == accounts[USER_WALLET_X as int].key {
            amount as int
        } else {
            0
        }) - (if wallet == accounts[CUSTODY_WALLET_X as int].key {
            amount as int
        } else {
            0
        }) - (if wallet == accounts[USER_WALLET_Y as int].key {
            amount as int
        } else {
            0
        }),
{
    let legs = Processor::spec_change_y_to_x(program_id, amount, accounts)->Ok_0;
    lemma_net_change_of_pair(legs[0], legs[1], wallet);
    assert(legs =~= seq![legs[0], legs[1]]);
}

/// A deposit followed by a withdrawal of the same amount, by the same user
/// wallets, leaves every balance as it was: what wallet X and the custody
/// wallet hold together is conserved, and so is what each of them holds.
pub proof fn lemma_closed_loop_restores_balances(
    program_id: Address,
    amount: u64,
    before: Seq<AccountSnapshot>,
    between: Seq<AccountSnapshot>,
    wallet: Address,
    balance: int,
    custody_balance: int,
)
    requires
        Processor::spec_change_x_to_y(program_id, amount, before) is Ok,
        Processor::spec_change_y_to_x(program_id, amount, between) is Ok,
        before[USER_WALLET_X as int].key == between[USER_WALLET_X as int].key,
        before[USER_WALLET_Y as int].key == between[USER_WALLET_Y as int].key,
    ensures
        ({
            let deposit = Processor::spec_change_x_to_y(program_id, amount, before)->Ok_0;
            let withdrawal = Processor::spec_change_y_to_x(program_id, amount, between)->Ok_0;
            let wallet_x = before[USER_WALLET_X as int].key;
            let custody = before[CUSTODY_WALLET_X as int].key;
            &&& between[CUSTODY_WALLET_X as int].key == custody
            &&& balance_after(deposit + withdrawal, wallet, balance) == balance
            &&& balance_after(deposit + withdrawal, wallet_x, balance) + balance_after(
                deposit + withdrawal,
                custody,
                custody_balance,
            ) == balance + custody_balance
        }),
{
    let deposit = Processor::spec_change_x_to_y(program_id, amount, before)->Ok_0;
    let withdrawal = Processor::spec_change_y_to_x(program_id, amount, between)->Ok_0;
    let wallet_x = before[USER_WALLET_X as int].key;
    let custody = before[CUSTODY_WALLET_X as int].key;
    lemma_deposit_moves_amount(program_id, amount, before, wallet);
    lemma_withdrawal_moves_amount(program_id, amount, between, wallet);
    lemma_net_change_of_sequel(deposit, withdrawal, wallet);
    lemma_deposit_moves_amount(program_id, amount, before, wallet_x);
    lemma_withdrawal_moves_amount(program_id, amount, between, wallet_x);
    lemma_net_change_of_sequel(deposit, withdrawal, wallet_x);
    lemma_deposit_moves_amount(program_id, amount, before, custody);
    lemma_withdrawal_moves_amount(program_id, amount, between, custody);
    lemma_net_change_of_sequel(deposit, withdrawal, custody);
}

/// Whether a list presents every address with one state: two entries with
/// the same address are the same account.
pub open spec fn one_account_per_address(accounts: Seq<AccountSnapshot>) -> bool {
    forall|i: int, j: int|
        0 <= i < accounts.len() && 0 <= j < accounts.len() && accounts[i].key == accounts[j].key
            ==> accounts[i] == accounts[j]
}

/// Whether the wallet `after` is the wallet `before` once `plan` has been
/// applied: an initialized wallet of the same owner and asset, which holds
/// what it held, changed by what the plan asked.
pub open spec fn wallet_holds_what_was_asked(
    plan: Seq<Invocation>,
    before: AccountSnapshot,
    after: AccountSnapshot,
) -> bool {
    match (TokenAccount::spec_unpack(before.data@), TokenAccount::spec_unpack(after.data@)) {
        (Some(held), Some(holds)) => {
            &&& holds.owner == held.owner
            &&& holds.mint == held.mint
            &&& holds.amount == balance_after(plan, before.key, held.amount as int)
        },
        _ => false,
    }
}

/// Whether the accounts `after` are the accounts `before` once `plan` has
/// been applied: the same addresses stand in the places that the program
/// reads, the user's two wallets hold what was asked, and a program owns the
/// custody wallet.
pub open spec fn ledger_holds_what_was_asked(
    plan: Seq<Invocation>,
    before: Seq<AccountSnapshot>,
    after: Seq<AccountSnapshot>,
) -> bool {
    &&& before.len() >= ACCOUNTS_READ
    &&& after.len() >= ACCOUNTS_READ
    &&& forall|i: int| 0 <= i < ACCOUNTS_READ ==> after[i].key == before[i].key
    &&& wallet_holds_what_was_asked(
        plan,
        before[USER_WALLET_X as int],
        after[USER_WALLET_X as int],
    )
    &&& wallet_holds_what_was_asked(
        plan,
        before[USER_WALLET_Y as int],
        after[USER_WALLET_Y as int],
    )
    &&& after[CUSTODY_WALLET_X as int].owner.bytes != SYSTEM_PROGRAM_ID
}

/// On the ledger that a deposit leaves, the same user can withdraw the same
/// amount: where the accounts hold what the deposit asked for and the user
/// signs again, the withdrawal is planned, and deposit and withdrawal
/// together leave every balance as it was.
pub proof fn lemma_withdrawal_follows_deposit(
    program_id: Address,
    amount: u64,
    before: Seq<AccountSnapshot>,
    after: Seq<AccountSnapshot>,
)
    requires
        one_account_per_address(before),
        Processor::spec_change_x_to_y(program_id, amount, before) is Ok,
        ledger_holds_what_was_asked(
            Processor::spec_change_x_to_y(program_id, amount, before)->Ok_0,
            before,
            after,
        ),
        after[USER_AUTHORITY as int].is_signer,
    ensures
        Processor::spec_change_y_to_x(program_id, amount, after) is Ok,
        forall|wallet: Address, balance: int|
            balance_after(
                Processor::spec_change_x_to_y(program_id, amount, before)->Ok_0
                    + Processor::spec_change_y_to_x(program_id, amount, after)->Ok_0,
                wallet,
                balance,
            ) == balance,
{
    let deposit = Processor::spec_change_x_to_y(program_id, amount, before)->Ok_0;
    let wallet_x = before[USER_WALLET_X as int];
    let wallet_y = before[USER_WALLET_Y as int];
    assert(after[USER_AUTHORITY as int].key == before[USER_AUTHORITY as int].key);
    assert(after[USER_WALLET_X as int].key == wallet_x.key);
    assert(after[USER_WALLET_Y as int].key == wallet_y.key);
    assert(after[POOL_MINT as int].key == before[POOL_MINT as int].key);
    assert(after[CUSTODY_WALLET_X as int].key == before[CUSTODY_WALLET_X as int].key);
    lemma_deposit_moves_amount(program_id, amount, before, wallet_y.key);
    if wallet_y.key == wallet_x.key {
        assert(wallet_y == wallet_x);
    }
    assert(Processor::spec_change_y_to_x(program_id, amount, after) is Ok);
    assert forall|wallet: Address, balance: int|
        balance_after(
            deposit + Processor::spec_change_y_to_x(program_id, amount, after)->Ok_0,
            wallet,
            balance,
        ) == balance by {
        lemma_closed_loop_restores_balances(program_id, amount, before, after, wallet, balance, 0);
    }
}

/// A deposit alone conserves what wallet X and the custody wallet hold
/// together, where the user's wallet Y is neither of the two.
pub proof fn lemma_deposit_conserves_token_x(
    program_id: Address,
    amount: u64,
    accounts: Seq<AccountSnapshot>,
    balance: int,
    custody_balance: int,
)
    requires
        Processor::spec_change_x_to_y(program_id, amount, accounts) is Ok,
        accounts[USER_WALLET_Y as int].key != accounts[USER_WALLET_X as int].key,
        accounts[USER_WALLET_Y as int].key != accounts[CUSTODY_WALLET_X as int].key,
    ensures
        ({
            let deposit = Processor::spec_change_x_to_y(program_id, amount, accounts)->Ok_0;
            balance_after(deposit, accounts[USER_WALLET_X as int].key, balance) + balance_after(
                deposit,
                accounts[CUSTODY_WALLET_X as int].key,
                custody_balance,
            ) == balance + custody_balance
        }),
{
    lemma_deposit_moves_amount(program_id, amount, accounts, accounts[USER_WALLET_X as int].key);
    lemma_deposit_moves_amount(program_id, amount, accounts, accounts[CUSTODY_WALLET_X as int].key);
}

/// Deriving twice from the same program and seed gives the same address and
/// the same bump byte.
pub proof fn lemma_derivation_is_deterministic(
    program_id: Address,
    seed: Address,
    other_program_id: Address,
    other_seed: Address,
)
    requires
        program_id@ == other_program_id@,
        seed@ == other_seed@,
    ensures
        derived_address(program_id@, seed@) == derived_address(other_program_id@, other_seed@),
{
}

/// Every deposit by the same wallet X is held to the same custody wallet:
/// the address derived from wallet X.
pub proof fn lemma_one_custody_wallet_per_user_wallet(
    program_id: Address,
    amount: u64,
    accounts: Seq<AccountSnapshot>,
    later_amount: u64,
    later_accounts: Seq<AccountSnapshot>,
)
    requires
        Processor::spec_change_x_to_y(program_id, amount, accounts) is Ok,
        Processor::spec_change_x_to_y(program_id, later_amount, later_accounts) is Ok,
        accounts[USER_WALLET_X as int].key == later_accounts[USER_WALLET_X as int].key,
    ensures
        accounts[CUSTODY_WALLET_X as int].key == later_accounts[CUSTODY_WALLET_X as int].key,
        derived_address(program_id@, accounts[USER_WALLET_X as int].key@) matches Some(derived)
            && derived.0 == accounts[CUSTODY_WALLET_X as int].key,
{
}

/// A deposit allocates the custody wallet once where no program owns its
/// address yet, and never where one does; it allocates nothing else.
pub proof fn lemma_custody_allocated_at_most_once(
    program_id: Address,
    amount: u64,
    accounts: Seq<AccountSnapshot>,
    account: Address,
)
    requires
        Processor::spec_change_x_to_y(program_id, amount, accounts) is Ok,
    ensures
        ({
            let plan = Processor::spec_change_x_to_y(program_id, amount, accounts)->Ok_0;
            let custody = accounts[CUSTODY_WALLET_X as int];
            allocations(plan, account) == if account == custody.key && custody.owner.bytes
                == SYSTEM_PROGRAM_ID {
                1nat
            } else {
                0nat
            }
        }),
{
    let user_authority = accounts[USER_AUTHORITY as int];
    let user_wallet_x = accounts[USER_WALLET_X as int];
    let user_wallet_y = accounts[USER_WALLET_Y as int];
    let token_x_mint = accounts[TOKEN_X_MINT as int];
    let pool_mint = accounts[POOL_MINT as int];
    let custody = accounts[CUSTODY_WALLET_X as int];
    let mint_authority = Processor::spec_check_mint(program_id, pool_mint)->Ok_0;
    let bump = Processor::spec_check_custody_address(program_id, user_wallet_x, custody)->Ok_0;
    let seeds = SignerSeeds { seed: user_wallet_x.key, bump };
    let setup = Processor::spec_provision_custody(
        Processor::spec_custody_state(custody),
        user_authority.key,
        custody.key,
        token_x_mint.key,
        seeds,
    )->Ok_0;
    let legs = Processor::spec_deposit_legs(
        user_authority.key,
        user_wallet_x.key,
        user_wallet_y.key,
        pool_mint.key,
        custody.key,
        mint_authority,
        amount,
    );
    lemma_allocations_of_sequel(setup, legs, account);
    reveal_with_fuel(allocations, 3);
    assert(legs.drop_last().len() == 1);
    assert(legs.drop_last().drop_last().len() == 0);
    if setup.len() == 2 {
        assert(setup.drop_last().len() == 1);
        assert(setup.drop_last().drop_last().len() == 0);
    } else if setup.len() == 1 {
        assert(setup.drop_last().len() == 0);
    }
}

/// A deposit into a custody wallet that is already bound to token X reuses
/// it: the plan is the two legs alone, with nothing allocated or bound.
pub proof fn lemma_existing_custody_is_reused(
    program_id: Address,
    amount: u64,
    accounts: Seq<AccountSnapshot>,
)
    requires
        Processor::spec_change_x_to_y(program_id, amount, accounts) is Ok,
        Processor::spec_custody_state(accounts[CUSTODY_WALLET_X as int]) matches Some(
            CustodyState::Initialized { .. },
        ),
    ensures
        ({
            let plan = Processor::spec_change_x_to_y(program_id, amount, accounts)->Ok_0;
            &&& plan.len() == 2
            &&& plan[0].call is Transfer
            &&& plan[1].call is MintTo
            &&& forall|i: int, account: Address|
                0 <= i < plan.len() ==> !plan[i].call.allocates(account)
                    && !plan[i].call.initializes(account)
        }),
{
    let plan = Processor::spec_change_x_to_y(program_id, amount, accounts)->Ok_0;
    assert(plan.len() == 2);
}

} // verus!
