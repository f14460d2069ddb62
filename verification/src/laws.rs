//! What holds of the ledger whatever is carried out on it.

use vstd::prelude::*;
use crate::contract::destruction;
use crate::contract::executed;
use crate::contract::within_limits;
use crate::error::ContractError;
use crate::error::ErrorKind;
use crate::host::Env;
use crate::host::Response;
use crate::ledger::Ledger;
use crate::msg::ExecuteMsg;

verus! {

/// The sum of all balances on record.
pub open spec fn circulating(balances: Map<Seq<char>, u128>) -> nat
    decreases balances.dom().len(),
    when balances.dom().finite()
{
    if balances.dom().len() == 0 {
        0
    } else {
        let a = balances.dom().choose();
        balances[a] as nat + circulating(balances.remove(a))
    }
}

/// The ledger's invariant: finitely many balances are on record, and they add
/// up to the total supply.
pub open spec fn balanced(l: Ledger) -> bool {
    &&& l.balances.dom().finite()
    &&& circulating(l.balances) == l.total_supply()
}

/// The sum of all balances is the balance of any one address plus the sum of
/// the others.
pub proof fn lemma_circulating_split(balances: Map<Seq<char>, u128>, address: Seq<char>)
    requires
        balances.dom().finite(),
        balances.contains_key(address),
    ensures
        circulating(balances) == balances[address] + circulating(balances.remove(address)),
    decreases balances.dom().len(),
{
    let a = balances.dom().choose();
    assert(balances.dom().len() != 0) by {
        if balances.dom().len() == 0 {
            assert(balances.dom() =~= Set::<Seq<char>>::empty());
        }
    }
    if a != address {
        let rest = balances.remove(a);
        lemma_circulating_split(rest, address);
        let others = balances.remove(address);
        lemma_circulating_split(others, a);
        assert(rest.remove(address) =~= others.remove(a));
    }
}

/// Recording a balance changes the sum by the difference to what the address
/// held before.
pub proof fn lemma_circulating_insert(balances: Map<Seq<char>, u128>, address: Seq<char>, amount: u128)
    requires
        balances.dom().finite(),
    ensures
        balances.insert(address, amount).dom().finite(),
        circulating(balances.insert(address, amount)) == circulating(balances) - (if balances.contains_key(address) {
            balances[address] as int
        } else {
            0
        }) + amount,
{
    let next = balances.insert(address, amount);
    lemma_circulating_split(next, address);
    if balances.contains_key(address) {
        lemma_circulating_split(balances, address);
        assert(next.remove(address) =~= balances.remove(address));
    } else {
        assert(next.remove(address) =~= balances);
    }
}

/// No address holds more than the total supply of a balanced ledger.
pub proof fn lemma_balance_within_supply(l: Ledger, address: Seq<char>)
    requires
        balanced(l),
    ensures
        l.balance(address) <= l.total_supply(),
{
    if l.balances.contains_key(address) {
        lemma_circulating_split(l.balances, address);
    }
}

/// Two addresses together hold no more than the total supply of a balanced
/// ledger.
pub proof fn lemma_two_within_supply(l: Ledger, a: Seq<char>, b: Seq<char>)
    requires
        balanced(l),
        a != b,
    ensures
        l.balance(a) + l.balance(b) <= l.total_supply(),
{
    if l.balances.contains_key(a) {
        lemma_circulating_split(l.balances, a);
        let rest = l.balances.remove(a);
        if rest.contains_key(b) {
            lemma_circulating_split(rest, b);
        }
    } else if l.balances.contains_key(b) {
        lemma_circulating_split(l.balances, b);
    }
}

/// On a balanced ledger every address can hold what another is able to give: a
/// transfer, on an allowance or not, never adds past 128 bits.
pub proof fn law_balanced_ledger_takes_transfers(l: Ledger, from: Seq<char>, to: Seq<char>, amount: u128)
    requires
        balanced(l),
    ensures
        l.balance(from) >= amount && to != from ==> l.holds_more(to, amount),
        l.transfer_fits(from, to, amount),
        forall|spender: Seq<char>, height: u64, time: u64|
            l.can_transfer_from(from, spender, to, amount, height, time) && to != from ==> l.holds_more(to, amount),
{
    lemma_balance_within_supply(l, to);
    if to != from {
        lemma_two_within_supply(l, from, to);
    }
}

/// A ledger stays balanced when `amount` moves from one address, which holds
/// that much, to another.
pub proof fn lemma_moved_balanced(l: Ledger, from: Seq<char>, to: Seq<char>, amount: u128)
    requires
        balanced(l),
        l.balance(from) >= amount,
    ensures
        balanced(l.moved(from, to, amount)),
{
    let taken = l.with_balance(from, (l.balance(from) - amount) as u128);
    lemma_circulating_insert(l.balances, from, (l.balance(from) - amount) as u128);
    if to != from {
        lemma_two_within_supply(l, from, to);
    }
    lemma_circulating_insert(taken.balances, to, (taken.balance(to) + amount) as u128);
}

/// On a ledger without balances, a token that is set up with nothing in
/// circulation is balanced.
pub proof fn law_instantiated_balanced(l: Ledger, minter: Seq<char>, name: Seq<char>, symbol: Seq<char>, decimals: u8)
    requires
        l.balances =~= Map::<Seq<char>, u128>::empty(),
    ensures
        balanced(l.instantiated(minter, name, symbol, decimals)),
{
}

/// The total supply is the sum of all balances after every operation that goes
/// through on a balanced ledger.
pub proof fn law_supply_is_sum_of_balances(
    pre: Ledger,
    sound: bool,
    env: Env,
    sender: Seq<char>,
    msg: ExecuteMsg,
    r: Result<Response, ContractError>,
    post: Ledger,
)
    requires
        balanced(pre),
        within_limits(pre, env, sender, msg),
        executed(pre, sound, env, sender, msg, r, post),
        r is Ok,
    ensures
        balanced(post),
{
    match msg {
        ExecuteMsg::Mint { recipient, amount } => {
            lemma_circulating_insert(pre.balances, recipient@, (pre.balance(recipient@) + amount) as u128);
        },
        ExecuteMsg::Transfer { recipient, amount } => {
            lemma_moved_balanced(pre, sender, recipient@, amount);
        },
        ExecuteMsg::Send { contract, amount, msg } => {
            lemma_moved_balanced(pre, sender, contract@, amount);
        },
        ExecuteMsg::Redeem { amount } => {
            lemma_circulating_insert(pre.balances, sender, (pre.balance(sender) - amount) as u128);
        },
        ExecuteMsg::TransferFrom { owner, recipient, amount } => {
            lemma_moved_balanced(pre.spent(owner@, sender, amount), owner@, recipient@, amount);
        },
        ExecuteMsg::SendFrom { owner, contract, amount, msg } => {
            lemma_moved_balanced(pre.spent(owner@, sender, amount), owner@, contract@, amount);
        },
        ExecuteMsg::DestroyBlockedFunds { address } => {
            lemma_circulating_insert(pre.balances, address@, 0);
        },
        _ => {},
    }
}

/// One operation that went through took the ledger from `pre` to `post`.
pub open spec fn committed(pre: Ledger, post: Ledger) -> bool {
    exists|sound: bool, env: Env, sender: Seq<char>, msg: ExecuteMsg, r: Result<Response, ContractError>|
        #![trigger executed(pre, sound, env, sender, msg, r, post)]
        within_limits(pre, env, sender, msg) && executed(pre, sound, env, sender, msg, r, post) && r is Ok
}

/// The ledgers that a run of operations went through, each one committed on
/// the one before.
pub open spec fn run_of(history: Seq<Ledger>) -> bool {
    &&& history.len() > 0
    &&& forall|i: int| 0 <= i < history.len() - 1 ==> committed(#[trigger] history[i], history[i + 1])
}

proof fn lemma_balanced_up_to(history: Seq<Ledger>, k: int)
    requires
        run_of(history),
        balanced(history[0]),
        0 <= k < history.len(),
    ensures
        balanced(history[k]),
    decreases k,
{
    if k > 0 {
        lemma_balanced_up_to(history, k - 1);
        let pre = history[k - 1];
        let post = history[k];
        assert(committed(pre, post));
        let (sound, env, sender, msg, r) = choose|
            sound: bool,
            env: Env,
            sender: Seq<char>,
            msg: ExecuteMsg,
            r: Result<Response, ContractError>,
        |
            #![trigger executed(pre, sound, env, sender, msg, r, post)]
            within_limits(pre, env, sender, msg) && executed(pre, sound, env, sender, msg, r, post) && r is Ok;
        law_supply_is_sum_of_balances(pre, sound, env, sender, msg, r, post);
    }
}

/// In every state that operations reach from a balanced ledger, the total
/// supply is the sum of all balances.
pub proof fn law_reachable_ledgers_are_balanced(history: Seq<Ledger>)
    requires
        run_of(history),
        balanced(history[0]),
    ensures
        forall|k: int| 0 <= k < history.len() ==> balanced(#[trigger] history[k]),
{
    assert forall|k: int| 0 <= k < history.len() implies balanced(#[trigger] history[k]) by {
        lemma_balanced_up_to(history, k);
    }
}

/// The total supply is the sum of all balances after a destruction of funds
/// that goes through on a balanced ledger, whoever asked for it.
pub proof fn law_destruction_keeps_balance(
    pre: Ledger,
    sound: bool,
    caller: Seq<char>,
    address: Seq<char>,
    r: Result<Response, ContractError>,
    post: Ledger,
)
    requires
        balanced(pre),
        destruction(pre, sound, caller, address, r, post),
        r is Ok,
    ensures
        balanced(post),
        post.balance(address) == 0,
        post.total_supply() == pre.total_supply() - pre.balance(address),
{
    lemma_circulating_insert(pre.balances, address, 0);
}

/// Whether the operation is a minting within the cap to an address that the
/// host rejects. `cw20-base` looks at the recipient last, so this minting fails
/// with the total supply already raised, for the host to discard.
pub open spec fn mints_to_rejected(pre: Ledger, sender: Seq<char>, msg: ExecuteMsg) -> bool {
    &&& msg matches ExecuteMsg::Mint { recipient, amount }
    &&& amount != 0
    &&& pre.is_authority(sender)
    &&& pre.under_cap(amount)
    &&& !pre.addresses.contains(recipient@)
}

/// The total supply is the sum of all balances also after an operation that
/// fails on a balanced ledger in a well-typed store, but for a minting to an
/// address that the host rejects.
pub proof fn law_failure_leaves_balanced(
    pre: Ledger,
    env: Env,
    sender: Seq<char>,
    msg: ExecuteMsg,
    r: Result<Response, ContractError>,
    post: Ledger,
)
    requires
        balanced(pre),
        within_limits(pre, env, sender, msg),
        executed(pre, true, env, sender, msg, r, post),
        r is Err,
        !mints_to_rejected(pre, sender, msg),
    ensures
        balanced(post),
        post.balances == pre.balances,
        post.total_supply() == pre.total_supply(),
{
    match msg {
        ExecuteMsg::Redeem { amount } => {
            lemma_balance_within_supply(pre, sender);
        },
        ExecuteMsg::DestroyBlockedFunds { address } => {
            lemma_balance_within_supply(pre, address@);
        },
        _ => {},
    }
}

/// Whether the operation takes more from the sender than the sender holds: a
/// transfer or send by a sender who is not blocked, or a redemption by the mint
/// authority.
pub open spec fn draws_more_than_held(pre: Ledger, sender: Seq<char>, msg: ExecuteMsg) -> bool {
    match msg {
        ExecuteMsg::Transfer { recipient, amount } => !pre.is_blocked(sender) && amount > pre.balance(sender),
        ExecuteMsg::Send { contract, amount, msg } => !pre.is_blocked(sender) && amount > pre.balance(sender),
        ExecuteMsg::Redeem { amount } => pre.is_authority(sender) && amount > pre.balance(sender),
        _ => false,
    }
}

/// An operation that takes more than is held fails, and in a well-typed store
/// it leaves every balance, the total supply and the rest of the ledger as
/// they were: no balance ever goes below zero.
pub proof fn law_uncovered_amount_changes_nothing(
    pre: Ledger,
    env: Env,
    sender: Seq<char>,
    msg: ExecuteMsg,
    r: Result<Response, ContractError>,
    post: Ledger,
)
    requires
        draws_more_than_held(pre, sender, msg),
        executed(pre, true, env, sender, msg, r, post),
    ensures
        r matches Err(e) && e.kind() == ErrorKind::Std,
        post == pre,
{
}

/// A balance is never negative: funds only leave an address that holds them,
/// and what is left is the difference.
pub proof fn law_balances_never_negative(
    pre: Ledger,
    sound: bool,
    env: Env,
    sender: Seq<char>,
    recipient: String,
    amount: u128,
    r: Result<Response, ContractError>,
    post: Ledger,
)
    requires
        executed(pre, sound, env, sender, ExecuteMsg::Transfer { recipient, amount }, r, post),
        r is Ok,
    ensures
        pre.balance(sender) >= amount,
        0 <= post.balance(sender),
        recipient@ != sender ==> post.balance(sender) == pre.balance(sender) - amount,
{
}

/// Whether an operation moves funds out of the balance of `subject`.
pub open spec fn draws_on(msg: ExecuteMsg, sender: Seq<char>, subject: Seq<char>) -> bool {
    match msg {
        ExecuteMsg::Transfer { recipient, amount } => sender == subject,
        ExecuteMsg::Send { contract, amount, msg } => sender == subject,
        ExecuteMsg::TransferFrom { owner, recipient, amount } => owner@ == subject,
        ExecuteMsg::SendFrom { owner, contract, amount, msg } => owner@ == subject,
        _ => false,
    }
}

/// No funds move out of a blocked address: the operation fails with `Blocked`,
/// whoever calls, and the ledger stays as it was.
pub proof fn law_blocked_funds_stay(
    pre: Ledger,
    sound: bool,
    env: Env,
    sender: Seq<char>,
    subject: Seq<char>,
    msg: ExecuteMsg,
    r: Result<Response, ContractError>,
    post: Ledger,
)
    requires
        pre.is_blocked(subject),
        draws_on(msg, sender, subject),
        executed(pre, sound, env, sender, msg, r, post),
    ensures
        r == Err::<Response, ContractError>(ContractError::Blocked {}),
        post == pre,
{
}

/// Whether an operation is for the mint authority alone.
pub open spec fn needs_authority(msg: ExecuteMsg) -> bool {
    match msg {
        ExecuteMsg::AddToBlockedList { address } => true,
        ExecuteMsg::RemoveFromBlockedList { address } => true,
        ExecuteMsg::UpdateMinter { address } => true,
        ExecuteMsg::Mint { recipient, amount } => true,
        ExecuteMsg::Redeem { amount } => true,
        ExecuteMsg::DestroyBlockedFunds { address } => true,
        _ => false,
    }
}

/// Once the token is set up, an operation of the mint authority fails with
/// `Unauthorized` for every other caller, and the ledger stays as it was.
pub proof fn law_authority_only(
    pre: Ledger,
    sound: bool,
    env: Env,
    sender: Seq<char>,
    msg: ExecuteMsg,
    r: Result<Response, ContractError>,
    post: Ledger,
)
    requires
        pre.token is Some,
        !pre.is_authority(sender),
        needs_authority(msg),
        executed(pre, sound, env, sender, msg, r, post),
    ensures
        r == Err::<Response, ContractError>(ContractError::Unauthorized {}),
        post == pre,
{
}

/// On a balanced and well-typed ledger, the mint authority destroys the funds
/// of an address if and only if the address is blocked; the address then holds
/// nothing, and the total supply is lower by what it held.
pub proof fn law_destroy_blocked_funds(
    pre: Ledger,
    env: Env,
    sender: Seq<char>,
    address: String,
    r: Result<Response, ContractError>,
    post: Ledger,
)
    requires
        balanced(pre),
        pre.is_authority(sender),
        executed(pre, true, env, sender, ExecuteMsg::DestroyBlockedFunds { address }, r, post),
    ensures
        r is Ok <==> pre.is_blocked(address@),
        !pre.is_blocked(address@) ==> r == Err::<Response, ContractError>(ContractError::NotBlocked {}) && post == pre,
        r is Ok ==> post.balance(address@) == 0,
        r is Ok ==> post.total_supply() == pre.total_supply() - pre.balance(address@),
{
    lemma_balance_within_supply(pre, address@);
}

/// An address is blocked right after it was put on the blocklist, and is not
/// right after it was taken off.
pub proof fn law_blocklist_round_trip(
    pre: Ledger,
    sound: bool,
    env: Env,
    sender: Seq<char>,
    address: String,
    r: Result<Response, ContractError>,
    post: Ledger,
)
    requires
        r is Ok,
    ensures
        executed(pre, sound, env, sender, ExecuteMsg::AddToBlockedList { address }, r, post) ==> post.is_blocked(address@)
            && post.blocked_entry(address@) == Some(true),
        executed(pre, sound, env, sender, ExecuteMsg::RemoveFromBlockedList { address }, r, post) ==> !post.is_blocked(
            address@,
        ) && post.blocked_entry(address@) == Some(false),
{
}

} // verus!
