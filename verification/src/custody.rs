//! Balances, the accounts that carry them, and the moves between accounts.
//!
//! A balance remembers, besides what it holds now, all that ever came in and
//! all that ever went out. Only the moves of this file change a balance, so
//! what went out of an account never exceeds what came in.

use vstd::prelude::*;
use crate::pubkey::Pubkey;

verus! {

/// Why a move of value between two accounts was turned away.
#[derive(Clone, Copy, Debug, PartialEq, Eq)]
pub enum TransferErrors {
    TokenTransferFailed,
    SolTransferFailed,
    InsufficientTokenBalance,
    InsufficientSolBalance,
    CloseAccountFailed,
    InvalidAtaAddressMismatch,
}

/// An amount of value, with the sums of all that was ever paid in and paid out.
#[derive(Clone, Copy)]
pub struct Balance {
    pub(crate) amount: u64,
    pub(crate) received: Ghost<nat>,
    pub(crate) released: Ghost<nat>,
}

impl Balance {
    #[verifier::type_invariant]
    pub open(crate) spec fn wf(self) -> bool {
        self.received@ == self.released@ + self.amount
    }

    /// What the balance holds now.
    pub open(crate) spec fn spec_amount(&self) -> u64 {
        self.amount
    }

    /// All that was ever paid in, the opening amount included.
    pub open(crate) spec fn received(self) -> nat {
        self.received@
    }

    /// All that was ever paid out.
    pub open(crate) spec fn released(self) -> nat {
        self.released@
    }

    /// The balance after `x` was paid in.
    pub open(crate) spec fn credited(self, x: u64) -> Balance {
        Balance {
            amount: (self.amount + x) as u64,
            received: Ghost((self.received@ + x) as nat),
            released: self.released,
        }
    }

    /// The balance after `x` was paid out.
    pub open(crate) spec fn debited(self, x: u64) -> Balance {
        Balance {
            amount: (self.amount - x) as u64,
            received: self.received,
            released: Ghost((self.released@ + x) as nat),
        }
    }

    /// A fresh balance that opens with `amount`: the opening amount counts as
    /// paid in, and nothing was paid out.
    pub open(crate) spec fn opening(amount: u64) -> Balance {
        Balance { amount, received: Ghost(amount as nat), released: Ghost(0) }
    }

    /// A fresh balance that opens with `amount`.
    pub fn new(amount: u64) -> (b: Balance)
        ensures
            b == Balance::opening(amount),
            b.amount() == amount,
            b.received() == amount,
            b.released() == 0,
            b.wf(),
    {
        Balance { amount, received: Ghost(amount as nat), released: Ghost(0) }
    }

    /// What the balance holds now.
    #[verifier::when_used_as_spec(spec_amount)]
    pub fn amount(&self) -> (a: u64)
        ensures
            a == self.amount(),
            self.wf(),
            self.released() <= self.received(),
    {
        proof {
            use_type_invariant(self);
        }
        self.amount
    }

    pub(crate) fn credit(&mut self, x: u64)
        requires
            old(self).amount() + x <= u64::MAX,
        ensures
            *final(self) == old(self).credited(x),
    {
        proof {
            use_type_invariant(&*self);
        }
        *self = Balance {
            amount: self.amount + x,
            received: Ghost((self.received@ + x) as nat),
            released: self.released,
        };
    }

    pub(crate) fn debit(&mut self, x: u64)
        requires
            x <= old(self).amount(),
        ensures
            *final(self) == old(self).debited(x),
    {
        proof {
            use_type_invariant(&*self);
        }
        *self = Balance {
            amount: self.amount - x,
            received: self.received,
            released: Ghost((self.released@ + x) as nat),
        };
    }
}

/// Custody conservation: of any balance that is in order, the sum of all that
/// ever went out is at most the sum of all that ever came in, and what is
/// left is the difference.
pub proof fn custody_conservation(b: Balance)
    requires
        b.wf(),
    ensures
        b.released() <= b.received(),
        b.amount() == b.received() - b.released(),
{
}

/// Paying in keeps a balance in order, adds to what came in and leaves what
/// went out as it was.
pub proof fn credited_conserves(b: Balance, x: u64)
    requires
        b.wf(),
        b.amount() + x <= u64::MAX,
    ensures
        b.credited(x).wf(),
        b.credited(x).amount() == b.amount() + x,
        b.credited(x).received() == b.received() + x,
        b.credited(x).released() == b.released(),
{
}

/// Paying out no more than is there keeps a balance in order, adds to what
/// went out and leaves what came in as it was.
pub proof fn debited_conserves(b: Balance, x: u64)
    requires
        b.wf(),
        x <= b.amount(),
    ensures
        b.debited(x).wf(),
        b.debited(x).amount() == b.amount() - x,
        b.debited(x).received() == b.received(),
        b.debited(x).released() == b.released() + x,
{
}

/// A move of `x` from one balance to another neither makes nor loses value:
/// what the two hold together stays the same, what left the one is what
/// came to the other, and both stay in order.
pub proof fn move_conserves_value(from: Balance, to: Balance, x: u64)
    requires
        from.wf(),
        to.wf(),
        x <= from.amount(),
        to.amount() + x <= u64::MAX,
    ensures
        from.debited(x).amount() + to.credited(x).amount() == from.amount() + to.amount(),
        from.debited(x).released() - from.released() == to.credited(x).received() - to.received(),
        from.debited(x).wf(),
        to.credited(x).wf(),
        from.debited(x).released() <= from.debited(x).received(),
{
}

/// What the logic reads of a token mint.
#[derive(Clone, Copy, Debug, PartialEq, Eq)]
pub struct Mint {
    pub key: Pubkey,
    pub decimals: u8,
    pub supply: u64,
}

/// An account that holds tokens of one mint for one owner.
#[derive(Clone, Copy)]
pub struct TokenAccount {
    pub key: Pubkey,
    pub mint: Pubkey,
    pub owner: Pubkey,
    pub balance: Balance,
    pub closed: bool,
}

/// An account that holds the native currency.
#[derive(Clone, Copy)]
pub struct SystemAccount {
    pub key: Pubkey,
    pub balance: Balance,
}

impl TokenAccount {
    /// An open account at `key` that holds `amount` tokens of `mint` for `owner`.
    pub open spec fn opened(key: Pubkey, mint: Pubkey, owner: Pubkey, amount: u64) -> TokenAccount {
        TokenAccount { key, mint, owner, balance: Balance::opening(amount), closed: false }
    }

    /// An open account at `key` that holds `amount` tokens of `mint` for `owner`.
    pub fn new(key: Pubkey, mint: Pubkey, owner: Pubkey, amount: u64) -> (account: TokenAccount)
        ensures
            account == TokenAccount::opened(key, mint, owner, amount),
            account.key == key,
            account.mint == mint,
            account.owner == owner,
            account.amount() == amount,
            account.balance.received() == amount,
            account.balance.released() == 0,
            !account.closed,
    {
        TokenAccount { key, mint, owner, balance: Balance::new(amount), closed: false }
    }

    /// The tokens in the account.
    pub open spec fn spec_amount(&self) -> u64 {
        self.balance.amount()
    }

    /// The tokens in the account.
    #[verifier::when_used_as_spec(spec_amount)]
    pub fn amount(&self) -> (a: u64)
        ensures
            a == self.amount(),
            self.conserved(),
            self.balance.released() <= self.balance.received(),
    {
        self.balance.amount()
    }

    /// What went out of the account never exceeded what came in, and what
    /// it holds is the difference.
    pub open spec fn conserved(self) -> bool {
        self.balance.wf()
    }

    /// The account after `x` tokens came in.
    pub open spec fn credited(self, x: u64) -> TokenAccount {
        TokenAccount { balance: self.balance.credited(x), ..self }
    }

    /// The account after `x` tokens went out.
    pub open spec fn debited(self, x: u64) -> TokenAccount {
        TokenAccount { balance: self.balance.debited(x), ..self }
    }

    /// The account after it was closed.
    pub open spec fn shut(self) -> TokenAccount {
        TokenAccount { closed: true, ..self }
    }
}

impl SystemAccount {
    /// The account at `key` that holds `lamports`.
    pub open spec fn opened(key: Pubkey, lamports: u64) -> SystemAccount {
        SystemAccount { key, balance: Balance::opening(lamports) }
    }

    /// The account at `key` that holds `lamports`.
    pub fn new(key: Pubkey, lamports: u64) -> (account: SystemAccount)
        ensures
            account == SystemAccount::opened(key, lamports),
            account.key == key,
            account.lamports() == lamports,
            account.balance.received() == lamports,
            account.balance.released() == 0,
    {
        SystemAccount { key, balance: Balance::new(lamports) }
    }

    /// The lamports in the account.
    pub open spec fn spec_lamports(&self) -> u64 {
        self.balance.amount()
    }

    /// The lamports in the account.
    #[verifier::when_used_as_spec(spec_lamports)]
    pub fn lamports(&self) -> (a: u64)
        ensures
            a == self.lamports(),
            self.conserved(),
            self.balance.released() <= self.balance.received(),
    {
        self.balance.amount()
    }

    /// What went out of the account never exceeded what came in, and what
    /// it holds is the difference.
    pub open spec fn conserved(self) -> bool {
        self.balance.wf()
    }

    /// The account after `x` lamports came in.
    pub open spec fn credited(self, x: u64) -> SystemAccount {
        SystemAccount { balance: self.balance.credited(x), ..self }
    }

    /// The account after `x` lamports went out.
    pub open spec fn debited(self, x: u64) -> SystemAccount {
        SystemAccount { balance: self.balance.debited(x), ..self }
    }
}

/// Why a move of `amount` tokens of `mint` from `from` to `to`, signed by
/// `authority`, is turned away, if it is. The funds are looked at first. The
/// move itself fails when one of the accounts is closed, when the accounts or
/// the mint named do not agree on the mint, when `authority` does not own
/// `from`, or when `to` cannot hold the sum.
pub open spec fn token_transfer_rejection(
    from: TokenAccount,
    to: TokenAccount,
    authority: Pubkey,
    mint: Mint,
    amount: u64,
) -> Option<TransferErrors> {
    if from.amount() < amount {
        Some(TransferErrors::InsufficientTokenBalance)
    } else if from.closed || to.closed || from.mint != mint.key || to.mint != mint.key
        || from.owner != authority || to.amount() + amount > u64::MAX {
        Some(TransferErrors::TokenTransferFailed)
    } else {
        None
    }
}

/// Why a move of `amount` lamports from `from` to `to` is turned away, if it
/// is: `from` holds too little, or `to` cannot hold the sum.
pub open spec fn sol_transfer_rejection(from: SystemAccount, to: SystemAccount, amount: u64) -> Option<
    TransferErrors,
> {
    if from.lamports() < amount {
        Some(TransferErrors::InsufficientSolBalance)
    } else if to.lamports() + amount > u64::MAX {
        Some(TransferErrors::SolTransferFailed)
    } else {
        None
    }
}

/// Whether the token account can be closed by `authority`: it is open, empty
/// and owned by `authority`.
pub open spec fn can_close(account: TokenAccount, authority: Pubkey) -> bool {
    !account.closed && account.amount() == 0 && account.owner == authority
}

/// Moves `amount` tokens from `from` to `to` on the word of `authority`, the
/// signer that owns `from`.
pub fn transfer_tokens(
    from: &mut TokenAccount,
    to: &mut TokenAccount,
    authority: &Pubkey,
    mint: &Mint,
    amount: u64,
) -> (r: Result<(), TransferErrors>)
    ensures
        match r {
            Ok(()) => {
                &&& token_transfer_rejection(*old(from), *old(to), *authority, *mint, amount) is None
                &&& *final(from) == old(from).debited(amount)
                &&& *final(to) == old(to).credited(amount)
            },
            Err(e) => {
                &&& token_transfer_rejection(*old(from), *old(to), *authority, *mint, amount) == Some(e)
                &&& *final(from) == *old(from)
                &&& *final(to) == *old(to)
            },
        },
{
    if from.balance.amount() < amount {
        return Err(TransferErrors::InsufficientTokenBalance);
    }
    if from.closed || to.closed || !from.mint.same(&mint.key) || !to.mint.same(&mint.key)
        || !from.owner.same(authority) || to.balance.amount() > u64::MAX - amount {
        return Err(TransferErrors::TokenTransferFailed);
    }
    from.balance.debit(amount);
    to.balance.credit(amount);
    Ok(())
}

/// Releases `amount` tokens from `from`, which the program-owned address
/// `authority` holds, to `to`.
pub fn transfer_tokens_with_seeds(
    from: &mut TokenAccount,
    to: &mut TokenAccount,
    authority: &Pubkey,
    mint: &Mint,
    amount: u64,
) -> (r: Result<(), TransferErrors>)
    ensures
        match r {
            Ok(()) => {
                &&& token_transfer_rejection(*old(from), *old(to), *authority, *mint, amount) is None
                &&& *final(from) == old(from).debited(amount)
                &&& *final(to) == old(to).credited(amount)
            },
            Err(e) => {
                &&& token_transfer_rejection(*old(from), *old(to), *authority, *mint, amount) == Some(e)
                &&& *final(from) == *old(from)
                &&& *final(to) == *old(to)
            },
        },
{
    transfer_tokens(from, to, authority, mint, amount)
}

/// Moves `amount` lamports from the signer `from` to `to`.
pub fn transfer_sol(from: &mut SystemAccount, to: &mut SystemAccount, amount: u64) -> (r: Result<
    (),
    TransferErrors,
>)
    ensures
        match r {
            Ok(()) => {
                &&& sol_transfer_rejection(*old(from), *old(to), amount) is None
                &&& *final(from) == old(from).debited(amount)
                &&& *final(to) == old(to).credited(amount)
            },
            Err(e) => {
                &&& sol_transfer_rejection(*old(from), *old(to), amount) == Some(e)
                &&& *final(from) == *old(from)
                &&& *final(to) == *old(to)
            },
        },
{
    if from.balance.amount() < amount {
        return Err(TransferErrors::InsufficientSolBalance);
    }
    if to.balance.amount() > u64::MAX - amount {
        return Err(TransferErrors::SolTransferFailed);
    }
    from.balance.debit(amount);
    to.balance.credit(amount);
    Ok(())
}

/// Moves `amount` lamports from `from`, an ordinary signer that holds no
/// data, to `to`.
pub fn transfer_sol_from_signer(
    from: &mut SystemAccount,
    to: &mut SystemAccount,
    amount: u64,
) -> (r: Result<(), TransferErrors>)
    ensures
        match r {
            Ok(()) => {
                &&& sol_transfer_rejection(*old(from), *old(to), amount) is None
                &&& *final(from) == old(from).debited(amount)
                &&& *final(to) == old(to).credited(amount)
            },
            Err(e) => {
                &&& sol_transfer_rejection(*old(from), *old(to), amount) == Some(e)
                &&& *final(from) == *old(from)
                &&& *final(to) == *old(to)
            },
        },
{
    transfer_sol(from, to, amount)
}

/// Releases `amount` lamports from the program-owned account `from` to `to`.
pub fn transfer_sol_with_seeds(
    from: &mut SystemAccount,
    to: &mut SystemAccount,
    amount: u64,
) -> (r: Result<(), TransferErrors>)
    ensures
        match r {
            Ok(()) => {
                &&& sol_transfer_rejection(*old(from), *old(to), amount) is None
                &&& *final(from) == old(from).debited(amount)
                &&& *final(to) == old(to).credited(amount)
            },
            Err(e) => {
                &&& sol_transfer_rejection(*old(from), *old(to), amount) == Some(e)
                &&& *final(from) == *old(from)
                &&& *final(to) == *old(to)
            },
        },
{
    transfer_sol(from, to, amount)
}

/// Closes the empty token account `account`, which the program-owned address
/// `authority` holds.
pub fn close_token_account_with_seeds(account: &mut TokenAccount, authority: &Pubkey) -> (r: Result<
    (),
    TransferErrors,
>)
    ensures
        match r {
            Ok(()) => can_close(*old(account), *authority) && *final(account) == old(account).shut(),
            Err(e) => {
                &&& !can_close(*old(account), *authority)
                &&& e == TransferErrors::CloseAccountFailed
                &&& *final(account) == *old(account)
            },
        },
{
    if account.closed || account.balance.amount() != 0 || !account.owner.same(authority) {
        return Err(TransferErrors::CloseAccountFailed);
    }
    account.closed = true;
    Ok(())
}

/// The bytes of the address of the token account that belongs to `owner` for
/// `mint`, or `None` where the two have none.
pub uninterp spec fn associated_token_address(owner: Seq<u8>, mint: Seq<u8>) -> Option<Seq<u8>>;

/// The address of the token account that belongs to `owner` for `mint`, or
/// `None` where the two have none.
pub open spec fn associated_token_account(owner: Pubkey, mint: Pubkey) -> Option<Pubkey> {
    match associated_token_address(owner@, mint@) {
        Some(bytes) => Some(choose|key: Pubkey| key@ == bytes),
        None => None,
    }
}

/// Calls `Pubkey::try_find_program_address` of `solana_address` with the seeds
/// of an associated token account (owner, token program, mint) under the
/// associated-token program. The address it finds depends on the two
/// arguments alone; nothing else is claimed of it.
#[verifier::external_body]
fn try_find_associated_token_address(owner: &Pubkey, mint: &Pubkey) -> (found: Option<Pubkey>)
    ensures
        match found {
            Some(key) => associated_token_address(owner@, mint@) == Some(key@),
            None => associated_token_address(owner@, mint@) is None,
        },
{
    let seeds: [&[u8]; 3] = [&owner.bytes, anchor_spl::token::ID.as_ref(), &mint.bytes];
    match anchor_lang::prelude::Pubkey::try_find_program_address(&seeds, &anchor_spl::associated_token::ID) {
        Some((address, _)) => Some(Pubkey { bytes: address.to_bytes() }),
        None => None,
    }
}

/// Finds the address of the token account that belongs to `owner` for `mint`.
pub fn find_associated_token_account(owner: &Pubkey, mint: &Pubkey) -> (found: Option<Pubkey>)
    ensures
        found == associated_token_account(*owner, *mint),
{
    let found = try_find_associated_token_address(owner, mint);
    proof {
        if let Some(key) = found {
            let bytes = key@;
            assert(exists|k: Pubkey| k@ == bytes) by {
                assert(key@ == bytes);
            }
            let chosen = choose|k: Pubkey| k@ == bytes;
            crate::pubkey::pubkey_extensionality(chosen, key);
        }
    }
    found
}

/// What to do with the account at `ata_key` that should be the associated
/// token account whose address is `expected`: `Ok(true)` says that it has to
/// be created, `Ok(false)` that it is there already.
pub open spec fn ata_check(ata_key: Pubkey, expected: Option<Pubkey>, data_is_empty: bool) -> Result<
    bool,
    TransferErrors,
> {
    if expected == Some(ata_key) {
        Ok(data_is_empty)
    } else {
        Err(TransferErrors::InvalidAtaAddressMismatch)
    }
}

/// Holds the account at `ata_key` against the address `expected` of the
/// associated token account that it should be. `Ok(true)` says that the
/// account has to be created, `Ok(false)` that it is there already.
pub fn check_ata(ata_key: &Pubkey, expected: &Option<Pubkey>, data_is_empty: bool) -> (r: Result<
    bool,
    TransferErrors,
>)
    ensures
        r == ata_check(*ata_key, *expected, data_is_empty),
{
    match expected {
        Some(key) => {
            if key.same(ata_key) {
                Ok(data_is_empty)
            } else {
                Err(TransferErrors::InvalidAtaAddressMismatch)
            }
        },
        None => Err(TransferErrors::InvalidAtaAddressMismatch),
    }
}

/// Makes sure that the account at `ata_key` is the associated token account
/// of `owner` for `mint`. `Ok(true)` says that it has to be created,
/// `Ok(false)` that it is there already.
pub fn create_ata(ata_key: &Pubkey, data_is_empty: bool, owner: &Pubkey, mint: &Pubkey) -> (r: Result<
    bool,
    TransferErrors,
>)
    ensures
        r == ata_check(*ata_key, associated_token_account(*owner, *mint), data_is_empty),
{
    let expected = find_associated_token_account(owner, mint);
    check_ata(ata_key, &expected, data_is_empty)
}

} // verus!
